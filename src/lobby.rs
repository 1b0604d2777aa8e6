use vstd::prelude::*;

use crate::account::AccountId;

verus! {

/// Lifecycle phase of a lobby. Phases only ever move forward.
#[derive(Clone, Copy, PartialEq, Eq, Debug, Structural)]
pub enum LobbyState {
    Registering,
    InPlay,
    Finished,
}

/// Why a `join` or `leave` was refused.
#[derive(Clone, Copy, PartialEq, Eq, Debug, Structural)]
pub enum Error {
    LobbyFull,
    LobbyNotOpen,
    PlayerAlreadyJoined,
    PlayerNotFound,
    /// Reserved for owner-only operations; no operation of the lobby
    /// returns it.
    NotOwner,
}

/// Mathematical model of a lobby.
pub struct LobbyView {
    pub owner: AccountId,
    pub family_id: u32,
    pub max_players: u8,
    pub players: Seq<AccountId>,
    pub state: LobbyState,
}

/// The roster with the seat `i` removed: the last entry moves into seat `i`.
pub open spec fn swap_removed(players: Seq<AccountId>, i: int) -> Seq<AccountId> {
    players.update(i, players.last()).drop_last()
}

/// The first seat at or after `from` that `who` occupies, or the length of
/// the roster when there is none.
pub open spec fn seat_from(players: Seq<AccountId>, who: AccountId, from: int) -> int
    decreases players.len() - from,
{
    if from < 0 || from >= players.len() {
        players.len() as int
    } else if players[from] == who {
        from
    } else {
        seat_from(players, who, from + 1)
    }
}

/// The first seat that `who` occupies, or the length of the roster.
pub open spec fn first_seat(players: Seq<AccountId>, who: AccountId) -> int {
    seat_from(players, who, 0)
}

/// Swap-removing a seat from a roster without duplicates leaves a roster
/// without duplicates.
pub proof fn lemma_swap_removed_no_duplicates(players: Seq<AccountId>, i: int)
    requires
        players.no_duplicates(),
        0 <= i < players.len(),
    ensures
        swap_removed(players, i).no_duplicates(),
{
    let t = swap_removed(players, i);
    assert forall|a: int, b: int| 0 <= a < t.len() && 0 <= b < t.len() && a != b implies t[a]
        != t[b] by {
        let pa = if a == i { players.len() - 1 } else { a };
        let pb = if b == i { players.len() - 1 } else { b };
        assert(t[a] == players[pa]);
        assert(t[b] == players[pb]);
    }
}

proof fn lemma_seat_from(players: Seq<AccountId>, who: AccountId, from: int)
    requires
        0 <= from <= players.len(),
    ensures
        from <= seat_from(players, who, from) <= players.len(),
        seat_from(players, who, from) < players.len() ==> players[seat_from(players, who, from)]
            == who,
        (exists|k: int| from <= k < players.len() && players[k] == who) ==> seat_from(
            players,
            who,
            from,
        ) < players.len(),
    decreases players.len() - from,
{
    if from < players.len() && players[from] != who {
        lemma_seat_from(players, who, from + 1);
        if exists|k: int| from <= k < players.len() && players[k] == who {
            let k = choose|k: int| from <= k < players.len() && players[k] == who;
            assert(from + 1 <= k);
        }
    }
}

/// A roster member's first seat is a seat of the roster, and it sits there.
pub proof fn lemma_first_seat(players: Seq<AccountId>, who: AccountId)
    requires
        players.contains(who),
    ensures
        0 <= first_seat(players, who) < players.len(),
        players[first_seat(players, who)] == who,
{
    lemma_seat_from(players, who, 0);
}

impl LobbyView {
    /// A freshly created lobby.
    pub open spec fn created(owner: AccountId, family_id: u32, max_players: u8) -> LobbyView {
        LobbyView { owner, family_id, max_players, players: Seq::empty(), state: LobbyState::Registering }
    }

    /// What holds of every lobby that the operations can reach: the roster
    /// fits, holds nobody twice, is full in `InPlay`, and while `Registering`
    /// is full only when the capacity is zero.
    pub open spec fn wf(self) -> bool {
        &&& self.players.len() <= self.max_players
        &&& self.players.no_duplicates()
        &&& self.state == LobbyState::InPlay ==> self.players.len() == self.max_players
        &&& self.state == LobbyState::Registering ==> (self.players.len() < self.max_players
            || self.players.len() == 0)
    }

    /// Outcome of `join` by `caller`; the checks are made in this order.
    pub open spec fn join_result(self, caller: AccountId) -> Result<(), Error> {
        if self.players.contains(caller) {
            Err(Error::PlayerAlreadyJoined)
        } else if self.players.len() >= self.max_players {
            Err(Error::LobbyFull)
        } else if self.state != LobbyState::Registering {
            Err(Error::LobbyNotOpen)
        } else {
            Ok(())
        }
    }

    /// The lobby after `join` by `caller`: appended, and `InPlay` once full.
    pub open spec fn after_join(self, caller: AccountId) -> LobbyView {
        if self.join_result(caller) is Ok {
            let players = self.players.push(caller);
            LobbyView {
                players,
                state: if players.len() == self.max_players {
                    LobbyState::InPlay
                } else {
                    self.state
                },
                ..self
            }
        } else {
            self
        }
    }

    /// Outcome of `leave` by `caller`.
    pub open spec fn leave_result(self, caller: AccountId) -> Result<(), Error> {
        if self.state != LobbyState::Registering {
            Err(Error::LobbyNotOpen)
        } else if !self.players.contains(caller) {
            Err(Error::PlayerNotFound)
        } else {
            Ok(())
        }
    }

    /// The lobby after `leave` by `caller`: its seat is swap-removed.
    pub open spec fn after_leave(self, caller: AccountId) -> LobbyView {
        if self.leave_result(caller) is Ok {
            LobbyView {
                players: swap_removed(self.players, first_seat(self.players, caller)),
                ..self
            }
        } else {
            self
        }
    }
}

/// One lobby: its creator, family tag, capacity, roster and phase.
pub struct GameLobby {
    owner: AccountId,
    family_id: u32,
    max_players: u8,
    players: Vec<AccountId>,
    state: LobbyState,
}

impl View for GameLobby {
    type V = LobbyView;

    closed spec fn view(&self) -> LobbyView {
        LobbyView {
            owner: self.owner,
            family_id: self.family_id,
            max_players: self.max_players,
            players: self.players@,
            state: self.state,
        }
    }
}

/// The first seat of `who` in `players`, if it has one.
fn find_seat(players: &Vec<AccountId>, who: &AccountId) -> (r: Option<usize>)
    ensures
        match r {
            Some(i) => i == first_seat(players@, *who) && i < players.len() && players@[i as int]
                == *who,
            None => !players@.contains(*who),
        },
{
    let mut i: usize = 0;
    while i < players.len()
        invariant
            i <= players.len(),
            forall|k: int| 0 <= k < i ==> players@[k] != *who,
            first_seat(players@, *who) == seat_from(players@, *who, i as int),
        decreases players.len() - i,
    {
        if players[i] == *who {
            return Some(i);
        }
        i = i + 1;
    }
    None
}

/// Whether some account sits twice on `players`.
fn has_duplicates(players: &Vec<AccountId>) -> (r: bool)
    ensures
        r == !players@.no_duplicates(),
{
    let mut i: usize = 0;
    while i < players.len()
        invariant
            i <= players.len(),
            forall|a: int, b: int| 0 <= a < b < i ==> players@[a] != players@[b],
        decreases players.len() - i,
    {
        let mut j: usize = 0;
        while j < i
            invariant
                i < players.len(),
                j <= i,
                forall|a: int| 0 <= a < j ==> players@[a] != players@[i as int],
            decreases i - j,
        {
            if players[j] == players[i] {
                return true;
            }
            j = j + 1;
        }
        i = i + 1;
    }
    false
}

impl GameLobby {
    /// The lobby's state is one that the operations can reach.
    pub open spec fn wf(&self) -> bool {
        self@.wf()
    }

    /// Creates an empty lobby in `Registering`, owned by `owner`, the
    /// account that creates it.
    pub fn new(owner: AccountId, family_id: u32, max_players: u8) -> (r: GameLobby)
        ensures
            r@ == LobbyView::created(owner, family_id, max_players),
            r.wf(),
    {
        GameLobby { owner, family_id, max_players, players: Vec::new(), state: LobbyState::Registering }
    }

    /// Rebuilds a lobby from its five stored fields, as a host that keeps
    /// them between calls does. Gives `None` when they do not form a
    /// well-formed lobby.
    pub fn from_parts(
        owner: AccountId,
        family_id: u32,
        max_players: u8,
        players: Vec<AccountId>,
        state: LobbyState,
    ) -> (r: Option<GameLobby>)
        ensures
            r is Some <==> (LobbyView { owner, family_id, max_players, players: players@, state }).wf(),
            r matches Some(l) ==> l@ == (LobbyView {
                owner,
                family_id,
                max_players,
                players: players@,
                state,
            }),
    {
        let len = players.len();
        let cap = max_players as usize;
        if len > cap || has_duplicates(&players) {
            return None;
        }
        if state == LobbyState::InPlay && len != cap {
            return None;
        }
        if state == LobbyState::Registering && !(len < cap || len == 0) {
            return None;
        }
        Some(GameLobby { owner, family_id, max_players, players, state })
    }

    /// `caller` joins the lobby. Refused, with nothing changed, when
    /// `caller` is already on the roster, else when the roster is full,
    /// else when the lobby is not `Registering`. Otherwise `caller` is
    /// appended, and the lobby turns `InPlay` in the same step if that fills
    /// the roster.
    pub fn join(&mut self, caller: AccountId) -> (r: Result<(), Error>)
        ensures
            r == old(self)@.join_result(caller),
            final(self)@ == old(self)@.after_join(caller),
            r is Err ==> final(self)@ == old(self)@,
            old(self).wf() ==> final(self).wf(),
    {
        if find_seat(&self.players, &caller).is_some() {
            return Err(Error::PlayerAlreadyJoined);
        }
        if self.players.len() >= self.max_players as usize {
            return Err(Error::LobbyFull);
        }
        if self.state != LobbyState::Registering {
            return Err(Error::LobbyNotOpen);
        }
        self.players.push(caller);
        if self.players.len() == self.max_players as usize {
            self.state = LobbyState::InPlay;
        }
        proof {
            assert(self@.players =~= old(self)@.players.push(caller));
            assert(self@ == old(self)@.after_join(caller));
        }
        Ok(())
    }

    /// `caller` leaves the lobby. Refused, with nothing changed, when the
    /// lobby is not `Registering`, else when `caller` is not on the roster.
    /// Otherwise the last entry of the roster moves into `caller`'s seat.
    /// The phase never changes.
    pub fn leave(&mut self, caller: AccountId) -> (r: Result<(), Error>)
        ensures
            r == old(self)@.leave_result(caller),
            final(self)@ == old(self)@.after_leave(caller),
            r is Err ==> final(self)@ == old(self)@,
            final(self)@.state == old(self)@.state,
            old(self).wf() ==> final(self).wf(),
    {
        if self.state != LobbyState::Registering {
            return Err(Error::LobbyNotOpen);
        }
        match find_seat(&self.players, &caller) {
            Some(i) => {
                self.players.swap_remove(i);
                proof {
                    let players = old(self)@.players;
                    assert(self@.players =~= swap_removed(players, i as int));
                    assert(self@ == old(self)@.after_leave(caller));
                    if old(self).wf() {
                        lemma_swap_removed_no_duplicates(players, i as int);
                    }
                }
                Ok(())
            },
            None => Err(Error::PlayerNotFound),
        }
    }

    /// A copy of the roster, in its current order.
    pub fn get_players(&self) -> (r: Vec<AccountId>)
        ensures
            r@ == self@.players,
    {
        let mut out: Vec<AccountId> = Vec::new();
        let mut i: usize = 0;
        while i < self.players.len()
            invariant
                i <= self.players.len(),
                out@ == self.players@.subrange(0, i as int),
            decreases self.players.len() - i,
        {
            out.push(self.players[i]);
            i = i + 1;
            proof {
                assert(out@ =~= self.players@.subrange(0, i as int));
            }
        }
        proof {
            assert(out@ =~= self.players@);
        }
        out
    }

    /// The current phase.
    pub fn get_state(&self) -> (r: LobbyState)
        ensures
            r == self@.state,
    {
        self.state
    }

    /// The account that created the lobby.
    pub fn owner(&self) -> (r: AccountId)
        ensures
            r == self@.owner,
    {
        self.owner
    }

    /// The lobby's family tag.
    pub fn family_id(&self) -> (r: u32)
        ensures
            r == self@.family_id,
    {
        self.family_id
    }

    /// The lobby's capacity.
    pub fn max_players(&self) -> (r: u8)
        ensures
            r == self@.max_players,
    {
        self.max_players
    }
}

} // verus!
