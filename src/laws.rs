//! Properties of the lobby that hold across calls, proved over the model.
use vstd::prelude::*;

use crate::account::AccountId;
use crate::lobby::{
    Error, LobbyState, LobbyView, first_seat, lemma_first_seat, lemma_swap_removed_no_duplicates,
};

verus! {

/// One call made on a lobby, by the account it names.
pub enum LobbyCall {
    Join(AccountId),
    Leave(AccountId),
}

/// The lobby after `calls` were made on `start`, in order.
pub open spec fn replay(start: LobbyView, calls: Seq<LobbyCall>) -> LobbyView
    decreases calls.len(),
{
    if calls.len() == 0 {
        start
    } else {
        let before = replay(start, calls.drop_last());
        match calls.last() {
            LobbyCall::Join(who) => before.after_join(who),
            LobbyCall::Leave(who) => before.after_leave(who),
        }
    }
}

/// `join` keeps a lobby well formed.
pub proof fn lemma_join_keeps_wf(s: LobbyView, caller: AccountId)
    requires
        s.wf(),
    ensures
        s.after_join(caller).wf(),
{
    if s.join_result(caller) is Ok {
        let t = s.after_join(caller);
        assert(t.players =~= s.players.push(caller));
        assert forall|a: int, b: int|
            0 <= a < t.players.len() && 0 <= b < t.players.len() && a != b implies t.players[a]
            != t.players[b] by {
            if a == s.players.len() {
                assert(s.players[b] == t.players[b]);
            } else if b == s.players.len() {
                assert(s.players[a] == t.players[a]);
            }
        }
    }
}

/// `leave` keeps a lobby well formed.
pub proof fn lemma_leave_keeps_wf(s: LobbyView, caller: AccountId)
    requires
        s.wf(),
    ensures
        s.after_leave(caller).wf(),
{
    if s.leave_result(caller) is Ok {
        lemma_first_seat(s.players, caller);
        lemma_swap_removed_no_duplicates(s.players, first_seat(s.players, caller));
    }
}

/// Every lobby reached from a fresh one by any sequence of calls is well
/// formed.
pub proof fn lemma_replay_wf(start: LobbyView, calls: Seq<LobbyCall>)
    requires
        start.wf(),
    ensures
        replay(start, calls).wf(),
    decreases calls.len(),
{
    if calls.len() > 0 {
        lemma_replay_wf(start, calls.drop_last());
        let before = replay(start, calls.drop_last());
        match calls.last() {
            LobbyCall::Join(who) => lemma_join_keeps_wf(before, who),
            LobbyCall::Leave(who) => lemma_leave_keeps_wf(before, who),
        }
    }
}

/// No sequence of calls changes a lobby's owner, family tag or capacity.
pub proof fn lemma_replay_keeps_settings(start: LobbyView, calls: Seq<LobbyCall>)
    ensures
        replay(start, calls).owner == start.owner,
        replay(start, calls).family_id == start.family_id,
        replay(start, calls).max_players == start.max_players,
    decreases calls.len(),
{
    if calls.len() > 0 {
        lemma_replay_keeps_settings(start, calls.drop_last());
    }
}

/// Whatever calls are made on a freshly created lobby, its roster never holds
/// more players than its capacity.
pub proof fn lemma_capacity_never_exceeded(
    owner: AccountId,
    family_id: u32,
    max_players: u8,
    calls: Seq<LobbyCall>,
)
    ensures
        replay(LobbyView::created(owner, family_id, max_players), calls).players.len()
            <= max_players,
{
    lemma_replay_wf(LobbyView::created(owner, family_id, max_players), calls);
    lemma_replay_keeps_settings(LobbyView::created(owner, family_id, max_players), calls);
}

/// Whatever calls are made on a freshly created lobby, no account appears
/// twice on its roster.
pub proof fn lemma_no_duplicate_players(
    owner: AccountId,
    family_id: u32,
    max_players: u8,
    calls: Seq<LobbyCall>,
)
    ensures
        replay(LobbyView::created(owner, family_id, max_players), calls).players.no_duplicates(),
{
    lemma_replay_wf(LobbyView::created(owner, family_id, max_players), calls);
}

/// A successful `join` turns the lobby `InPlay` exactly when it fills the
/// roster; before that call the lobby was `Registering` and not full.
pub proof fn lemma_auto_transition(s: LobbyView, caller: AccountId)
    requires
        s.wf(),
        s.join_result(caller) is Ok,
    ensures
        s.state == LobbyState::Registering,
        s.players.len() < s.max_players,
        s.after_join(caller).state == LobbyState::InPlay <==> s.after_join(caller).players.len()
            == s.max_players,
{
}

/// While the lobby is `InPlay`, every `leave` is refused with `LobbyNotOpen`
/// and changes nothing.
pub proof fn lemma_leave_refused_in_play(s: LobbyView, caller: AccountId)
    requires
        s.state == LobbyState::InPlay,
    ensures
        s.leave_result(caller) == Err::<(), Error>(Error::LobbyNotOpen),
        s.after_leave(caller) == s,
{
}

/// A refused `join` or `leave` leaves the roster, its order and the phase as
/// they were.
pub proof fn lemma_failure_changes_nothing(s: LobbyView, caller: AccountId)
    ensures
        s.join_result(caller) is Err ==> s.after_join(caller) == s,
        s.leave_result(caller) is Err ==> s.after_leave(caller) == s,
{
}

/// Once an account is on the roster, whether it just joined or was there
/// before, its next `join` is refused with `PlayerAlreadyJoined`, whatever
/// the fullness or phase of the lobby, and changes nothing.
pub proof fn lemma_second_join_refused(s: LobbyView, caller: AccountId)
    requires
        s.join_result(caller) is Ok || s.players.contains(caller),
    ensures
        s.after_join(caller).join_result(caller) == Err::<(), Error>(Error::PlayerAlreadyJoined),
        s.after_join(caller).after_join(caller) == s.after_join(caller),
{
    if s.join_result(caller) is Ok {
        let t = s.after_join(caller);
        assert(t.players[s.players.len() as int] == caller);
    }
}

} // verus!
