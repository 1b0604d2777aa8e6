use game_lobby::{AccountId, Error, GameLobby, LobbyState};

fn alice() -> AccountId {
    AccountId::new([0x01; 32])
}

fn bob() -> AccountId {
    AccountId::new([0x02; 32])
}

fn charlie() -> AccountId {
    AccountId::new([0x03; 32])
}

fn django() -> AccountId {
    AccountId::new([0x04; 32])
}

#[test]
fn test_new() {
    let lobby = GameLobby::new(alice(), 1, 4);

    assert_eq!(lobby.owner(), alice());
    assert_eq!(lobby.family_id(), 1);
    assert_eq!(lobby.max_players(), 4);
    assert_eq!(lobby.get_players().len(), 0);
    assert_eq!(lobby.get_state(), LobbyState::Registering);
}

#[test]
fn test_join() {
    let mut lobby = GameLobby::new(alice(), 1, 2);

    let result = lobby.join(alice());
    assert_eq!(result.is_ok(), true);
    assert_eq!(lobby.get_players().len(), 1);
    assert_eq!(lobby.get_state(), LobbyState::Registering);

    let result = lobby.join(bob());
    assert_eq!(result.is_ok(), true);
    assert_eq!(lobby.get_players().len(), 2);
    assert_eq!(lobby.get_state(), LobbyState::InPlay);
}

#[test]
fn test_leave() {
    let mut lobby = GameLobby::new(alice(), 1, 3);
    let _ = lobby.join(alice());
    let _ = lobby.join(bob());

    assert_eq!(lobby.get_players().len(), 2);

    let result = lobby.leave(bob());
    assert_eq!(result.is_ok(), true);
    assert_eq!(lobby.get_players().len(), 1);
}

#[test]
fn test_get_players() {
    let mut lobby = GameLobby::new(alice(), 1, 4);

    assert_eq!(lobby.join(alice()), Ok(()));
    assert_eq!(lobby.join(bob()), Ok(()));
    assert_eq!(lobby.join(charlie()), Ok(()));

    let players = lobby.get_players();
    assert_eq!(players.len(), 3);
    assert_eq!(players[0], alice());
    assert_eq!(players[1], bob());
    assert_eq!(players[2], charlie());

    assert_eq!(lobby.leave(bob()), Ok(()));

    let players = lobby.get_players();
    assert_eq!(players.len(), 2);
    assert!(!players.contains(&bob()));
    assert!(players.contains(&alice()));
    assert!(players.contains(&charlie()));
}

#[test]
fn test_join_fails_when_lobby_is_full() {
    let mut lobby = GameLobby::new(alice(), 99, 2);

    assert_eq!(lobby.join(alice()), Ok(()));
    assert_eq!(lobby.join(bob()), Ok(()));

    let result = lobby.join(charlie());
    assert_eq!(result, Err(Error::LobbyFull));

    let players = lobby.get_players();
    assert_eq!(players.len(), 2);
    assert!(players.contains(&alice()));
    assert!(players.contains(&bob()));
}

#[test]
fn test_join_fails_if_already_joined() {
    let mut lobby = GameLobby::new(alice(), 1, 3);

    assert_eq!(lobby.join(alice()), Ok(()));

    let result = lobby.join(alice());
    assert_eq!(result, Err(Error::PlayerAlreadyJoined));

    let players = lobby.get_players();
    assert_eq!(players.len(), 1);
    assert_eq!(players[0], alice());
}

#[test]
fn leave_moves_last_player_into_the_freed_seat() {
    let mut lobby = GameLobby::new(alice(), 1, 4);
    assert_eq!(lobby.join(alice()), Ok(()));
    assert_eq!(lobby.join(bob()), Ok(()));
    assert_eq!(lobby.join(charlie()), Ok(()));

    assert_eq!(lobby.leave(alice()), Ok(()));
    assert_eq!(lobby.get_players(), vec![charlie(), bob()]);
    assert_eq!(lobby.get_state(), LobbyState::Registering);
}

#[test]
fn leave_after_join_keeps_the_other_player() {
    let mut lobby = GameLobby::new(alice(), 1, 3);
    assert_eq!(lobby.join(alice()), Ok(()));
    assert_eq!(lobby.join(bob()), Ok(()));

    assert_eq!(lobby.leave(alice()), Ok(()));
    assert_eq!(lobby.get_players(), vec![bob()]);
    assert_eq!(lobby.get_state(), LobbyState::Registering);
}

#[test]
fn leave_in_play_is_refused_and_keeps_roster() {
    let mut lobby = GameLobby::new(alice(), 1, 2);
    assert_eq!(lobby.join(alice()), Ok(()));
    assert_eq!(lobby.join(bob()), Ok(()));
    assert_eq!(lobby.get_state(), LobbyState::InPlay);

    assert_eq!(lobby.leave(alice()), Err(Error::LobbyNotOpen));
    assert_eq!(lobby.get_players(), vec![alice(), bob()]);
    assert_eq!(lobby.get_state(), LobbyState::InPlay);
}

#[test]
fn leave_by_stranger_is_refused() {
    let mut lobby = GameLobby::new(alice(), 1, 3);
    assert_eq!(lobby.join(alice()), Ok(()));

    assert_eq!(lobby.leave(bob()), Err(Error::PlayerNotFound));
    assert_eq!(lobby.get_players(), vec![alice()]);
    assert_eq!(lobby.get_state(), LobbyState::Registering);
}

#[test]
fn zero_capacity_refuses_first_join() {
    let mut lobby = GameLobby::new(alice(), 5, 0);
    assert_eq!(lobby.get_state(), LobbyState::Registering);

    assert_eq!(lobby.join(alice()), Err(Error::LobbyFull));
    assert_eq!(lobby.get_players().len(), 0);
    assert_eq!(lobby.get_state(), LobbyState::Registering);
}

#[test]
fn state_turns_in_play_only_on_the_filling_join() {
    let mut lobby = GameLobby::new(alice(), 1, 3);
    assert_eq!(lobby.join(alice()), Ok(()));
    assert_eq!(lobby.get_state(), LobbyState::Registering);
    assert_eq!(lobby.join(bob()), Ok(()));
    assert_eq!(lobby.get_state(), LobbyState::Registering);
    assert_eq!(lobby.join(charlie()), Ok(()));
    assert_eq!(lobby.get_state(), LobbyState::InPlay);
}

#[test]
fn capacity_holds_over_many_joins() {
    let mut lobby = GameLobby::new(alice(), 1, 3);
    for b in 1u8..=10 {
        let _ = lobby.join(AccountId::new([b; 32]));
        assert!(lobby.get_players().len() <= 3);
    }
    assert_eq!(lobby.get_players().len(), 3);
}

#[test]
fn no_duplicates_after_join_leave_rejoin() {
    let mut lobby = GameLobby::new(alice(), 1, 4);
    assert_eq!(lobby.join(alice()), Ok(()));
    assert_eq!(lobby.join(bob()), Ok(()));
    assert_eq!(lobby.join(alice()), Err(Error::PlayerAlreadyJoined));
    assert_eq!(lobby.leave(alice()), Ok(()));
    assert_eq!(lobby.join(alice()), Ok(()));
    assert_eq!(lobby.get_players(), vec![bob(), alice()]);
}

#[test]
fn failed_join_changes_nothing() {
    let mut lobby = GameLobby::new(alice(), 1, 2);
    assert_eq!(lobby.join(alice()), Ok(()));
    assert_eq!(lobby.join(bob()), Ok(()));
    let before = lobby.get_players();

    assert_eq!(lobby.join(charlie()), Err(Error::LobbyFull));
    assert_eq!(lobby.join(bob()), Err(Error::PlayerAlreadyJoined));
    assert_eq!(lobby.leave(django()), Err(Error::LobbyNotOpen));
    assert_eq!(lobby.get_players(), before);
    assert_eq!(lobby.get_state(), LobbyState::InPlay);
}

#[test]
fn duplicate_join_wins_over_full_lobby() {
    let mut lobby = GameLobby::new(alice(), 1, 1);
    assert_eq!(lobby.join(alice()), Ok(()));
    assert_eq!(lobby.get_state(), LobbyState::InPlay);
    assert_eq!(lobby.join(alice()), Err(Error::PlayerAlreadyJoined));
    assert_eq!(lobby.join(bob()), Err(Error::LobbyFull));
}

#[test]
fn account_equality_is_bytewise() {
    let mut bytes = [0x07; 32];
    let a = AccountId::new(bytes);
    bytes[31] = 0x08;
    let b = AccountId::new(bytes);
    assert_ne!(a, b);
    assert_eq!(a, AccountId::new([0x07; 32]));
    assert_eq!(b.as_bytes()[31], 0x08);
}

#[test]
fn from_parts_restores_a_stored_lobby() {
    let lobby = GameLobby::from_parts(alice(), 3, 2, vec![bob(), alice()], LobbyState::InPlay)
        .unwrap();
    assert_eq!(lobby.owner(), alice());
    assert_eq!(lobby.family_id(), 3);
    assert_eq!(lobby.max_players(), 2);
    assert_eq!(lobby.get_players(), vec![bob(), alice()]);
    assert_eq!(lobby.get_state(), LobbyState::InPlay);
}

#[test]
fn from_parts_refuses_broken_states() {
    assert!(GameLobby::from_parts(alice(), 1, 2, vec![alice(), alice()], LobbyState::InPlay)
        .is_none());
    assert!(GameLobby::from_parts(alice(), 1, 1, vec![alice(), bob()], LobbyState::InPlay)
        .is_none());
    assert!(GameLobby::from_parts(alice(), 1, 3, vec![alice()], LobbyState::InPlay).is_none());
    assert!(GameLobby::from_parts(alice(), 1, 1, vec![alice()], LobbyState::Registering)
        .is_none());
    assert!(GameLobby::from_parts(alice(), 1, 0, vec![], LobbyState::Registering).is_some());
    assert!(GameLobby::from_parts(alice(), 1, 3, vec![bob()], LobbyState::Finished).is_some());
}
