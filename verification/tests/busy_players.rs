use who_dis::busy::BusyPlayers;
use who_dis::message::Player;
use who_dis::session::finish_game_clean_busy_players;

#[test]
fn a_new_set_holds_nobody() {
    let busy = BusyPlayers::new();
    assert!(!busy.contains("+15550001"));
    assert!(!busy.contains(""));
}

#[test]
fn first_reservation_is_granted_and_second_is_not() {
    let mut busy = BusyPlayers::new();
    assert!(busy.try_reserve("+15550001"));
    assert!(busy.contains("+15550001"));
    assert!(!busy.try_reserve("+15550001"));
    assert!(busy.contains("+15550001"));
}

#[test]
fn reservation_is_granted_again_after_release() {
    let mut busy = BusyPlayers::new();
    assert!(busy.try_reserve("P1"));
    assert!(!busy.try_reserve("P1"));
    busy.release("P1");
    assert!(!busy.contains("P1"));
    assert!(busy.try_reserve("P1"));
    assert!(!busy.try_reserve("P1"));
}

#[test]
fn reservations_of_different_players_do_not_interfere() {
    let mut busy = BusyPlayers::new();
    assert!(busy.try_reserve("P1"));
    assert!(busy.try_reserve("P2"));
    busy.release("P1");
    assert!(!busy.contains("P1"));
    assert!(busy.contains("P2"));
    assert!(!busy.try_reserve("P2"));
}

#[test]
fn player_identifiers_are_compared_exactly() {
    let mut busy = BusyPlayers::new();
    assert!(busy.try_reserve("abc"));
    assert!(!busy.contains("ABC"));
    assert!(!busy.contains("abc "));
    assert!(busy.try_reserve("ABC"));
}

#[test]
fn releasing_twice_is_harmless() {
    let mut busy = BusyPlayers::new();
    assert!(busy.try_reserve("P1"));
    assert!(busy.try_reserve("P2"));
    busy.release("P1");
    busy.release("P1");
    assert!(!busy.contains("P1"));
    assert!(busy.contains("P2"));
}

#[test]
fn releasing_a_player_who_is_not_busy_changes_nothing() {
    let mut busy = BusyPlayers::new();
    busy.release("nobody");
    assert!(!busy.contains("nobody"));
    assert!(busy.try_reserve("P1"));
    busy.release("nobody");
    assert!(busy.contains("P1"));
}

#[test]
fn interleaved_callers_never_both_hold_one_player() {
    // Two callers take turns on one set; at any time at most one of them
    // holds the reservation.
    let mut busy = BusyPlayers::new();
    let mut holder: Option<u8> = None;
    let script: [(u8, bool); 10] = [
        (1, true),
        (2, true),
        (2, true),
        (1, false),
        (2, true),
        (1, true),
        (2, false),
        (1, true),
        (2, false),
        (2, true),
    ];
    for (caller, reserve) in script.iter() {
        if *reserve {
            let granted = busy.try_reserve("shared");
            assert_eq!(granted, holder.is_none());
            if granted {
                holder = Some(*caller);
            }
        } else if holder == Some(*caller) {
            busy.release("shared");
            holder = None;
        }
        assert_eq!(busy.contains("shared"), holder.is_some());
    }
}

#[test]
fn finishing_a_game_releases_both_players() {
    let mut busy = BusyPlayers::new();
    busy.try_reserve("main");
    busy.try_reserve("partner");
    busy.try_reserve("other");
    let main = Player::new("main".to_string());
    let partner = Player::new("partner".to_string());
    finish_game_clean_busy_players(&main, &partner, &mut busy);
    assert!(!busy.contains("main"));
    assert!(!busy.contains("partner"));
    assert!(busy.contains("other"));
}

#[test]
fn finishing_a_game_of_one_player_against_themselves_releases_them() {
    let mut busy = BusyPlayers::new();
    busy.try_reserve("same");
    let main = Player::new("same".to_string());
    let partner = Player::new("same".to_string());
    finish_game_clean_busy_players(&main, &partner, &mut busy);
    assert!(!busy.contains("same"));
}
