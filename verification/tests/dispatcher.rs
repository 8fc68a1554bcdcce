use who_dis::busy::BusyPlayers;
use who_dis::chance::vocabulary;
use who_dis::dispatcher::{admit_stranger, hear_stranger, Dispatcher, DispatcherState, StrangerQueue};
use who_dis::message::{Notice, Player, TxtMessage};
use who_dis::registry::ListenerRegistry;
use who_dis::session::SessionState;
use who_dis::text::{join_text, text_eq};

fn sent(notices: &Vec<Notice>) -> Vec<(String, String)> {
    notices.iter().map(|n| (n.to.clone(), n.body.clone())).collect()
}

fn to(who: &str, body: &str) -> (String, String) {
    (who.to_string(), body.to_string())
}

fn text(from: &str, body: &str) -> TxtMessage {
    TxtMessage {
        from: from.to_string(),
        body: body.to_string(),
        date_created: String::new(),
        sid: String::new(),
    }
}

#[test]
fn texts_are_compared_character_by_character() {
    assert!(text_eq("who dis", "who dis"));
    assert!(text_eq("", ""));
    assert!(!text_eq("who dis", "Who dis"));
    assert!(!text_eq("who dis", "who dis "));
    assert!(!text_eq("who dis", ""));
}

#[test]
fn texts_are_joined_in_order() {
    assert_eq!(join_text("join ", "spare"), "join spare");
    assert_eq!(join_text("", "spare"), "spare");
    assert_eq!(join_text("join ", ""), "join ");
}

#[test]
fn the_stranger_queue_is_first_in_first_out() {
    let mut queue = StrangerQueue::new();
    assert!(queue.is_empty());
    assert_eq!(queue.len(), 0);
    assert!(queue.pop().is_none());
    queue.push(Player::new("S1".to_string()));
    queue.push(Player::new("S2".to_string()));
    queue.push(Player::new("S3".to_string()));
    assert_eq!(queue.len(), 3);
    assert!(!queue.is_empty());
    assert_eq!(queue.pop().unwrap().player_id(), "S1");
    assert_eq!(queue.pop().unwrap().player_id(), "S2");
    queue.push(Player::new("S4".to_string()));
    assert_eq!(queue.pop().unwrap().player_id(), "S3");
    assert_eq!(queue.pop().unwrap().player_id(), "S4");
    assert!(queue.pop().is_none());
    assert!(queue.is_empty());
}

#[test]
fn a_free_sender_of_the_stranger_phrase_is_queued() {
    let busy = BusyPlayers::new();
    let mut queue = StrangerQueue::new();
    assert!(admit_stranger("S1", "stranger join", &busy, &mut queue));
    assert_eq!(queue.len(), 1);
    assert!(!busy.contains("S1"));
    assert_eq!(queue.pop().unwrap().player_id(), "S1");
}

#[test]
fn other_texts_and_busy_senders_are_not_queued() {
    let mut busy = BusyPlayers::new();
    let mut queue = StrangerQueue::new();
    assert!(!admit_stranger("S1", "stranger", &busy, &mut queue));
    assert!(!admit_stranger("S1", "who dis", &busy, &mut queue));
    assert!(!admit_stranger("S1", "Stranger Join", &busy, &mut queue));
    busy.try_reserve("S1");
    assert!(!admit_stranger("S1", "stranger join", &busy, &mut queue));
    assert!(queue.is_empty());
}

#[test]
fn the_stranger_phrase_is_case_insensitive_in_a_message() {
    let busy = BusyPlayers::new();
    let mut queue = StrangerQueue::new();
    assert!(hear_stranger(&text("S1", "Stranger JOIN"), &busy, &mut queue));
    assert!(!hear_stranger(&text("S2", "strangerjoin"), &busy, &mut queue));
    assert_eq!(queue.len(), 1);
    assert_eq!(queue.pop().unwrap().player_id(), "S1");
}

#[test]
fn a_stranger_may_queue_more_than_once() {
    let busy = BusyPlayers::new();
    let mut queue = StrangerQueue::new();
    assert!(hear_stranger(&text("S1", "stranger join"), &busy, &mut queue));
    assert!(hear_stranger(&text("S1", "stranger join"), &busy, &mut queue));
    assert_eq!(queue.len(), 2);
}

#[test]
fn a_new_dispatcher_listens_and_awaits_a_main_player() {
    let mut registry = ListenerRegistry::new();
    registry.register();
    let dispatcher = Dispatcher::new(&mut registry).unwrap();
    assert_eq!(dispatcher.state(), DispatcherState::AwaitingMainPlayer);
    assert_eq!(dispatcher.inbox(), 1);
    assert!(dispatcher.main_player().is_none());
    assert!(dispatcher.stranger().is_none());
    assert!(registry.is_registered(1));
    assert_eq!(registry.listener_count(), 2);
}

#[test]
fn who_dis_from_a_free_sender_is_admitted() {
    let mut registry = ListenerRegistry::new();
    let mut busy = BusyPlayers::new();
    let mut dispatcher = Dispatcher::new(&mut registry).unwrap();
    let notices = dispatcher.admit_main_player("P1", "who dis", &mut busy);
    assert_eq!(sent(&notices), vec![to("P1", "Waiting for stranger to join")]);
    assert_eq!(dispatcher.state(), DispatcherState::AwaitingStranger);
    assert_eq!(dispatcher.main_player().unwrap().player_id(), "P1");
    assert!(dispatcher.stranger().is_none());
    assert!(busy.contains("P1"));
}

#[test]
fn who_dis_is_case_insensitive_in_a_message() {
    let mut registry = ListenerRegistry::new();
    let mut busy = BusyPlayers::new();
    let mut dispatcher = Dispatcher::new(&mut registry).unwrap();
    let notices = dispatcher.on_message(&text("P1", "WHO Dis"), &mut busy);
    assert_eq!(sent(&notices), vec![to("P1", "Waiting for stranger to join")]);
    assert_eq!(dispatcher.state(), DispatcherState::AwaitingStranger);
    assert!(busy.contains("P1"));
}

#[test]
fn other_texts_are_ignored_by_the_dispatcher() {
    let mut registry = ListenerRegistry::new();
    let mut busy = BusyPlayers::new();
    let mut dispatcher = Dispatcher::new(&mut registry).unwrap();
    for body in ["who", "who dis?", " who dis", "stranger join", "join spare", ""] {
        assert!(dispatcher.on_message(&text("P1", body), &mut busy).is_empty());
    }
    assert_eq!(dispatcher.state(), DispatcherState::AwaitingMainPlayer);
    assert!(!busy.contains("P1"));
}

#[test]
fn a_busy_sender_is_not_admitted() {
    let mut registry = ListenerRegistry::new();
    let mut busy = BusyPlayers::new();
    busy.try_reserve("P1");
    let mut dispatcher = Dispatcher::new(&mut registry).unwrap();
    assert!(dispatcher.on_message(&text("P1", "who dis"), &mut busy).is_empty());
    assert_eq!(dispatcher.state(), DispatcherState::AwaitingMainPlayer);
    assert!(dispatcher.main_player().is_none());
    assert!(busy.contains("P1"));
}

#[test]
fn only_one_main_player_is_served_at_a_time() {
    let mut registry = ListenerRegistry::new();
    let mut busy = BusyPlayers::new();
    let mut dispatcher = Dispatcher::new(&mut registry).unwrap();
    dispatcher.on_message(&text("P1", "who dis"), &mut busy);
    assert!(dispatcher.on_message(&text("P2", "who dis"), &mut busy).is_empty());
    assert_eq!(dispatcher.main_player().unwrap().player_id(), "P1");
    assert!(!busy.contains("P2"));
}

#[test]
fn pairing_waits_while_the_queue_is_empty() {
    let mut registry = ListenerRegistry::new();
    let mut busy = BusyPlayers::new();
    let mut queue = StrangerQueue::new();
    let mut dispatcher = Dispatcher::new(&mut registry).unwrap();
    dispatcher.on_message(&text("P1", "who dis"), &mut busy);
    assert!(dispatcher.pair(&mut queue, &mut busy).is_empty());
    assert_eq!(dispatcher.state(), DispatcherState::AwaitingStranger);
}

#[test]
fn pairing_takes_the_stranger_who_waited_longest() {
    let mut registry = ListenerRegistry::new();
    let mut busy = BusyPlayers::new();
    let mut queue = StrangerQueue::new();
    let mut dispatcher = Dispatcher::new(&mut registry).unwrap();
    queue.push(Player::new("S1".to_string()));
    queue.push(Player::new("S2".to_string()));
    dispatcher.on_message(&text("P1", "who dis"), &mut busy);
    let notices = dispatcher.pair(&mut queue, &mut busy);
    assert_eq!(sent(&notices), vec![to("P1", "Found a stranger! now time to invite your friend")]);
    assert_eq!(dispatcher.state(), DispatcherState::Spawning);
    assert_eq!(dispatcher.stranger().unwrap().player_id(), "S1");
    assert!(busy.contains("S1"));
    assert!(!busy.contains("S2"));
    assert_eq!(queue.len(), 1);
}

#[test]
fn pairing_without_a_main_player_leaves_the_queue_alone() {
    let mut registry = ListenerRegistry::new();
    let mut busy = BusyPlayers::new();
    let mut queue = StrangerQueue::new();
    let mut dispatcher = Dispatcher::new(&mut registry).unwrap();
    queue.push(Player::new("S1".to_string()));
    assert!(dispatcher.pair(&mut queue, &mut busy).is_empty());
    assert_eq!(dispatcher.state(), DispatcherState::AwaitingMainPlayer);
    assert_eq!(queue.len(), 1);
    assert!(!busy.contains("S1"));
}

#[test]
fn spawning_opens_a_session_and_frees_the_dispatcher() {
    let mut registry = ListenerRegistry::new();
    let mut busy = BusyPlayers::new();
    let mut queue = StrangerQueue::new();
    let mut dispatcher = Dispatcher::new(&mut registry).unwrap();
    queue.push(Player::new("S1".to_string()));
    dispatcher.on_message(&text("P1", "who dis"), &mut busy);
    dispatcher.pair(&mut queue, &mut busy);
    let (session, notices) = dispatcher.spawn_as("tall".to_string(), &mut registry).unwrap();
    assert_eq!(
        sent(&notices),
        vec![
            to("P1", "This is your game code: tall"),
            to("P1", "Have a friend join by texting: join tall"),
        ]
    );
    assert_eq!(session.state(), SessionState::WaitingForFriend);
    assert_eq!(session.game_id(), "tall");
    assert_eq!(session.main_player().player_id(), "P1");
    assert_eq!(session.stranger().player_id(), "S1");
    assert_eq!(session.inbox(), 1);
    assert!(registry.is_registered(1));
    assert_eq!(dispatcher.state(), DispatcherState::AwaitingMainPlayer);
    assert!(dispatcher.main_player().is_none());
    assert!(dispatcher.stranger().is_none());
    assert!(busy.contains("P1"));
    assert!(busy.contains("S1"));
}

#[test]
fn spawning_draws_the_game_id_from_the_vocabulary() {
    let mut registry = ListenerRegistry::new();
    let mut busy = BusyPlayers::new();
    let mut queue = StrangerQueue::new();
    let mut dispatcher = Dispatcher::new(&mut registry).unwrap();
    queue.push(Player::new("S1".to_string()));
    dispatcher.on_message(&text("P1", "who dis"), &mut busy);
    dispatcher.pair(&mut queue, &mut busy);
    let (session, notices) = dispatcher.spawn(&mut registry).unwrap();
    let id = session.game_id().to_string();
    assert!(vocabulary().contains(&id.as_str()));
    assert_eq!(notices[0].body, format!("This is your game code: {}", id));
    assert_eq!(notices[1].body, format!("Have a friend join by texting: join {}", id));
}

#[test]
fn nothing_is_spawned_without_a_pair() {
    let mut registry = ListenerRegistry::new();
    let mut busy = BusyPlayers::new();
    let mut dispatcher = Dispatcher::new(&mut registry).unwrap();
    assert!(dispatcher.spawn_as("tall".to_string(), &mut registry).is_none());
    dispatcher.on_message(&text("P1", "who dis"), &mut busy);
    assert!(dispatcher.spawn(&mut registry).is_none());
    assert_eq!(dispatcher.state(), DispatcherState::AwaitingStranger);
    assert_eq!(registry.listener_count(), 1);
    assert_eq!(registry.issued(), 1);
}

#[test]
fn the_dispatcher_serves_one_game_after_the_other() {
    let mut registry = ListenerRegistry::new();
    let mut busy = BusyPlayers::new();
    let mut queue = StrangerQueue::new();
    let mut dispatcher = Dispatcher::new(&mut registry).unwrap();
    queue.push(Player::new("S1".to_string()));
    queue.push(Player::new("S2".to_string()));
    dispatcher.on_message(&text("P1", "who dis"), &mut busy);
    dispatcher.pair(&mut queue, &mut busy);
    let (first, _) = dispatcher.spawn_as("men".to_string(), &mut registry).unwrap();
    dispatcher.on_message(&text("P2", "who dis"), &mut busy);
    dispatcher.pair(&mut queue, &mut busy);
    let (second, _) = dispatcher.spawn_as("men".to_string(), &mut registry).unwrap();
    assert_eq!(first.main_player().player_id(), "P1");
    assert_eq!(first.stranger().player_id(), "S1");
    assert_eq!(second.main_player().player_id(), "P2");
    assert_eq!(second.stranger().player_id(), "S2");
    assert_ne!(first.inbox(), second.inbox());
    assert_eq!(registry.listener_count(), 3);
}
