use who_dis::inbound::{SeenMessages, TwilioCreds};
use who_dis::message::{TMessagesResponse, TxtMessage};
use who_dis::registry::ListenerRegistry;

fn text(from: &str, body: &str, sid: &str) -> TxtMessage {
    TxtMessage {
        from: from.to_string(),
        body: body.to_string(),
        date_created: String::new(),
        sid: sid.to_string(),
    }
}

fn sids(messages: &Vec<TxtMessage>) -> Vec<String> {
    messages.iter().map(|m| m.sid.clone()).collect()
}

#[test]
fn the_listing_url_names_the_account_and_the_number() {
    let creds = TwilioCreds {
        sid: "AC123".to_string(),
        auth: "auth-token".to_string(),
        from: "+15550100".to_string(),
    };
    assert_eq!(
        creds.messages_url(),
        "https://api.twilio.com/2010-04-01/Accounts/AC123/Messages.json?To=+15550100"
    );
}

#[test]
fn the_listing_url_of_empty_credentials() {
    let creds = TwilioCreds { sid: String::new(), auth: String::new(), from: String::new() };
    assert_eq!(
        creds.messages_url(),
        "https://api.twilio.com/2010-04-01/Accounts//Messages.json?To="
    );
}

#[test]
fn credentials_can_be_copied() {
    let creds = TwilioCreds {
        sid: "AC123".to_string(),
        auth: "auth-token".to_string(),
        from: "+15550100".to_string(),
    };
    let copy = creds.clone();
    assert_eq!(copy.sid, "AC123");
    assert_eq!(copy.auth, "auth-token");
    assert_eq!(copy.from, "+15550100");
}

#[test]
fn everything_is_new_at_first() {
    let mut seen = SeenMessages::new();
    let listing = vec![text("P1", "a", "SM1"), text("P2", "b", "SM2")];
    let fresh = seen.take_fresh(&listing);
    assert_eq!(sids(&fresh), vec!["SM1", "SM2"]);
    assert_eq!(fresh[0].from, "P1");
    assert_eq!(fresh[0].body, "a");
    assert_eq!(fresh[1].from, "P2");
    assert_eq!(fresh[1].body, "b");
    assert!(seen.contains("SM1"));
    assert!(seen.contains("SM2"));
    assert!(!seen.contains("SM3"));
}

#[test]
fn a_listing_looked_at_twice_holds_nothing_new() {
    let mut seen = SeenMessages::new();
    let listing = vec![text("P1", "a", "SM1"), text("P2", "b", "SM2")];
    assert_eq!(seen.take_fresh(&listing).len(), 2);
    assert!(seen.take_fresh(&listing).is_empty());
}

#[test]
fn only_unseen_messages_come_out_and_in_listing_order() {
    let mut seen = SeenMessages::new();
    seen.mark_seen(&vec![text("P1", "old", "SM2"), text("P1", "old", "SM4")]);
    let listing = vec![
        text("P1", "5", "SM5"),
        text("P1", "4", "SM4"),
        text("P1", "3", "SM3"),
        text("P1", "2", "SM2"),
        text("P1", "1", "SM1"),
    ];
    let fresh = seen.take_fresh(&listing);
    assert_eq!(sids(&fresh), vec!["SM5", "SM3", "SM1"]);
}

#[test]
fn a_message_listed_twice_in_one_listing_comes_out_once() {
    let mut seen = SeenMessages::new();
    let listing =
        vec![text("P1", "first", "SM1"), text("P1", "second", "SM1"), text("P1", "x", "SM2")];
    let fresh = seen.take_fresh(&listing);
    assert_eq!(sids(&fresh), vec!["SM1", "SM2"]);
    assert_eq!(fresh[0].body, "first");
}

#[test]
fn marking_as_seen_delivers_nothing() {
    let mut seen = SeenMessages::new();
    seen.mark_seen(&vec![text("P1", "a", "SM1")]);
    assert!(seen.contains("SM1"));
    assert!(seen.take_fresh(&vec![text("P1", "a", "SM1")]).is_empty());
}

#[test]
fn an_empty_listing_changes_nothing() {
    let mut seen = SeenMessages::new();
    assert!(seen.take_fresh(&Vec::new()).is_empty());
    assert!(!seen.contains(""));
}

#[test]
fn a_polling_round_publishes_the_new_messages_in_order() {
    let mut seen = SeenMessages::new();
    let mut registry = ListenerRegistry::new();
    let a = registry.register().unwrap();
    let b = registry.register().unwrap();
    seen.mark_seen(&vec![text("P0", "old", "SM0")]);
    let listing = vec![text("P0", "old", "SM0"), text("P1", "who dis", "SM1"), text("S1", "stranger join", "SM2")];
    let sent = seen.broadcast_fresh(&listing, &mut registry);
    assert_eq!(sids(&sent), vec!["SM1", "SM2"]);
    for handle in [a, b] {
        assert_eq!(registry.pending(handle), Some(2));
        assert_eq!(registry.receive(handle).unwrap().body, "who dis");
        assert_eq!(registry.receive(handle).unwrap().body, "stranger join");
    }
    let again = seen.broadcast_fresh(&listing, &mut registry);
    assert!(again.is_empty());
    assert_eq!(registry.pending(a), Some(0));
    assert_eq!(registry.issued(), 2);
}

#[test]
fn a_response_carries_its_messages() {
    let response = TMessagesResponse { messages: vec![text("P1", "a", "SM1")] };
    assert_eq!(response.messages.len(), 1);
    assert_eq!(response.messages[0].sid, "SM1");
    let copy = response.messages[0].clone();
    assert_eq!(copy.from, "P1");
    assert_eq!(copy.body, "a");
    assert_eq!(copy.date_created, "");
    assert_eq!(copy.sid, "SM1");
}
