use chatter::events::{cursor, cursor_to_seq, EventBus};
use chatter::json::Json;

#[test]
fn cursors_and_numbers_belong_together() {
    assert_eq!(cursor(0), "cursor-0");
    assert_eq!(cursor(42), "cursor-42");
    assert_eq!(cursor_to_seq("cursor-42"), Some(42));
    assert_eq!(cursor_to_seq(&cursor(u64::MAX)), Some(u64::MAX));
    assert_eq!(cursor_to_seq("cursor-"), None);
    assert_eq!(cursor_to_seq("42"), None);
    assert_eq!(cursor_to_seq("cursor-x"), None);
}

#[test]
fn numbers_events_by_account() {
    let mut bus = EventBus::new(10);
    assert_eq!(bus.latest_cursor("acct-1"), None);
    assert_eq!(bus.latest_or_zero("acct-1"), "cursor-0");
    let first = bus.emit("acct-1", "account.state", Json::Null);
    let second = bus.emit("acct-1", "room.message", Json::Bool(true));
    let other = bus.emit("acct-2", "account.state", Json::Null);
    assert_eq!(first.seq, 1);
    assert_eq!(second.seq, 2);
    assert_eq!(second.cursor, "cursor-2");
    assert_eq!(second.event_type, "room.message");
    assert_eq!(second.account_id, "acct-1");
    assert_eq!(second.data.to_text(), "true");
    assert_eq!(other.seq, 1);
    assert_eq!(bus.latest_cursor("acct-1").as_deref(), Some("cursor-2"));
    assert_eq!(bus.latest_cursor("acct-2").as_deref(), Some("cursor-1"));
}

#[test]
fn replays_what_came_after_a_cursor() {
    let mut bus = EventBus::new(3);
    for n in 1..=5u64 {
        let _ = bus.emit("acct-1", "tick", Json::Unsigned(n));
    }
    let list = bus.replay_since("acct-1", "cursor-3").unwrap();
    let seqs: Vec<u64> = list.iter().map(|e| e.seq).collect();
    assert_eq!(seqs, vec![4, 5]);
    assert!(bus.replay_since("acct-1", "cursor-5").unwrap().is_empty());
    assert!(bus.replay_since("acct-1", "cursor-2").is_none());
    assert!(bus.replay_since("acct-1", "cursor-6").is_none());
    assert!(bus.replay_since("acct-1", "nonsense").is_none());
    assert!(bus.replay_since("acct-2", "cursor-0").is_none());
}

#[test]
fn a_history_of_nothing_replays_nothing() {
    let mut bus = EventBus::new(0);
    let _ = bus.emit("a", "tick", Json::Null);
    assert_eq!(bus.latest_or_zero("a"), "cursor-1");
    assert!(bus.replay_since("a", "cursor-1").is_none());
}

#[test]
fn hands_out_events_once() {
    let mut bus = EventBus::new(3);
    let _ = bus.emit("a", "one", Json::Null);
    let _ = bus.emit("b", "two", Json::Null);
    let out = bus.take_outbox();
    let types: Vec<&str> = out.iter().map(|e| e.event_type.as_str()).collect();
    assert_eq!(types, vec!["one", "two"]);
    assert!(bus.take_outbox().is_empty());
    assert!(bus.room_for("a", u64::MAX - 1));
    assert!(!bus.room_for("a", u64::MAX));
    assert!(bus.room_for("c", u64::MAX));
}
