use chatter::daemon::Daemon;
use chatter::events::ServerEvent;
use chatter::json::Json;
use chatter::matrix::RoomFacts;
use chatter::rpc::RpcRequest;
use chatter::state::State;
use chatter::subscriptions::{
    deliver, handle_events_subscribe, handle_events_unsubscribe, snapshot_open, snapshot_rest,
    subscribe_close, subscribe_open, subscribe_rooms, unsubscribe_line, wants_snapshot, BusItem,
    SubscribeParams, SubscribeStep, Subscription,
};
use chatter::verification::VerificationSnapshot;

fn request() -> RpcRequest {
    RpcRequest {
        jsonrpc: Some("2.0".to_string()),
        method: Some("events.subscribe".to_string()),
        params: None,
        id: None,
    }
}

fn params(since: Option<&str>) -> Option<Result<SubscribeParams, String>> {
    Some(Ok(SubscribeParams {
        account_id: "acct-1".to_string(),
        since: since.map(|s| s.to_string()),
        snapshot: None,
    }))
}

fn daemon() -> Daemon {
    let mut d = Daemon::new(State::load("s".to_string(), None), 3);
    let _ = d.state.add("h".to_string(), None);
    for n in 1..=3u64 {
        let _ = d.bus.emit("acct-1", "tick", Json::Unsigned(n));
    }
    d
}

fn open(d: &mut Daemon, since: Option<&str>) -> (Subscription, Vec<String>) {
    let mut current = None;
    let lines = subscribe_open(d, &mut current, &request(), params(since)).ok().unwrap();
    (current.unwrap(), lines)
}

#[test]
fn a_client_that_comes_back_gets_what_it_missed() {
    let mut d = daemon();
    let (sub, lines) = open(&mut d, Some("cursor-1"));
    assert_eq!(sub.subscription_id, "sub-1");
    assert_eq!(
        lines,
        vec![
            "{\"jsonrpc\":\"2.0\",\"method\":\"events.push\",\"params\":{\"subscription_id\":\"sub-1\",\"account_id\":\"acct-1\",\"seq\":2,\"cursor\":\"cursor-2\",\"type\":\"tick\",\"data\":2}}",
            "{\"jsonrpc\":\"2.0\",\"method\":\"events.push\",\"params\":{\"subscription_id\":\"sub-1\",\"account_id\":\"acct-1\",\"seq\":3,\"cursor\":\"cursor-3\",\"type\":\"tick\",\"data\":3}}",
        ]
    );
    let (sub, lines) = open(&mut d, None);
    assert_eq!(sub.subscription_id, "sub-2");
    assert!(lines.is_empty());
}

#[test]
fn a_client_that_comes_too_late_is_told_so() {
    let mut d = daemon();
    let (_, lines) = open(&mut d, Some("cursor-0"));
    assert_eq!(
        lines,
        vec!["{\"jsonrpc\":\"2.0\",\"method\":\"events.push\",\"params\":{\"subscription_id\":\"sub-1\",\"account_id\":\"acct-1\",\"seq\":0,\"cursor\":\"cursor-3\",\"type\":\"events.reset\",\"data\":{\"reason\":\"invalid_cursor\",\"new_since\":\"cursor-3\"}}}"]
    );
}

#[test]
fn a_subscription_replaces_the_one_before() {
    let mut d = daemon();
    let mut current = None;
    let _ = subscribe_open(&mut d, &mut current, &request(), params(None));
    let _ = subscribe_open(&mut d, &mut current, &request(), params(None));
    assert_eq!(current.unwrap().subscription_id, "sub-2");
    assert_eq!(d.next_subscription, 3);
    d.next_subscription = u64::MAX;
    let (sub, _) = open(&mut d, None);
    assert_eq!(sub.subscription_id, "sub-18446744073709551615");
    assert_eq!(d.next_subscription, 0);
}

#[test]
fn a_subscription_may_be_refused() {
    let mut d = daemon();
    let mut current = None;
    let _ = subscribe_open(&mut d, &mut current, &request(), params(None));
    let mut old = request();
    old.jsonrpc = None;
    let error = subscribe_open(&mut d, &mut current, &old, params(None)).err().unwrap();
    assert_eq!(error.code, -32600);
    let error = subscribe_open(&mut d, &mut current, &request(), None).err().unwrap();
    assert_eq!(error.message, "missing params");
    let error = subscribe_open(&mut d, &mut current, &request(), Some(Err("x".to_string())));
    assert_eq!(error.err().unwrap().message, "invalid params: x");
    assert_eq!(current.unwrap().subscription_id, "sub-1");
    assert_eq!(d.next_subscription, 2);
}

#[test]
fn a_snapshot_tells_everything_at_the_latest_cursor() {
    let mut d = daemon();
    d.runtime.insert_client("acct-1", 4);
    d.runtime.store_flow(
        "acct-1",
        VerificationSnapshot {
            flow_id: "f".to_string(),
            user_id: "@b:x".to_string(),
            device_id: None,
            stage: "sas".to_string(),
            sas: Some(Json::object().with("supports_emoji", Json::Bool(true))),
        },
    );
    let (sub, _) = open(&mut d, None);
    let head = snapshot_open(&d, &sub);
    assert_eq!((head.cursor.as_str(), head.seq, head.client), ("cursor-3", 3, Some(4)));
    assert_eq!(
        head.lines,
        vec!["{\"jsonrpc\":\"2.0\",\"method\":\"events.push\",\"params\":{\"subscription_id\":\"sub-1\",\"account_id\":\"acct-1\",\"seq\":3,\"cursor\":\"cursor-3\",\"type\":\"account.state\",\"data\":{\"account_id\":\"acct-1\",\"status\":\"needs_login\",\"has_session\":false}}}"]
    );
    let rooms = vec![RoomFacts {
        room_id: "!r:x".to_string(),
        name: None,
        is_direct: None,
        is_encrypted: None,
    }];
    let rest = snapshot_rest(&d, &sub, head.seq, &head.cursor, rooms);
    assert_eq!(rest.len(), 3);
    assert!(rest[0].contains("\"type\":\"room.list.snapshot\",\"data\":{\"rooms\":[{\"room_id\":\"!r:x\","));
    assert!(rest[1].contains("\"type\":\"matrix.verification.state\",\"data\":{\"flow_id\":\"f\",\"user_id\":\"@b:x\",\"device_id\":null,\"stage\":\"sas\"}"));
    assert!(rest[2].contains("\"type\":\"matrix.verification.sas\",\"data\":{\"flow_id\":\"f\",\"user_id\":\"@b:x\",\"supports_emoji\":true,\"can_be_presented\":null,\"emoji\":null,\"decimals\":null}"));
    match subscribe_close(&d, &sub) {
        Ok(result) => assert_eq!(
            result.to_text(),
            "{\"subscription_id\":\"sub-1\",\"account_id\":\"acct-1\",\"since\":\"cursor-3\"}"
        ),
        Err(_) => panic!("refused"),
    }
}

#[test]
fn a_snapshot_of_an_unknown_account_has_only_rooms() {
    let d = Daemon::new(State::load("s".to_string(), None), 3);
    let sub = Subscription {
        subscription_id: "sub-9".to_string(),
        account_id: "nobody".to_string(),
    };
    let head = snapshot_open(&d, &sub);
    assert!(head.lines.is_empty());
    assert_eq!((head.cursor.as_str(), head.seq, head.client), ("cursor-0", 0, None));
    assert_eq!(snapshot_rest(&d, &sub, 0, "cursor-0", Vec::new()).len(), 1);
}

#[test]
fn a_snapshot_is_sent_unless_it_is_not_wanted() {
    let mut p = SubscribeParams { account_id: "a".to_string(), since: None, snapshot: None };
    assert!(wants_snapshot(&p));
    p.snapshot = Some(true);
    assert!(wants_snapshot(&p));
    p.snapshot = Some(false);
    assert!(!wants_snapshot(&p));
}

#[test]
fn only_events_of_the_account_are_delivered() {
    let mut d = daemon();
    let (sub, _) = open(&mut d, None);
    let event = |account: &str| {
        BusItem::Event(ServerEvent {
            account_id: account.to_string(),
            seq: 4,
            cursor: "cursor-4".to_string(),
            event_type: "tick".to_string(),
            data: Json::Null,
        })
    };
    assert_eq!(
        deliver(&d, &sub, &event("acct-1")).unwrap(),
        "{\"jsonrpc\":\"2.0\",\"method\":\"events.push\",\"params\":{\"subscription_id\":\"sub-1\",\"account_id\":\"acct-1\",\"seq\":4,\"cursor\":\"cursor-4\",\"type\":\"tick\",\"data\":null}}"
    );
    assert!(deliver(&d, &sub, &event("acct-2")).is_none());
    let reset = deliver(&d, &sub, &BusItem::Lagged).unwrap();
    assert!(reset.contains("\"type\":\"events.reset\",\"data\":{\"reason\":\"cursor_too_old\",\"new_since\":\"cursor-3\"}"));
}

#[test]
fn only_the_current_subscription_is_ended() {
    let mut d = daemon();
    let mut current = None;
    let _ = subscribe_open(&mut d, &mut current, &request(), params(None));
    let id = |s: &str| Some(Ok(s.to_string()));
    let other = handle_events_unsubscribe(&mut current, &request(), id("sub-7"));
    assert_eq!(other.ok().unwrap().to_text(), "{\"ok\":true}");
    assert!(current.is_some());
    let own = handle_events_unsubscribe(&mut current, &request(), id("sub-1"));
    assert_eq!(own.ok().unwrap().to_text(), "{\"ok\":true}");
    assert!(current.is_none());
    let again = handle_events_unsubscribe(&mut current, &request(), id("sub-1"));
    assert_eq!(again.ok().unwrap().to_text(), "{\"ok\":true}");
    let mut old = request();
    old.jsonrpc = Some("1".to_string());
    let error = handle_events_unsubscribe(&mut current, &old, id("x")).err().unwrap();
    assert_eq!(error.code, -32600);
    let error = handle_events_unsubscribe(&mut current, &request(), None).err().unwrap();
    assert_eq!(error.message, "missing params");
    let wrong = Some(Err("e".to_string()));
    let error = handle_events_unsubscribe(&mut current, &request(), wrong).err().unwrap();
    assert_eq!(error.message, "invalid params: e");
}

#[test]
fn live_events_go_on_where_the_replay_ended() {
    let mut d = daemon();
    let (sub, lines) = open(&mut d, Some("cursor-2"));
    assert_eq!(lines.len(), 1);
    assert!(lines[0].contains("\"seq\":3,"));
    let _ = d.bus.take_outbox();
    let _ = d.bus.emit("acct-1", "tick", Json::text("line\nbreak"));
    for event in d.bus.take_outbox() {
        let line = deliver(&d, &sub, &BusItem::Event(event)).unwrap();
        assert!(line.contains("\"seq\":4,"));
        assert!(!line.contains('\n'));
        assert_eq!(Json::parse(&line).ok().unwrap().to_text(), line);
    }
}

fn kinds(lines: &[String]) -> Vec<String> {
    lines
        .iter()
        .map(|line| {
            let value = Json::parse(line).ok().unwrap();
            match value.get("params") {
                Some(params) => params.text_at("type").unwrap().to_string(),
                None => "answer".to_string(),
            }
        })
        .collect()
}

#[test]
fn a_subscription_is_answered_last() {
    let mut d = daemon();
    let mut current = None;
    let snapshot = VerificationSnapshot {
        flow_id: "f".to_string(),
        user_id: "@b:x".to_string(),
        device_id: None,
        stage: "requested".to_string(),
        sas: None,
    };
    d.runtime.store_flow("acct-1", snapshot);
    let step = handle_events_subscribe(&mut d, &mut current, &request(), params(Some("cursor-2")));
    let SubscribeStep::Opened { lines } = step else {
        panic!("not opened")
    };
    assert_eq!(
        kinds(&lines),
        vec!["tick", "account.state", "room.list.snapshot", "matrix.verification.state", "answer"]
    );
    assert_eq!(
        lines[4],
        "{\"jsonrpc\":\"2.0\",\"result\":{\"subscription_id\":\"sub-1\",\"account_id\":\"acct-1\",\"since\":\"cursor-3\"},\"id\":null}"
    );
    assert_eq!(current.unwrap().subscription_id, "sub-1");
}

#[test]
fn a_subscription_waits_for_the_rooms_of_its_client() {
    let mut d = daemon();
    d.runtime.insert_client("acct-1", 7);
    let mut current = None;
    let step = handle_events_subscribe(&mut d, &mut current, &request(), params(Some("cursor-2")));
    let SubscribeStep::ListRooms { lines, client, waiting } = step else {
        panic!("not waiting")
    };
    assert_eq!(kinds(&lines), vec!["tick", "account.state"]);
    assert_eq!(client, 7);
    let room = RoomFacts {
        room_id: "!r:x".to_string(),
        name: None,
        is_direct: None,
        is_encrypted: None,
    };
    let rest = subscribe_rooms(&d, waiting, vec![room]);
    assert_eq!(kinds(&rest), vec!["room.list.snapshot", "answer"]);
    assert!(rest[0].contains("!r:x"));
}

#[test]
fn a_subscription_without_a_snapshot_is_only_told_what_it_missed() {
    let mut d = daemon();
    d.runtime.insert_client("acct-1", 7);
    let mut current = None;
    let read = Some(Ok(SubscribeParams {
        account_id: "acct-1".to_string(),
        since: Some("gone".to_string()),
        snapshot: Some(false),
    }));
    let step = handle_events_subscribe(&mut d, &mut current, &request(), read);
    let SubscribeStep::Opened { lines } = step else {
        panic!("not opened")
    };
    assert_eq!(kinds(&lines), vec!["events.reset", "answer"]);
    let step = handle_events_subscribe(&mut d, &mut current, &request(), None);
    let SubscribeStep::Refused { line } = step else {
        panic!("not refused")
    };
    assert_eq!(
        line,
        "{\"jsonrpc\":\"2.0\",\"error\":{\"code\":-32602,\"message\":\"missing params\"},\"id\":null}"
    );
    assert_eq!(current.as_ref().unwrap().subscription_id, "sub-1");
    let ended = unsubscribe_line(&mut current, &request(), Some(Ok("sub-1".to_string())));
    assert_eq!(ended, "{\"jsonrpc\":\"2.0\",\"result\":{\"ok\":true},\"id\":null}");
    assert!(current.is_none());
}
