use chatter::events::EventBus;
use chatter::json::Json;
use chatter::matrix::{
    account_store_dir, check_room_id, check_user_id, list_devices, list_rooms, on_request_change,
    on_sas_accepted, on_sas_change, on_sync_ended, on_sync_started, on_timeline_event,
    on_to_device, on_to_device_event, DeviceFacts, MatrixRuntime, MessagesResponse, RequestChange, RoomFacts,
    SasChange, ToDevice, Watch, WatchStep,
};
use chatter::verification::SasFacts;

fn told(bus: &mut EventBus) -> Vec<String> {
    bus.take_outbox()
        .iter()
        .map(|e| format!("{} {} {}", e.account_id, e.event_type, e.data.to_text()))
        .collect()
}

fn to_device(kind: &str, content: &str) -> ToDevice {
    ToDevice {
        event_type: Some(kind.to_string()),
        sender: Some("@b:x".to_string()),
        content: Json::parse(content).ok(),
    }
}

fn watch() -> Watch {
    Watch {
        account_id: "acct-1".to_string(),
        user_id: "@b:x".to_string(),
        flow_id: "f".to_string(),
    }
}

fn sas(presentable: bool) -> SasFacts {
    SasFacts {
        supports_emoji: false,
        can_be_presented: presentable,
        is_done: false,
        is_cancelled: false,
        decimals: Some((1, 2, 3)),
        emoji: None,
    }
}

#[test]
fn stores_stand_below_the_state() {
    assert_eq!(account_store_dir("./state", "acct-1"), "./state/matrix/acct-1");
}

#[test]
fn ids_are_checked() {
    assert_eq!(check_user_id("@alice:example.com"), None);
    assert!(check_user_id("alice").is_some());
    assert_eq!(check_room_id("!room:example.com"), None);
    assert!(check_room_id("#room:example.com").is_some());
}

#[test]
fn the_first_client_starts_the_sync() {
    let mut runtime = MatrixRuntime::new();
    assert_eq!(runtime.get_client("a"), None);
    runtime.insert_client("a", 7);
    assert_eq!(runtime.get_client("a"), Some(7));
    assert!(runtime.start_sync("a"));
    assert!(!runtime.start_sync("a"));
    assert!(runtime.start_sync("b"));
    runtime.insert_client("a", 8);
    assert_eq!(runtime.get_client("a"), Some(8));
}

#[test]
fn rooms_devices_and_messages_are_shown_as_json() {
    let rooms = vec![
        RoomFacts {
            room_id: "!room:example.com".to_string(),
            name: Some("Chatter".to_string()),
            is_direct: Some(false),
            is_encrypted: Some(true),
        },
        RoomFacts {
            room_id: "!r2:x".to_string(),
            name: None,
            is_direct: None,
            is_encrypted: None,
        },
    ];
    assert_eq!(
        list_rooms(rooms).to_text(),
        "[{\"room_id\":\"!room:example.com\",\"name\":\"Chatter\",\"is_encrypted\":true,\"is_direct\":false},{\"room_id\":\"!r2:x\",\"name\":null,\"is_encrypted\":false,\"is_direct\":false}]"
    );
    let devices = vec![DeviceFacts {
        user_id: "@a:x".to_string(),
        device_id: "D".to_string(),
        display_name: None,
        is_verified: true,
    }];
    assert_eq!(
        list_devices(&devices).to_text(),
        "[{\"user_id\":\"@a:x\",\"device_id\":\"D\",\"display_name\":null,\"is_verified\":true}]"
    );
    let page = MessagesResponse {
        start: "t0".to_string(),
        end: Some("t1".to_string()),
        chunk: vec![Json::object().with("event", Json::text("..."))],
    };
    assert_eq!(
        page.into_json().to_text(),
        "{\"start\":\"t0\",\"end\":\"t1\",\"chunk\":[{\"event\":\"...\"}]}"
    );
}

#[test]
fn timeline_events_are_told() {
    let mut bus = EventBus::new(5);
    on_timeline_event(&mut bus, "acct-1", "!r:x", "{\"type\":\"m.room.message\"}");
    on_timeline_event(&mut bus, "acct-1", "!r:x", "broken");
    assert_eq!(
        told(&mut bus),
        vec!["acct-1 room.message {\"room_id\":\"!r:x\",\"event\":{\"type\":\"m.room.message\"}}"]
    );
}

#[test]
fn the_sync_tells_how_it_goes() {
    let mut bus = EventBus::new(5);
    on_sync_started(&mut bus, "a");
    on_sync_ended(&mut bus, "a", Ok(()));
    on_sync_ended(&mut bus, "a", Err("gone".to_string()));
    assert_eq!(
        told(&mut bus),
        vec![
            "a matrix.sync.state {\"state\":\"syncing\"}",
            "a matrix.sync.state {\"state\":\"idle\"}",
            "a matrix.sync.state {\"state\":\"error\",\"error\":\"gone\"}",
        ]
    );
}

#[test]
fn verifications_that_come_in_are_kept_and_told() {
    let mut bus = EventBus::new(9);
    let mut runtime = MatrixRuntime::new();
    let request = to_device(
        "m.key.verification.request",
        "{\"transaction_id\":\"f\",\"from_device\":\"D\"}",
    );
    on_to_device(&mut bus, &mut runtime, "acct-1", &request);
    let kept = runtime.verifications_handle().find("acct-1", "f").unwrap().copy();
    assert_eq!(kept.user_id, "@b:x");
    assert_eq!(kept.device_id.as_deref(), Some("D"));
    assert_eq!(kept.stage, "requested");
    let cancel = to_device("m.key.verification.cancel", "{\"transaction_id\":\"f\"}");
    on_to_device(&mut bus, &mut runtime, "acct-1", &cancel);
    assert!(runtime.verifications_handle().find("acct-1", "f").is_none());
    let why = to_device(
        "m.key.verification.cancel",
        "{\"transaction_id\":\"g\",\"reason\":\"late\"}",
    );
    on_to_device(&mut bus, &mut runtime, "acct-1", &why);
    let done = to_device("m.key.verification.done", "{\"transaction_id\":\"f\"}");
    on_to_device(&mut bus, &mut runtime, "acct-1", &done);
    assert_eq!(
        told(&mut bus),
        vec![
            "acct-1 matrix.verification.state {\"flow_id\":\"f\",\"user_id\":\"@b:x\",\"device_id\":\"D\",\"stage\":\"requested\"}",
            "acct-1 matrix.verification.cancelled {\"flow_id\":\"f\",\"user_id\":\"@b:x\",\"reason\":\"cancelled\"}",
            "acct-1 matrix.verification.cancelled {\"flow_id\":\"g\",\"user_id\":\"@b:x\",\"reason\":\"late\"}",
            "acct-1 matrix.verification.done {\"flow_id\":\"f\",\"user_id\":\"@b:x\",\"reason\":\"verified\"}",
        ]
    );
}

#[test]
fn other_to_device_events_are_passed_over() {
    let mut bus = EventBus::new(9);
    let mut runtime = MatrixRuntime::new();
    let mut nobody = to_device("m.key.verification.request", "{\"transaction_id\":\"f\"}");
    nobody.sender = None;
    on_to_device(&mut bus, &mut runtime, "a", &nobody);
    let mut untyped = to_device("x", "{\"transaction_id\":\"f\"}");
    untyped.event_type = None;
    on_to_device(&mut bus, &mut runtime, "a", &untyped);
    on_to_device(&mut bus, &mut runtime, "a", &to_device("m.key.verification.request", "{}"));
    on_to_device(&mut bus, &mut runtime, "a", &to_device("m.key.verification.done", "{}"));
    on_to_device(&mut bus, &mut runtime, "a", &to_device("m.key.verification.cancel", "[]"));
    on_to_device(&mut bus, &mut runtime, "a", &to_device("m.dummy", "{\"transaction_id\":\"f\"}"));
    assert!(told(&mut bus).is_empty());
    assert!(runtime.verifications_handle().of_account("a").is_empty());
}

#[test]
fn the_end_of_a_watched_verification_is_told_once() {
    let mut bus = EventBus::new(9);
    let mut runtime = MatrixRuntime::new();
    let request = to_device("m.key.verification.request", "{\"transaction_id\":\"f\"}");
    on_to_device(&mut bus, &mut runtime, "acct-1", &request);
    let _ = told(&mut bus);
    let w = watch();
    assert_eq!(on_request_change(&mut bus, &mut runtime, &w, RequestChange::Other), WatchStep::Wait);
    assert_eq!(
        on_request_change(&mut bus, &mut runtime, &w, RequestChange::Ready),
        WatchStep::StartSas
    );
    assert_eq!(
        on_request_change(&mut bus, &mut runtime, &w, RequestChange::Sas),
        WatchStep::AcceptSas
    );
    assert!(told(&mut bus).is_empty());
    let cancelled = RequestChange::Cancelled("why".to_string());
    assert_eq!(on_request_change(&mut bus, &mut runtime, &w, cancelled), WatchStep::Stop);
    assert_eq!(on_request_change(&mut bus, &mut runtime, &w, RequestChange::Done), WatchStep::Stop);
    assert_eq!(
        told(&mut bus),
        vec!["acct-1 matrix.verification.cancelled {\"flow_id\":\"f\",\"user_id\":\"@b:x\",\"reason\":\"why\"}"]
    );
}

#[test]
fn a_string_is_told_once_it_can_be_shown() {
    let mut bus = EventBus::new(9);
    let mut runtime = MatrixRuntime::new();
    let w = watch();
    assert!(on_sas_accepted(&mut bus, &mut runtime, &w, &sas(false)));
    assert!(on_sas_change(&mut bus, &mut runtime, &w, SasChange::Other));
    assert!(!on_sas_change(&mut bus, &mut runtime, &w, SasChange::Ended));
    assert!(told(&mut bus).is_empty());
    assert!(!on_sas_change(&mut bus, &mut runtime, &w, SasChange::KeysExchanged(sas(true))));
    assert!(!on_sas_accepted(&mut bus, &mut runtime, &w, &sas(true)));
    assert_eq!(
        told(&mut bus),
        vec![
            "acct-1 matrix.verification.state {\"flow_id\":\"f\",\"user_id\":\"@b:x\",\"stage\":\"sas\"}",
            "acct-1 matrix.verification.sas {\"flow_id\":\"f\",\"user_id\":\"@b:x\",\"supports_emoji\":false,\"can_be_presented\":true,\"emoji\":null,\"decimals\":[1,2,3]}",
        ]
    );
}

#[test]
fn to_device_events_are_read_from_their_text() {
    let mut bus = EventBus::new(9);
    let mut runtime = MatrixRuntime::new();
    let request = "{\"type\":\"m.key.verification.request\",\"sender\":\"@b:x\",\"content\":{\"transaction_id\":\"f\",\"from_device\":\"D\"}}";
    on_to_device_event(&mut bus, &mut runtime, "acct-1", request);
    let kept = runtime.verifications_handle().find("acct-1", "f").unwrap().copy();
    assert_eq!(kept.user_id, "@b:x");
    assert_eq!(kept.device_id.as_deref(), Some("D"));
    let done = "{\"content\":{\"transaction_id\":\"f\"},\"sender\":\"@b:x\",\"type\":\"m.key.verification.done\"}";
    on_to_device_event(&mut bus, &mut runtime, "acct-1", done);
    assert!(runtime.verifications_handle().find("acct-1", "f").is_none());
    assert_eq!(
        told(&mut bus),
        vec![
            "acct-1 matrix.verification.state {\"flow_id\":\"f\",\"user_id\":\"@b:x\",\"device_id\":\"D\",\"stage\":\"requested\"}",
            "acct-1 matrix.verification.done {\"flow_id\":\"f\",\"user_id\":\"@b:x\",\"reason\":\"verified\"}",
        ]
    );
    for unread in [
        "nope",
        "[]",
        "{\"type\":1,\"sender\":\"@b:x\",\"content\":{\"transaction_id\":\"f\"}}",
        "{\"type\":\"m.key.verification.request\",\"sender\":null,\"content\":{\"transaction_id\":\"f\"}}",
        "{\"type\":\"m.key.verification.request\",\"sender\":\"@b:x\"}",
    ] {
        on_to_device_event(&mut bus, &mut runtime, "acct-1", unread);
        assert!(told(&mut bus).is_empty());
    }
}

#[test]
fn a_rooms_id_begins_with_its_sigil() {
    assert!(check_room_id("!r").is_none());
    assert!(check_room_id("").is_some());
    assert!(check_room_id("r!").is_some());
    assert!(check_room_id("!r\u{0}").is_some());
}
