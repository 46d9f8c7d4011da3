use chatter::json::Json;
use chatter::verification::{
    is_shortenable, sas_to_json, shorten, SasFacts, VerificationSnapshot, Verifications,
};

fn snapshot(flow: &str, user: &str, stage: &str) -> VerificationSnapshot {
    VerificationSnapshot {
        flow_id: flow.to_string(),
        user_id: user.to_string(),
        device_id: None,
        stage: stage.to_string(),
        sas: None,
    }
}

#[test]
fn stores_one_entry_per_account_and_flow() {
    let mut v = Verifications::new();
    v.store("acct-1", snapshot("f", "@a:x", "requested"));
    v.store("acct-2", snapshot("f", "@b:x", "requested"));
    v.store("acct-1", snapshot("g", "@c:x", "requested"));
    v.store("acct-1", snapshot("f", "@a:x", "accepted"));
    let list = v.of_account("acct-1");
    let flows: Vec<(&str, &str)> =
        list.iter().map(|s| (s.flow_id.as_str(), s.stage.as_str())).collect();
    assert_eq!(flows, vec![("f", "accepted"), ("g", "requested")]);
    assert_eq!(v.find("acct-2", "f").unwrap().user_id, "@b:x");
    assert!(v.find("acct-2", "g").is_none());
}

#[test]
fn removes_only_the_entry_that_is_meant() {
    let mut v = Verifications::new();
    v.store("acct-1", snapshot("f", "@a:x", "requested"));
    v.store("acct-1", snapshot("g", "@a:x", "requested"));
    v.store("acct-2", snapshot("f", "@a:x", "requested"));
    assert!(v.remove("acct-1", "f"));
    assert!(!v.remove("acct-1", "f"));
    assert!(v.find("acct-1", "g").is_some());
    assert!(v.find("acct-2", "f").is_some());
    assert!(!v.remove("acct-3", "f"));
}

#[test]
fn a_flow_gets_its_string_once() {
    let mut v = Verifications::new();
    v.store("a", snapshot("f", "@a:x", "accepted"));
    assert!(v.set_sas_snapshot("a", "f", "@other:x", &Json::Unsigned(1)));
    assert!(!v.set_sas_snapshot("a", "f", "@other:x", &Json::Unsigned(2)));
    let kept = v.find("a", "f").unwrap();
    assert_eq!(kept.user_id, "@a:x");
    assert_eq!(kept.stage, "sas");
    assert_eq!(kept.sas.as_ref().unwrap().to_text(), "1");
    assert!(v.set_sas_snapshot("a", "new", "@n:x", &Json::Null));
    let made = v.find("a", "new").unwrap();
    assert_eq!(made.user_id, "@n:x");
    assert_eq!(made.device_id, None);
    assert_eq!(made.stage, "sas");
}

#[test]
fn ids_are_cut_after_eight_bytes() {
    assert_eq!(shorten("abcdefgh"), "abcdefgh");
    assert_eq!(shorten("abcdefghi"), "abcdefgh");
    assert_eq!(shorten("\u{e9}\u{e9}\u{e9}\u{e9}x"), "\u{e9}\u{e9}\u{e9}\u{e9}");
    assert!(is_shortenable("abcdefghi"));
    assert!(is_shortenable("\u{e9}"));
    assert!(!is_shortenable("abcdefg\u{e9}"));
}

#[test]
fn a_string_is_shown_as_json() {
    let mut sas = SasFacts {
        supports_emoji: true,
        can_be_presented: true,
        is_done: false,
        is_cancelled: false,
        decimals: None,
        emoji: Some(vec![("\u{1f98a}".to_string(), "fox".to_string())]),
    };
    assert_eq!(
        sas_to_json(&sas).to_text(),
        "{\"supports_emoji\":true,\"can_be_presented\":true,\"is_done\":false,\"is_cancelled\":false,\"emoji\":[{\"symbol\":\"\u{1f98a}\",\"description\":\"fox\"}]}"
    );
    sas.emoji = None;
    sas.decimals = Some((123, 456, 789));
    assert_eq!(
        sas_to_json(&sas).to_text(),
        "{\"supports_emoji\":true,\"can_be_presented\":true,\"is_done\":false,\"is_cancelled\":false,\"decimals\":[123,456,789]}"
    );
}
