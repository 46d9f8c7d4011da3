use chatter::ctl::{
    answered, call_line, event_text, is_asking, parse_command, replied, reply_text, start, CtlStep,
    Parsed,
};
use chatter::ctl_text::{event_type_hint, format_message_line, help};
use chatter::json::Json;
use chatter::text::split_words;

fn run(line: &str) -> CtlStep {
    match parse_command(split_words(line)) {
        Parsed::Run(sub, words) => start(sub, words),
        _ => panic!("nothing to run"),
    }
}

fn shown(step: &CtlStep) -> String {
    match step {
        CtlStep::Done(lines) => format!("done {}", lines.join("|")),
        CtlStep::Fail(err) => format!("fail {err}"),
        CtlStep::Prompt { before, label, .. } => format!("prompt [{}] {label}", before.join("|")),
        CtlStep::Call { method, params, .. } => match params {
            Some(p) => format!("call {method} {}", p.to_text()),
            None => format!("call {method}"),
        },
        CtlStep::Subscribe(params) => format!("subscribe {}", params.to_text()),
        CtlStep::Unsubscribe => "unsubscribe".to_string(),
    }
}

fn answer(step: CtlStep, line: Option<&str>) -> CtlStep {
    match step {
        CtlStep::Prompt { waiting, .. } => {
            assert!(is_asking(&waiting));
            answered(waiting, line.map(|l| l.to_string()))
        }
        _ => panic!("no question"),
    }
}

fn reply(step: CtlStep, line: &str) -> CtlStep {
    match step {
        CtlStep::Call { waiting, .. } => replied(waiting, Ok(line.to_string())),
        _ => panic!("no call"),
    }
}

fn failure(line: &str) -> String {
    match parse_command(split_words(line)) {
        Parsed::Fail(err) => err,
        _ => panic!("understood"),
    }
}

#[test]
fn a_session_as_documented() {
    assert_eq!(
        shown(&run("account add https://example.com")),
        "call account.add {\"homeserver\":\"https://example.com\",\"login_method\":null}"
    );
    assert_eq!(
        shown(&run("events subscribe acct-1")),
        "subscribe {\"account_id\":\"acct-1\",\"since\":null,\"snapshot\":true}"
    );
    assert_eq!(
        shown(&run("account login-start acct-1")),
        "call account.login_start {\"account_id\":\"acct-1\"}"
    );
    assert_eq!(
        shown(&run("account login-complete acct-1 TOKEN")),
        "call account.login_complete {\"account_id\":\"acct-1\",\"token\":\"TOKEN\",\"device_name\":null}"
    );
    assert_eq!(shown(&run("room list acct-1")), "call room.list {\"account_id\":\"acct-1\"}");
    assert_eq!(
        shown(&run("room messages acct-1 !room:example.com")),
        "call room.messages {\"account_id\":\"acct-1\",\"room_id\":\"!room:example.com\"}"
    );
    assert_eq!(
        shown(&run("room send acct-1 !room:example.com hello")),
        "call room.send {\"account_id\":\"acct-1\",\"room_id\":\"!room:example.com\",\"body\":\"hello\",\"txn_id\":null}"
    );
    assert_eq!(
        shown(&run("verification request acct-1 me")),
        "call matrix.devices.list {\"account_id\":\"acct-1\"}"
    );
    assert_eq!(
        shown(&run("verification confirm acct-1 me")),
        "call matrix.verification.list {\"account_id\":\"acct-1\"}"
    );
    match parse_command(split_words("help")) {
        Parsed::Show(lines) => assert_eq!(lines[0], "commands:"),
        _ => panic!("no help"),
    }
}

#[test]
fn commands_may_be_cut_short_or_fail() {
    assert_eq!(shown(&run("p")), "call rpc.ping");
    assert_eq!(shown(&run("versi")), "call rpc.version");
    assert_eq!(shown(&run("acc li")), "call account.list");
    assert_eq!(failure("nonsense"), "unknown command");
    assert_eq!(failure("ver"), "ambiguous command: version, verification");
    assert_eq!(failure("room x"), "unknown command");
    assert_eq!(
        failure("account login"),
        "ambiguous command: login-start, login-complete, login-password"
    );
    match parse_command(Vec::new()) {
        Parsed::Show(lines) => assert!(lines.is_empty()),
        _ => panic!("something to do"),
    }
    assert!(matches!(parse_command(split_words("q")), Parsed::Quit));
    assert!(matches!(parse_command(split_words("exit")), Parsed::Quit));
}

#[test]
fn help_is_given_by_topic() {
    let topic = |line: &str| match parse_command(split_words(line)) {
        Parsed::Show(lines) => lines,
        _ => panic!("no help"),
    };
    assert_eq!(topic("room")[0], "room subcommands:");
    assert_eq!(topic("help events")[0], "events subcommands:");
    assert_eq!(topic("help nothing"), vec!["unknown help topic"]);
    assert_eq!(topic("verification").len(), 5);
    assert_eq!(help(Some("matrix")).len(), 3);
    assert_eq!(help(Some("account")).len(), 7);
    assert_eq!(help(None).len(), 10);
}

#[test]
fn missing_words_are_asked_for() {
    let step = run("account login-password acct-1");
    assert_eq!(shown(&step), "prompt [] username");
    let step = answer(step, Some("   "));
    assert_eq!(shown(&step), "prompt [] username");
    let step = answer(step, Some(" alice "));
    assert_eq!(shown(&step), "prompt [] password");
    let step = answer(step, Some("secret"));
    assert_eq!(
        shown(&step),
        "call account.login_password {\"account_id\":\"acct-1\",\"username\":\"alice\",\"password\":\"secret\",\"device_name\":null}"
    );
    assert_eq!(shown(&step), shown(&run("account login-password acct-1 alice secret")));
    let step = answer(run("matrix login-flows"), None);
    assert_eq!(shown(&step), "fail missing homeserver");
}

#[test]
fn options_are_read_from_flags_and_keys() {
    assert_eq!(
        shown(&run("account add h --login-method password")),
        "call account.add {\"homeserver\":\"h\",\"login_method\":\"password\"}"
    );
    assert_eq!(
        shown(&run("account login-start acct-1 login_method sso")),
        "call account.login_start {\"account_id\":\"acct-1\",\"login_method\":\"sso\"}"
    );
    assert_eq!(
        shown(&run("account login-complete acct-1 T --device-name D")),
        "call account.login_complete {\"account_id\":\"acct-1\",\"token\":\"T\",\"device_name\":\"D\"}"
    );
    assert_eq!(
        shown(&run("account session-restore acct-1")),
        "call account.session_restore {\"account_id\":\"acct-1\"}"
    );
    assert_eq!(
        shown(&run("matrix capabilities h")),
        "call matrix.capabilities {\"homeserver\":\"h\"}"
    );
    assert_eq!(
        shown(&run("room messages --debug --limit 5 --from t1 acct-1 !r:x")),
        "call room.messages {\"account_id\":\"acct-1\",\"room_id\":\"!r:x\",\"limit\":5,\"from\":\"t1\"}"
    );
    assert_eq!(
        shown(&run("room messages acct-1 !r:x limit many")),
        "call room.messages {\"account_id\":\"acct-1\",\"room_id\":\"!r:x\"}"
    );
    assert_eq!(
        shown(&run("room send acct-1 !r:x hi --txn-id t there")),
        "call room.send {\"account_id\":\"acct-1\",\"room_id\":\"!r:x\",\"body\":\"hi there\",\"txn_id\":\"t\"}"
    );
    assert_eq!(
        shown(&run("room send acct-1 !r:x hi txn_id t")),
        "call room.send {\"account_id\":\"acct-1\",\"room_id\":\"!r:x\",\"body\":\"hi\",\"txn_id\":\"t\"}"
    );
    let step = run("room send acct-1 !r:x --txn-id t");
    assert_eq!(shown(&step), "prompt [] body");
    assert_eq!(
        shown(&answer(step, Some("hi"))),
        "call room.send {\"account_id\":\"acct-1\",\"room_id\":\"!r:x\",\"body\":\"hi\",\"txn_id\":\"t\"}"
    );
}

#[test]
fn a_snapshot_may_be_declined() {
    let snapshot = |words: &str| shown(&run(&format!("events subscribe a {words}")));
    let params = |since: &str, b: bool| {
        format!("subscribe {{\"account_id\":\"a\",\"since\":{since},\"snapshot\":{b}}}")
    };
    assert_eq!(snapshot("--no-snapshot"), params("null", false));
    assert_eq!(snapshot("--snapshot"), params("null", true));
    assert_eq!(snapshot("--no-snapshot --snapshot"), params("null", false));
    assert_eq!(snapshot("snapshot false"), params("null", false));
    assert_eq!(snapshot("snapshot no"), params("null", true));
    assert_eq!(snapshot("--since cursor-4"), params("\"cursor-4\"", true));
    assert_eq!(shown(&run("events unsub")), "unsubscribe");
}

#[test]
fn a_room_is_chosen() {
    let step = run("room messages acct-1");
    assert_eq!(shown(&step), "call room.list {\"account_id\":\"acct-1\"}");
    let list = "{\"result\":{\"rooms\":[{\"room_id\":\"!a:x\",\"name\":\"A\"},{\"room_id\":\"!b:x\",\"name\":null},{}]}}";
    let step = reply(step, list);
    assert_eq!(
        shown(&step),
        "prompt [0: A (!a:x)|1: unnamed (!b:x)|2: unnamed (unknown)] Select room"
    );
    let step = answer(step, Some("9"));
    assert_eq!(shown(&step), "prompt [invalid selection] Select room");
    let step = answer(step, Some("1"));
    assert_eq!(
        shown(&step),
        "call room.messages {\"account_id\":\"acct-1\",\"room_id\":\"!b:x\"}"
    );
    let step = answer(reply(run("room send acct-1"), list), Some("0"));
    assert_eq!(shown(&step), "prompt [] body");
    let step = answer(step, Some("hello there"));
    assert_eq!(
        shown(&step),
        "call room.send {\"account_id\":\"acct-1\",\"room_id\":\"!a:x\",\"body\":\"hello there\",\"txn_id\":null}"
    );
    let step = answer(reply(run("room send acct-1"), list), Some("2"));
    assert_eq!(shown(&step), "fail missing room_id");
    let step = reply(run("room send acct-1"), "{\"error\":{}}");
    assert_eq!(shown(&step), "fail no rooms found");
    let step = reply(run("room send acct-1"), "oops");
    assert_eq!(
        shown(&step),
        "fail invalid json response: expected value at line 1 column 1"
    );
}

#[test]
fn a_device_is_chosen() {
    let step = run("verification request acct-1 @a:x");
    assert_eq!(
        shown(&step),
        "call matrix.devices.list {\"account_id\":\"acct-1\",\"user_id\":\"@a:x\"}"
    );
    let list = "{\"result\":[{\"device_id\":\"D\",\"display_name\":\"Phone\",\"is_verified\":true},{\"device_id\":\"E\"},{}]}";
    let step = reply(step, list);
    assert_eq!(
        shown(&step),
        "prompt [0: Phone (D) (verified)|1: E|2: unknown] Select device"
    );
    let step = answer(step, Some("0"));
    assert_eq!(
        shown(&step),
        "call matrix.verification.request {\"account_id\":\"acct-1\",\"user_id\":\"@a:x\",\"device_id\":\"D\"}"
    );
    let step = answer(reply(run("verification request acct-1 me"), list), Some("2"));
    assert_eq!(
        shown(&step),
        "call matrix.verification.request {\"account_id\":\"acct-1\",\"user_id\":\"me\",\"device_id\":null}"
    );
    let step = reply(run("verification request acct-1 me"), "{\"result\":[]}");
    assert_eq!(shown(&step), "fail no devices found");
    assert_eq!(
        shown(&run("verification request acct-1 me --device-id D")),
        "call matrix.verification.request {\"account_id\":\"acct-1\",\"user_id\":\"me\",\"device_id\":\"D\"}"
    );
}

#[test]
fn a_verification_is_chosen() {
    let step = run("verification accept acct-1 @a:x");
    assert_eq!(
        shown(&step),
        "call matrix.verification.list {\"account_id\":\"acct-1\",\"user_id\":\"@a:x\"}"
    );
    let step = reply(step, "{\"result\":[{\"flow_id\":\"f1\"}]}");
    assert_eq!(
        shown(&step),
        "call matrix.verification.accept {\"account_id\":\"acct-1\",\"user_id\":\"@a:x\",\"flow_id\":\"f1\"}"
    );
    let list = "{\"result\":[{\"flow_id\":\"f1\",\"short_id\":\"f\",\"user_id\":\"@a:x\",\"device_id\":null,\"stage\":\"sas\"},{\"flow_id\":\"f2\",\"short_id\":\"g\",\"user_id\":\"@b:x\",\"device_id\":\"D\"},{}]}";
    let step = reply(run("verification cancel acct-1 me"), list);
    assert_eq!(
        shown(&step),
        "prompt [0: f @a:x (sas)|1: g @b:x D (unknown)|2: flow unknown (unknown)] Select verification flow"
    );
    let step = answer(step, Some("x"));
    let step = answer(step, Some("1"));
    assert_eq!(
        shown(&step),
        "call matrix.verification.cancel {\"account_id\":\"acct-1\",\"user_id\":\"me\",\"flow_id\":\"f2\"}"
    );
    let step = answer(reply(run("verification cancel acct-1 me"), list), Some("2"));
    assert_eq!(shown(&step), "fail missing flow id");
    let step = reply(run("verification cancel acct-1 me"), "{\"result\":[{}]}");
    assert_eq!(shown(&step), "fail missing flow id");
    let step = reply(run("verification cancel acct-1 me"), "{}");
    assert_eq!(shown(&step), "fail no active verification flows");
}

#[test]
fn a_match_is_asked_for_where_it_was_not_said() {
    let step = run("verification confirm acct-1 me f1");
    assert_eq!(shown(&step), "prompt [] Do they match? (y/n)");
    let step = answer(step, Some("maybe"));
    assert_eq!(shown(&step), "prompt [please answer y/n] Do they match? (y/n)");
    let step = answer(step, Some("YES"));
    let call = |b: bool| {
        format!("call matrix.verification.confirm {{\"account_id\":\"acct-1\",\"user_id\":\"me\",\"flow_id\":\"f1\",\"match\":{b}}}")
    };
    assert_eq!(shown(&step), call(true));
    let step = answer(run("verification confirm acct-1 me f1"), Some("n"));
    assert_eq!(shown(&step), call(false));
    assert_eq!(shown(&run("verification confirm acct-1 me f1 --match false")), call(false));
    assert_eq!(shown(&run("verification confirm acct-1 me f1 match true")), call(true));
    let step = answer(run("verification confirm acct-1 me f1"), None);
    assert_eq!(shown(&step), "fail missing Do they match? (y/n)");
}

#[test]
fn replies_and_messages_are_shown() {
    let step = reply(run("ping"), "{\"result\":\"pong\"}");
    assert_eq!(shown(&step), "done {\"result\":\"pong\"}");
    match run("ping") {
        CtlStep::Call { waiting, .. } => {
            assert_eq!(shown(&replied(waiting, Err("refused".to_string()))), "fail refused")
        }
        _ => panic!("no call"),
    }
    let text = "{\"event\":{\"event_id\":\"$1\",\"sender\":\"@a:x\",\"content\":{\"msgtype\":\"m.text\",\"body\":\"hi\"}}}";
    let state = "{\"type\":\"m.room.member\"}";
    let page = format!("{{\"result\":{{\"chunk\":[{text},{state}]}}}}");
    let step = reply(run("room messages acct-1 !r:x"), &page);
    assert_eq!(shown(&step), "done @a:x $1 hi|<non-text event: m.room.member>");
    let step = reply(run("room messages acct-1 !r:x --debug"), &page);
    assert_eq!(
        shown(&step),
        format!("done debug event 1: {text}|@a:x $1 hi|debug event 2: {state}|<non-text event: m.room.member>")
    );
    let step = reply(run("room messages acct-1 !r:x"), "{\"result\":{\"chunk\":[]}}");
    assert_eq!(shown(&step), "done (no messages)");
    let step = reply(run("room messages acct-1 !r:x"), "{\"error\":1}");
    assert_eq!(shown(&step), "fail room.messages: missing result");
    let step = reply(run("room messages acct-1 !r:x"), "{\"result\":{}}");
    assert_eq!(shown(&step), "fail room.messages: missing chunk");
}

#[test]
fn message_lines_have_sender_id_and_body() {
    let line = |source: &str| format_message_line(&Json::parse(source).ok().unwrap());
    assert_eq!(
        line("{\"event_id\":\"$1\",\"content\":{\"msgtype\":\"m.notice\"}}").as_deref(),
        Some("unknown $1 ")
    );
    assert_eq!(
        line("{\"event_id\":\"$1\",\"sender\":\"@a:x\",\"type\":\"m.room.message\",\"content\":{\"msgtype\":\"m.image\",\"body\":\"cat.png\"}}").as_deref(),
        Some("@a:x $1 cat.png")
    );
    assert_eq!(line("{\"event_id\":\"$1\",\"type\":\"m.room.message\"}"), None);
    assert_eq!(line("{\"content\":{\"msgtype\":\"m.text\",\"body\":\"x\"}}"), None);
    let wrapped = Json::parse("{\"event\":\"...\",\"type\":\"outer\"}").ok().unwrap();
    assert_eq!(event_type_hint(&wrapped), Some("outer"));
    let wrapped = Json::parse("{\"event\":{\"type\":\"inner\"}}").ok().unwrap();
    assert_eq!(event_type_hint(&wrapped), Some("inner"));
}

#[test]
fn calls_are_json_rpc_lines() {
    assert_eq!(
        call_line("rpc.ping", None),
        "{\"jsonrpc\":\"2.0\",\"id\":1,\"method\":\"rpc.ping\",\"params\":null}"
    );
    let params = Json::object().with("account_id", Json::text("acct-1"));
    assert_eq!(
        call_line("room.list", Some(params)),
        "{\"jsonrpc\":\"2.0\",\"id\":1,\"method\":\"room.list\",\"params\":{\"account_id\":\"acct-1\"}}"
    );
    assert_eq!(reply_text("{}\r\n"), "{}");
    assert_eq!(event_text("{} \n"), "event {}");
}
