use chatter::fetch::{
    interpret, interpret_text, matrix_response, page, typed_page, url, Decoded, Endpoint,
    FetchReply, TextReply,
};
use chatter::json::Json;
use chatter::login::{
    choose_for_login, choose_for_new, extract_login_methods, login_start_reply, ready_reply,
};
use chatter::state::LoginMethod;

fn answered(status: u16, body: &[u8]) -> FetchReply {
    FetchReply::Answered { status, body: Ok(body.to_vec()) }
}

#[test]
fn pages_stand_under_the_homeserver() {
    assert_eq!(
        url("https://example.com/", Endpoint::LoginTypes),
        "https://example.com/_matrix/client/v3/login"
    );
    assert_eq!(
        url("https://example.com", Endpoint::Capabilities),
        "https://example.com/_matrix/client/v3/capabilities"
    );
}

#[test]
fn a_page_by_the_rules_has_no_warning() {
    let reply = answered(200, b"{\"flows\":[{\"type\":\"m.login.password\"}]}");
    let got = interpret(reply, Endpoint::LoginTypes).ok().unwrap();
    assert_eq!(got.value.to_text(), "{\"flows\":[{\"type\":\"m.login.password\"}]}");
    assert_eq!(got.parse_warning, None);
    let reply = answered(200, b"{\"capabilities\":{\"m.change_password\":{\"enabled\":true}}}");
    let got = interpret(reply, Endpoint::Capabilities).ok().unwrap();
    assert_eq!(got.parse_warning, None);
    assert_eq!(got.value.to_text(), "{\"m.change_password\":{\"enabled\":true}}");
}

#[test]
fn a_page_against_the_rules_has_a_warning_and_the_raw_json() {
    let got = interpret(answered(200, b"{\"flows\":5}"), Endpoint::LoginTypes).ok().unwrap();
    assert_eq!(got.value.to_text(), "{\"flows\":5}");
    let warning = got.parse_warning.unwrap();
    assert!(warning.starts_with("non-spec response; fallback to raw JSON ("));
    assert!(warning.ends_with(")"));
    let got = interpret(answered(200, b"{}"), Endpoint::Capabilities).ok().unwrap();
    assert!(got.parse_warning.is_some());
    assert_eq!(got.value.to_text(), "{}");
}

#[test]
fn a_page_may_fail_on_the_way() {
    let error = interpret(FetchReply::Unreachable("down".to_string()), Endpoint::LoginTypes);
    assert_eq!(error.err().unwrap().message, "internal error: down");
    let error = interpret(answered(404, b"{}"), Endpoint::LoginTypes).err().unwrap();
    assert_eq!((error.code, error.message.as_str()), (-32603, "request failed: 404 Not Found"));
    let error = interpret(answered(299, b"nope"), Endpoint::LoginTypes).err().unwrap();
    assert_eq!(error.message, "internal error: expected ident at line 1 column 2");
    let broken = FetchReply::Answered { status: 200, body: Err("cut".to_string()) };
    assert_eq!(
        interpret(broken, Endpoint::LoginTypes).err().unwrap().message,
        "internal error: cut"
    );
    assert!(answered(200, b"").is_valid());
    assert!(!answered(99, b"").is_valid());
    assert!(!answered(1000, b"").is_valid());
}

#[test]
fn a_page_read_as_text_fails_in_its_own_words() {
    let error = interpret_text(TextReply::Unreachable("down".to_string()), Endpoint::LoginTypes);
    assert_eq!(error.err().unwrap().message, "request failed: down");
    let text = |status: u16, body: Result<&str, &str>| TextReply::Answered {
        status,
        body: body.map(|b| b.to_string()).map_err(|e| e.to_string()),
    };
    let error = interpret_text(text(500, Ok("{}")), Endpoint::LoginTypes).err().unwrap();
    assert_eq!(error.message, "request failed: 500 Internal Server Error");
    let error = interpret_text(text(200, Err("cut")), Endpoint::LoginTypes).err().unwrap();
    assert_eq!(error.message, "read failed: cut");
    let error = interpret_text(text(200, Ok("nope")), Endpoint::LoginTypes).err().unwrap();
    assert_eq!(error.message, "invalid json: expected ident at line 1 column 2");
    let got = interpret_text(text(200, Ok("{\"flows\":[]}")), Endpoint::LoginTypes).ok().unwrap();
    assert_eq!(got.value.to_text(), "{\"flows\":[]}");
    assert_eq!(got.parse_warning, None);
}

#[test]
fn a_page_is_handed_on_under_its_key() {
    let plain = page(Endpoint::LoginTypes, Json::object(), None);
    assert_eq!(
        matrix_response("https://example.com", Endpoint::LoginTypes, plain).to_text(),
        "{\"homeserver\":\"https://example.com\",\"login\":{}}"
    );
    let warned = page(Endpoint::Capabilities, Json::Null, Some("bad".to_string()));
    assert_eq!(
        matrix_response("h", Endpoint::Capabilities, warned).to_text(),
        "{\"homeserver\":\"h\",\"capabilities\":null,\"parse_warning\":\"non-spec response; fallback to raw JSON (bad)\"}"
    );
}

#[test]
fn login_methods_are_listed_once_in_order() {
    let value = Json::parse(
        "{\"flows\":[{\"type\":\"m.login.token\"},{\"type\":\"m.login.sso\"},{\"type\":\"m.login.password\"},{\"type\":\"m.login.sso.unstable\"},{}]}",
    )
    .ok()
    .unwrap();
    let methods = extract_login_methods(&value);
    assert_eq!(methods, vec![LoginMethod::Sso, LoginMethod::Password]);
    assert!(extract_login_methods(&Json::Null).is_empty());
    assert!(extract_login_methods(&Json::parse("{\"flows\":3}").ok().unwrap()).is_empty());
}

#[test]
fn a_new_account_takes_what_is_asked_for_or_goes_through_a_browser() {
    let both = vec![LoginMethod::Password, LoginMethod::Sso];
    let one = vec![LoginMethod::Password];
    assert_eq!(choose_for_new(Some(LoginMethod::Sso), &both).ok(), Some(Some(LoginMethod::Sso)));
    assert_eq!(choose_for_new(None, &both).ok(), Some(Some(LoginMethod::Sso)));
    let sso = vec![LoginMethod::Sso];
    assert_eq!(choose_for_new(None, &sso).ok(), Some(Some(LoginMethod::Sso)));
    assert_eq!(choose_for_new(None, &one).ok(), Some(Some(LoginMethod::Password)));
    assert_eq!(choose_for_new(None, &Vec::new()).ok(), Some(None));
    let error = choose_for_new(Some(LoginMethod::Sso), &one).err().unwrap();
    assert_eq!((error.code, error.message.as_str()), (-32602, "unsupported login method"));
}

#[test]
fn a_login_takes_the_method_asked_for_or_the_stored_one() {
    let both = vec![LoginMethod::Password, LoginMethod::Sso];
    let one = vec![LoginMethod::Password];
    let sso = Some(LoginMethod::Sso);
    let password = Some(LoginMethod::Password);
    assert_eq!(choose_for_login(sso, password, &both).ok(), sso);
    assert_eq!(choose_for_login(None, sso, &both).ok(), sso);
    assert_eq!(choose_for_login(None, None, &one).ok(), password);
    let error = choose_for_login(None, sso, &one).err().unwrap();
    assert_eq!(error.message, "unsupported login method");
    let error = choose_for_login(sso, password, &one).err().unwrap();
    assert_eq!(error.message, "unsupported login method");
    let error = choose_for_login(None, None, &both).err().unwrap();
    assert_eq!((error.code, error.message.as_str()), (-32602, "login method required"));
}

#[test]
fn a_login_through_a_browser_says_where_to_go() {
    assert_eq!(
        login_start_reply("acct-1", LoginMethod::Sso, "https://example.com/").to_text(),
        "{\"account_id\":\"acct-1\",\"login_method\":\"sso\",\"sso_url\":\"https://example.com/_matrix/client/v3/login/sso/redirect\",\"redirect_url\":\"http://127.0.0.1:9388/callback\"}"
    );
    assert_eq!(
        login_start_reply("acct-1", LoginMethod::Password, "h").to_text(),
        "{\"account_id\":\"acct-1\",\"login_method\":\"password\"}"
    );
    assert_eq!(
        ready_reply("acct-1").to_text(),
        "{\"account_id\":\"acct-1\",\"status\":\"ready\"}"
    );
}

#[test]
fn a_page_read_as_text_holds_what_its_type_knows() {
    let text = |body: &str| TextReply::Answered {
        status: 200,
        body: Ok(body.to_string()),
    };
    let flows = "{\"flows\":[{\"type\":\"m.login.password\",\"more\":1}],\"other\":2}";
    let got = interpret_text(text(flows), Endpoint::LoginTypes).ok().unwrap();
    assert_eq!(got.value.to_text(), "{\"flows\":[{\"type\":\"m.login.password\"}]}");
    assert_eq!(got.parse_warning, None);
    let kept = "{\"capabilities\":{\"m.change_password\":{\"enabled\":false}},\"other\":2}";
    let got = interpret_text(text(kept), Endpoint::Capabilities).ok().unwrap();
    assert_eq!(got.value.to_text(), "{\"m.change_password\":{\"enabled\":false}}");
    assert_eq!(got.parse_warning, None);
    let odd = "{\"flows\":1}";
    let got = interpret_text(text(odd), Endpoint::LoginTypes).ok().unwrap();
    assert_eq!(got.value.to_text(), odd);
    assert!(got.parse_warning.unwrap().starts_with("non-spec response; fallback to raw JSON ("));
}

#[test]
fn a_page_that_cannot_be_encoded_is_an_error() {
    let decoded = Decoded::Unwritable("bad".to_string());
    let error = typed_page(Endpoint::LoginTypes, Json::Null, decoded).err().unwrap();
    assert_eq!(error.code, -32603);
    assert_eq!(error.message, "encode failed: bad");
    let decoded = Decoded::Typed(Json::array(Vec::new()));
    let got = typed_page(Endpoint::LoginTypes, Json::Null, decoded).ok().unwrap();
    assert_eq!(got.value.to_text(), "{\"flows\":[]}");
}
