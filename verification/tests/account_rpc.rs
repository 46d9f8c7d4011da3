use chatter::account_rpc::{
    handle_request, normalize_homeserver, page_text, persisted, AccountMethod, AccountParams,
};
use chatter::daemon::{Action, Resume, Step};
use chatter::fetch::{Endpoint, TextReply};
use chatter::rpc::RpcRequest;
use chatter::state::{AccountStatus, LoginMethod, State};

fn request(method: &str) -> RpcRequest {
    RpcRequest {
        jsonrpc: Some("2.0".to_string()),
        method: Some(method.to_string()),
        params: None,
        id: None,
    }
}

fn fresh() -> State {
    State::load("s".to_string(), None)
}

fn add(state: &mut State, method: Option<LoginMethod>) -> Step {
    handle_request(
        state,
        &request("account.add"),
        Some(Ok(AccountParams::Add {
            homeserver: "https://example.com".to_string(),
            login_method: method,
        })),
    )
}

fn finish(step: Step) -> String {
    match step {
        Step::Perform(Action::Save { file }, Resume::Persisted { reply }) => {
            assert_eq!(file.path, "s/accounts.json");
            match persisted(reply, Ok(())) {
                Step::Reply(Ok(result)) => result.to_text(),
                _ => panic!("no result"),
            }
        }
        Step::Reply(Ok(result)) => result.to_text(),
        Step::Reply(Err(error)) => format!("{} {}", error.code, error.message),
        _ => panic!("another step"),
    }
}

#[test]
fn bare_names_are_taken_for_web_addresses() {
    assert_eq!(normalize_homeserver("example.com"), "https://example.com");
    assert_eq!(normalize_homeserver("http://a"), "http://a");
    assert_eq!(normalize_homeserver("https://a/"), "https://a/");
    let once = normalize_homeserver("x");
    assert_eq!(normalize_homeserver(&once), once);
}

#[test]
fn the_plain_server_adds_and_logs_in_accounts() {
    let mut state = fresh();
    let step = add(&mut state, None);
    assert_eq!(
        finish(step),
        "{\"id\":\"acct-1\",\"homeserver\":\"https://example.com\",\"login_method\":\"sso\",\"status\":\"needs_login\"}"
    );
    let step = handle_request(
        &mut state,
        &request("login.start"),
        Some(Ok(AccountParams::Start { account_id: "acct-1".to_string() })),
    );
    assert_eq!(
        finish(step),
        "{\"account_id\":\"acct-1\",\"login_method\":\"sso\",\"sso_url\":\"https://example.com/_matrix/client/v3/login/sso/redirect\",\"redirect_url\":\"http://127.0.0.1:9388/callback\"}"
    );
    assert_eq!(state.accounts[0].status, AccountStatus::LoginInProgress);
    let step = handle_request(
        &mut state,
        &request("login.complete"),
        Some(Ok(AccountParams::Complete {
            account_id: "acct-1".to_string(),
            token: "opaque-token".to_string(),
        })),
    );
    assert_eq!(finish(step), "{\"account_id\":\"acct-1\",\"status\":\"ready\"}");
    assert_eq!(state.accounts[0].status, AccountStatus::Ready);
    let step = handle_request(&mut state, &request("account.list"), None);
    assert_eq!(
        finish(step),
        "[{\"id\":\"acct-1\",\"homeserver\":\"https://example.com\",\"login_method\":\"sso\",\"status\":\"ready\"}]"
    );
}

#[test]
fn the_plain_server_answers_without_parameters() {
    let mut state = fresh();
    assert_eq!(finish(handle_request(&mut state, &request("rpc.ping"), None)), "\"pong\"");
    assert_eq!(finish(handle_request(&mut state, &request("rpc.version"), None)), "\"0.1.0\"");
    assert_eq!(finish(handle_request(&mut state, &request("account.list"), None)), "[]");
}

#[test]
fn the_plain_server_refuses_and_changes_nothing() {
    let mut state = fresh();
    let mut old = request("rpc.ping");
    old.jsonrpc = Some("1.0".to_string());
    assert_eq!(finish(handle_request(&mut state, &old, None)), "-32600 invalid request");
    let mut unnamed = request("rpc.ping");
    unnamed.method = None;
    assert_eq!(finish(handle_request(&mut state, &unnamed, None)), "-32600 invalid request");
    assert_eq!(
        finish(handle_request(&mut state, &request("room.list"), None)),
        "-32601 method not found"
    );
    assert_eq!(
        finish(handle_request(&mut state, &request("account.add"), None)),
        "-32602 missing params"
    );
    assert_eq!(
        finish(handle_request(&mut state, &request("account.add"), Some(Err("x".to_string())))),
        "-32602 invalid params: x"
    );
    let nobody = AccountParams::Start { account_id: "acct-1".to_string() };
    assert_eq!(
        finish(handle_request(&mut state, &request("login.start"), Some(Ok(nobody)))),
        "-32602 unknown account"
    );
    assert!(state.accounts.is_empty());
    assert_eq!(state.next_id, 1);
}

#[test]
fn the_plain_server_tells_of_a_full_disk() {
    let mut state = fresh();
    match add(&mut state, Some(LoginMethod::Password)) {
        Step::Perform(_, Resume::Persisted { reply }) => {
            match persisted(reply, Err("disk full".to_string())) {
                Step::Reply(Err(error)) => {
                    assert_eq!(error.code, -32603);
                    assert_eq!(error.message, "persist failed: disk full");
                }
                _ => panic!("no error"),
            }
        }
        _ => panic!("not saved"),
    }
}

#[test]
fn the_plain_server_reads_pages() {
    let mut state = fresh();
    let page = AccountParams::Page { homeserver: "example.com/".to_string() };
    match handle_request(&mut state, &request("matrix.login_flows"), Some(Ok(page))) {
        Step::Perform(Action::Get { url }, Resume::PageText { endpoint, homeserver }) => {
            assert_eq!(url, "https://example.com/_matrix/client/v3/login");
            let reply = TextReply::Answered {
                status: 200,
                body: Ok("{\"flows\":[{\"type\":\"m.login.password\"}]}".to_string()),
            };
            match page_text(endpoint, &homeserver, reply) {
                Step::Reply(Ok(result)) => assert_eq!(
                    result.to_text(),
                    "{\"homeserver\":\"https://example.com/\",\"login\":{\"flows\":[{\"type\":\"m.login.password\"}]}}"
                ),
                _ => panic!("no page"),
            }
        }
        _ => panic!("not asked for"),
    }
    let page = AccountParams::Page { homeserver: "http://h".to_string() };
    match handle_request(&mut state, &request("matrix.capabilities"), Some(Ok(page))) {
        Step::Perform(Action::Get { url }, Resume::PageText { endpoint, .. }) => {
            assert_eq!(url, "http://h/_matrix/client/v3/capabilities");
            assert_eq!(endpoint, Endpoint::Capabilities);
        }
        _ => panic!("not asked for"),
    }
    assert_eq!(AccountMethod::named("login.start"), Some(AccountMethod::Start));
    assert_eq!(AccountMethod::named("account.login_start"), None);
}
