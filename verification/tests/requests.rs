use chatter::daemon::{Action, Daemon, Event, RequestFacts, RequestState, Resume, Step};
use chatter::fetch::FetchReply;
use chatter::json::Json;
use chatter::matrix::{DeviceFacts, MessagesResponse, RoomFacts};
use chatter::requests::{handle_request, is_well_read, resume, Method, Params};
use chatter::rpc::RpcRequest;
use chatter::state::{AccountStatus, LoginMethod, MatrixSession, State};
use chatter::verification::SasFacts;
use chatter::verification_calls::request_state_name;

fn request(method: &str) -> RpcRequest {
    RpcRequest {
        jsonrpc: Some("2.0".to_string()),
        method: Some(method.to_string()),
        params: None,
        id: Some(Json::Unsigned(1)),
    }
}

fn daemon() -> Daemon {
    Daemon::new(State::load("./state".to_string(), None), 100)
}

fn with_account(method: Option<LoginMethod>) -> Daemon {
    let mut d = daemon();
    let _ = d.state.add("https://example.com".to_string(), method);
    d
}

fn with_client() -> Daemon {
    let mut d = with_account(Some(LoginMethod::Password));
    d.runtime.insert_client("acct-1", 5);
    d
}

fn ask(d: &mut Daemon, method: &str, params: Params) -> Step {
    let req = request(method);
    let read = Some(Ok(params));
    assert!(is_well_read(d, &req, &read));
    handle_request(d, &req, read)
}

fn go_on(d: &mut Daemon, waiting: Resume, event: Event) -> Step {
    assert!(waiting.is_fit(&event));
    assert!(waiting.finds_room(d));
    resume(d, waiting, event)
}

fn next(d: &mut Daemon, step: Step, event: Event) -> Step {
    match step {
        Step::Perform(_, waiting) => go_on(d, waiting, event),
        Step::Reply(_) => panic!("nothing to perform"),
    }
}

fn result(step: Step) -> String {
    match step {
        Step::Reply(Ok(value)) => value.to_text(),
        Step::Reply(Err(error)) => format!("{} {}", error.code, error.message),
        Step::Perform(..) => panic!("not done"),
    }
}

fn told(d: &mut Daemon) -> Vec<String> {
    d.bus
        .take_outbox()
        .iter()
        .map(|e| format!("{} {} {} {}", e.account_id, e.cursor, e.event_type, e.data.to_text()))
        .collect()
}

fn account() -> String {
    "acct-1".to_string()
}

fn session() -> MatrixSession {
    MatrixSession {
        user_id: "@alice:example.com".to_string(),
        device_id: "DEV".to_string(),
        access_token: "t".to_string(),
        refresh_token: None,
    }
}

fn flows(body: &str) -> Event {
    Event::Fetched(FetchReply::Answered { status: 200, body: Ok(body.as_bytes().to_vec()) })
}

fn add_params(method: Option<LoginMethod>) -> Params {
    Params::Add { homeserver: "example.com".to_string(), login_method: method }
}

fn flow(user: &str) -> Params {
    Params::Flow { account_id: account(), user_id: user.to_string(), flow_id: "abcd".to_string() }
}

const BOTH: &str = "{\"flows\":[{\"type\":\"m.login.password\"},{\"type\":\"m.login.sso\"}]}";
const ONE: &str = "{\"flows\":[{\"type\":\"m.login.password\"}]}";

#[test]
fn methods_go_by_their_names() {
    assert_eq!(Method::named("account.login_password"), Some(Method::LoginPassword));
    assert_eq!(Method::named("matrix.login.password"), Some(Method::LoginPassword));
    assert_eq!(Method::named("matrix.login.sso_complete"), Some(Method::LoginToken));
    assert_eq!(Method::named("matrix.session.restore"), Some(Method::SessionRestore));
    assert_eq!(Method::named("matrix.devices.list"), Some(Method::DevicesList));
    assert_eq!(Method::named("rpc.pong"), None);
    assert_eq!(Method::named(""), None);
}

#[test]
fn requests_without_parameters_are_answered_at_once() {
    let mut d = daemon();
    assert_eq!(result(handle_request(&mut d, &request("rpc.ping"), None)), "\"pong\"");
    assert_eq!(result(handle_request(&mut d, &request("rpc.version"), None)), "\"0.1.0\"");
    assert_eq!(result(handle_request(&mut d, &request("account.list"), None)), "[]");
    let mut d = with_account(None);
    d.state.accounts[0].status = AccountStatus::Ready;
    d.state.accounts[0].session = Some(session());
    assert_eq!(
        result(handle_request(&mut d, &request("matrix.session.status"), None)),
        "[{\"account_id\":\"acct-1\",\"homeserver\":\"https://example.com\",\"status\":\"ready\",\"has_session\":true}]"
    );
    assert_eq!(
        result(handle_request(&mut d, &request("account.list"), None)),
        "[{\"id\":\"acct-1\",\"homeserver\":\"https://example.com\",\"login_method\":null,\"status\":\"ready\"}]"
    );
}

#[test]
fn requests_that_make_no_sense_are_refused() {
    let mut d = daemon();
    let mut old = request("rpc.ping");
    old.jsonrpc = None;
    assert_eq!(result(handle_request(&mut d, &old, None)), "-32600 invalid request");
    let mut unnamed = request("x");
    unnamed.method = None;
    assert_eq!(result(handle_request(&mut d, &unnamed, None)), "-32600 invalid request");
    assert_eq!(result(handle_request(&mut d, &request("x"), None)), "-32601 method not found");
    assert_eq!(
        result(handle_request(&mut d, &request("room.list"), None)),
        "-32602 missing params"
    );
    assert_eq!(
        result(handle_request(&mut d, &request("room.list"), Some(Err("bad".to_string())))),
        "-32602 invalid params: bad"
    );
    assert!(!is_well_read(&d, &request("room.list"), &Some(Ok(add_params(None)))));
}

#[test]
fn an_account_is_added() {
    let mut d = daemon();
    let step = ask(&mut d, "account.add", add_params(None));
    match &step {
        Step::Perform(Action::ResolveHomeserver { homeserver }, _) => {
            assert_eq!(homeserver, "example.com")
        }
        _ => panic!("not looked up"),
    }
    let step = next(&mut d, step, Event::Text(Ok("https://example.com/".to_string())));
    match &step {
        Step::Perform(Action::Get { url }, _) => {
            assert_eq!(url, "https://example.com/_matrix/client/v3/login")
        }
        _ => panic!("not asked for"),
    }
    let step = next(&mut d, step, flows(ONE));
    match &step {
        Step::Perform(Action::Save { file }, _) => {
            assert_eq!(file.path, "./state/accounts.json");
            assert_eq!(file.contents.next_id, 2);
            assert_eq!(file.contents.accounts.len(), 1);
        }
        _ => panic!("not saved"),
    }
    let step = next(&mut d, step, Event::Done(Ok(())));
    assert_eq!(
        result(step),
        "{\"id\":\"acct-1\",\"homeserver\":\"https://example.com/\",\"login_method\":\"password\",\"status\":\"needs_login\"}"
    );
    assert_eq!(
        told(&mut d),
        vec!["acct-1 cursor-1 account.state {\"account_id\":\"acct-1\",\"status\":\"needs_login\",\"has_session\":false}"]
    );
}

#[test]
fn adding_an_account_may_fail_at_each_step() {
    let mut d = daemon();
    let step = ask(&mut d, "account.add", add_params(Some(LoginMethod::Sso)));
    let step = next(&mut d, step, Event::Text(Err("no such host".to_string())));
    assert_eq!(result(step), "-32603 internal error: no such host");
    let step = ask(&mut d, "account.add", add_params(Some(LoginMethod::Sso)));
    let step = next(&mut d, step, Event::Text(Ok("h".to_string())));
    let step = next(&mut d, step, flows(ONE));
    assert_eq!(result(step), "-32602 unsupported login method");
    assert!(d.state.accounts.is_empty());
    let step = ask(&mut d, "account.add", add_params(None));
    let step = next(&mut d, step, Event::Text(Ok("h".to_string())));
    let step = next(&mut d, step, flows("{\"flows\":1}"));
    let step = next(&mut d, step, Event::Done(Err("full".to_string())));
    assert_eq!(result(step), "-32603 internal error: full");
    assert_eq!(d.state.accounts.len(), 1);
    assert!(told(&mut d).is_empty());
}

#[test]
fn a_login_starts() {
    let mut d = with_account(None);
    let start = |method: Option<LoginMethod>| Params::Start {
        account_id: account(),
        login_method: method,
    };
    let step = ask(&mut d, "account.login_start", start(Some(LoginMethod::Sso)));
    assert_eq!(d.state.accounts[0].status, AccountStatus::LoginInProgress);
    let step = next(&mut d, step, Event::Done(Ok(())));
    assert_eq!(told(&mut d).len(), 1);
    let step = next(&mut d, step, Event::Text(Ok("https://example.com".to_string())));
    let step = next(&mut d, step, flows(BOTH));
    assert_eq!(d.state.accounts[0].login_method, Some(LoginMethod::Sso));
    let step = next(&mut d, step, Event::Done(Ok(())));
    assert_eq!(
        result(step),
        "{\"account_id\":\"acct-1\",\"login_method\":\"sso\",\"sso_url\":\"https://example.com/_matrix/client/v3/login/sso/redirect\",\"redirect_url\":\"http://127.0.0.1:9388/callback\"}"
    );
    let step = ask(&mut d, "account.login_start", start(None));
    let step = next(&mut d, step, Event::Done(Ok(())));
    let step = next(&mut d, step, Event::Text(Ok("https://example.com".to_string())));
    let step = next(&mut d, step, flows(BOTH));
    assert!(result(step).starts_with("{\"account_id\":\"acct-1\",\"login_method\":\"sso\""));
}

#[test]
fn a_login_start_may_be_refused() {
    let mut d = with_account(None);
    let start = Params::Start { account_id: "acct-9".to_string(), login_method: None };
    assert_eq!(result(ask(&mut d, "account.login_start", start)), "-32602 unknown account");
    let start = Params::Start { account_id: account(), login_method: None };
    let step = ask(&mut d, "account.login_start", start);
    let step = next(&mut d, step, Event::Done(Ok(())));
    let step = next(&mut d, step, Event::Text(Ok("h".to_string())));
    let step = next(&mut d, step, flows(BOTH));
    assert_eq!(result(step), "-32602 login method required");
}

fn password() -> Params {
    Params::Password {
        account_id: account(),
        username: "@alice:example.com".to_string(),
        password: "secret".to_string(),
        device_name: Some("Chatter Desktop".to_string()),
    }
}

#[test]
fn a_password_logs_in() {
    let mut d = with_account(None);
    let step = ask(&mut d, "matrix.login.password", password());
    match &step {
        Step::Perform(Action::BuildClient { homeserver, store_dir }, _) => {
            assert_eq!(homeserver, "https://example.com");
            assert_eq!(store_dir, "./state/matrix/acct-1");
        }
        _ => panic!("no client"),
    }
    let step = next(&mut d, step, Event::Client(Ok(3)));
    match &step {
        Step::Perform(Action::LoginPassword { client, username, password, device_name }, _) => {
            assert_eq!(*client, 3);
            assert_eq!(username, "@alice:example.com");
            assert_eq!(password, "secret");
            assert_eq!(device_name.as_deref(), Some("Chatter Desktop"));
        }
        _ => panic!("no login"),
    }
    let step = next(&mut d, step, Event::Session(Ok(Some(session()))));
    let step = next(&mut d, step, Event::Done(Ok(())));
    assert_eq!(d.runtime.get_client("acct-1"), Some(3));
    match &step {
        Step::Perform(Action::StartSync { account_id, client }, _) => {
            assert_eq!(account_id, "acct-1");
            assert_eq!(*client, 3);
        }
        _ => panic!("no sync"),
    }
    let step = next(&mut d, step, Event::Done(Ok(())));
    assert_eq!(result(step), "{\"account_id\":\"acct-1\",\"status\":\"ready\"}");
    assert_eq!(d.state.accounts[0].status, AccountStatus::Ready);
    assert_eq!(d.state.accounts[0].login_method, Some(LoginMethod::Password));
    assert_eq!(
        told(&mut d),
        vec![
            "acct-1 cursor-1 account.state {\"account_id\":\"acct-1\",\"status\":\"ready\",\"has_session\":true}",
            "acct-1 cursor-2 matrix.login.ready {\"status\":\"ready\",\"device_id\":\"DEV\",\"user_id\":\"@alice:example.com\"}",
        ]
    );
    let step = ask(&mut d, "account.login_password", password());
    let step = next(&mut d, step, Event::Client(Ok(4)));
    let step = next(&mut d, step, Event::Session(Ok(Some(session()))));
    let step = next(&mut d, step, Event::Done(Ok(())));
    assert_eq!(result(step), "{\"account_id\":\"acct-1\",\"status\":\"ready\"}");
    assert_eq!(d.runtime.get_client("acct-1"), Some(4));
}

#[test]
fn a_password_login_may_fail() {
    let mut d = with_account(None);
    let step = ask(&mut d, "account.login_password", password());
    let step = next(&mut d, step, Event::Client(Err("no store".to_string())));
    assert_eq!(result(step), "-32603 internal error: no store");
    let step = ask(&mut d, "account.login_password", password());
    let step = next(&mut d, step, Event::Client(Ok(1)));
    let step = next(&mut d, step, Event::Session(Err("forbidden".to_string())));
    assert_eq!(result(step), "-32603 internal error: forbidden");
    let step = ask(&mut d, "account.login_password", password());
    let step = next(&mut d, step, Event::Client(Ok(1)));
    let step = next(&mut d, step, Event::Session(Ok(None)));
    assert_eq!(result(step), "-32603 internal error: missing session after login");
    let step = ask(&mut d, "account.login_password", password());
    let step = next(&mut d, step, Event::Client(Ok(1)));
    d.state.accounts.clear();
    let step = next(&mut d, step, Event::Session(Ok(Some(session()))));
    assert_eq!(result(step), "-32602 unknown account");
    assert_eq!(
        result(ask(&mut d, "account.login_password", password())),
        "-32602 unknown account"
    );
    assert_eq!(d.runtime.get_client("acct-1"), None);
}

#[test]
fn a_token_logs_in_through_a_browser() {
    let mut d = with_account(None);
    let token = Params::Token {
        account_id: account(),
        token: "sso-token".to_string(),
        device_name: None,
    };
    let step = ask(&mut d, "account.login_complete", token);
    let step = next(&mut d, step, Event::Client(Ok(1)));
    match &step {
        Step::Perform(Action::LoginToken { token, .. }, _) => assert_eq!(token, "sso-token"),
        _ => panic!("no login"),
    }
    let step = next(&mut d, step, Event::Session(Ok(Some(session()))));
    let step = next(&mut d, step, Event::Done(Ok(())));
    let step = next(&mut d, step, Event::Done(Ok(())));
    assert_eq!(result(step), "{\"account_id\":\"acct-1\",\"status\":\"ready\"}");
    assert_eq!(d.state.accounts[0].login_method, Some(LoginMethod::Sso));
}

#[test]
fn a_session_is_taken_up_again() {
    let mut d = with_account(None);
    let restore = || Params::Account { account_id: account() };
    assert_eq!(
        result(ask(&mut d, "matrix.session.restore", restore())),
        "-32602 no stored session"
    );
    d.state.accounts[0].session = Some(session());
    let step = ask(&mut d, "account.session_restore", restore());
    let step = next(&mut d, step, Event::Client(Ok(9)));
    match &step {
        Step::Perform(Action::RestoreSession { client, session }, _) => {
            assert_eq!(*client, 9);
            assert_eq!(session.user_id, "@alice:example.com");
        }
        _ => panic!("not restored"),
    }
    let step = next(&mut d, step, Event::Done(Ok(())));
    let step = next(&mut d, step, Event::Done(Ok(())));
    assert_eq!(result(step), "{\"account_id\":\"acct-1\",\"status\":\"ready\"}");
    let mut broken = session();
    broken.user_id = "nobody".to_string();
    d.state.accounts[0].session = Some(broken);
    let step = ask(&mut d, "account.session_restore", restore());
    let step = next(&mut d, step, Event::Client(Ok(10)));
    assert!(result(step).starts_with("-32603 internal error: "));
    assert_eq!(d.runtime.get_client("acct-1"), Some(9));
}

#[test]
fn accounts_are_marked_without_a_homeserver() {
    let mut d = with_account(None);
    let step = ask(&mut d, "login.start", Params::Account { account_id: account() });
    let step = next(&mut d, step, Event::Done(Ok(())));
    assert_eq!(
        result(step),
        "{\"account_id\":\"acct-1\",\"login_method\":\"sso\",\"sso_url\":\"https://example.com/_matrix/client/v3/login/sso/redirect\",\"redirect_url\":\"http://127.0.0.1:9388/callback\"}"
    );
    let token = Params::Token {
        account_id: account(),
        token: "opaque-token".to_string(),
        device_name: None,
    };
    let step = ask(&mut d, "login.complete", token);
    let step = next(&mut d, step, Event::Done(Ok(())));
    assert_eq!(result(step), "{\"account_id\":\"acct-1\",\"status\":\"ready\"}");
    assert_eq!(d.state.accounts[0].status, AccountStatus::Ready);
}

#[test]
fn pages_are_handed_on() {
    let mut d = daemon();
    let page = || Params::Page { homeserver: "https://example.com".to_string() };
    let step = ask(&mut d, "matrix.capabilities", page());
    let step = next(&mut d, step, Event::Text(Ok("https://example.com".to_string())));
    let step = next(
        &mut d,
        step,
        flows("{\"capabilities\":{\"m.change_password\":{\"enabled\":true}}}"),
    );
    assert_eq!(
        result(step),
        "{\"homeserver\":\"https://example.com\",\"capabilities\":{\"m.change_password\":{\"enabled\":true}}}"
    );
    let step = ask(&mut d, "matrix.login_flows", page());
    let step = next(&mut d, step, Event::Text(Ok("https://example.com".to_string())));
    let step = next(&mut d, step, flows(ONE));
    assert_eq!(
        result(step),
        "{\"homeserver\":\"https://example.com\",\"login\":{\"flows\":[{\"type\":\"m.login.password\"}]}}"
    );
}

#[test]
fn rooms_are_listed() {
    let mut d = with_client();
    let rooms = || {
        Event::Rooms(vec![RoomFacts {
            room_id: "!room:example.com".to_string(),
            name: Some("Chatter".to_string()),
            is_direct: Some(false),
            is_encrypted: Some(true),
        }])
    };
    let step = ask(&mut d, "matrix.rooms.list", Params::Account { account_id: account() });
    let step = next(&mut d, step, rooms());
    let list = "[{\"room_id\":\"!room:example.com\",\"name\":\"Chatter\",\"is_encrypted\":true,\"is_direct\":false}]";
    assert_eq!(result(step), list);
    let step = ask(&mut d, "room.list", Params::Account { account_id: account() });
    let step = next(&mut d, step, rooms());
    assert_eq!(result(step), format!("{{\"rooms\":{list}}}"));
    let stranger = Params::Account { account_id: "acct-2".to_string() };
    assert_eq!(result(ask(&mut d, "room.list", stranger)), "-32602 no active session");
}

fn messages(room: &str, limit: Option<u64>) -> Params {
    Params::Messages { account_id: account(), room_id: room.to_string(), limit, from: None }
}

#[test]
fn messages_are_read() {
    let mut d = with_client();
    let step = ask(&mut d, "room.messages", messages("!room:example.com", None));
    let step = next(&mut d, step, Event::Found(true));
    match &step {
        Step::Perform(Action::Messages { client, room_id, limit, from }, _) => {
            assert_eq!((*client, room_id.as_str(), *limit), (5, "!room:example.com", 20));
            assert!(from.is_none());
        }
        _ => panic!("not read"),
    }
    let page = MessagesResponse {
        start: "t0".to_string(),
        end: None,
        chunk: Vec::new(),
    };
    let step = next(&mut d, step, Event::Messages(Ok(page)));
    assert_eq!(result(step), "{\"start\":\"t0\",\"end\":null,\"chunk\":[]}");
}

#[test]
fn messages_may_not_be_read() {
    let mut d = with_client();
    let step = ask(&mut d, "matrix.room.messages", messages("room", Some(10)));
    assert!(result(step).starts_with("-32603 internal error: "));
    let step = ask(&mut d, "room.messages", messages("!room:example.com", Some(10)));
    let step = next(&mut d, step, Event::Found(false));
    assert_eq!(result(step), "-32603 internal error: unknown room");
    let step = ask(&mut d, "room.messages", messages("!room:example.com", Some(1 << 53)));
    let step = next(&mut d, step, Event::Found(true));
    assert_eq!(result(step), "-32603 internal error: invalid limit");
    let step = ask(&mut d, "room.messages", messages("!room:example.com", Some((1 << 53) - 1)));
    let step = next(&mut d, step, Event::Found(true));
    let step = next(&mut d, step, Event::Messages(Err("offline".to_string())));
    assert_eq!(result(step), "-32603 internal error: offline");
}

#[test]
fn messages_are_sent() {
    let mut d = with_client();
    let send = |txn: Option<&str>| Params::Send {
        account_id: account(),
        room_id: "!room:example.com".to_string(),
        body: "hello".to_string(),
        txn_id: txn.map(|t| t.to_string()),
    };
    let step = ask(&mut d, "room.send", send(Some("t1")));
    let step = next(&mut d, step, Event::Found(true));
    match &step {
        Step::Perform(Action::SendText { body, txn_id, .. }, _) => {
            assert_eq!(body, "hello");
            assert_eq!(txn_id.as_deref(), Some("t1"));
        }
        _ => panic!("not sent"),
    }
    let step = next(&mut d, step, Event::Text(Ok("$e".to_string())));
    assert_eq!(result(step), "{\"event_id\":\"$e\",\"txn_id\":\"t1\"}");
    let step = ask(&mut d, "room.send", send(None));
    let step = next(&mut d, step, Event::Found(false));
    assert_eq!(result(step), "-32603 internal error: unknown room");
    let step = ask(&mut d, "room.send", send(None));
    let step = next(&mut d, step, Event::Found(true));
    let step = next(&mut d, step, Event::Text(Err("offline".to_string())));
    assert_eq!(result(step), "-32603 internal error: offline");
    assert!(told(&mut d).is_empty());
}

fn verify(user: &str, device: Option<&str>) -> Params {
    Params::Request {
        account_id: account(),
        user_id: user.to_string(),
        device_id: device.map(|v| v.to_string()),
    }
}

fn facts() -> RequestFacts {
    RequestFacts {
        flow_id: "abcd".to_string(),
        user_id: "@alice:example.com".to_string(),
        state: RequestState::Created,
    }
}

#[test]
fn a_verification_is_asked_for() {
    let mut d = with_client();
    let step = ask(&mut d, "matrix.verification.request", verify("@alice:example.com", None));
    let step = next(&mut d, step, Event::User(Some("@me:example.com".to_string())));
    let step = next(&mut d, step, Event::Requested(Ok(Some(facts()))));
    assert_eq!(
        result(step),
        "{\"flow_id\":\"abcd\",\"user_id\":\"@alice:example.com\",\"state\":\"requested\"}"
    );
    assert_eq!(
        told(&mut d),
        vec!["acct-1 cursor-1 matrix.verification.state {\"flow_id\":\"abcd\",\"user_id\":\"@alice:example.com\",\"device_id\":null,\"stage\":\"requested\"}"]
    );
    let list = Params::OfUser { account_id: account(), user: None };
    assert_eq!(
        result(ask(&mut d, "matrix.verification.list", list)),
        "[{\"flow_id\":\"abcd\",\"short_id\":\"abcd\",\"user_id\":\"@alice:example.com\",\"device_id\":null,\"stage\":\"requested\"}]"
    );
    let list = Params::OfUser { account_id: account(), user: Some("@bob:x".to_string()) };
    assert_eq!(result(ask(&mut d, "matrix.verification.list", list)), "[]");
}

#[test]
fn a_verification_may_be_refused() {
    let mut d = with_client();
    let own = || Event::User(Some("@me:example.com".to_string()));
    let step = ask(&mut d, "matrix.verification.request", verify("self", Some("D")));
    let step = next(&mut d, step, Event::User(None));
    assert_eq!(result(step), "-32602 no session user id");
    let step = ask(&mut d, "matrix.verification.request", verify("nobody", None));
    let step = next(&mut d, step, own());
    assert!(result(step).starts_with("-32603 internal error: "));
    let step = ask(&mut d, "matrix.verification.request", verify("me", Some("D")));
    let step = next(&mut d, step, own());
    match &step {
        Step::Perform(Action::RequestVerification { user_id, device_id, .. }, _) => {
            assert_eq!(user_id, "@me:example.com");
            assert_eq!(device_id.as_deref(), Some("D"));
        }
        _ => panic!("not asked for"),
    }
    let step = next(&mut d, step, Event::Requested(Ok(None)));
    assert_eq!(result(step), "-32602 unknown device");
    let step = ask(&mut d, "matrix.verification.request", verify("@a:x", None));
    let step = next(&mut d, step, own());
    let step = next(&mut d, step, Event::Requested(Ok(None)));
    assert_eq!(result(step), "-32602 unknown user");
    assert!(told(&mut d).is_empty());
}

#[test]
fn ones_own_identity_is_verified_where_no_device_is_named() {
    let mut d = with_client();
    for user in ["me", "self", "@me:example.com"] {
        let step = ask(&mut d, "matrix.verification.request", verify(user, None));
        let step = next(&mut d, step, Event::User(Some("@me:example.com".to_string())));
        match &step {
            Step::Perform(Action::RequestVerification { user_id, device_id, .. }, _) => {
                assert_eq!(user_id, "@me:example.com");
                assert!(device_id.is_none());
            }
            _ => panic!("not asked for"),
        }
        let mut own = facts();
        own.user_id = "@me:example.com".to_string();
        let step = next(&mut d, step, Event::Requested(Ok(Some(own))));
        assert_eq!(
            result(step),
            "{\"flow_id\":\"abcd\",\"user_id\":\"@me:example.com\",\"state\":\"requested\"}"
        );
    }
}

#[test]
fn a_new_account_goes_through_a_browser_where_it_can() {
    let mut d = daemon();
    let step = ask(&mut d, "account.add", add_params(None));
    let step = next(&mut d, step, Event::Text(Ok("https://example.com".to_string())));
    let step = next(&mut d, step, flows(BOTH));
    let step = next(&mut d, step, Event::Done(Ok(())));
    assert_eq!(
        result(step),
        "{\"id\":\"acct-1\",\"homeserver\":\"https://example.com\",\"login_method\":\"sso\",\"status\":\"needs_login\"}"
    );
}

#[test]
fn a_verification_is_accepted_and_watched() {
    let mut d = with_client();
    let step = ask(&mut d, "matrix.verification.accept", flow("me"));
    let step = next(&mut d, step, Event::User(Some("@me:example.com".to_string())));
    let step = next(&mut d, step, Event::Known(Ok(true)));
    match &step {
        Step::Perform(Action::WatchVerification { client, user_id, flow_id, .. }, _) => {
            assert_eq!(*client, 5);
            assert_eq!(user_id, "@me:example.com");
            assert_eq!(flow_id, "abcd");
        }
        _ => panic!("not watched"),
    }
    let step = next(&mut d, step, Event::Done(Ok(())));
    assert_eq!(result(step), "{\"flow_id\":\"abcd\",\"status\":\"accepted\"}");
    let kept = d.runtime.verifications_handle().find("acct-1", "abcd").unwrap();
    assert_eq!((kept.user_id.as_str(), kept.stage.as_str()), ("me", "accepted"));
    assert_eq!(
        told(&mut d),
        vec!["acct-1 cursor-1 matrix.verification.state {\"flow_id\":\"abcd\",\"user_id\":\"@me:example.com\",\"stage\":\"accepted\"}"]
    );
    let step = ask(&mut d, "matrix.verification.accept", flow("@a:x"));
    let step = next(&mut d, step, Event::Known(Ok(false)));
    assert_eq!(result(step), "-32602 unknown verification");
}

fn confirm(matches: bool) -> Params {
    Params::Confirm {
        account_id: account(),
        user_id: "@alice:example.com".to_string(),
        flow_id: "abcd".to_string(),
        matches,
    }
}

#[test]
fn a_verification_is_confirmed_or_not() {
    let mut d = with_client();
    let step = ask(&mut d, "matrix.verification.accept", flow("@alice:example.com"));
    let step = next(&mut d, step, Event::Known(Ok(true)));
    let _ = next(&mut d, step, Event::Done(Ok(())));
    let _ = told(&mut d);
    let step = ask(&mut d, "matrix.verification.confirm", confirm(true));
    match &step {
        Step::Perform(Action::AnswerSas { matches, .. }, _) => assert!(*matches),
        _ => panic!("not answered"),
    }
    let step = next(&mut d, step, Event::Known(Ok(true)));
    assert_eq!(result(step), "{\"flow_id\":\"abcd\",\"status\":\"confirmed\"}");
    assert!(d.runtime.verifications_handle().find("acct-1", "abcd").is_none());
    let step = ask(&mut d, "matrix.verification.confirm", confirm(false));
    let step = next(&mut d, step, Event::Known(Ok(true)));
    assert_eq!(result(step), "{\"flow_id\":\"abcd\",\"status\":\"mismatch\"}");
    let step = ask(&mut d, "matrix.verification.confirm", confirm(false));
    let step = next(&mut d, step, Event::Known(Ok(false)));
    assert_eq!(result(step), "-32602 unknown sas");
    assert_eq!(
        told(&mut d),
        vec![
            "acct-1 cursor-2 matrix.verification.done {\"flow_id\":\"abcd\",\"user_id\":\"@alice:example.com\",\"reason\":\"verified\"}",
            "acct-1 cursor-3 matrix.verification.cancelled {\"flow_id\":\"abcd\",\"user_id\":\"@alice:example.com\",\"reason\":\"mismatch\"}",
        ]
    );
}

#[test]
fn a_verification_is_cancelled() {
    let mut d = with_client();
    let step = ask(&mut d, "matrix.verification.cancel", flow("@alice:example.com"));
    let step = next(&mut d, step, Event::Done(Ok(())));
    assert_eq!(result(step), "{\"flow_id\":\"abcd\",\"status\":\"cancelled\"}");
    assert_eq!(
        told(&mut d),
        vec!["acct-1 cursor-1 matrix.verification.cancelled {\"flow_id\":\"abcd\",\"user_id\":\"@alice:example.com\",\"reason\":\"user_cancelled\"}"]
    );
    let step = ask(&mut d, "matrix.verification.cancel", flow("self"));
    let step = next(&mut d, step, Event::User(None));
    assert_eq!(result(step), "-32602 no session user id");
    let step = ask(&mut d, "matrix.verification.cancel", flow("bad id"));
    assert!(result(step).starts_with("-32603 internal error: "));
}

#[test]
fn a_string_is_started_and_read() {
    let mut d = with_client();
    let sas = || SasFacts {
        supports_emoji: true,
        can_be_presented: true,
        is_done: false,
        is_cancelled: false,
        decimals: Some((123, 456, 789)),
        emoji: None,
    };
    let shown = "{\"supports_emoji\":true,\"can_be_presented\":true,\"is_done\":false,\"is_cancelled\":false,\"decimals\":[123,456,789]}";
    let step = ask(&mut d, "matrix.verification.start_sas", flow("@alice:example.com"));
    assert!(matches!(step, Step::Perform(Action::StartSas { .. }, _)));
    let step = next(&mut d, step, Event::Sas(Ok(Some(sas()))));
    assert_eq!(result(step), shown);
    let step = ask(&mut d, "matrix.verification.sas", flow("@alice:example.com"));
    assert!(matches!(step, Step::Perform(Action::ReadSas { .. }, _)));
    let step = next(&mut d, step, Event::Sas(Ok(Some(sas()))));
    assert_eq!(result(step), shown);
    let step = ask(&mut d, "matrix.verification.sas", flow("@alice:example.com"));
    let step = next(&mut d, step, Event::Sas(Ok(None)));
    assert_eq!(result(step), "-32602 unknown sas");
}

#[test]
fn devices_are_listed() {
    let mut d = with_client();
    let devices = || {
        Event::Devices(Ok(vec![DeviceFacts {
            user_id: "@a:x".to_string(),
            device_id: "D".to_string(),
            display_name: Some("Phone".to_string()),
            is_verified: false,
        }]))
    };
    let of = |user: Option<&str>| Params::OfUser {
        account_id: account(),
        user: user.map(|u| u.to_string()),
    };
    let step = ask(&mut d, "matrix.devices.list", of(Some("@a:x")));
    let step = next(&mut d, step, devices());
    assert_eq!(
        result(step),
        "[{\"user_id\":\"@a:x\",\"device_id\":\"D\",\"display_name\":\"Phone\",\"is_verified\":false}]"
    );
    let step = ask(&mut d, "matrix.devices.list", of(None));
    let step = next(&mut d, step, Event::User(Some("@me:x".to_string())));
    match &step {
        Step::Perform(Action::Devices { user_id, .. }, _) => assert_eq!(user_id, "@me:x"),
        _ => panic!("not listed"),
    }
    let step = ask(&mut d, "matrix.devices.list", of(None));
    let step = next(&mut d, step, Event::User(None));
    assert_eq!(result(step), "-32602 missing user id");
    let step = ask(&mut d, "matrix.devices.list", of(Some("bad")));
    assert!(result(step).starts_with("-32603 internal error: "));
    let step = ask(&mut d, "matrix.devices.list", of(Some("@a:x")));
    let step = next(&mut d, step, Event::Devices(Err("offline".to_string())));
    assert_eq!(result(step), "-32603 internal error: offline");
}

#[test]
fn long_flow_ids_are_listed_with_their_first_eight_bytes() {
    let mut d = with_client();
    let mut long = facts();
    long.flow_id = "0123456789".to_string();
    let step = ask(&mut d, "matrix.verification.request", verify("@alice:example.com", None));
    let step = next(&mut d, step, Event::User(None));
    let _ = next(&mut d, step, Event::Requested(Ok(Some(long))));
    let list = Params::OfUser { account_id: account(), user: None };
    assert_eq!(
        result(ask(&mut d, "matrix.verification.list", list)),
        "[{\"flow_id\":\"0123456789\",\"short_id\":\"01234567\",\"user_id\":\"@alice:example.com\",\"device_id\":null,\"stage\":\"requested\"}]"
    );
    let mut odd = facts();
    odd.flow_id = "1234567\u{e9}".to_string();
    let step = ask(&mut d, "matrix.verification.request", verify("@alice:example.com", None));
    let step = next(&mut d, step, Event::User(None));
    let _ = next(&mut d, step, Event::Requested(Ok(Some(odd))));
    let read = Some(Ok(Params::OfUser { account_id: account(), user: None }));
    assert!(!is_well_read(&d, &request("matrix.verification.list"), &read));
}

#[test]
fn events_of_the_wrong_kind_do_not_fit() {
    let mut d = with_client();
    match ask(&mut d, "room.list", Params::Account { account_id: account() }) {
        Step::Perform(_, waiting) => {
            assert!(!waiting.is_fit(&Event::Found(true)));
            assert!(waiting.is_fit(&Event::Rooms(Vec::new())));
        }
        _ => panic!("answered"),
    }
}

#[test]
fn accounts_that_are_added_stay_apart() {
    let mut d = daemon();
    for n in 1..=3 {
        let step = ask(&mut d, "account.add", add_params(None));
        let step = next(&mut d, step, Event::Text(Ok(format!("https://h{n}"))));
        let step = next(&mut d, step, flows(ONE));
        let _ = next(&mut d, step, Event::Done(Ok(())));
    }
    let ids: Vec<&str> = d.state.accounts.iter().map(|a| a.id.as_str()).collect();
    assert_eq!(ids, vec!["acct-1", "acct-2", "acct-3"]);
    let cursors: Vec<String> = d
        .bus
        .take_outbox()
        .iter()
        .map(|e| format!("{} {}", e.account_id, e.cursor))
        .collect();
    assert_eq!(cursors, vec!["acct-1 cursor-1", "acct-2 cursor-1", "acct-3 cursor-1"]);
    assert_eq!(d.state.find("acct-2").unwrap().homeserver, "https://h2");
}

#[test]
fn a_request_is_known_by_its_state() {
    for (state, shown) in [
        (RequestState::Created, "requested"),
        (RequestState::Requested, "requested"),
        (RequestState::Ready, "ready"),
        (RequestState::Transitioned, "transitioned"),
        (RequestState::Done, "done"),
        (RequestState::Cancelled, "cancelled"),
    ] {
        assert_eq!(request_state_name(state), shown);
    }
}
