use chatter::config::{config_path, Config};
use chatter::state::{
    join_path, method_to_string, status_to_string, Account, AccountStatus, LoginMethod,
    MatrixSession, PersistedState, State,
};

fn session() -> MatrixSession {
    MatrixSession {
        user_id: "@alice:example.com".to_string(),
        device_id: "DEV".to_string(),
        access_token: "token".to_string(),
        refresh_token: None,
    }
}

#[test]
fn a_fresh_state_counts_from_one() {
    let mut state = State::load("./state".to_string(), None);
    assert_eq!(state.next_id, 1);
    assert!(state.accounts.is_empty());
    let account = state.add("https://example.com".to_string(), Some(LoginMethod::Sso));
    assert_eq!(account.id, "acct-1");
    assert_eq!(state.next_id, 2);
    let second = state.add("https://b".to_string(), None);
    assert_eq!(second.id, "acct-2");
    assert_eq!(
        account.to_json().to_text(),
        "{\"id\":\"acct-1\",\"homeserver\":\"https://example.com\",\"login_method\":\"sso\",\"status\":\"needs_login\"}"
    );
    assert_eq!(
        second.to_json().to_text(),
        "{\"id\":\"acct-2\",\"homeserver\":\"https://b\",\"login_method\":null,\"status\":\"needs_login\"}"
    );
}

#[test]
fn what_was_saved_loads_again() {
    let mut state = State::load("/var/lib/chatter".to_string(), None);
    let mut account = state.add("https://example.com".to_string(), Some(LoginMethod::Password));
    account.session = Some(session());
    account.status = AccountStatus::Ready;
    assert!(state.replace(account));
    let file = state.save();
    assert_eq!(file.path, "/var/lib/chatter/accounts.json");
    let again = State::load("/var/lib/chatter".to_string(), Some(file.contents));
    assert_eq!(again.next_id, 2);
    assert_eq!(again.state_dir(), "/var/lib/chatter");
    let found = again.find("acct-1").unwrap();
    assert_eq!(found.status, AccountStatus::Ready);
    assert_eq!(found.login_method, Some(LoginMethod::Password));
    assert_eq!(found.session.as_ref().unwrap().device_id, "DEV");
}

#[test]
fn finds_and_replaces_the_first_of_an_id() {
    let account = |home: &str| Account {
        id: "acct-1".to_string(),
        homeserver: home.to_string(),
        login_method: None,
        status: AccountStatus::NeedsLogin,
        session: None,
    };
    let mut state = State::load(
        "d".to_string(),
        Some(PersistedState {
            next_id: 9,
            accounts: vec![account("first"), account("second")],
        }),
    );
    assert_eq!(state.find("acct-1").unwrap().homeserver, "first");
    assert!(state.find("acct-2").is_none());
    assert!(state.replace(account("third")));
    assert_eq!(state.accounts[0].homeserver, "third");
    assert_eq!(state.accounts[1].homeserver, "second");
    let mut stranger = account("x");
    stranger.id = "acct-7".to_string();
    assert!(!state.replace(stranger));
    assert_eq!(state.accounts.len(), 2);
}

#[test]
fn joins_paths_as_the_standard_library_does() {
    for (a, b) in [
        ("state", "accounts.json"),
        ("state/", "accounts.json"),
        ("", "accounts.json"),
        ("/", "x"),
        ("a", "/abs"),
        ("a", ""),
    ] {
        let joined = std::path::Path::new(a).join(b);
        assert_eq!(join_path(a, b), joined.to_str().unwrap());
    }
}

#[test]
fn names_methods_and_statuses() {
    assert_eq!(method_to_string(LoginMethod::Password), "password");
    assert_eq!(method_to_string(LoginMethod::Sso), "sso");
    assert_eq!(status_to_string(&AccountStatus::NeedsLogin), "needs_login");
    assert_eq!(status_to_string(&AccountStatus::LoginInProgress), "login_in_progress");
    assert_eq!(status_to_string(&AccountStatus::Ready), "ready");
}

#[test]
fn settings_fall_back_to_the_preset_ones() {
    let preset = Config::load(None);
    assert_eq!(preset.state_dir.as_deref(), Some("./state"));
    assert_eq!(preset.rpc_listen.as_deref(), Some("127.0.0.1:9388"));
    let read = Config::load(Some(Config {
        state_dir: Some("/srv".to_string()),
        rpc_listen: None,
    }));
    assert_eq!(read.state_dir(), "/srv");
    assert_eq!(read.rpc_listen(), "127.0.0.1:9388");
    let bare = Config {
        state_dir: None,
        rpc_listen: Some("0.0.0.0:1".to_string()),
    };
    assert_eq!(bare.state_dir(), "./state");
    assert_eq!(bare.rpc_listen(), "0.0.0.0:1");
    assert_eq!(config_path(None), "chatterd.toml");
    assert_eq!(config_path(Some("x.toml".to_string())), "x.toml");
}
