//! Requests about accounts: adding one, logging it in, and taking up its session again.

use vstd::prelude::*;
use vstd::string::*;

use crate::daemon;
use crate::daemon::{Action, Credentials, Daemon, DaemonView, Resume, Step};
use crate::events;
use crate::fetch;
use crate::fetch::{Endpoint, FetchReply, FetchResult};
use crate::json;
use crate::json::{Json, JsonView};
use crate::login;
use crate::matrix;
use crate::rpc;
use crate::rpc::RpcError;
use crate::state;
use crate::state::{Account, AccountStatus, LoginMethod, MatrixSession};
use crate::text;

verus! {

/// The accounts as JSON.
pub open spec fn accounts_json(accounts: Seq<state::AccountView>) -> JsonView {
    JsonView::Array(accounts.map_values(|a: state::AccountView| a.json()))
}

/// The accounts as JSON.
pub fn account_list(accounts: &Vec<Account>) -> (r: Json)
    ensures
        r@ == accounts_json(state::account_views(accounts@)),
{
    let mut items: Vec<Json> = Vec::new();
    let mut i: usize = 0;
    while i < accounts.len()
        invariant
            i <= accounts.len(),
            items.len() == i,
            forall|k: int| 0 <= k < i ==> (#[trigger] items@[k])@ == accounts@[k]@.json(),
        decreases accounts.len() - i,
    {
        items.push(accounts[i].to_json());
        i = i + 1;
    }
    assert(json::views(items@) =~= accounts_json(state::account_views(accounts@))->Array_0);
    Json::array(items)
}

/// How far the login of an account has come, as JSON.
pub open spec fn session_status_json(account: state::AccountView) -> JsonView {
    JsonView::object().with("account_id"@, JsonView::Text(account.id)).with(
        "homeserver"@,
        JsonView::Text(account.homeserver),
    ).with("status"@, JsonView::Text(state::status_text(account.status))).with(
        "has_session"@,
        JsonView::Bool(account.session is Some),
    )
}

/// How far the logins of the accounts have come, as JSON.
pub open spec fn session_statuses_json(accounts: Seq<state::AccountView>) -> JsonView {
    JsonView::Array(accounts.map_values(|a: state::AccountView| session_status_json(a)))
}

/// How far the logins of the accounts have come, as JSON.
pub fn session_status(accounts: &Vec<Account>) -> (r: Json)
    ensures
        r@ == session_statuses_json(state::account_views(accounts@)),
{
    let mut items: Vec<Json> = Vec::new();
    let mut i: usize = 0;
    while i < accounts.len()
        invariant
            i <= accounts.len(),
            items.len() == i,
            forall|k: int|
                0 <= k < i ==> (#[trigger] items@[k])@ == session_status_json(accounts@[k]@),
        decreases accounts.len() - i,
    {
        let a: &Account = &accounts[i];
        items.push(
            Json::object().with("account_id", Json::text(a.id.as_str())).with(
                "homeserver",
                Json::text(a.homeserver.as_str()),
            ).with("status", Json::text(state::status_to_string(&a.status))).with(
                "has_session",
                Json::Bool(a.session.is_some()),
            ),
        );
        i = i + 1;
    }
    assert(json::views(items@) =~= session_statuses_json(
        state::account_views(accounts@),
    )->Array_0);
    Json::array(items)
}

/// Whether the step finds the homeserver and goes on as given.
pub open spec fn resolves(step: Step, homeserver: Seq<char>, then_to: Resume) -> bool {
    step matches Step::Perform(Action::ResolveHomeserver { homeserver: h }, next) && h@
        == homeserver && next == then_to
}

/// Whether the step writes the accounts of the state to disk.
pub open spec fn saves(step: Step, accounts: state::StateView) -> bool {
    &&& step matches Step::Perform(Action::Save { file }, _)
    &&& file.path@ == state::joined_path(accounts.state_dir, "accounts.json"@)
    &&& file.contents@ == accounts.persisted()
}

/// Whether the step is the one that [`add_start`] takes.
pub open spec fn add_start_step(
    homeserver: String,
    login_method: Option<LoginMethod>,
    s: Step,
) -> bool {
    resolves(s, homeserver@, Resume::AddResolved { login_method })
}

/// Starts to add an account: its homeserver is looked up.
pub fn add_start(homeserver: String, login_method: Option<LoginMethod>) -> (s: Step)
    ensures
        add_start_step(homeserver, login_method, s),
{
    Step::Perform(Action::ResolveHomeserver { homeserver }, Resume::AddResolved { login_method })
}

/// Whether the step is the one that [`add_resolved`] takes.
pub open spec fn add_resolved_step(
    login_method: Option<LoginMethod>,
    found: Result<String, String>,
    s: Step,
) -> bool {
    match found {
        Err(err) => daemon::refuses(s, rpc::internal_error_view(err@)),
        Ok(homeserver) => {
            &&& s matches Step::Perform(
                Action::Get { url },
                Resume::AddFetched { homeserver: h, login_method: m },
            )
            &&& url@ == fetch::endpoint_url(homeserver@, Endpoint::LoginTypes)
            &&& h@ == homeserver@
            &&& m == login_method
        },
    }
}

/// Goes on once the new account's homeserver is known: its login flows are asked for.
pub fn add_resolved(login_method: Option<LoginMethod>, found: Result<String, String>) -> (s: Step)
    ensures
        add_resolved_step(login_method, found, s),
{
    match found {
        Err(err) => daemon::failed(err.as_str()),
        Ok(homeserver) => {
            let url: String = fetch::url(homeserver.as_str(), Endpoint::LoginTypes);
            Step::Perform(Action::Get { url }, Resume::AddFetched { homeserver, login_method })
        },
    }
}

/// What is to happen once the new account's login flows are there.
pub open spec fn add_flows_known(
    before: DaemonView,
    homeserver: Seq<char>,
    login_method: Option<LoginMethod>,
    flows: Result<fetch::PageView, rpc::ErrorView>,
    after: DaemonView,
    s: Step,
) -> bool {
    match flows {
        Err(error) => daemon::refuses(s, error) && after == before,
        Ok(page) => match login::add_choice(login_method, login::offered(page.value)) {
            Err(error) => daemon::refuses(s, error) && after == before,
            Ok(selected) => {
                &&& after == (DaemonView {
                    state: before.state.added(homeserver, selected),
                    ..before
                })
                &&& saves(s, after.state)
                &&& s matches Step::Perform(_, Resume::AddSaved { account })
                &&& account@ == before.state.next_account(homeserver, selected)
            },
        },
    }
}

/// Goes on with the new account's login flows: the account is made and saved.
pub fn add_page(
    d: &mut Daemon,
    homeserver: String,
    login_method: Option<LoginMethod>,
    flows: Result<FetchResult, RpcError>,
) -> (s: Step)
    requires
        old(d)@.state.next_id < u64::MAX,
    ensures
        add_flows_known(
            old(d)@,
            homeserver@,
            login_method,
            fetch::page_outcome(flows),
            final(d)@,
            s,
        ),
{
    let page: FetchResult = match flows {
        Err(error) => {
            return Step::Reply(Err(error));
        },
        Ok(page) => page,
    };
    let available: Vec<LoginMethod> = login::extract_login_methods(&page.value);
    match login::choose_for_new(login_method, &available) {
        Err(error) => Step::Reply(Err(error)),
        Ok(selected) => {
            let account: Account = d.state.add(homeserver, selected);
            Step::Perform(Action::Save { file: d.state.save() }, Resume::AddSaved { account })
        },
    }
}

/// Goes on once the new account's homeserver has answered: the account is made and saved.
pub fn add_fetched(
    d: &mut Daemon,
    homeserver: String,
    login_method: Option<LoginMethod>,
    reply: FetchReply,
) -> (s: Step)
    requires
        old(d)@.state.next_id < u64::MAX,
        reply.valid(),
    ensures
        add_flows_known(
            old(d)@,
            homeserver@,
            login_method,
            fetch::reply_meaning(reply, Endpoint::LoginTypes),
            final(d)@,
            s,
        ),
{
    let flows: Result<FetchResult, RpcError> = fetch::interpret(reply, Endpoint::LoginTypes);
    add_page(d, homeserver, login_method, flows)
}

/// Whether the step, and the daemon after it, are those of [`add_saved`].
pub open spec fn add_saved_step(
    before: DaemonView,
    account: Account,
    saved: Result<(), String>,
    after: DaemonView,
    s: Step,
) -> bool {
    match saved {
        Err(err) => daemon::refuses(s, rpc::internal_error_view(err@)) && after == before,
        Ok(_) => {
            &&& daemon::replies(s, account@.json())
            &&& after == (DaemonView {
                bus: before.bus.emitted(
                    account@.id,
                    "account.state"@,
                    matrix::account_state_json(account@),
                ),
                ..before
            })
        },
    }
}

/// Ends the request to add an account, once it is saved.
pub fn add_saved(d: &mut Daemon, account: Account, saved: Result<(), String>) -> (s: Step)
    requires
        old(d)@.bus.room_for(account.id@, 1),
    ensures
        add_saved_step(old(d)@, account, saved, final(d)@, s),
{
    match saved {
        Err(err) => daemon::failed(err.as_str()),
        Ok(_) => {
            let _ = d.bus.emit(
                account.id.as_str(),
                "account.state",
                matrix::account_state_data(&account),
            );
            Step::Reply(Ok(account.to_json()))
        },
    }
}

/// The account once its login is in progress.
pub open spec fn in_progress(account: state::AccountView) -> state::AccountView {
    state::AccountView { status: AccountStatus::LoginInProgress, ..account }
}

/// Whether the step, and the daemon after it, are those of [`login_start`].
pub open spec fn login_start_step(
    before: DaemonView,
    account_id: String,
    requested: Option<LoginMethod>,
    after: DaemonView,
    s: Step,
) -> bool {
    match before.state.find(account_id@) {
        None => {
            &&& daemon::refuses(s, rpc::bad_params_view("unknown account"@))
            &&& after == before
        },
        Some(account) => {
            &&& after == (DaemonView {
                state: before.state.replaced(account_id@, in_progress(account)),
                ..before
            })
            &&& saves(s, after.state)
            &&& s matches Step::Perform(
                _,
                Resume::StartSaved { account_id: a, requested: r, stored: m, homeserver: h },
            )
            &&& a@ == account_id@
            &&& r == requested
            &&& m == account.login_method
            &&& h@ == account.homeserver
        },
    }
}

/// Starts a login: the account is marked and saved.
pub fn login_start(d: &mut Daemon, account_id: String, requested: Option<LoginMethod>) -> (s: Step)
    ensures
        login_start_step(old(d)@, account_id, requested, final(d)@, s),
{
    proof {
        state::lemma_place_found(d@.state.accounts, account_id@);
    }
    let mut account: Account = match d.state.find(account_id.as_str()) {
        None => {
            return daemon::refused("unknown account");
        },
        Some(account) => account.copy(),
    };
    account.status = AccountStatus::LoginInProgress;
    let stored: Option<LoginMethod> = account.login_method;
    let homeserver: String = account.homeserver.clone();
    let _ = d.state.replace(account);
    Step::Perform(
        Action::Save { file: d.state.save() },
        Resume::StartSaved { account_id, requested, stored, homeserver },
    )
}

/// The bus once the state of an account was told, where there is such an account.
pub open spec fn account_told(
    bus: events::BusView,
    account: Option<state::AccountView>,
) -> events::BusView {
    match account {
        Some(a) => bus.emitted(a.id, "account.state"@, matrix::account_state_json(a)),
        None => bus,
    }
}

/// Whether the step, and the daemon after it, are those of [`start_saved`].
pub open spec fn start_saved_step(
    before: DaemonView,
    account_id: String,
    requested: Option<LoginMethod>,
    stored: Option<LoginMethod>,
    homeserver: String,
    saved: Result<(), String>,
    after: DaemonView,
    s: Step,
) -> bool {
    match saved {
        Err(err) => daemon::refuses(s, rpc::internal_error_view(err@)) && after == before,
        Ok(_) => {
            &&& after == (DaemonView {
                bus: account_told(before.bus, before.state.find(account_id@)),
                ..before
            })
            &&& resolves(s, homeserver@, Resume::StartResolved { account_id, requested, stored })
        },
    }
}

/// Goes on once the login's mark is saved: it is told, and the homeserver is looked up.
pub fn start_saved(
    d: &mut Daemon,
    account_id: String,
    requested: Option<LoginMethod>,
    stored: Option<LoginMethod>,
    homeserver: String,
    saved: Result<(), String>,
) -> (s: Step)
    requires
        old(d)@.bus.room_for(account_id@, 1),
    ensures
        start_saved_step(old(d)@, account_id, requested, stored, homeserver, saved, final(d)@, s),
{
    match saved {
        Err(err) => daemon::failed(err.as_str()),
        Ok(_) => {
            proof {
                state::lemma_place_found(d@.state.accounts, account_id@);
            }
            match d.state.find(account_id.as_str()) {
                Some(account) => {
                    let _ = d.bus.emit(
                        account.id.as_str(),
                        "account.state",
                        matrix::account_state_data(account),
                    );
                },
                None => {},
            }
            Step::Perform(
                Action::ResolveHomeserver { homeserver },
                Resume::StartResolved { account_id, requested, stored },
            )
        },
    }
}

/// Whether the step is the one that [`start_resolved`] takes.
pub open spec fn start_resolved_step(
    account_id: String,
    requested: Option<LoginMethod>,
    stored: Option<LoginMethod>,
    found: Result<String, String>,
    s: Step,
) -> bool {
    match found {
        Err(err) => daemon::refuses(s, rpc::internal_error_view(err@)),
        Ok(homeserver) => {
            &&& s matches Step::Perform(
                Action::Get { url },
                Resume::StartFetched { account_id: a, requested: r, stored: m, homeserver: h },
            )
            &&& url@ == fetch::endpoint_url(homeserver@, Endpoint::LoginTypes)
            &&& a@ == account_id@
            &&& r == requested
            &&& m == stored
            &&& h@ == homeserver@
        },
    }
}

/// Goes on once the login's homeserver is known: its login flows are asked for.
pub fn start_resolved(
    account_id: String,
    requested: Option<LoginMethod>,
    stored: Option<LoginMethod>,
    found: Result<String, String>,
) -> (s: Step)
    ensures
        start_resolved_step(account_id, requested, stored, found, s),
{
    match found {
        Err(err) => daemon::failed(err.as_str()),
        Ok(homeserver) => {
            let url: String = fetch::url(homeserver.as_str(), Endpoint::LoginTypes);
            Step::Perform(
                Action::Get { url },
                Resume::StartFetched { account_id, requested, stored, homeserver },
            )
        },
    }
}

/// What is to happen once the login flows of a login are there: a method is chosen, and
/// saved with the account where it is another one than before.
pub open spec fn start_flows_known(
    before: DaemonView,
    account_id: Seq<char>,
    requested: Option<LoginMethod>,
    stored: Option<LoginMethod>,
    homeserver: Seq<char>,
    flows: Result<fetch::PageView, rpc::ErrorView>,
    after: DaemonView,
    s: Step,
) -> bool {
    match flows {
        Err(error) => daemon::refuses(s, error) && after == before,
        Ok(page) => match login::start_choice(requested, stored, login::offered(page.value)) {
            Err(error) => daemon::refuses(s, error) && after == before,
            Ok(method) => match before.state.find(account_id) {
                Some(account) if stored != Some(method) => {
                    &&& after == (DaemonView {
                        state: before.state.replaced(
                            account_id,
                            state::AccountView { login_method: Some(method), ..account },
                        ),
                        ..before
                    })
                    &&& saves(s, after.state)
                    &&& s matches Step::Perform(
                        _,
                        Resume::StartMethodSaved { account_id: a, method: m, homeserver: h },
                    )
                    &&& a@ == account_id
                    &&& m == method
                    &&& h@ == homeserver
                },
                _ => {
                    &&& daemon::replies(s, login::login_start_json(account_id, method, homeserver))
                    &&& after == before
                },
            },
        },
    }
}

/// Goes on with the login flows of a login: a method is chosen.
pub fn start_page(
    d: &mut Daemon,
    account_id: String,
    requested: Option<LoginMethod>,
    stored: Option<LoginMethod>,
    homeserver: String,
    flows: Result<FetchResult, RpcError>,
) -> (s: Step)
    ensures
        start_flows_known(
            old(d)@,
            account_id@,
            requested,
            stored,
            homeserver@,
            fetch::page_outcome(flows),
            final(d)@,
            s,
        ),
{
    proof {
        state::lemma_place_found(d@.state.accounts, account_id@);
    }
    let page: FetchResult = match flows {
        Err(error) => {
            return Step::Reply(Err(error));
        },
        Ok(page) => page,
    };
    let available: Vec<LoginMethod> = login::extract_login_methods(&page.value);
    let method: LoginMethod = match login::choose_for_login(requested, stored, &available) {
        Err(error) => {
            return Step::Reply(Err(error));
        },
        Ok(method) => method,
    };
    let changed: bool = match stored {
        Some(m) => m != method,
        None => true,
    };
    if changed {
        let found: Option<Account> = match d.state.find(account_id.as_str()) {
            Some(account) => Some(account.copy()),
            None => None,
        };
        match found {
            Some(account) => {
                let mut account = account;
                account.login_method = Some(method);
                let _ = d.state.replace(account);
                return Step::Perform(
                    Action::Save { file: d.state.save() },
                    Resume::StartMethodSaved { account_id, method, homeserver },
                );
            },
            None => {},
        }
    }
    Step::Reply(
        Ok(login::login_start_reply(account_id.as_str(), method, homeserver.as_str())),
    )
}

/// Goes on once the homeserver of a login has answered: a method is chosen.
pub fn start_fetched(
    d: &mut Daemon,
    account_id: String,
    requested: Option<LoginMethod>,
    stored: Option<LoginMethod>,
    homeserver: String,
    reply: FetchReply,
) -> (s: Step)
    requires
        reply.valid(),
    ensures
        start_flows_known(
            old(d)@,
            account_id@,
            requested,
            stored,
            homeserver@,
            fetch::reply_meaning(reply, Endpoint::LoginTypes),
            final(d)@,
            s,
        ),
{
    let flows: Result<FetchResult, RpcError> = fetch::interpret(reply, Endpoint::LoginTypes);
    start_page(d, account_id, requested, stored, homeserver, flows)
}

/// Whether the step is the one that [`start_method_saved`] takes.
pub open spec fn start_method_saved_step(
    account_id: Seq<char>,
    method: LoginMethod,
    homeserver: Seq<char>,
    saved: Result<(), String>,
    s: Step,
) -> bool {
    match saved {
        Err(err) => daemon::refuses(s, rpc::internal_error_view(err@)),
        Ok(_) => daemon::replies(
            s,
            login::login_start_json(account_id, method, homeserver),
        ),
    }
}

/// Ends the request to start a login, once the method is saved.
pub fn start_method_saved(
    account_id: &str,
    method: LoginMethod,
    homeserver: &str,
    saved: Result<(), String>,
) -> (s: Step)
    ensures
        start_method_saved_step(account_id@, method, homeserver@, saved, s),
{
    match saved {
        Err(err) => daemon::failed(err.as_str()),
        Ok(_) => Step::Reply(Ok(login::login_start_reply(account_id, method, homeserver))),
    }
}

/// Whether the step makes a client for the account and goes on to log it in.
pub open spec fn builds_client(
    step: Step,
    accounts: state::StateView,
    account: state::AccountView,
    credentials: Credentials,
) -> bool {
    &&& step matches Step::Perform(
        Action::BuildClient { homeserver, store_dir },
        Resume::LoginBuilt { account_id: a, credentials: c },
    )
    &&& homeserver@ == account.homeserver
    &&& store_dir@ == matrix::store_dir(accounts.state_dir, account.id)
    &&& a@ == account.id
    &&& c == credentials
}

fn build_client(d: &Daemon, account: &Account, credentials: Credentials) -> (s: Step)
    ensures
        builds_client(s, d@.state, account@, credentials),
{
    let store_dir: String = matrix::account_store_dir(d.state.state_dir(), account.id.as_str());
    Step::Perform(
        Action::BuildClient { homeserver: account.homeserver.clone(), store_dir },
        Resume::LoginBuilt { account_id: account.id.clone(), credentials },
    )
}

/// Whether the step is the one that [`login_with`] takes.
pub open spec fn login_with_step(
    before: DaemonView,
    account_id: Seq<char>,
    credentials: Credentials,
    s: Step,
) -> bool {
    match before.state.find(account_id) {
        None => daemon::refuses(s, rpc::bad_params_view("unknown account"@)),
        Some(account) => builds_client(s, before.state, account, credentials),
    }
}

/// Starts to log in with a password or a token: a client is made for the account.
pub fn login_with(d: &Daemon, account_id: &str, credentials: Credentials) -> (s: Step)
    ensures
        login_with_step(d@, account_id@, credentials, s),
{
    match d.state.find(account_id) {
        None => daemon::refused("unknown account"),
        Some(account) => build_client(d, account, credentials),
    }
}

/// Whether the step is the one that [`session_restore`] takes.
pub open spec fn session_restore_step(
    before: DaemonView,
    account_id: Seq<char>,
    s: Step,
) -> bool {
    match before.state.find(account_id) {
        None => daemon::refuses(s, rpc::bad_params_view("unknown account"@)),
        Some(account) => match account.session {
            None => daemon::refuses(s, rpc::bad_params_view("no stored session"@)),
            Some(stored) => exists|session: MatrixSession|
                session@ == stored && #[trigger] builds_client(
                    s,
                    before.state,
                    account,
                    Credentials::Stored { session },
                ),
        },
    }
}

/// Starts to take up an account's session again: a client is made for it.
pub fn session_restore(d: &Daemon, account_id: &str) -> (s: Step)
    ensures
        session_restore_step(d@, account_id@, s),
{
    match d.state.find(account_id) {
        None => daemon::refused("unknown account"),
        Some(account) => match &account.session {
            None => daemon::refused("no stored session"),
            Some(stored) => {
                let session: MatrixSession = stored.copy();
                let ghost kept = session;
                let s: Step = build_client(d, account, Credentials::Stored { session });
                assert(builds_client(s, d@.state, account@, Credentials::Stored { session: kept }));
                s
            },
        },
    }
}

/// What is to happen once there is a client: a login, or a session that is taken up again.
pub open spec fn logs_in(
    s: Step,
    account_id: Seq<char>,
    client: u64,
    credentials: Credentials,
    user_fault: Option<Seq<char>>,
) -> bool {
    match credentials {
        Credentials::Password { username, password, device_name } => {
            &&& s matches Step::Perform(
                Action::LoginPassword { client: c, username: u, password: p, device_name: n },
                Resume::LoginAnswered { account_id: a, client: c2, method },
            )
            &&& c == client && c2 == client
            &&& u@ == username@
            &&& p@ == password@
            &&& n == device_name
            &&& a@ == account_id
            &&& method == LoginMethod::Password
        },
        Credentials::Token { token, device_name } => {
            &&& s matches Step::Perform(
                Action::LoginToken { client: c, token: t, device_name: n },
                Resume::LoginAnswered { account_id: a, client: c2, method },
            )
            &&& c == client && c2 == client
            &&& t@ == token@
            &&& n == device_name
            &&& a@ == account_id
            &&& method == LoginMethod::Sso
        },
        Credentials::Stored { session } => match user_fault {
            Some(err) => daemon::refuses(s, rpc::internal_error_view(err)),
            None => {
                &&& s matches Step::Perform(
                    Action::RestoreSession { client: c, session: kept },
                    Resume::SessionRestored { account_id: a, client: c2 },
                )
                &&& c == client && c2 == client
                &&& kept@ == session@
                &&& a@ == account_id
            },
        },
    }
}

/// What is wrong with the user's id of a session that is to be taken up again.
pub open spec fn stored_user_fault(credentials: Credentials) -> Option<Seq<char>> {
    match credentials {
        Credentials::Stored { session } => matrix::user_id_fault(session.user_id@),
        _ => None,
    }
}

/// What is wrong with the user's id of a session that is to be taken up again.
pub fn credentials_fault(credentials: &Credentials) -> (r: Option<String>)
    ensures
        text::opt_text(r) == stored_user_fault(*credentials),
{
    match credentials {
        Credentials::Stored { session } => matrix::check_user_id(session.user_id.as_str()),
        _ => None,
    }
}

/// Logs in with a client, or takes up a session again unless something is wrong with its
/// user's id.
pub fn login_checked(
    account_id: String,
    client: u64,
    credentials: Credentials,
    user_fault: Option<String>,
) -> (s: Step)
    ensures
        logs_in(s, account_id@, client, credentials, text::opt_text(user_fault)),
{
    match credentials {
        Credentials::Password { username, password, device_name } => Step::Perform(
            Action::LoginPassword { client, username, password, device_name },
            Resume::LoginAnswered { account_id, client, method: LoginMethod::Password },
        ),
        Credentials::Token { token, device_name } => Step::Perform(
            Action::LoginToken { client, token, device_name },
            Resume::LoginAnswered { account_id, client, method: LoginMethod::Sso },
        ),
        Credentials::Stored { session } => match user_fault {
            Some(err) => daemon::failed(err.as_str()),
            None => Step::Perform(
                Action::RestoreSession { client, session },
                Resume::SessionRestored { account_id, client },
            ),
        },
    }
}

/// Whether the step is the one that [`login_built`] takes.
pub open spec fn login_built_step(
    account_id: String,
    credentials: Credentials,
    built: Result<u64, String>,
    s: Step,
) -> bool {
    match built {
        Err(err) => daemon::refuses(s, rpc::internal_error_view(err@)),
        Ok(client) => logs_in(
            s,
            account_id@,
            client,
            credentials,
            stored_user_fault(credentials),
        ),
    }
}

/// Goes on once there is a client: it logs in, or takes up the session again.
pub fn login_built(
    account_id: String,
    credentials: Credentials,
    built: Result<u64, String>,
) -> (s: Step)
    ensures
        login_built_step(account_id, credentials, built, s),
{
    match built {
        Err(err) => daemon::failed(err.as_str()),
        Ok(client) => {
            let user_fault: Option<String> = credentials_fault(&credentials);
            login_checked(account_id, client, credentials, user_fault)
        },
    }
}

/// The account once it is logged in.
pub open spec fn logged_in(
    account: state::AccountView,
    method: LoginMethod,
    session: state::SessionView,
) -> state::AccountView {
    state::AccountView {
        login_method: Some(method),
        status: AccountStatus::Ready,
        session: Some(session),
        ..account
    }
}

/// Whether the step, and the daemon after it, are those of [`login_answered`].
pub open spec fn login_answered_step(
    before: DaemonView,
    account_id: String,
    client: u64,
    method: LoginMethod,
    answer: Result<Option<MatrixSession>, String>,
    after: DaemonView,
    s: Step,
) -> bool {
    match answer {
        Err(err) => daemon::refuses(s, rpc::internal_error_view(err@)) && after == before,
        Ok(None) => {
            &&& daemon::refuses(s, rpc::internal_error_view("missing session after login"@))
            &&& after == before
        },
        Ok(Some(session)) => match before.state.find(account_id@) {
            None => {
                &&& daemon::refuses(s, rpc::bad_params_view("unknown account"@))
                &&& after == before
            },
            Some(account) => {
                &&& after == (DaemonView {
                    state: before.state.replaced(
                        account_id@,
                        logged_in(account, method, session@),
                    ),
                    ..before
                })
                &&& saves(s, after.state)
                &&& s matches Step::Perform(_, Resume::LoginSaved { account_id: a, client: c })
                &&& a@ == account_id@
                &&& c == client
            },
        },
    }
}

/// Goes on once the homeserver has let the account in: its session is saved.
pub fn login_answered(
    d: &mut Daemon,
    account_id: String,
    client: u64,
    method: LoginMethod,
    answer: Result<Option<MatrixSession>, String>,
) -> (s: Step)
    ensures
        login_answered_step(old(d)@, account_id, client, method, answer, final(d)@, s),
{
    proof {
        state::lemma_place_found(d@.state.accounts, account_id@);
    }
    let session: MatrixSession = match answer {
        Err(err) => {
            return daemon::failed(err.as_str());
        },
        Ok(None) => {
            return daemon::failed("missing session after login");
        },
        Ok(Some(session)) => session,
    };
    let mut account: Account = match d.state.find(account_id.as_str()) {
        None => {
            return daemon::refused("unknown account");
        },
        Some(account) => account.copy(),
    };
    account.login_method = Some(method);
    account.session = Some(session);
    account.status = AccountStatus::Ready;
    let _ = d.state.replace(account);
    Step::Perform(Action::Save { file: d.state.save() }, Resume::LoginSaved { account_id, client })
}

/// The bus once a login was told, where there is such an account.
pub open spec fn login_told(
    bus: events::BusView,
    account: Option<state::AccountView>,
) -> events::BusView {
    match account {
        Some(a) => match a.session {
            Some(session) => account_told(bus, account).emitted(
                a.id,
                "matrix.login.ready"@,
                matrix::login_ready_json(session),
            ),
            None => account_told(bus, account),
        },
        None => bus,
    }
}

/// Whether the step, and the daemon after it, are those of [`login_done`].
pub open spec fn login_done_step(
    before: DaemonView,
    account_id: Seq<char>,
    after: DaemonView,
    s: Step,
) -> bool {
    &&& daemon::replies(s, login::ready_json(account_id))
    &&& after == (DaemonView {
        bus: login_told(before.bus, before.state.find(account_id)),
        ..before
    })
}

/// Ends a login: it is told to the subscribers.
pub fn login_done(d: &mut Daemon, account_id: &str) -> (s: Step)
    requires
        old(d)@.bus.room_for(account_id@, 2),
    ensures
        login_done_step(old(d)@, account_id@, final(d)@, s),
{
    proof {
        state::lemma_place_found(d@.state.accounts, account_id@);
    }
    match d.state.find(account_id) {
        Some(account) => {
            let _ = d.bus.emit(
                account.id.as_str(),
                "account.state",
                matrix::account_state_data(account),
            );
            match &account.session {
                Some(session) => {
                    let _ = d.bus.emit(
                        account.id.as_str(),
                        "matrix.login.ready",
                        matrix::login_ready_data(session),
                    );
                },
                None => {},
            }
        },
        None => {},
    }
    Step::Reply(Ok(login::ready_reply(account_id)))
}

/// What is to happen once a client is logged in: it becomes the account's client, and the
/// account is kept synchronised from now on, where it is not yet.
pub open spec fn activated(
    before: DaemonView,
    account_id: Seq<char>,
    client: u64,
    after: DaemonView,
    s: Step,
) -> bool {
    let runtime = before.runtime.with_client(account_id, client).with_sync(account_id);
    if before.runtime.syncing.contains(account_id) {
        &&& daemon::replies(s, login::ready_json(account_id))
        &&& after == (DaemonView {
            runtime,
            bus: login_told(before.bus, before.state.find(account_id)),
            ..before
        })
    } else {
        &&& after == (DaemonView { runtime, ..before })
        &&& s matches Step::Perform(
            Action::StartSync { account_id: a, client: c },
            Resume::LoginDone { account_id: a2 },
        )
        &&& a@ == account_id
        &&& c == client
        &&& a2@ == account_id
    }
}

/// Whether the step, and the daemon after it, are those of [`activate`].
pub open spec fn activate_step(
    before: DaemonView,
    account_id: String,
    client: u64,
    ready: Result<(), String>,
    after: DaemonView,
    s: Step,
) -> bool {
    match ready {
        Err(err) => daemon::refuses(s, rpc::internal_error_view(err@)) && after == before,
        Ok(_) => activated(before, account_id@, client, after, s),
    }
}

/// Goes on once a session is saved, or taken up again: the client becomes the account's.
pub fn activate(
    d: &mut Daemon,
    account_id: String,
    client: u64,
    ready: Result<(), String>,
) -> (s: Step)
    requires
        old(d)@.bus.room_for(account_id@, 2),
    ensures
        activate_step(old(d)@, account_id, client, ready, final(d)@, s),
{
    match ready {
        Err(err) => daemon::failed(err.as_str()),
        Ok(_) => {
            d.runtime.insert_client(account_id.as_str(), client);
            if d.runtime.start_sync(account_id.as_str()) {
                let account: String = account_id.clone();
                Step::Perform(
                    Action::StartSync { account_id: account, client },
                    Resume::LoginDone { account_id },
                )
            } else {
                login_done(d, account_id.as_str())
            }
        },
    }
}

/// After a successful login the account is ready, has the method and the session that it
/// was logged in with, and every other account is as it was.
pub proof fn law_login_makes_ready(
    accounts: state::StateView,
    account_id: Seq<char>,
    method: LoginMethod,
    session: state::SessionView,
    other: Seq<char>,
)
    requires
        accounts.find(account_id) is Some,
    ensures
        ({
            let after = accounts.replaced(
                account_id,
                logged_in(accounts.find(account_id)->0, method, session),
            );
            &&& after.find(account_id) matches Some(a) && a.status == AccountStatus::Ready
                && a.session == Some(session) && a.login_method == Some(method) && a.homeserver
                == accounts.find(account_id)->0.homeserver
            &&& other != account_id ==> after.find(other) == accounts.find(other)
        }),
{
    state::lemma_place_found(accounts.accounts, account_id);
    state::law_replaced_account(
        accounts,
        account_id,
        logged_in(accounts.find(account_id)->0, method, session),
        other,
    );
}

/// A login that the homeserver lets in and that can be saved ends with the account ready
/// under its session, its client in place and being kept synchronised.
pub proof fn law_login_reaches_ready(
    asked: DaemonView,
    account_id: String,
    client: u64,
    method: LoginMethod,
    session: MatrixSession,
    saving: DaemonView,
    save: Step,
    active: DaemonView,
    next: Step,
)
    requires
        asked.state.find(account_id@) is Some,
        login_answered_step(asked, account_id, client, method, Ok(Some(session)), saving, save),
        activate_step(saving, account_id, client, Ok(()), active, next),
    ensures
        active.state.find(account_id@) matches Some(a) && a.status == AccountStatus::Ready
            && a.session == Some(session@) && a.login_method == Some(method),
        active.runtime.client(account_id@) == Some(client),
        active.runtime.syncing.contains(account_id@),
        !asked.runtime.syncing.contains(account_id@) ==> (next matches Step::Perform(
            Action::StartSync { account_id: a, client: c },
            _,
        ) && a@ == account_id@ && c == client),
        asked.runtime.syncing.contains(account_id@) ==> daemon::replies(
            next,
            login::ready_json(account_id@),
        ),
{
    state::lemma_place_found(asked.state.accounts, account_id@);
    state::law_replaced_account(
        asked.state,
        account_id@,
        logged_in(asked.state.find(account_id@)->0, method, session@),
        account_id@,
    );
}

} // verus!
