//! The plain account server: accounts that are added and marked as logged in without a
//! look at their homeservers, and the homeservers' pages.

use vstd::prelude::*;
use vstd::string::*;

use crate::account_calls;
use crate::daemon;
use crate::daemon::{Action, Resume, Step};
use crate::fetch;
use crate::fetch::{Endpoint, FetchResult, TextReply};
use crate::json::{Json, JsonView};
use crate::login;
use crate::page_calls;
use crate::rpc;
use crate::rpc::{RpcError, RpcRequest};
use crate::state;
use crate::state::{Account, AccountStatus, LoginMethod, State};
use crate::text;

verus! {

/// A homeserver's address: a bare name is taken for one on the web.
pub open spec fn normalized(homeserver: Seq<char>) -> Seq<char> {
    if "http://"@.is_prefix_of(homeserver) || "https://"@.is_prefix_of(homeserver) {
        homeserver
    } else {
        "https://"@ + homeserver
    }
}

/// A homeserver's address: a bare name is taken for one on the web.
pub fn normalize_homeserver(homeserver: &str) -> (r: String)
    ensures
        r@ == normalized(homeserver@),
{
    if text::starts_with(homeserver, "http://") || text::starts_with(homeserver, "https://") {
        homeserver.to_owned()
    } else {
        text::concat2("https://", homeserver)
    }
}

/// A homeserver's address begins as one on the web does, and stays as it is when it is
/// normalized again.
pub proof fn law_normalized_is_web_address(homeserver: Seq<char>)
    ensures
        "http://"@.is_prefix_of(normalized(homeserver)) || "https://"@.is_prefix_of(
            normalized(homeserver),
        ),
        normalized(normalized(homeserver)) == normalized(homeserver),
{
    let scheme = "https://"@;
    assert(scheme =~= (scheme + homeserver).subrange(0, scheme.len() as int));
}

/// The login method that an account goes by: through a browser where nothing is said.
pub open spec fn method_or_preset(method: Option<LoginMethod>) -> LoginMethod {
    match method {
        Some(m) => m,
        None => LoginMethod::Sso,
    }
}

fn preset_method(method: Option<LoginMethod>) -> (r: LoginMethod)
    ensures
        r == method_or_preset(method),
{
    match method {
        Some(m) => m,
        None => LoginMethod::Sso,
    }
}

/// Whether the step writes the accounts to disk and is answered so once that is done.
pub open spec fn persists(s: Step, accounts: state::StateView, reply: JsonView) -> bool {
    &&& account_calls::saves(s, accounts)
    &&& s matches Step::Perform(_, Resume::Persisted { reply: r })
    &&& r@ == reply
}

fn persist(accounts: &State, reply: Json) -> (s: Step)
    ensures
        persists(s, accounts@, reply@),
{
    Step::Perform(Action::Save { file: accounts.save() }, Resume::Persisted { reply })
}

/// Whether the step is the one that [`persisted`] takes.
pub open spec fn persisted_step(
    reply: Json,
    saved: Result<(), String>,
    s: Step,
) -> bool {
    match saved {
        Err(err) => daemon::refuses(
            s,
            (rpc::ErrorView { code: -32603, message: "persist failed: "@ + err@ }),
        ),
        Ok(_) => daemon::replies(s, reply@),
    }
}

/// Whether the accounts could be written to disk decides on the answer.
pub fn persisted(reply: Json, saved: Result<(), String>) -> (s: Step)
    ensures
        persisted_step(reply, saved, s),
{
    match saved {
        Err(err) => Step::Reply(
            Err(
                RpcError {
                    code: -32603,
                    message: text::concat2("persist failed: ", err.as_str()),
                },
            ),
        ),
        Ok(_) => Step::Reply(Ok(reply)),
    }
}

/// Adds an account.
pub fn account_add(
    accounts: &mut State,
    homeserver: String,
    login_method: Option<LoginMethod>,
) -> (s: Step)
    requires
        old(accounts)@.next_id < u64::MAX,
    ensures
        ({
            let method = Some(method_or_preset(login_method));
            &&& final(accounts)@ == old(accounts)@.added(homeserver@, method)
            &&& persists(
                s,
                final(accounts)@,
                old(accounts)@.next_account(homeserver@, method).json(),
            )
        }),
{
    let account: Account = accounts.add(homeserver, Some(preset_method(login_method)));
    persist(accounts, account.to_json())
}

/// What is to happen once an account's status is set.
pub open spec fn status_set(
    before: state::StateView,
    account_id: Seq<char>,
    status: AccountStatus,
    reply: spec_fn(state::AccountView) -> JsonView,
    after: state::StateView,
    s: Step,
) -> bool {
    match before.find(account_id) {
        None => daemon::refuses(s, rpc::bad_params_view("unknown account"@)) && after == before,
        Some(account) => {
            &&& after == before.replaced(account_id, state::AccountView { status, ..account })
            &&& persists(s, after, reply(account))
        },
    }
}

/// The answer to a login that was started.
pub open spec fn started_reply() -> spec_fn(state::AccountView) -> JsonView {
    |account: state::AccountView|
        login::login_start_json(
            account.id,
            method_or_preset(account.login_method),
            account.homeserver,
        )
}

/// The answer to a login that is complete.
pub open spec fn complete_reply() -> spec_fn(state::AccountView) -> JsonView {
    |account: state::AccountView| login::ready_json(account.id)
}

/// Marks an account's login as in progress.
pub fn login_start(accounts: &mut State, account_id: &str) -> (s: Step)
    ensures
        status_set(
            old(accounts)@,
            account_id@,
            AccountStatus::LoginInProgress,
            started_reply(),
            final(accounts)@,
            s,
        ),
{
    proof {
        state::lemma_place_found(accounts@.accounts, account_id@);
    }
    let mut account: Account = match accounts.find(account_id) {
        None => {
            return daemon::refused("unknown account");
        },
        Some(account) => account.copy(),
    };
    account.status = AccountStatus::LoginInProgress;
    let reply: Json = login::login_start_reply(
        account.id.as_str(),
        preset_method(account.login_method),
        account.homeserver.as_str(),
    );
    let _ = accounts.replace(account);
    persist(accounts, reply)
}

/// Marks an account as logged in.
pub fn login_complete(accounts: &mut State, account_id: &str) -> (s: Step)
    ensures
        status_set(
            old(accounts)@,
            account_id@,
            AccountStatus::Ready,
            complete_reply(),
            final(accounts)@,
            s,
        ),
{
    proof {
        state::lemma_place_found(accounts@.accounts, account_id@);
    }
    let mut account: Account = match accounts.find(account_id) {
        None => {
            return daemon::refused("unknown account");
        },
        Some(account) => account.copy(),
    };
    account.status = AccountStatus::Ready;
    let reply: Json = login::ready_reply(account.id.as_str());
    let _ = accounts.replace(account);
    persist(accounts, reply)
}

/// Whether the step asks the homeserver for the page.
pub open spec fn gets_page(s: Step, homeserver: Seq<char>, endpoint: Endpoint) -> bool {
    &&& s matches Step::Perform(
        Action::Get { url },
        Resume::PageText { endpoint: e, homeserver: h },
    )
    &&& url@ == fetch::endpoint_url(normalized(homeserver), endpoint)
    &&& e == endpoint
    &&& h@ == normalized(homeserver)
}

/// Asks the homeserver for the page.
pub fn page_start(homeserver: &str, endpoint: Endpoint) -> (s: Step)
    ensures
        gets_page(s, homeserver@, endpoint),
{
    let homeserver: String = normalize_homeserver(homeserver);
    let url: String = fetch::url(homeserver.as_str(), endpoint);
    Step::Perform(Action::Get { url }, Resume::PageText { endpoint, homeserver })
}

/// Ends the request once the homeserver has answered.
pub fn page_text(endpoint: Endpoint, homeserver: &str, reply: TextReply) -> (s: Step)
    requires
        reply.valid(),
    ensures
        page_calls::page_answered(s, endpoint, homeserver@, fetch::text_meaning(reply, endpoint)),
{
    let page: Result<FetchResult, RpcError> = fetch::interpret_text(reply, endpoint);
    page_calls::page_known(endpoint, homeserver, page)
}

/// The methods of the plain account server.
#[derive(Clone, Copy, Debug, PartialEq, Eq, Structural)]
pub enum AccountMethod {
    Ping,
    Version,
    List,
    Add,
    Start,
    Complete,
    LoginFlows,
    Capabilities,
}

/// The method with the given name.
pub open spec fn account_method(name: Seq<char>) -> Option<AccountMethod> {
    if name == "rpc.ping"@ {
        Some(AccountMethod::Ping)
    } else if name == "rpc.version"@ {
        Some(AccountMethod::Version)
    } else if name == "account.list"@ {
        Some(AccountMethod::List)
    } else if name == "account.add"@ {
        Some(AccountMethod::Add)
    } else if name == "login.start"@ {
        Some(AccountMethod::Start)
    } else if name == "login.complete"@ {
        Some(AccountMethod::Complete)
    } else if name == "matrix.login_flows"@ {
        Some(AccountMethod::LoginFlows)
    } else if name == "matrix.capabilities"@ {
        Some(AccountMethod::Capabilities)
    } else {
        None
    }
}

impl AccountMethod {
    /// The method with the given name.
    pub fn named(name: &str) -> (r: Option<AccountMethod>)
        ensures
            r == account_method(name@),
    {
        if text::str_eq(name, "rpc.ping") {
            Some(AccountMethod::Ping)
        } else if text::str_eq(name, "rpc.version") {
            Some(AccountMethod::Version)
        } else if text::str_eq(name, "account.list") {
            Some(AccountMethod::List)
        } else if text::str_eq(name, "account.add") {
            Some(AccountMethod::Add)
        } else if text::str_eq(name, "login.start") {
            Some(AccountMethod::Start)
        } else if text::str_eq(name, "login.complete") {
            Some(AccountMethod::Complete)
        } else if text::str_eq(name, "matrix.login_flows") {
            Some(AccountMethod::LoginFlows)
        } else if text::str_eq(name, "matrix.capabilities") {
            Some(AccountMethod::Capabilities)
        } else {
            None
        }
    }

    /// Whether the method takes parameters.
    pub open spec fn has_params(self) -> bool {
        !(self is Ping || self is Version || self is List)
    }
}

/// The parameters of a request to the plain account server.
pub enum AccountParams {
    Add { homeserver: String, login_method: Option<LoginMethod> },
    Start { account_id: String },
    Complete { account_id: String, token: String },
    Page { homeserver: String },
}

impl AccountParams {
    /// Whether the parameters are those of the method.
    pub open spec fn fits(&self, method: AccountMethod) -> bool {
        match method {
            AccountMethod::Add => *self is Add,
            AccountMethod::Start => *self is Start,
            AccountMethod::Complete => *self is Complete,
            AccountMethod::LoginFlows => *self is Page,
            AccountMethod::Capabilities => *self is Page,
            _ => true,
        }
    }
}

/// What a method without parameters answers.
pub open spec fn bare_answer(accounts: state::StateView, method: AccountMethod) -> JsonView {
    match method {
        AccountMethod::Ping => JsonView::Text("pong"@),
        AccountMethod::Version => JsonView::Text("0.1.0"@),
        _ => account_calls::accounts_json(accounts.accounts),
    }
}

/// What a method with parameters does.
pub open spec fn served(
    before: state::StateView,
    params: AccountParams,
    method: AccountMethod,
    after: state::StateView,
    s: Step,
) -> bool {
    match params {
        AccountParams::Add { homeserver, login_method } => {
            let chosen = Some(method_or_preset(login_method));
            &&& after == before.added(homeserver@, chosen)
            &&& persists(s, after, before.next_account(homeserver@, chosen).json())
        },
        AccountParams::Start { account_id } => status_set(
            before,
            account_id@,
            AccountStatus::LoginInProgress,
            started_reply(),
            after,
            s,
        ),
        AccountParams::Complete { account_id, token: _ } => status_set(
            before,
            account_id@,
            AccountStatus::Ready,
            complete_reply(),
            after,
            s,
        ),
        AccountParams::Page { homeserver } => {
            &&& after == before
            &&& gets_page(
                s,
                homeserver@,
                if method is LoginFlows {
                    Endpoint::LoginTypes
                } else {
                    Endpoint::Capabilities
                },
            )
        },
    }
}

/// What is to happen with a request to the plain account server.
pub open spec fn handled(
    before: state::StateView,
    request: RpcRequest,
    read: Option<Result<AccountParams, String>>,
    after: state::StateView,
    s: Step,
) -> bool {
    match text::opt_text(request.method) {
        Some(name) if request.right_version() => match account_method(name) {
            None => daemon::refuses(s, rpc::no_method_view()) && after == before,
            Some(method) => if !method.has_params() {
                daemon::replies(s, bare_answer(before, method)) && after == before
            } else {
                match read {
                    None => {
                        &&& daemon::refuses(s, rpc::bad_params_view("missing params"@))
                        &&& after == before
                    },
                    Some(Err(err)) => {
                        &&& daemon::refuses(s, rpc::bad_params_view("invalid params: "@ + err@))
                        &&& after == before
                    },
                    Some(Ok(params)) => served(before, params, method, after, s),
                }
            },
        },
        _ => daemon::refuses(s, rpc::invalid_request_view()) && after == before,
    }
}

/// Whether the parameters that were read are those of the request's method.
pub open spec fn well_read(
    request: RpcRequest,
    read: Option<Result<AccountParams, String>>,
) -> bool {
    match (text::opt_text(request.method), read) {
        (Some(name), Some(Ok(params))) => match account_method(name) {
            Some(method) => params.fits(method),
            None => true,
        },
        _ => true,
    }
}

/// Serves a request to the plain account server, given what came of reading its parameters,
/// if it has any. A request that is refused at once changes nothing.
pub fn handle_request(
    accounts: &mut State,
    request: &RpcRequest,
    read: Option<Result<AccountParams, String>>,
) -> (s: Step)
    requires
        read matches Some(Ok(AccountParams::Add { .. })) ==> old(accounts)@.next_id < u64::MAX,
        well_read(*request, read),
    ensures
        handled(old(accounts)@, *request, read, final(accounts)@, s),
        s matches Step::Reply(Err(_)) ==> final(accounts)@ == old(accounts)@,
{
    if !request.is_right_version() {
        return Step::Reply(Err(rpc::invalid_request()));
    }
    let name: &String = match &request.method {
        None => {
            return Step::Reply(Err(rpc::invalid_request()));
        },
        Some(name) => name,
    };
    let method: AccountMethod = match AccountMethod::named(name.as_str()) {
        None => {
            return Step::Reply(Err(rpc::no_method()));
        },
        Some(method) => method,
    };
    match method {
        AccountMethod::Ping => {
            return Step::Reply(Ok(Json::text("pong")));
        },
        AccountMethod::Version => {
            return Step::Reply(Ok(Json::text("0.1.0")));
        },
        AccountMethod::List => {
            return Step::Reply(Ok(account_calls::account_list(&accounts.accounts)));
        },
        _ => {},
    }
    match rpc::parse_params(read) {
        Err(error) => Step::Reply(Err(error)),
        Ok(AccountParams::Add { homeserver, login_method }) => account_add(
            accounts,
            homeserver,
            login_method,
        ),
        Ok(AccountParams::Start { account_id }) => login_start(accounts, account_id.as_str()),
        Ok(AccountParams::Complete { account_id, token: _ }) => login_complete(
            accounts,
            account_id.as_str(),
        ),
        Ok(AccountParams::Page { homeserver }) => {
            let endpoint: Endpoint = match method {
                AccountMethod::LoginFlows => Endpoint::LoginTypes,
                _ => Endpoint::Capabilities,
            };
            page_start(homeserver.as_str(), endpoint)
        },
    }
}

} // verus!
