//! The daemon's methods: how a request starts, and how it goes on after each action.

use vstd::prelude::*;
use vstd::string::*;

use crate::account_calls;
use crate::account_rpc;
use crate::daemon;
use crate::daemon::{Credentials, Daemon, DaemonView, Event, FlowKind, Resume, Step};
use crate::fetch;
use crate::fetch::Endpoint;
use crate::json::{Json, JsonView};
use crate::page_calls;
use crate::room_calls;
use crate::rpc;
use crate::rpc::RpcRequest;
use crate::state::{AccountStatus, LoginMethod};
use crate::text;
use crate::verification;
use crate::verification_calls;

verus! {

/// The daemon's methods.
#[derive(Clone, Copy, Debug, PartialEq, Eq, Structural)]
pub enum Method {
    Ping,
    Version,
    AccountList,
    SessionStatus,
    AccountAdd,
    LoginStart,
    LoginPassword,
    LoginToken,
    SessionRestore,
    MarkStarted,
    MarkComplete,
    RoomList,
    BareRoomList,
    RoomMessages,
    RoomSend,
    VerificationRequest,
    VerificationAccept,
    VerificationStartSas,
    VerificationSas,
    VerificationConfirm,
    VerificationCancel,
    VerificationList,
    LoginFlows,
    Capabilities,
    DevicesList,
}

/// The method with the given name.
pub open spec fn method_named(name: Seq<char>) -> Option<Method> {
    if name == "rpc.ping"@ {
        Some(Method::Ping)
    } else if name == "rpc.version"@ {
        Some(Method::Version)
    } else if name == "account.list"@ {
        Some(Method::AccountList)
    } else if name == "matrix.session.status"@ {
        Some(Method::SessionStatus)
    } else if name == "account.add"@ {
        Some(Method::AccountAdd)
    } else if name == "account.login_start"@ {
        Some(Method::LoginStart)
    } else if name == "account.login_password"@ || name == "matrix.login.password"@ {
        Some(Method::LoginPassword)
    } else if name == "account.login_complete"@ || name == "matrix.login.sso_complete"@ {
        Some(Method::LoginToken)
    } else if name == "account.session_restore"@ || name == "matrix.session.restore"@ {
        Some(Method::SessionRestore)
    } else if name == "login.start"@ {
        Some(Method::MarkStarted)
    } else if name == "login.complete"@ {
        Some(Method::MarkComplete)
    } else if name == "room.list"@ {
        Some(Method::RoomList)
    } else if name == "matrix.rooms.list"@ {
        Some(Method::BareRoomList)
    } else if name == "room.messages"@ || name == "matrix.room.messages"@ {
        Some(Method::RoomMessages)
    } else if name == "room.send"@ {
        Some(Method::RoomSend)
    } else if name == "matrix.verification.request"@ {
        Some(Method::VerificationRequest)
    } else if name == "matrix.verification.accept"@ {
        Some(Method::VerificationAccept)
    } else if name == "matrix.verification.start_sas"@ {
        Some(Method::VerificationStartSas)
    } else if name == "matrix.verification.sas"@ {
        Some(Method::VerificationSas)
    } else if name == "matrix.verification.confirm"@ {
        Some(Method::VerificationConfirm)
    } else if name == "matrix.verification.cancel"@ {
        Some(Method::VerificationCancel)
    } else if name == "matrix.verification.list"@ {
        Some(Method::VerificationList)
    } else if name == "matrix.login_flows"@ {
        Some(Method::LoginFlows)
    } else if name == "matrix.capabilities"@ {
        Some(Method::Capabilities)
    } else if name == "matrix.devices.list"@ {
        Some(Method::DevicesList)
    } else {
        None
    }
}

impl Method {
    /// The method with the given name.
    pub fn named(name: &str) -> (r: Option<Method>)
        ensures
            r == method_named(name@),
    {
        if text::str_eq(name, "rpc.ping") {
            Some(Method::Ping)
        } else if text::str_eq(name, "rpc.version") {
            Some(Method::Version)
        } else if text::str_eq(name, "account.list") {
            Some(Method::AccountList)
        } else if text::str_eq(name, "matrix.session.status") {
            Some(Method::SessionStatus)
        } else if text::str_eq(name, "account.add") {
            Some(Method::AccountAdd)
        } else if text::str_eq(name, "account.login_start") {
            Some(Method::LoginStart)
        } else if text::str_eq(name, "account.login_password") || text::str_eq(
            name,
            "matrix.login.password",
        ) {
            Some(Method::LoginPassword)
        } else if text::str_eq(name, "account.login_complete") || text::str_eq(
            name,
            "matrix.login.sso_complete",
        ) {
            Some(Method::LoginToken)
        } else if text::str_eq(name, "account.session_restore") || text::str_eq(
            name,
            "matrix.session.restore",
        ) {
            Some(Method::SessionRestore)
        } else if text::str_eq(name, "login.start") {
            Some(Method::MarkStarted)
        } else if text::str_eq(name, "login.complete") {
            Some(Method::MarkComplete)
        } else if text::str_eq(name, "room.list") {
            Some(Method::RoomList)
        } else if text::str_eq(name, "matrix.rooms.list") {
            Some(Method::BareRoomList)
        } else if text::str_eq(name, "room.messages") || text::str_eq(
            name,
            "matrix.room.messages",
        ) {
            Some(Method::RoomMessages)
        } else if text::str_eq(name, "room.send") {
            Some(Method::RoomSend)
        } else if text::str_eq(name, "matrix.verification.request") {
            Some(Method::VerificationRequest)
        } else if text::str_eq(name, "matrix.verification.accept") {
            Some(Method::VerificationAccept)
        } else if text::str_eq(name, "matrix.verification.start_sas") {
            Some(Method::VerificationStartSas)
        } else if text::str_eq(name, "matrix.verification.sas") {
            Some(Method::VerificationSas)
        } else if text::str_eq(name, "matrix.verification.confirm") {
            Some(Method::VerificationConfirm)
        } else if text::str_eq(name, "matrix.verification.cancel") {
            Some(Method::VerificationCancel)
        } else if text::str_eq(name, "matrix.verification.list") {
            Some(Method::VerificationList)
        } else if text::str_eq(name, "matrix.login_flows") {
            Some(Method::LoginFlows)
        } else if text::str_eq(name, "matrix.capabilities") {
            Some(Method::Capabilities)
        } else if text::str_eq(name, "matrix.devices.list") {
            Some(Method::DevicesList)
        } else {
            None
        }
    }

    /// Whether the method takes parameters.
    pub open spec fn has_params(self) -> bool {
        !(self is Ping || self is Version || self is AccountList || self is SessionStatus)
    }
}

/// The parameters of a request.
pub enum Params {
    Add { homeserver: String, login_method: Option<LoginMethod> },
    Start { account_id: String, login_method: Option<LoginMethod> },
    Password {
        account_id: String,
        username: String,
        password: String,
        device_name: Option<String>,
    },
    Token { account_id: String, token: String, device_name: Option<String> },
    Account { account_id: String },
    Messages { account_id: String, room_id: String, limit: Option<u64>, from: Option<String> },
    Send { account_id: String, room_id: String, body: String, txn_id: Option<String> },
    Request { account_id: String, user_id: String, device_id: Option<String> },
    Flow { account_id: String, user_id: String, flow_id: String },
    Confirm { account_id: String, user_id: String, flow_id: String, matches: bool },
    OfUser { account_id: String, user: Option<String> },
    Page { homeserver: String },
}

impl Params {
    /// Whether the parameters are those of the method.
    pub open spec fn fits(&self, method: Method) -> bool {
        match method {
            Method::Ping => true,
            Method::Version => true,
            Method::AccountList => true,
            Method::SessionStatus => true,
            Method::AccountAdd => *self is Add,
            Method::LoginStart => *self is Start,
            Method::LoginPassword => *self is Password,
            Method::LoginToken => *self is Token,
            Method::SessionRestore => *self is Account,
            Method::MarkStarted => *self is Account,
            Method::MarkComplete => *self is Token,
            Method::RoomList => *self is Account,
            Method::BareRoomList => *self is Account,
            Method::RoomMessages => *self is Messages,
            Method::RoomSend => *self is Send,
            Method::VerificationRequest => *self is Request,
            Method::VerificationAccept => *self is Flow,
            Method::VerificationStartSas => *self is Flow,
            Method::VerificationSas => *self is Flow,
            Method::VerificationConfirm => *self is Confirm,
            Method::VerificationCancel => *self is Flow,
            Method::VerificationList => *self is OfUser,
            Method::LoginFlows => *self is Page,
            Method::Capabilities => *self is Page,
            Method::DevicesList => *self is OfUser,
        }
    }
}

impl Params {
    /// Whether the parameters are those of the method.
    pub fn is_fit(&self, method: Method) -> (r: bool)
        ensures
            r == self.fits(method),
    {
        match (method, self) {
            (Method::Ping, _) => true,
            (Method::Version, _) => true,
            (Method::AccountList, _) => true,
            (Method::SessionStatus, _) => true,
            (Method::AccountAdd, Params::Add { .. }) => true,
            (Method::LoginStart, Params::Start { .. }) => true,
            (Method::LoginPassword, Params::Password { .. }) => true,
            (Method::LoginToken, Params::Token { .. }) => true,
            (Method::SessionRestore, Params::Account { .. }) => true,
            (Method::MarkStarted, Params::Account { .. }) => true,
            (Method::MarkComplete, Params::Token { .. }) => true,
            (Method::RoomList, Params::Account { .. }) => true,
            (Method::BareRoomList, Params::Account { .. }) => true,
            (Method::RoomMessages, Params::Messages { .. }) => true,
            (Method::RoomSend, Params::Send { .. }) => true,
            (Method::VerificationRequest, Params::Request { .. }) => true,
            (Method::VerificationAccept, Params::Flow { .. }) => true,
            (Method::VerificationStartSas, Params::Flow { .. }) => true,
            (Method::VerificationSas, Params::Flow { .. }) => true,
            (Method::VerificationConfirm, Params::Confirm { .. }) => true,
            (Method::VerificationCancel, Params::Flow { .. }) => true,
            (Method::VerificationList, Params::OfUser { .. }) => true,
            (Method::LoginFlows, Params::Page { .. }) => true,
            (Method::Capabilities, Params::Page { .. }) => true,
            (Method::DevicesList, Params::OfUser { .. }) => true,
            _ => false,
        }
    }
}

/// What a method without parameters answers.
pub open spec fn bare_answer(d: DaemonView, method: Method) -> JsonView {
    match method {
        Method::Ping => JsonView::Text("pong"@),
        Method::Version => JsonView::Text("0.1.0"@),
        Method::AccountList => account_calls::accounts_json(d.state.accounts),
        _ => account_calls::session_statuses_json(d.state.accounts),
    }
}

/// What is done with the verification of a request about one.
pub open spec fn flow_kind(method: Method) -> FlowKind {
    match method {
        Method::VerificationAccept => FlowKind::Accept,
        Method::VerificationStartSas => FlowKind::StartSas,
        Method::VerificationSas => FlowKind::ReadSas,
        _ => FlowKind::Cancel,
    }
}

/// Whether a request leaves the daemon as it is and takes the given step.
pub open spec fn just(before: DaemonView, after: DaemonView, step: bool) -> bool {
    after == before && step
}

/// What a method with parameters does at its start.
pub open spec fn started(
    before: DaemonView,
    method: Method,
    params: Params,
    after: DaemonView,
    s: Step,
) -> bool {
    match params {
        Params::Add { homeserver, login_method } => just(
            before,
            after,
            account_calls::add_start_step(homeserver, login_method, s),
        ),
        Params::Start { account_id, login_method } => account_calls::login_start_step(
            before,
            account_id,
            login_method,
            after,
            s,
        ),
        Params::Password { account_id, username, password, device_name } => just(
            before,
            after,
            account_calls::login_with_step(
                before,
                account_id@,
                Credentials::Password { username, password, device_name },
                s,
            ),
        ),
        Params::Token { account_id, token, device_name } => if method is MarkComplete {
            &&& account_rpc::status_set(
                before.state,
                account_id@,
                AccountStatus::Ready,
                account_rpc::complete_reply(),
                after.state,
                s,
            )
            &&& after == (DaemonView { state: after.state, ..before })
        } else {
            just(
                before,
                after,
                account_calls::login_with_step(
                    before,
                    account_id@,
                    Credentials::Token { token, device_name },
                    s,
                ),
            )
        },
        Params::Account { account_id } => if method is MarkStarted {
            &&& account_rpc::status_set(
                before.state,
                account_id@,
                AccountStatus::LoginInProgress,
                account_rpc::started_reply(),
                after.state,
                s,
            )
            &&& after == (DaemonView { state: after.state, ..before })
        } else if method is SessionRestore {
            just(before, after, account_calls::session_restore_step(before, account_id@, s))
        } else {
            just(
                before,
                after,
                room_calls::rooms_start_step(before, account_id@, method is BareRoomList, s),
            )
        },
        Params::Messages { account_id, room_id, limit, from } => just(
            before,
            after,
            room_calls::messages_start_step(before, account_id@, room_id, limit, from, s),
        ),
        Params::Send { account_id, room_id, body, txn_id } => just(
            before,
            after,
            room_calls::send_start_step(before, account_id@, room_id, body, txn_id, s),
        ),
        Params::Request { account_id, user_id, device_id } => just(
            before,
            after,
            verification_calls::request_start_step(before, account_id, user_id, device_id, s),
        ),
        Params::Flow { account_id, user_id, flow_id } => just(
            before,
            after,
            verification_calls::flow_start_step(
                before,
                account_id,
                user_id,
                flow_id,
                flow_kind(method),
                s,
            ),
        ),
        Params::Confirm { account_id, user_id, flow_id, matches } => just(
            before,
            after,
            verification_calls::flow_start_step(
                before,
                account_id,
                user_id,
                flow_id,
                FlowKind::Confirm { matches },
                s,
            ),
        ),
        Params::OfUser { account_id, user } => if method is VerificationList {
            just(
                before,
                after,
                daemon::replies(
                    s,
                    JsonView::Array(
                        verification_calls::listed(
                            verification::flows_of(before.runtime.flows, account_id@),
                            text::opt_text(user),
                        ),
                    ),
                ),
            )
        } else {
            just(
                before,
                after,
                verification_calls::devices_start_step(before, account_id@, user, s),
            )
        },
        Params::Page { homeserver } => just(
            before,
            after,
            page_calls::page_start_step(
                homeserver,
                if method is LoginFlows {
                    Endpoint::LoginTypes
                } else {
                    Endpoint::Capabilities
                },
                s,
            ),
        ),
    }
}

/// What is to happen with a request at its start.
pub open spec fn handled(
    before: DaemonView,
    request: RpcRequest,
    read: Option<Result<Params, String>>,
    after: DaemonView,
    s: Step,
) -> bool {
    match text::opt_text(request.method) {
        Some(name) if request.right_version() => match method_named(name) {
            None => just(before, after, daemon::refuses(s, rpc::no_method_view())),
            Some(method) => if !method.has_params() {
                just(before, after, daemon::replies(s, bare_answer(before, method)))
            } else {
                match read {
                    None => just(
                        before,
                        after,
                        daemon::refuses(s, rpc::bad_params_view("missing params"@)),
                    ),
                    Some(Err(err)) => just(
                        before,
                        after,
                        daemon::refuses(s, rpc::bad_params_view("invalid params: "@ + err@)),
                    ),
                    Some(Ok(params)) => started(before, method, params, after, s),
                }
            },
        },
        _ => just(before, after, daemon::refuses(s, rpc::invalid_request_view())),
    }
}

/// Whether the parameters that were read are those of the request's method, and the
/// verifications that they ask for, if any, can be listed.
pub open spec fn well_read(
    d: DaemonView,
    request: RpcRequest,
    read: Option<Result<Params, String>>,
) -> bool {
    match (text::opt_text(request.method), read) {
        (Some(name), Some(Ok(params))) => match method_named(name) {
            Some(method) => {
                &&& params.fits(method)
                &&& method is VerificationList ==> verification_calls::can_list(
                    verification::flows_of(d.runtime.flows, params->OfUser_account_id@),
                    text::opt_text(params->OfUser_user),
                )
            },
            None => true,
        },
        _ => true,
    }
}

/// Whether the parameters that were read are those of the request's method, and the
/// verifications that they ask for, if any, can be listed.
pub fn is_well_read(
    d: &Daemon,
    request: &RpcRequest,
    read: &Option<Result<Params, String>>,
) -> (r: bool)
    ensures
        r == well_read(d@, *request, *read),
{
    match (&request.method, read) {
        (Some(name), Some(Ok(params))) => match Method::named(name.as_str()) {
            Some(method) => params.is_fit(method) && match (method, params) {
                (
                    Method::VerificationList,
                    Params::OfUser { account_id, user },
                ) => verification_calls::is_listable(d, account_id.as_str(), user),
                _ => true,
            },
            None => true,
        },
        _ => true,
    }
}

fn start(d: &mut Daemon, method: Method, params: Params) -> (s: Step)
    requires
        method.has_params(),
        params.fits(method),
        method is VerificationList ==> verification_calls::can_list(
            verification::flows_of(old(d)@.runtime.flows, params->OfUser_account_id@),
            text::opt_text(params->OfUser_user),
        ),
    ensures
        started(old(d)@, method, params, final(d)@, s),
        s matches Step::Reply(Err(_)) ==> final(d)@ == old(d)@,
{
    match params {
        Params::Add { homeserver, login_method } => account_calls::add_start(
            homeserver,
            login_method,
        ),
        Params::Start { account_id, login_method } => account_calls::login_start(
            d,
            account_id,
            login_method,
        ),
        Params::Password { account_id, username, password, device_name } => {
            account_calls::login_with(
                d,
                account_id.as_str(),
                Credentials::Password { username, password, device_name },
            )
        },
        Params::Token { account_id, token, device_name } => match method {
            Method::MarkComplete => account_rpc::login_complete(&mut d.state, account_id.as_str()),
            _ => account_calls::login_with(
                d,
                account_id.as_str(),
                Credentials::Token { token, device_name },
            ),
        },
        Params::Account { account_id } => match method {
            Method::MarkStarted => account_rpc::login_start(&mut d.state, account_id.as_str()),
            Method::SessionRestore => account_calls::session_restore(d, account_id.as_str()),
            Method::BareRoomList => room_calls::rooms_start(d, account_id.as_str(), true),
            _ => room_calls::rooms_start(d, account_id.as_str(), false),
        },
        Params::Messages { account_id, room_id, limit, from } => room_calls::messages_start(
            d,
            account_id.as_str(),
            room_id,
            limit,
            from,
        ),
        Params::Send { account_id, room_id, body, txn_id } => room_calls::send_start(
            d,
            account_id.as_str(),
            room_id,
            body,
            txn_id,
        ),
        Params::Request { account_id, user_id, device_id } => verification_calls::request_start(
            d,
            account_id,
            user_id,
            device_id,
        ),
        Params::Flow { account_id, user_id, flow_id } => {
            let kind: FlowKind = match method {
                Method::VerificationAccept => FlowKind::Accept,
                Method::VerificationStartSas => FlowKind::StartSas,
                Method::VerificationSas => FlowKind::ReadSas,
                _ => FlowKind::Cancel,
            };
            verification_calls::flow_start(d, account_id, user_id, flow_id, kind)
        },
        Params::Confirm { account_id, user_id, flow_id, matches } => {
            verification_calls::flow_start(
                d,
                account_id,
                user_id,
                flow_id,
                FlowKind::Confirm { matches },
            )
        },
        Params::OfUser { account_id, user } => match method {
            Method::VerificationList => verification_calls::verification_list(
                d,
                account_id.as_str(),
                &user,
            ),
            _ => verification_calls::devices_start(d, account_id.as_str(), user),
        },
        Params::Page { homeserver } => match method {
            Method::LoginFlows => page_calls::page_start(homeserver, Endpoint::LoginTypes),
            _ => page_calls::page_start(homeserver, Endpoint::Capabilities),
        },
    }
}

/// Starts to serve a request, given what came of reading its parameters, if it has any. A
/// request that is refused at once changes nothing.
pub fn handle_request(
    d: &mut Daemon,
    request: &RpcRequest,
    read: Option<Result<Params, String>>,
) -> (s: Step)
    requires
        well_read(old(d)@, *request, read),
    ensures
        handled(old(d)@, *request, read, final(d)@, s),
        s matches Step::Reply(Err(_)) ==> final(d)@ == old(d)@,
{
    if !request.is_right_version() {
        return Step::Reply(Err(rpc::invalid_request()));
    }
    let name: &String = match &request.method {
        None => {
            return Step::Reply(Err(rpc::invalid_request()));
        },
        Some(name) => name,
    };
    let method: Method = match Method::named(name.as_str()) {
        None => {
            return Step::Reply(Err(rpc::no_method()));
        },
        Some(method) => method,
    };
    match method {
        Method::Ping => {
            return Step::Reply(Ok(Json::text("pong")));
        },
        Method::Version => {
            return Step::Reply(Ok(Json::text("0.1.0")));
        },
        Method::AccountList => {
            return Step::Reply(Ok(account_calls::account_list(&d.state.accounts)));
        },
        Method::SessionStatus => {
            return Step::Reply(Ok(account_calls::session_status(&d.state.accounts)));
        },
        _ => {},
    }
    match rpc::parse_params(read) {
        Err(error) => Step::Reply(Err(error)),
        Ok(params) => start(d, method, params),
    }
}

/// How a request goes on after an action.
pub open spec fn resumed(
    before: DaemonView,
    waiting: Resume,
    event: Event,
    after: DaemonView,
    s: Step,
) -> bool {
    match (waiting, event) {
        (Resume::AddResolved { login_method }, Event::Text(found)) => just(
            before,
            after,
            account_calls::add_resolved_step(login_method, found, s),
        ),
        (
            Resume::AddFetched { homeserver, login_method },
            Event::Fetched(reply),
        ) => account_calls::add_flows_known(
            before,
            homeserver@,
            login_method,
            fetch::reply_meaning(reply, Endpoint::LoginTypes),
            after,
            s,
        ),
        (Resume::AddSaved { account }, Event::Done(saved)) => account_calls::add_saved_step(
            before,
            account,
            saved,
            after,
            s,
        ),
        (
            Resume::StartSaved { account_id, requested, stored, homeserver },
            Event::Done(saved),
        ) => account_calls::start_saved_step(
            before,
            account_id,
            requested,
            stored,
            homeserver,
            saved,
            after,
            s,
        ),
        (Resume::StartResolved { account_id, requested, stored }, Event::Text(found)) => just(
            before,
            after,
            account_calls::start_resolved_step(account_id, requested, stored, found, s),
        ),
        (
            Resume::StartFetched { account_id, requested, stored, homeserver },
            Event::Fetched(reply),
        ) => account_calls::start_flows_known(
            before,
            account_id@,
            requested,
            stored,
            homeserver@,
            fetch::reply_meaning(reply, Endpoint::LoginTypes),
            after,
            s,
        ),
        (Resume::StartMethodSaved { account_id, method, homeserver }, Event::Done(saved)) => just(
            before,
            after,
            account_calls::start_method_saved_step(account_id@, method, homeserver@, saved, s),
        ),
        (Resume::LoginBuilt { account_id, credentials }, Event::Client(built)) => just(
            before,
            after,
            account_calls::login_built_step(account_id, credentials, built, s),
        ),
        (
            Resume::LoginAnswered { account_id, client, method },
            Event::Session(answer),
        ) => account_calls::login_answered_step(
            before,
            account_id,
            client,
            method,
            answer,
            after,
            s,
        ),
        (Resume::LoginSaved { account_id, client }, Event::Done(done)) => {
            account_calls::activate_step(before, account_id, client, done, after, s)
        },
        (Resume::SessionRestored { account_id, client }, Event::Done(done)) => {
            account_calls::activate_step(before, account_id, client, done, after, s)
        },
        (Resume::LoginDone { account_id }, Event::Done(_)) => account_calls::login_done_step(
            before,
            account_id@,
            after,
            s,
        ),
        (Resume::Persisted { reply }, Event::Done(saved)) => just(
            before,
            after,
            account_rpc::persisted_step(reply, saved, s),
        ),
        (Resume::PageResolved { endpoint }, Event::Text(found)) => just(
            before,
            after,
            page_calls::page_resolved_step(endpoint, found, s),
        ),
        (Resume::PageFetched { endpoint, homeserver }, Event::Fetched(reply)) => just(
            before,
            after,
            page_calls::page_answered(
                s,
                endpoint,
                homeserver@,
                fetch::reply_meaning(reply, endpoint),
            ),
        ),
        (Resume::PageText { endpoint, homeserver }, Event::FetchedText(reply)) => just(
            before,
            after,
            page_calls::page_answered(
                s,
                endpoint,
                homeserver@,
                fetch::text_meaning(reply, endpoint),
            ),
        ),
        (Resume::RoomsListed { bare }, Event::Rooms(rooms)) => just(
            before,
            after,
            daemon::replies(s, room_calls::room_list_json(rooms@, bare)),
        ),
        (Resume::MessagesRoom { client, room_id, limit, from }, Event::Found(found)) => just(
            before,
            after,
            room_calls::messages_room_step(client, room_id, limit, from, found, s),
        ),
        (Resume::MessagesRead, Event::Messages(page)) => just(
            before,
            after,
            room_calls::messages_read_step(page, s),
        ),
        (Resume::SendRoom { client, room_id, body, txn_id }, Event::Found(found)) => just(
            before,
            after,
            room_calls::send_room_step(client, room_id, body, txn_id, found, s),
        ),
        (Resume::Sent { txn_id }, Event::Text(event_id)) => just(
            before,
            after,
            room_calls::sent_step(txn_id, event_id, s),
        ),
        (Resume::RequestOwn { account_id, client, user_id, device_id }, Event::User(own)) => just(
            before,
            after,
            verification_calls::request_own_step(account_id, client, user_id@, device_id, own, s),
        ),
        (
            Resume::RequestSent { account_id, device_id },
            Event::Requested(sent),
        ) => verification_calls::request_was_sent(
            before,
            account_id@,
            text::opt_text(device_id),
            sent,
            after,
            s,
        ),
        (Resume::FlowOwn { call }, Event::User(own)) => just(
            before,
            after,
            verification_calls::flow_own_step(call, own, s),
        ),
        (Resume::FlowActed { call, user_id }, Event::Known(known)) => match call.kind {
            FlowKind::Confirm { matches } => verification_calls::confirmed_step(
                before,
                call,
                matches,
                user_id@,
                known,
                after,
                s,
            ),
            _ => verification_calls::accepted_step(before, call, user_id, known, after, s),
        },
        (Resume::FlowActed { call, user_id }, Event::Done(done)) => {
            verification_calls::cancelled_step(before, call, user_id@, done, after, s)
        },
        (Resume::FlowActed { call: _, user_id: _ }, Event::Sas(sas)) => just(
            before,
            after,
            verification_calls::sas_read_step(sas, s),
        ),
        (Resume::FlowWatched { flow_id }, Event::Done(_)) => just(
            before,
            after,
            daemon::replies(s, verification_calls::flow_status_json(flow_id@, "accepted"@)),
        ),
        (Resume::DevicesOwn { client }, Event::User(own)) => just(
            before,
            after,
            verification_calls::devices_own_step(client, own, s),
        ),
        (Resume::DevicesListed, Event::Devices(devices)) => just(
            before,
            after,
            verification_calls::devices_listed_step(devices, s),
        ),
        _ => false,
    }
}

/// Goes on with a request after an action.
pub fn resume(d: &mut Daemon, waiting: Resume, event: Event) -> (s: Step)
    requires
        waiting.has_room(old(d)@),
        waiting.fits(event),
    ensures
        resumed(old(d)@, waiting, event, final(d)@, s),
{
    match (waiting, event) {
        (Resume::AddResolved { login_method }, Event::Text(found)) => account_calls::add_resolved(
            login_method,
            found,
        ),
        (
            Resume::AddFetched { homeserver, login_method },
            Event::Fetched(reply),
        ) => account_calls::add_fetched(d, homeserver, login_method, reply),
        (Resume::AddSaved { account }, Event::Done(saved)) => account_calls::add_saved(
            d,
            account,
            saved,
        ),
        (
            Resume::StartSaved { account_id, requested, stored, homeserver },
            Event::Done(saved),
        ) => account_calls::start_saved(d, account_id, requested, stored, homeserver, saved),
        (
            Resume::StartResolved { account_id, requested, stored },
            Event::Text(found),
        ) => account_calls::start_resolved(account_id, requested, stored, found),
        (
            Resume::StartFetched { account_id, requested, stored, homeserver },
            Event::Fetched(reply),
        ) => account_calls::start_fetched(d, account_id, requested, stored, homeserver, reply),
        (
            Resume::StartMethodSaved { account_id, method, homeserver },
            Event::Done(saved),
        ) => account_calls::start_method_saved(
            account_id.as_str(),
            method,
            homeserver.as_str(),
            saved,
        ),
        (Resume::LoginBuilt { account_id, credentials }, Event::Client(built)) => {
            account_calls::login_built(account_id, credentials, built)
        },
        (
            Resume::LoginAnswered { account_id, client, method },
            Event::Session(answer),
        ) => account_calls::login_answered(d, account_id, client, method, answer),
        (Resume::LoginSaved { account_id, client }, Event::Done(done)) => account_calls::activate(
            d,
            account_id,
            client,
            done,
        ),
        (Resume::SessionRestored { account_id, client }, Event::Done(done)) => {
            account_calls::activate(d, account_id, client, done)
        },
        (Resume::LoginDone { account_id }, Event::Done(_)) => account_calls::login_done(
            d,
            account_id.as_str(),
        ),
        (Resume::Persisted { reply }, Event::Done(saved)) => account_rpc::persisted(reply, saved),
        (Resume::PageResolved { endpoint }, Event::Text(found)) => page_calls::page_resolved(
            endpoint,
            found,
        ),
        (Resume::PageFetched { endpoint, homeserver }, Event::Fetched(reply)) => {
            page_calls::page_fetched(endpoint, homeserver.as_str(), reply)
        },
        (Resume::PageText { endpoint, homeserver }, Event::FetchedText(reply)) => {
            account_rpc::page_text(endpoint, homeserver.as_str(), reply)
        },
        (Resume::RoomsListed { bare }, Event::Rooms(rooms)) => room_calls::rooms_listed(
            bare,
            rooms,
        ),
        (
            Resume::MessagesRoom { client, room_id, limit, from },
            Event::Found(found),
        ) => room_calls::messages_room(client, room_id, limit, from, found),
        (Resume::MessagesRead, Event::Messages(page)) => room_calls::messages_read(page),
        (
            Resume::SendRoom { client, room_id, body, txn_id },
            Event::Found(found),
        ) => room_calls::send_room(client, room_id, body, txn_id, found),
        (Resume::Sent { txn_id }, Event::Text(event_id)) => room_calls::sent(&txn_id, event_id),
        (
            Resume::RequestOwn { account_id, client, user_id, device_id },
            Event::User(own),
        ) => verification_calls::request_own(account_id, client, user_id.as_str(), device_id, own),
        (
            Resume::RequestSent { account_id, device_id },
            Event::Requested(sent),
        ) => verification_calls::request_sent(d, account_id.as_str(), &device_id, sent),
        (Resume::FlowOwn { call }, Event::User(own)) => verification_calls::flow_own(call, own),
        (Resume::FlowActed { call, user_id }, Event::Known(known)) => match call.kind {
            FlowKind::Confirm { matches } => verification_calls::confirmed(
                d,
                &call,
                matches,
                user_id.as_str(),
                known,
            ),
            _ => verification_calls::accepted(d, call, user_id, known),
        },
        (Resume::FlowActed { call, user_id }, Event::Done(done)) => verification_calls::cancelled(
            d,
            &call,
            user_id.as_str(),
            done,
        ),
        (
            Resume::FlowActed { call: _, user_id: _ },
            Event::Sas(sas),
        ) => verification_calls::sas_read(sas),
        (Resume::FlowWatched { flow_id }, Event::Done(_)) => verification_calls::flow_status(
            flow_id.as_str(),
            "accepted",
        ),
        (Resume::DevicesOwn { client }, Event::User(own)) => verification_calls::devices_own(
            client,
            own,
        ),
        (Resume::DevicesListed, Event::Devices(devices)) => verification_calls::devices_listed(
            devices,
        ),
        _ => daemon::failed("out of step"),
    }
}

} // verus!
