//! Requests about devices and their verification.

use vstd::prelude::*;
use vstd::string::*;

use crate::daemon;
use crate::daemon::{
    Action, Daemon, DaemonView, FlowCall, FlowKind, RequestFacts, RequestState, Resume, Step,
};
use crate::json;
use crate::json::{Json, JsonView};
use crate::matrix;
use crate::matrix::DeviceFacts;
use crate::rpc;
use crate::rpc::{bad_params, RpcError};
use crate::text;
use crate::verification;
use crate::verification::{SasFacts, VerificationSnapshot};

verus! {

/// Whether a user is named by a word for oneself.
pub open spec fn names_self(user: Seq<char>) -> bool {
    user == "me"@ || user == "self"@
}

/// Whether a user is named by a word for oneself.
pub fn is_self_user(value: &str) -> (r: bool)
    ensures
        r == names_self(value@),
{
    text::str_eq(value, "me") || text::str_eq(value, "self")
}

/// The user that is meant, given the user's own id.
pub open spec fn meant_user(user: Seq<char>, own: Option<Seq<char>>) -> Result<
    Seq<char>,
    rpc::ErrorView,
> {
    if !names_self(user) {
        Ok(user)
    } else {
        match own {
            Some(id) => Ok(id),
            None => Err(rpc::bad_params_view("no session user id"@)),
        }
    }
}

/// A user's id or an error, as a mathematical value.
pub open spec fn user_outcome(r: Result<String, RpcError>) -> Result<Seq<char>, rpc::ErrorView> {
    match r {
        Ok(id) => Ok(id@),
        Err(e) => Err(e@),
    }
}

/// The user that is meant, given the user's own id.
pub fn resolve_user_id_param(value: &str, own: &Option<String>) -> (r: Result<String, RpcError>)
    ensures
        user_outcome(r) == meant_user(value@, text::opt_text(*own)),
{
    if !is_self_user(value) {
        Ok(value.to_owned())
    } else {
        match own {
            Some(id) => Ok(id.clone()),
            None => Err(bad_params("no session user id")),
        }
    }
}

/// Whether the step is the one that [`request_start`] takes.
pub open spec fn request_start_step(
    before: DaemonView,
    account_id: String,
    user_id: String,
    device_id: Option<String>,
    s: Step,
) -> bool {
    match before.runtime.client(account_id@) {
        None => daemon::refuses(s, rpc::bad_params_view("no active session"@)),
        Some(client) => s matches Step::Perform(Action::OwnUser { client: c }, next) && c
            == client && next == (Resume::RequestOwn {
            account_id,
            client,
            user_id,
            device_id,
        }),
    }
}

/// Starts to ask for a verification: the user's own id is asked for.
pub fn request_start(
    d: &Daemon,
    account_id: String,
    user_id: String,
    device_id: Option<String>,
) -> (s: Step)
    ensures
        request_start_step(d@, account_id, user_id, device_id, s),
{
    match d.client_of(account_id.as_str()) {
        Err(error) => Step::Reply(Err(error)),
        Ok(client) => Step::Perform(
            Action::OwnUser { client },
            Resume::RequestOwn { account_id, client, user_id, device_id },
        ),
    }
}

/// Whether the step asks for the verification, unless something is wrong with the user's
/// id.
pub open spec fn requests(
    s: Step,
    account_id: Seq<char>,
    client: u64,
    user_id: Seq<char>,
    device_id: Option<Seq<char>>,
    fault: Option<Seq<char>>,
) -> bool {
    match fault {
        Some(err) => daemon::refuses(s, rpc::internal_error_view(err)),
        None => {
            &&& s matches Step::Perform(
                Action::RequestVerification { client: c, user_id: u, device_id: v },
                Resume::RequestSent { account_id: a, device_id: v2 },
            )
            &&& c == client
            &&& u@ == user_id
            &&& text::opt_text(v) == device_id
            &&& text::opt_text(v2) == device_id
            &&& a@ == account_id
        },
    }
}

/// Asks for the verification, unless something is wrong with the user's id.
pub fn request_checked(
    account_id: String,
    client: u64,
    user_id: String,
    device_id: Option<String>,
    fault: Option<String>,
) -> (s: Step)
    ensures
        requests(
            s,
            account_id@,
            client,
            user_id@,
            text::opt_text(device_id),
            text::opt_text(fault),
        ),
{
    match fault {
        Some(err) => daemon::failed(err.as_str()),
        None => {
            let kept: Option<String> = text::clone_opt(&device_id);
            Step::Perform(
                Action::RequestVerification { client, user_id, device_id },
                Resume::RequestSent { account_id, device_id: kept },
            )
        },
    }
}

/// Whether the step is the one that [`request_own`] takes.
pub open spec fn request_own_step(
    account_id: String,
    client: u64,
    user_id: Seq<char>,
    device_id: Option<String>,
    own: Option<String>,
    s: Step,
) -> bool {
    match meant_user(user_id, text::opt_text(own)) {
        Err(error) => daemon::refuses(s, error),
        Ok(user) => requests(
            s,
            account_id@,
            client,
            user,
            text::opt_text(device_id),
            matrix::user_id_fault(user),
        ),
    }
}

/// Goes on once the user's own id is known: the verification is asked for, of the device, or
/// of the user's identity where no device is named.
pub fn request_own(
    account_id: String,
    client: u64,
    user_id: &str,
    device_id: Option<String>,
    own: Option<String>,
) -> (s: Step)
    ensures
        request_own_step(account_id, client, user_id@, device_id, own, s),
{
    match resolve_user_id_param(user_id, &own) {
        Err(error) => Step::Reply(Err(error)),
        Ok(user) => {
            let fault: Option<String> = matrix::check_user_id(user.as_str());
            request_checked(account_id, client, user, device_id, fault)
        },
    }
}

/// The answer to a verification that was asked for.
pub open spec fn request_json(
    flow_id: Seq<char>,
    user_id: Seq<char>,
    state: Seq<char>,
) -> JsonView {
    verification::flow_json(flow_id, user_id).with("state"@, JsonView::Text(state))
}

/// The state of a verification request as clients know it: one that was just made is
/// requested.
pub open spec fn request_state_text(state: RequestState) -> Seq<char> {
    match state {
        RequestState::Created => "requested"@,
        RequestState::Requested => "requested"@,
        RequestState::Ready => "ready"@,
        RequestState::Transitioned => "transitioned"@,
        RequestState::Done => "done"@,
        RequestState::Cancelled => "cancelled"@,
    }
}

/// The state of a verification request as clients know it.
pub fn request_state_name(state: RequestState) -> (r: &'static str)
    ensures
        r@ == request_state_text(state),
{
    match state {
        RequestState::Created => "requested",
        RequestState::Requested => "requested",
        RequestState::Ready => "ready",
        RequestState::Transitioned => "transitioned",
        RequestState::Done => "done",
        RequestState::Cancelled => "cancelled",
    }
}

/// What is to happen once the verification was asked for: it is stored and told.
pub open spec fn request_was_sent(
    before: DaemonView,
    account_id: Seq<char>,
    device_id: Option<Seq<char>>,
    sent: Result<Option<RequestFacts>, String>,
    after: DaemonView,
    s: Step,
) -> bool {
    match sent {
        Err(err) => daemon::refuses(s, rpc::internal_error_view(err@)) && after == before,
        Ok(None) => {
            &&& after == before
            &&& daemon::refuses(
                s,
                rpc::bad_params_view(
                    if device_id is Some {
                        "unknown device"@
                    } else {
                        "unknown user"@
                    },
                ),
            )
        },
        Ok(Some(facts)) => {
            let change = matrix::FlowChange::Requested {
                flow_id: facts.flow_id@,
                user_id: facts.user_id@,
                device_id,
            };
            &&& daemon::replies(s, request_json(
                facts.flow_id@,
                facts.user_id@,
                request_state_text(facts.state),
            ))
            &&& after == (DaemonView {
                runtime: matrix::flow_changed(before.runtime, account_id, change),
                bus: matrix::flow_told(before.bus, account_id, change),
                ..before
            })
        },
    }
}

/// Ends the request once the verification was asked for.
pub fn request_sent(
    d: &mut Daemon,
    account_id: &str,
    device_id: &Option<String>,
    sent: Result<Option<RequestFacts>, String>,
) -> (s: Step)
    requires
        old(d)@.bus.room_for(account_id@, 1),
    ensures
        request_was_sent(
            old(d)@,
            account_id@,
            text::opt_text(*device_id),
            sent,
            final(d)@,
            s,
        ),
{
    match sent {
        Err(err) => daemon::failed(err.as_str()),
        Ok(None) => if device_id.is_some() {
            daemon::refused("unknown device")
        } else {
            daemon::refused("unknown user")
        },
        Ok(Some(facts)) => {
            matrix::flow_requested(
                &mut d.bus,
                &mut d.runtime,
                account_id,
                facts.flow_id.as_str(),
                facts.user_id.as_str(),
                device_id,
            );
            let reply: Json = Json::object().with(
                "flow_id",
                Json::text(facts.flow_id.as_str()),
            ).with("user_id", Json::text(facts.user_id.as_str())).with(
                "state",
                Json::text(request_state_name(facts.state)),
            );
            Step::Reply(Ok(reply))
        },
    }
}

/// Whether the step acts on the verification, unless something is wrong with the user's id.
pub open spec fn acts(
    s: Step,
    call: FlowCall,
    user_id: Seq<char>,
    fault: Option<Seq<char>>,
) -> bool {
    match fault {
        Some(err) => daemon::refuses(s, rpc::internal_error_view(err)),
        None => {
            &&& s matches Step::Perform(action, Resume::FlowActed { call: c, user_id: u })
            &&& c == call
            &&& u@ == user_id
            &&& match call.kind {
                FlowKind::Accept => action matches Action::AcceptVerification {
                    client,
                    user_id: v,
                    flow_id,
                } && client == call.client && v@ == user_id && flow_id@ == call.flow_id@,
                FlowKind::Confirm { matches } => action matches Action::AnswerSas {
                    client,
                    user_id: v,
                    flow_id,
                    matches: m,
                } && client == call.client && v@ == user_id && flow_id@ == call.flow_id@ && m
                    == matches,
                FlowKind::Cancel => action matches Action::CancelVerification {
                    client,
                    user_id: v,
                    flow_id,
                } && client == call.client && v@ == user_id && flow_id@ == call.flow_id@,
                FlowKind::StartSas => action matches Action::StartSas {
                    client,
                    user_id: v,
                    flow_id,
                } && client == call.client && v@ == user_id && flow_id@ == call.flow_id@,
                FlowKind::ReadSas => action matches Action::ReadSas {
                    client,
                    user_id: v,
                    flow_id,
                } && client == call.client && v@ == user_id && flow_id@ == call.flow_id@,
            }
        },
    }
}

/// Acts on the verification, unless something is wrong with the user's id.
pub fn flow_checked(call: FlowCall, user_id: String, fault: Option<String>) -> (s: Step)
    ensures
        acts(s, call, user_id@, text::opt_text(fault)),
{
    match fault {
        Some(err) => daemon::failed(err.as_str()),
        None => {
            let client: u64 = call.client;
            let flow_id: String = call.flow_id.clone();
            let whose: String = user_id.clone();
            let action: Action = match call.kind {
                FlowKind::Accept => Action::AcceptVerification { client, user_id: whose, flow_id },
                FlowKind::Confirm { matches } => Action::AnswerSas {
                    client,
                    user_id: whose,
                    flow_id,
                    matches,
                },
                FlowKind::Cancel => Action::CancelVerification { client, user_id: whose, flow_id },
                FlowKind::StartSas => Action::StartSas { client, user_id: whose, flow_id },
                FlowKind::ReadSas => Action::ReadSas { client, user_id: whose, flow_id },
            };
            Step::Perform(action, Resume::FlowActed { call, user_id })
        },
    }
}

/// Whether the step is the one that [`flow_start`] takes.
pub open spec fn flow_start_step(
    before: DaemonView,
    account_id: String,
    user_id: String,
    flow_id: String,
    kind: FlowKind,
    s: Step,
) -> bool {
    match before.runtime.client(account_id@) {
        None => daemon::refuses(s, rpc::bad_params_view("no active session"@)),
        Some(client) => {
            let call = FlowCall { account_id, client, user_id, flow_id, kind };
            if names_self(user_id@) {
                s matches Step::Perform(Action::OwnUser { client: c }, next) && c == client
                    && next == (Resume::FlowOwn { call })
            } else {
                acts(s, call, user_id@, matrix::user_id_fault(user_id@))
            }
        },
    }
}

/// Starts a request about a verification: a word for oneself is looked up first.
pub fn flow_start(
    d: &Daemon,
    account_id: String,
    user_id: String,
    flow_id: String,
    kind: FlowKind,
) -> (s: Step)
    ensures
        flow_start_step(d@, account_id, user_id, flow_id, kind, s),
{
    match d.client_of(account_id.as_str()) {
        Err(error) => Step::Reply(Err(error)),
        Ok(client) => {
            let whose: String = user_id.clone();
            let call = FlowCall { account_id, client, user_id, flow_id, kind };
            if is_self_user(whose.as_str()) {
                Step::Perform(Action::OwnUser { client }, Resume::FlowOwn { call })
            } else {
                let fault: Option<String> = matrix::check_user_id(whose.as_str());
                flow_checked(call, whose, fault)
            }
        },
    }
}

/// Whether the step is the one that [`flow_own`] takes.
pub open spec fn flow_own_step(
    call: FlowCall,
    own: Option<String>,
    s: Step,
) -> bool {
    match meant_user(call.user_id@, text::opt_text(own)) {
        Err(error) => daemon::refuses(s, error),
        Ok(user) => acts(s, call, user, matrix::user_id_fault(user)),
    }
}

/// Goes on once the user's own id is known: the verification is acted on.
pub fn flow_own(call: FlowCall, own: Option<String>) -> (s: Step)
    ensures
        flow_own_step(call, own, s),
{
    match resolve_user_id_param(call.user_id.as_str(), &own) {
        Err(error) => Step::Reply(Err(error)),
        Ok(user) => {
            let fault: Option<String> = matrix::check_user_id(user.as_str());
            flow_checked(call, user, fault)
        },
    }
}

/// A verification that was accepted.
pub open spec fn accepted_snapshot(call: FlowCall) -> verification::SnapshotView {
    verification::SnapshotView {
        flow_id: call.flow_id@,
        user_id: call.user_id@,
        device_id: None,
        stage: "accepted"@,
        sas: None,
    }
}

/// Whether the step, and the daemon after it, are those of [`accepted`].
pub open spec fn accepted_step(
    before: DaemonView,
    call: FlowCall,
    user_id: String,
    known: Result<bool, String>,
    after: DaemonView,
    s: Step,
) -> bool {
    match known {
        Err(err) => daemon::refuses(s, rpc::internal_error_view(err@)) && after == before,
        Ok(false) => {
            &&& daemon::refuses(s, rpc::bad_params_view("unknown verification"@))
            &&& after == before
        },
        Ok(true) => {
            &&& after == (DaemonView {
                runtime: before.runtime.with_flow(call.account_id@, accepted_snapshot(call)),
                bus: before.bus.emitted(
                    call.account_id@,
                    "matrix.verification.state"@,
                    verification::stage_json(call.flow_id@, user_id@, "accepted"@),
                ),
                ..before
            })
            &&& s matches Step::Perform(
                Action::WatchVerification { client, account_id, user_id: u, flow_id },
                Resume::FlowWatched { flow_id: f },
            )
            &&& client == call.client
            &&& account_id@ == call.account_id@
            &&& u@ == user_id@
            &&& flow_id@ == call.flow_id@
            &&& f@ == call.flow_id@
        },
    }
}

/// Goes on once a verification was accepted: it is stored, told, and watched from now on.
pub fn accepted(
    d: &mut Daemon,
    call: FlowCall,
    user_id: String,
    known: Result<bool, String>,
) -> (s: Step)
    requires
        old(d)@.bus.room_for(call.account_id@, 1),
    ensures
        accepted_step(old(d)@, call, user_id, known, final(d)@, s),
{
    match known {
        Err(err) => daemon::failed(err.as_str()),
        Ok(false) => daemon::refused("unknown verification"),
        Ok(true) => {
            let snapshot = VerificationSnapshot {
                flow_id: call.flow_id.clone(),
                user_id: call.user_id.clone(),
                device_id: None,
                stage: "accepted".to_owned(),
                sas: None,
            };
            d.runtime.store_flow(call.account_id.as_str(), snapshot);
            let data: Json = verification::stage_data(
                call.flow_id.as_str(),
                user_id.as_str(),
                "accepted",
            );
            let _ = d.bus.emit(call.account_id.as_str(), "matrix.verification.state", data);
            let flow_id: String = call.flow_id.clone();
            Step::Perform(
                Action::WatchVerification {
                    client: call.client,
                    account_id: call.account_id,
                    user_id,
                    flow_id,
                },
                Resume::FlowWatched { flow_id: call.flow_id },
            )
        },
    }
}

/// How a request about a verification is answered.
pub open spec fn flow_status_json(flow_id: Seq<char>, status: Seq<char>) -> JsonView {
    JsonView::object().with("flow_id"@, JsonView::Text(flow_id)).with(
        "status"@,
        JsonView::Text(status),
    )
}

/// How a request about a verification is answered.
pub fn flow_status(flow_id: &str, status: &str) -> (s: Step)
    ensures
        daemon::replies(s, flow_status_json(flow_id@, status@)),
{
    Step::Reply(
        Ok(
            Json::object().with("flow_id", Json::text(flow_id)).with("status", Json::text(status)),
        ),
    )
}

/// The daemon once a verification has ended: the end is told, and the verification is gone.
pub open spec fn flow_ended(
    before: DaemonView,
    call: FlowCall,
    event_type: Seq<char>,
    user_id: Seq<char>,
    reason: Seq<char>,
) -> DaemonView {
    DaemonView {
        runtime: before.runtime.without_flow(call.account_id@, call.flow_id@),
        bus: before.bus.emitted(
            call.account_id@,
            event_type,
            verification::ended_json(call.flow_id@, user_id, reason),
        ),
        ..before
    }
}

fn end_flow(d: &mut Daemon, call: &FlowCall, event_type: &str, user_id: &str, reason: &str)
    requires
        old(d)@.bus.room_for(call.account_id@, 1),
    ensures
        final(d)@ == flow_ended(old(d)@, *call, event_type@, user_id@, reason@),
{
    let data: Json = verification::ended_data(call.flow_id.as_str(), user_id, reason);
    let _ = d.bus.emit(call.account_id.as_str(), event_type, data);
    let _ = d.runtime.remove_flow(call.account_id.as_str(), call.flow_id.as_str());
}

/// Whether the step, and the daemon after it, are those of [`confirmed`].
pub open spec fn confirmed_step(
    before: DaemonView,
    call: FlowCall,
    matches: bool,
    user_id: Seq<char>,
    known: Result<bool, String>,
    after: DaemonView,
    s: Step,
) -> bool {
    match known {
        Err(err) => daemon::refuses(s, rpc::internal_error_view(err@)) && after == before,
        Ok(false) => {
            &&& daemon::refuses(s, rpc::bad_params_view("unknown sas"@))
            &&& after == before
        },
        Ok(true) => if matches {
            &&& daemon::replies(s, flow_status_json(call.flow_id@, "confirmed"@))
            &&& after == flow_ended(
                before,
                call,
                "matrix.verification.done"@,
                user_id,
                "verified"@,
            )
        } else {
            &&& daemon::replies(s, flow_status_json(call.flow_id@, "mismatch"@))
            &&& after == flow_ended(
                before,
                call,
                "matrix.verification.cancelled"@,
                user_id,
                "mismatch"@,
            )
        },
    }
}

/// Ends the request that says whether the short authentication strings match.
pub fn confirmed(
    d: &mut Daemon,
    call: &FlowCall,
    matches: bool,
    user_id: &str,
    known: Result<bool, String>,
) -> (s: Step)
    requires
        old(d)@.bus.room_for(call.account_id@, 1),
    ensures
        confirmed_step(old(d)@, *call, matches, user_id@, known, final(d)@, s),
{
    match known {
        Err(err) => daemon::failed(err.as_str()),
        Ok(false) => daemon::refused("unknown sas"),
        Ok(true) => {
            if matches {
                end_flow(d, call, "matrix.verification.done", user_id, "verified");
                flow_status(call.flow_id.as_str(), "confirmed")
            } else {
                end_flow(d, call, "matrix.verification.cancelled", user_id, "mismatch");
                flow_status(call.flow_id.as_str(), "mismatch")
            }
        },
    }
}

/// Whether the step, and the daemon after it, are those of [`cancelled`].
pub open spec fn cancelled_step(
    before: DaemonView,
    call: FlowCall,
    user_id: Seq<char>,
    done: Result<(), String>,
    after: DaemonView,
    s: Step,
) -> bool {
    match done {
        Err(err) => daemon::refuses(s, rpc::internal_error_view(err@)) && after == before,
        Ok(_) => {
            &&& daemon::replies(s, flow_status_json(call.flow_id@, "cancelled"@))
            &&& after == flow_ended(
                before,
                call,
                "matrix.verification.cancelled"@,
                user_id,
                "user_cancelled"@,
            )
        },
    }
}

/// Ends the request to cancel a verification.
pub fn cancelled(
    d: &mut Daemon,
    call: &FlowCall,
    user_id: &str,
    done: Result<(), String>,
) -> (s: Step)
    requires
        old(d)@.bus.room_for(call.account_id@, 1),
    ensures
        cancelled_step(old(d)@, *call, user_id@, done, final(d)@, s),
{
    match done {
        Err(err) => daemon::failed(err.as_str()),
        Ok(_) => {
            end_flow(d, call, "matrix.verification.cancelled", user_id, "user_cancelled");
            flow_status(call.flow_id.as_str(), "cancelled")
        },
    }
}

/// Whether the step is the one that [`sas_read`] takes.
pub open spec fn sas_read_step(
    sas: Result<Option<SasFacts>, String>,
    s: Step,
) -> bool {
    match sas {
        Err(err) => daemon::refuses(s, rpc::internal_error_view(err@)),
        Ok(None) => daemon::refuses(s, rpc::bad_params_view("unknown sas"@)),
        Ok(Some(facts)) => daemon::replies(s, verification::sas_json(facts)),
    }
}

/// Ends a request with the short authentication string.
pub fn sas_read(sas: Result<Option<SasFacts>, String>) -> (s: Step)
    ensures
        sas_read_step(sas, s),
{
    match sas {
        Err(err) => daemon::failed(err.as_str()),
        Ok(None) => daemon::refused("unknown sas"),
        Ok(Some(facts)) => Step::Reply(Ok(verification::sas_to_json(&facts))),
    }
}

/// Whether the step lists the user's devices, unless something is wrong with the user's id.
pub open spec fn lists_devices(
    s: Step,
    client: u64,
    user_id: Seq<char>,
    fault: Option<Seq<char>>,
) -> bool {
    match fault {
        Some(err) => daemon::refuses(s, rpc::internal_error_view(err)),
        None => s matches Step::Perform(
            Action::Devices { client: c, user_id: u },
            Resume::DevicesListed,
        ) && c == client && u@ == user_id,
    }
}

/// Lists the user's devices, unless something is wrong with the user's id.
pub fn devices_checked(client: u64, user_id: String, fault: Option<String>) -> (s: Step)
    ensures
        lists_devices(s, client, user_id@, text::opt_text(fault)),
{
    match fault {
        Some(err) => daemon::failed(err.as_str()),
        None => Step::Perform(Action::Devices { client, user_id }, Resume::DevicesListed),
    }
}

/// Whether the step is the one that [`devices_start`] takes.
pub open spec fn devices_start_step(
    before: DaemonView,
    account_id: Seq<char>,
    user_id: Option<String>,
    s: Step,
) -> bool {
    match before.runtime.client(account_id) {
        None => daemon::refuses(s, rpc::bad_params_view("no active session"@)),
        Some(client) => match text::opt_text(user_id) {
            Some(user) => lists_devices(s, client, user, matrix::user_id_fault(user)),
            None => s matches Step::Perform(
                Action::OwnUser { client: c },
                Resume::DevicesOwn { client: c2 },
            ) && c == client && c2 == client,
        },
    }
}

/// Starts to list a user's devices, or one's own.
pub fn devices_start(d: &Daemon, account_id: &str, user_id: Option<String>) -> (s: Step)
    ensures
        devices_start_step(d@, account_id@, user_id, s),
{
    match d.client_of(account_id) {
        Err(error) => Step::Reply(Err(error)),
        Ok(client) => match user_id {
            Some(user) => {
                let fault: Option<String> = matrix::check_user_id(user.as_str());
                devices_checked(client, user, fault)
            },
            None => Step::Perform(Action::OwnUser { client }, Resume::DevicesOwn { client }),
        },
    }
}

/// Whether the step is the one that [`devices_own`] takes.
pub open spec fn devices_own_step(
    client: u64,
    own: Option<String>,
    s: Step,
) -> bool {
    match text::opt_text(own) {
        None => daemon::refuses(s, rpc::bad_params_view("missing user id"@)),
        Some(user) => lists_devices(s, client, user, None),
    }
}

/// Goes on once the user's own id is known: the devices are listed.
pub fn devices_own(client: u64, own: Option<String>) -> (s: Step)
    ensures
        devices_own_step(client, own, s),
{
    match own {
        None => daemon::refused("missing user id"),
        Some(user) => devices_checked(client, user, None),
    }
}

/// Whether the step is the one that [`devices_listed`] takes.
pub open spec fn devices_listed_step(
    devices: Result<Vec<DeviceFacts>, String>,
    s: Step,
) -> bool {
    match devices {
        Err(err) => daemon::refuses(s, rpc::internal_error_view(err@)),
        Ok(list) => daemon::replies(s, matrix::devices_json(list@)),
    }
}

/// Ends the request with the list of devices.
pub fn devices_listed(devices: Result<Vec<DeviceFacts>, String>) -> (s: Step)
    ensures
        devices_listed_step(devices, s),
{
    match devices {
        Err(err) => daemon::failed(err.as_str()),
        Ok(list) => Step::Reply(Ok(matrix::list_devices(&list))),
    }
}

/// A verification as it is listed.
pub open spec fn listed_json(snapshot: verification::SnapshotView) -> JsonView {
    JsonView::object().with("flow_id"@, JsonView::Text(snapshot.flow_id)).with(
        "short_id"@,
        JsonView::Text(verification::short_id(snapshot.flow_id)),
    ).with("user_id"@, JsonView::Text(snapshot.user_id)).with(
        "device_id"@,
        json::opt_text_view(snapshot.device_id),
    ).with("stage"@, JsonView::Text(snapshot.stage))
}

/// Whether a verification is one that is asked for.
pub open spec fn is_listed(
    snapshot: verification::SnapshotView,
    user: Option<Seq<char>>,
) -> bool {
    user is None || snapshot.user_id == user->0
}

/// The verifications that are asked for, as they are listed.
pub open spec fn listed(
    flows: Seq<verification::SnapshotView>,
    user: Option<Seq<char>>,
) -> Seq<JsonView>
    decreases flows.len(),
{
    if flows.len() == 0 {
        Seq::empty()
    } else {
        let before = listed(flows.drop_last(), user);
        if is_listed(flows.last(), user) {
            before.push(listed_json(flows.last()))
        } else {
            before
        }
    }
}

/// Whether the ids of the verifications that are asked for can all be shortened.
pub open spec fn can_list(
    flows: Seq<verification::SnapshotView>,
    user: Option<Seq<char>>,
) -> bool {
    forall|i: int|
        0 <= i < flows.len() && is_listed(#[trigger] flows[i], user) ==> verification::can_shorten(
            flows[i].flow_id,
        )
}

/// Whether the snapshot is one that is asked for.
fn is_asked_for(snapshot: &VerificationSnapshot, user: &Option<String>) -> (r: bool)
    ensures
        r == is_listed(snapshot@, text::opt_text(*user)),
{
    match user {
        Some(u) => text::str_eq(snapshot.user_id.as_str(), u.as_str()),
        None => true,
    }
}

/// Whether the ids of the verifications that are asked for can all be shortened.
pub fn is_listable(d: &Daemon, account_id: &str, user: &Option<String>) -> (r: bool)
    ensures
        r == can_list(
            verification::flows_of(d@.runtime.flows, account_id@),
            text::opt_text(*user),
        ),
{
    let flows: Vec<VerificationSnapshot> = d.runtime.verifications_handle().of_account(account_id);
    let ghost all = verification::snapshot_views(flows@);
    let mut i: usize = 0;
    while i < flows.len()
        invariant
            i <= flows.len(),
            all == verification::snapshot_views(flows@),
            all == verification::flows_of(d@.runtime.flows, account_id@),
            forall|k: int|
                0 <= k < i && is_listed(#[trigger] all[k], text::opt_text(*user))
                    ==> verification::can_shorten(all[k].flow_id),
        decreases flows.len() - i,
    {
        assert(all[i as int] == flows@[i as int]@);
        if is_asked_for(&flows[i], user) && !verification::is_shortenable(
            flows[i].flow_id.as_str(),
        ) {
            return false;
        }
        i = i + 1;
    }
    true
}

/// The verifications that are under way, of a user or of all.
pub fn verification_list(d: &Daemon, account_id: &str, user: &Option<String>) -> (s: Step)
    requires
        can_list(verification::flows_of(d@.runtime.flows, account_id@), text::opt_text(*user)),
    ensures
        daemon::replies(
            s,
            JsonView::Array(
                listed(
                    verification::flows_of(d@.runtime.flows, account_id@),
                    text::opt_text(*user),
                ),
            ),
        ),
{
    let flows: Vec<VerificationSnapshot> = d.runtime.verifications_handle().of_account(account_id);
    let ghost all = verification::snapshot_views(flows@);
    let ghost wanted = text::opt_text(*user);
    let mut items: Vec<Json> = Vec::new();
    let mut i: usize = 0;
    assert(json::views(items@) =~= listed(all.take(0), wanted));
    while i < flows.len()
        invariant
            i <= flows.len(),
            all == verification::snapshot_views(flows@),
            wanted == text::opt_text(*user),
            can_list(all, wanted),
            json::views(items@) == listed(all.take(i as int), wanted),
        decreases flows.len() - i,
    {
        assert(all.take(i + 1).drop_last() =~= all.take(i as int));
        assert(all.take(i + 1).last() == flows@[i as int]@);
        assert(all[i as int] == flows@[i as int]@);
        let f: &VerificationSnapshot = &flows[i];
        let ghost before = items@;
        if is_asked_for(f, user) {
            let short: String = verification::shorten(f.flow_id.as_str());
            let item: Json = Json::object().with("flow_id", Json::text(f.flow_id.as_str())).with(
                "short_id",
                Json::text(short.as_str()),
            ).with("user_id", Json::text(f.user_id.as_str())).with(
                "device_id",
                Json::opt_text(&f.device_id),
            ).with("stage", Json::text(f.stage.as_str()));
            items.push(item);
            assert(json::views(items@) =~= json::views(before).push(listed_json(f@)));
        }
        i = i + 1;
    }
    assert(all.take(all.len() as int) =~= all);
    Step::Reply(Ok(Json::array(items)))
}

/// Once a verification was confirmed, refused or cancelled it is gone, and its end is the
/// latest event of the account.
pub proof fn law_ended_flow_is_gone(
    before: DaemonView,
    call: FlowCall,
    event_type: Seq<char>,
    user_id: Seq<char>,
    reason: Seq<char>,
)
    requires
        verification::one_per_flow(before.runtime.flows),
    ensures
        ({
            let after = flow_ended(before, call, event_type, user_id, reason);
            let told = after.bus.outbox.last();
            &&& verification::find_flow(
                after.runtime.flows,
                call.account_id@,
                call.flow_id@,
            ) is None
            &&& told.event_type == event_type
            &&& told.account_id == call.account_id@
            &&& told.data == verification::ended_json(call.flow_id@, user_id, reason)
            &&& after.bus.latest(call.account_id@) == Some(told.cursor)
        }),
{
    verification::law_flow_removed(
        before.runtime.flows,
        call.account_id@,
        call.flow_id@,
        call.account_id@,
        call.flow_id@,
    );
}

} // verus!
