//! What the daemon's methods do over a whole request: from its parameters, through the
//! actions that are performed for it, to its answer.

use vstd::prelude::*;

use crate::daemon::{Daemon, DaemonView, Event, FlowKind, Resume, Step};
use crate::events;
use crate::events::{EventBus, ServerEvent};
use crate::json::JsonView;
use crate::requests;
use crate::requests::{Method, Params};
use crate::rpc::RpcRequest;
use crate::text;

verus! {

/// Whether a request is one of the right version for the method of that name.
pub open spec fn asks(request: RpcRequest, name: Seq<char>) -> bool {
    &&& request.jsonrpc is Some && request.jsonrpc->0@ == "2.0"@
    &&& request.method is Some && request.method->0@ == name
}

/// Whether the account's client is the one with that number.
pub open spec fn has_client(d: DaemonView, account: Seq<char>, client: u64) -> bool {
    d.runtime.clients.contains_key(account) && d.runtime.clients[account] == client
}

/// Whether a request is answered with an error of that code and those words.
pub open spec fn fails(s: Step, code: int, message: Seq<char>) -> bool {
    s is Reply && s->Reply_0 is Err && s->Reply_0->Err_0.code == code
        && s->Reply_0->Err_0.message@ == message
}

/// Whether a request is answered with that value.
pub open spec fn answers(s: Step, value: JsonView) -> bool {
    s is Reply && s->Reply_0 is Ok && s->Reply_0->Ok_0@ == value
}

/// A text, or null.
pub open spec fn text_or_null(s: Option<String>) -> JsonView {
    match s {
        Some(t) => JsonView::Text(t@),
        None => JsonView::Null,
    }
}

/// Whether exactly one event was told in between: the next one of the account, of that type
/// and with that data. It is numbered after the account's latest, it goes to the end of the
/// account's history, of which the oldest go where there are too many, and what is kept of
/// other accounts is as it was.
pub open spec fn tells(
    before: events::BusView,
    after: events::BusView,
    account: Seq<char>,
    event_type: Seq<char>,
    data: JsonView,
) -> bool {
    let latest: nat = if before.logs.contains_key(account) {
        before.logs[account].last
    } else {
        0
    };
    let event = after.outbox.last();
    &&& after.outbox == before.outbox.push(event)
    &&& event.account_id == account
    &&& event.event_type == event_type
    &&& event.data == data
    &&& event.seq == latest + 1
    &&& event.cursor == "cursor-"@ + text::decimal(latest + 1)
    &&& after.max_history == before.max_history
    &&& after.logs.contains_key(account) && after.logs[account].last == latest + 1
    &&& {
        let all = (if before.logs.contains_key(account) {
            before.logs[account].kept
        } else {
            Seq::empty()
        }).push(event);
        let kept = after.logs[account].kept;
        &&& kept.len() == (if all.len() <= after.max_history {
            all.len()
        } else {
            after.max_history
        })
        &&& kept == all.skip(all.len() - kept.len())
    }
    &&& forall|other: Seq<char>|
        other != account ==> after.logs.contains_key(other) == before.logs.contains_key(other)
            && #[trigger] after.logs[other] == before.logs[other]
}

/// An event that is emitted is told, once, and to the subscribers of its account alone.
pub proof fn law_emitting_tells(
    bus: events::BusView,
    account: Seq<char>,
    event_type: Seq<char>,
    data: JsonView,
)
    ensures
        tells(bus, bus.emitted(account, event_type, data), account, event_type, data),
{
    let after = bus.emitted(account, event_type, data);
    let event = after.outbox.last();
    assert(after.outbox =~= bus.outbox.push(event));
    let all = bus.log(account).kept.push(event);
    let kept = after.logs[account].kept;
    assert(kept =~= all.skip(all.len() - kept.len()));
}

/// Every name of a method stands for its own method, and two names for one method only
/// where one is the longer form of the other.
pub proof fn law_names_of_methods()
    ensures
        requests::method_named("rpc.ping"@) == Some(Method::Ping),
        requests::method_named("rpc.version"@) == Some(Method::Version),
        requests::method_named("account.list"@) == Some(Method::AccountList),
        requests::method_named("matrix.session.status"@) == Some(Method::SessionStatus),
        requests::method_named("account.add"@) == Some(Method::AccountAdd),
        requests::method_named("account.login_start"@) == Some(Method::LoginStart),
        requests::method_named("account.login_password"@) == Some(Method::LoginPassword),
        requests::method_named("matrix.login.password"@) == Some(Method::LoginPassword),
        requests::method_named("account.login_complete"@) == Some(Method::LoginToken),
        requests::method_named("matrix.login.sso_complete"@) == Some(Method::LoginToken),
        requests::method_named("account.session_restore"@) == Some(Method::SessionRestore),
        requests::method_named("matrix.session.restore"@) == Some(Method::SessionRestore),
        requests::method_named("login.start"@) == Some(Method::MarkStarted),
        requests::method_named("login.complete"@) == Some(Method::MarkComplete),
        requests::method_named("room.list"@) == Some(Method::RoomList),
        requests::method_named("matrix.rooms.list"@) == Some(Method::BareRoomList),
        requests::method_named("room.messages"@) == Some(Method::RoomMessages),
        requests::method_named("matrix.room.messages"@) == Some(Method::RoomMessages),
        requests::method_named("room.send"@) == Some(Method::RoomSend),
        requests::method_named("matrix.verification.request"@) == Some(Method::VerificationRequest),
        requests::method_named("matrix.verification.accept"@) == Some(Method::VerificationAccept),
        requests::method_named("matrix.verification.start_sas"@) == Some(
            Method::VerificationStartSas,
        ),
        requests::method_named("matrix.verification.sas"@) == Some(Method::VerificationSas),
        requests::method_named("matrix.verification.confirm"@) == Some(Method::VerificationConfirm),
        requests::method_named("matrix.verification.cancel"@) == Some(Method::VerificationCancel),
        requests::method_named("matrix.verification.list"@) == Some(Method::VerificationList),
        requests::method_named("matrix.login_flows"@) == Some(Method::LoginFlows),
        requests::method_named("matrix.capabilities"@) == Some(Method::Capabilities),
        requests::method_named("matrix.devices.list"@) == Some(Method::DevicesList),
{
    reveal_strlit("rpc.ping");
    reveal_strlit("rpc.version");
    reveal_strlit("account.list");
    reveal_strlit("matrix.session.status");
    reveal_strlit("account.add");
    reveal_strlit("account.login_start");
    reveal_strlit("account.login_password");
    reveal_strlit("matrix.login.password");
    reveal_strlit("account.login_complete");
    reveal_strlit("matrix.login.sso_complete");
    reveal_strlit("account.session_restore");
    reveal_strlit("matrix.session.restore");
    reveal_strlit("login.start");
    reveal_strlit("login.complete");
    reveal_strlit("room.list");
    reveal_strlit("matrix.rooms.list");
    reveal_strlit("room.messages");
    reveal_strlit("matrix.room.messages");
    reveal_strlit("room.send");
    reveal_strlit("matrix.verification.request");
    reveal_strlit("matrix.verification.accept");
    reveal_strlit("matrix.verification.start_sas");
    reveal_strlit("matrix.verification.sas");
    reveal_strlit("matrix.verification.confirm");
    reveal_strlit("matrix.verification.cancel");
    reveal_strlit("matrix.verification.list");
    reveal_strlit("matrix.login_flows");
    reveal_strlit("matrix.capabilities");
    reveal_strlit("matrix.devices.list");
    assert("rpc.ping"@.len() == 8);
    assert("rpc.version"@.len() == 11);
    assert("account.list"@.len() == 12);
    assert("matrix.session.status"@.len() == 21);
    assert("account.add"@.len() == 11);
    assert("account.login_start"@.len() == 19);
    assert("account.login_password"@.len() == 22);
    assert("matrix.login.password"@.len() == 21);
    assert("account.login_complete"@.len() == 22);
    assert("matrix.login.sso_complete"@.len() == 25);
    assert("account.session_restore"@.len() == 23);
    assert("matrix.session.restore"@.len() == 22);
    assert("login.start"@.len() == 11);
    assert("login.complete"@.len() == 14);
    assert("room.list"@.len() == 9);
    assert("matrix.rooms.list"@.len() == 17);
    assert("room.messages"@.len() == 13);
    assert("matrix.room.messages"@.len() == 20);
    assert("room.send"@.len() == 9);
    assert("matrix.verification.request"@.len() == 27);
    assert("matrix.verification.accept"@.len() == 26);
    assert("matrix.verification.start_sas"@.len() == 29);
    assert("matrix.verification.sas"@.len() == 23);
    assert("matrix.verification.confirm"@.len() == 27);
    assert("matrix.verification.cancel"@.len() == 26);
    assert("matrix.verification.list"@.len() == 24);
    assert("matrix.login_flows"@.len() == 18);
    assert("matrix.capabilities"@.len() == 19);
    assert("matrix.devices.list"@.len() == 19);
    assert("account.add"@[0] == 'a');
    assert("account.login_complete"@[0] == 'a');
    assert("account.login_complete"@[14] == 'c');
    assert("account.login_password"@[0] == 'a');
    assert("account.login_password"@[14] == 'p');
    assert("account.login_start"@[0] == 'a');
    assert("account.session_restore"@[0] == 'a');
    assert("login.start"@[0] == 'l');
    assert("matrix.capabilities"@[0] == 'm');
    assert("matrix.capabilities"@[7] == 'c');
    assert("matrix.devices.list"@[0] == 'm');
    assert("matrix.devices.list"@[7] == 'd');
    assert("matrix.login.password"@[7] == 'l');
    assert("matrix.session.restore"@[0] == 'm');
    assert("matrix.session.status"@[7] == 's');
    assert("matrix.verification.accept"@[20] == 'a');
    assert("matrix.verification.cancel"@[20] == 'c');
    assert("matrix.verification.confirm"@[20] == 'c');
    assert("matrix.verification.request"@[20] == 'r');
    assert("matrix.verification.sas"@[0] == 'm');
    assert("room.list"@[5] == 'l');
    assert("room.send"@[5] == 's');
    assert("rpc.version"@[0] == 'r');
}

/// A name that is none of the methods' is the name of no method.
pub proof fn law_no_other_methods(name: Seq<char>)
    requires
        requests::method_named(name) is Some,
    ensures
        seq![
            "rpc.ping"@,
            "rpc.version"@,
            "account.list"@,
            "matrix.session.status"@,
            "account.add"@,
            "account.login_start"@,
            "account.login_password"@,
            "matrix.login.password"@,
            "account.login_complete"@,
            "matrix.login.sso_complete"@,
            "account.session_restore"@,
            "matrix.session.restore"@,
            "login.start"@,
            "login.complete"@,
            "room.list"@,
            "matrix.rooms.list"@,
            "room.messages"@,
            "matrix.room.messages"@,
            "room.send"@,
            "matrix.verification.request"@,
            "matrix.verification.accept"@,
            "matrix.verification.start_sas"@,
            "matrix.verification.sas"@,
            "matrix.verification.confirm"@,
            "matrix.verification.cancel"@,
            "matrix.verification.list"@,
            "matrix.login_flows"@,
            "matrix.capabilities"@,
            "matrix.devices.list"@,
        ].contains(name),
{
    let all = seq![
        "rpc.ping"@,
        "rpc.version"@,
        "account.list"@,
        "matrix.session.status"@,
        "account.add"@,
        "account.login_start"@,
        "account.login_password"@,
        "matrix.login.password"@,
        "account.login_complete"@,
        "matrix.login.sso_complete"@,
        "account.session_restore"@,
        "matrix.session.restore"@,
        "login.start"@,
        "login.complete"@,
        "room.list"@,
        "matrix.rooms.list"@,
        "room.messages"@,
        "matrix.room.messages"@,
        "room.send"@,
        "matrix.verification.request"@,
        "matrix.verification.accept"@,
        "matrix.verification.start_sas"@,
        "matrix.verification.sas"@,
        "matrix.verification.confirm"@,
        "matrix.verification.cancel"@,
        "matrix.verification.list"@,
        "matrix.login_flows"@,
        "matrix.capabilities"@,
        "matrix.devices.list"@,
    ];
    assert(all[0] == "rpc.ping"@);
    assert(all[1] == "rpc.version"@);
    assert(all[2] == "account.list"@);
    assert(all[3] == "matrix.session.status"@);
    assert(all[4] == "account.add"@);
    assert(all[5] == "account.login_start"@);
    assert(all[6] == "account.login_password"@);
    assert(all[7] == "matrix.login.password"@);
    assert(all[8] == "account.login_complete"@);
    assert(all[9] == "matrix.login.sso_complete"@);
    assert(all[10] == "account.session_restore"@);
    assert(all[11] == "matrix.session.restore"@);
    assert(all[12] == "login.start"@);
    assert(all[13] == "login.complete"@);
    assert(all[14] == "room.list"@);
    assert(all[15] == "matrix.rooms.list"@);
    assert(all[16] == "room.messages"@);
    assert(all[17] == "matrix.room.messages"@);
    assert(all[18] == "room.send"@);
    assert(all[19] == "matrix.verification.request"@);
    assert(all[20] == "matrix.verification.accept"@);
    assert(all[21] == "matrix.verification.start_sas"@);
    assert(all[22] == "matrix.verification.sas"@);
    assert(all[23] == "matrix.verification.confirm"@);
    assert(all[24] == "matrix.verification.cancel"@);
    assert(all[25] == "matrix.verification.list"@);
    assert(all[26] == "matrix.login_flows"@);
    assert(all[27] == "matrix.capabilities"@);
    assert(all[28] == "matrix.devices.list"@);
}

/// A request that is served begins, and goes on after each action, in the steps that the
/// laws about requests speak of.
pub proof fn law_requests_take_their_steps(
    d: &mut Daemon,
    request: RpcRequest,
    read: Option<Result<Params, String>>,
    first: Step,
    later: &mut Daemon,
    waiting: Resume,
    event: Event,
    next: Step,
)
    requires
        call_ensures(requests::handle_request, (d, &request, read), first),
        call_ensures(requests::resume, (later, waiting, event), next),
    ensures
        requests::handled(old(d)@, request, read, final(d)@, first),
        requests::resumed(old(later)@, waiting, event, final(later)@, next),
        first is Reply && first->Reply_0 is Err ==> final(d)@ == old(d)@,
{
}

/// Every event that was told and not handed out yet is handed out once, in order; what is
/// kept of the accounts stays.
pub proof fn law_events_are_handed_out(bus: &mut EventBus, told: Vec<ServerEvent>)
    requires
        call_ensures(EventBus::take_outbox, (bus,), told),
    ensures
        told@.len() == old(bus)@.outbox.len(),
        forall|i: int| 0 <= i < told@.len() ==> (#[trigger] told@[i])@ == old(bus)@.outbox[i],
        final(bus)@.outbox.len() == 0,
        final(bus)@.logs == old(bus)@.logs,
        final(bus)@.max_history == old(bus)@.max_history,
{
    assert forall|i: int| 0 <= i < told@.len() implies (#[trigger] told@[i])@
        == old(bus)@.outbox[i] by {
        assert(events::event_views(told@)[i] == told@[i]@);
    }
}

/// The parameters that a method needs are the ones that name what it is about.
pub proof fn law_parameters_that_are_needed(params: Params, method: Method, fit: bool)
    requires
        call_ensures(Params::is_fit, (&params, method), fit),
    ensures
        method == Method::AccountAdd ==> fit == (params is Add),
        method == Method::LoginStart ==> fit == (params is Start),
        method == Method::LoginPassword ==> fit == (params is Password),
        method == Method::LoginToken || method == Method::MarkComplete ==> fit == (
        params is Token),
        method == Method::SessionRestore || method == Method::MarkStarted || method
            == Method::RoomList || method == Method::BareRoomList ==> fit == (params is Account),
        method == Method::RoomMessages ==> fit == (params is Messages),
        method == Method::RoomSend ==> fit == (params is Send),
        method == Method::VerificationRequest ==> fit == (params is Request),
        method == Method::VerificationConfirm ==> fit == (params is Confirm),
        method == Method::VerificationAccept || method == Method::VerificationStartSas || method
            == Method::VerificationSas || method == Method::VerificationCancel ==> fit == (
        params is Flow),
        method == Method::VerificationList || method == Method::DevicesList ==> fit == (
        params is OfUser),
        method == Method::LoginFlows || method == Method::Capabilities ==> fit == (params is Page),
        method == Method::Ping || method == Method::Version || method == Method::AccountList
            || method == Method::SessionStatus ==> fit,
{
}

/// A request that waits for something goes on with that and with nothing else: an address
/// with a text, a file with whether it was written, a page with a page that can be one, and
/// so on.
pub proof fn law_events_that_are_waited_for(waiting: Resume, event: Event, fit: bool)
    requires
        call_ensures(Resume::is_fit, (&waiting, &event), fit),
    ensures
        waiting is AddResolved || waiting is StartResolved || waiting is PageResolved
            || waiting is Sent ==> fit == (event is Text),
        waiting is AddSaved || waiting is StartSaved || waiting is StartMethodSaved
            || waiting is LoginSaved || waiting is SessionRestored || waiting is LoginDone
            || waiting is Persisted || waiting is FlowWatched ==> fit == (event is Done),
        waiting is AddFetched || waiting is StartFetched || waiting is PageFetched ==> fit == (
        event is Fetched && event->Fetched_0.valid()),
        waiting is PageText ==> fit == (event is FetchedText && event->FetchedText_0.valid()),
        waiting is LoginBuilt ==> fit == (event is Client),
        waiting is LoginAnswered ==> fit == (event is Session),
        waiting is RoomsListed ==> fit == (event is Rooms),
        waiting is MessagesRoom || waiting is SendRoom ==> fit == (event is Found),
        waiting is MessagesRead ==> fit == (event is Messages),
        waiting is RequestOwn || waiting is FlowOwn || waiting is DevicesOwn ==> fit == (
        event is User),
        waiting is RequestSent ==> fit == (event is Requested),
        waiting is DevicesListed ==> fit == (event is Devices),
        waiting is FlowActed ==> fit == (match waiting->FlowActed_call.kind {
            FlowKind::Accept => event is Known,
            FlowKind::Confirm { .. } => event is Known,
            FlowKind::Cancel => event is Done,
            FlowKind::StartSas => event is Sas,
            FlowKind::ReadSas => event is Sas,
        }),
{
}

/// A request goes on as long as there is a number for one more account and there are numbers
/// for two more events of every account.
pub proof fn law_requests_find_room(waiting: Resume, d: Daemon, found: bool)
    requires
        call_ensures(Resume::finds_room, (&waiting, &d), found),
        d@.state.next_id < u64::MAX,
        forall|account: Seq<char>|
            #[trigger] d@.bus.logs.contains_key(account) ==> d@.bus.logs[account].last + 2
                <= u64::MAX,
    ensures
        found,
{
}

} // verus!
