//! What verifications do as a whole: whom they are asked of, how they are acted on, and what
//! of them is told and kept.

use vstd::prelude::*;
use vstd::utf8::*;

use crate::daemon::{DaemonView, Event, RequestFacts, RequestState, Resume, Step};
use crate::events;
use crate::events::EventBus;
use crate::json;
use crate::json::JsonView;
use crate::matrix;
use crate::matrix::{DeviceFacts, MatrixRuntime, RequestChange, SasChange, Watch, WatchStep};
use crate::request_laws;
use crate::requests;
use crate::requests::Params;
use crate::rpc::RpcRequest;
use crate::verification;
use crate::verification::{FlowView, SasFacts, SnapshotView};
use crate::verification_calls;

verus! {

/// Whether the verification of an account is among those that are under way.
pub open spec fn known(flows: Seq<FlowView>, account: Seq<char>, flow_id: Seq<char>) -> bool {
    exists|i: int|
        0 <= i < flows.len() && (#[trigger] flows[i]).account_id == account
            && flows[i].snapshot.flow_id == flow_id
}

/// Whether all other verifications are as they were.
pub open spec fn keeps_others(
    before: Seq<FlowView>,
    after: Seq<FlowView>,
    account: Seq<char>,
    flow_id: Seq<char>,
) -> bool {
    forall|e: FlowView|
        e.account_id != account || e.snapshot.flow_id != flow_id ==> before.contains(e)
            == #[trigger] after.contains(e)
}

/// Whether the run-time state is the same but for its verifications.
pub open spec fn same_but_flows(before: matrix::RuntimeView, after: matrix::RuntimeView) -> bool {
    before.clients == after.clients && before.syncing == after.syncing
}

/// The data that tells how a verification ended.
pub open spec fn end_data(
    flow_id: Seq<char>,
    user_id: Seq<char>,
    reason: Seq<char>,
) -> JsonView {
    JsonView::Object(
        seq![
            ("flow_id"@, JsonView::Text(flow_id)),
            ("user_id"@, JsonView::Text(user_id)),
            ("reason"@, JsonView::Text(reason)),
        ],
    )
}

/// A text, or null.
pub open spec fn seq_or_null(s: Option<Seq<char>>) -> JsonView {
    match s {
        Some(t) => JsonView::Text(t),
        None => JsonView::Null,
    }
}

/// The data that tells how far a verification with a device, or without one, has come.
pub open spec fn stage_data(
    flow_id: Seq<char>,
    user_id: Seq<char>,
    device_id: Option<Seq<char>>,
    stage: Seq<char>,
) -> JsonView {
    JsonView::Object(
        seq![
            ("flow_id"@, JsonView::Text(flow_id)),
            ("user_id"@, JsonView::Text(user_id)),
            ("device_id"@, seq_or_null(device_id)),
            ("stage"@, JsonView::Text(stage)),
        ],
    )
}

/// The data that tells how far a verification has come.
pub open spec fn bare_stage_data(
    flow_id: Seq<char>,
    user_id: Seq<char>,
    stage: Seq<char>,
) -> JsonView {
    JsonView::Object(
        seq![
            ("flow_id"@, JsonView::Text(flow_id)),
            ("user_id"@, JsonView::Text(user_id)),
            ("stage"@, JsonView::Text(stage)),
        ],
    )
}

proof fn lemma_data()
    ensures
        forall|f: Seq<char>, u: Seq<char>, r: Seq<char>|
            #[trigger] verification::ended_json(f, u, r) == end_data(f, u, r),
        forall|f: Seq<char>, u: Seq<char>, d: Option<Seq<char>>, s: Seq<char>|
            #[trigger] verification::device_stage_json(f, u, d, s) == stage_data(f, u, d, s),
        forall|f: Seq<char>, u: Seq<char>, s: Seq<char>|
            #[trigger] verification::stage_json(f, u, s) == bare_stage_data(f, u, s),
{
    assert forall|f: Seq<char>, u: Seq<char>, r: Seq<char>|
        #[trigger] verification::ended_json(f, u, r) == end_data(f, u, r) by {
        assert(verification::ended_json(f, u, r)->Object_0 =~= end_data(f, u, r)->Object_0);
    }
    assert forall|f: Seq<char>, u: Seq<char>, d: Option<Seq<char>>, s: Seq<char>|
        #[trigger] verification::device_stage_json(f, u, d, s) == stage_data(f, u, d, s) by {
        assert(verification::device_stage_json(f, u, d, s)->Object_0 =~= stage_data(
            f,
            u,
            d,
            s,
        )->Object_0);
    }
    assert forall|f: Seq<char>, u: Seq<char>, s: Seq<char>|
        #[trigger] verification::stage_json(f, u, s) == bare_stage_data(f, u, s) by {
        assert(verification::stage_json(f, u, s)->Object_0 =~= bare_stage_data(
            f,
            u,
            s,
        )->Object_0);
    }
}

proof fn lemma_find_is_known(flows: Seq<FlowView>, account: Seq<char>, flow_id: Seq<char>)
    ensures
        (verification::find_flow(flows, account, flow_id) is Some) == known(
            flows,
            account,
            flow_id,
        ),
{
    verification::lemma_flow_place(flows, account, flow_id);
    let at = verification::flow_place(flows, account, flow_id) as int;
    if at < flows.len() {
        assert(flows[at].account_id == account && flows[at].snapshot.flow_id == flow_id);
    } else if known(flows, account, flow_id) {
        let i = choose|i: int|
            0 <= i < flows.len() && (#[trigger] flows[i]).account_id == account
                && flows[i].snapshot.flow_id == flow_id;
        assert(!verification::is_flow(flows[i], account, flow_id));
    }
}

/// A verification that is stored is under way from now on, just as it was stored, in place
/// of what was known of it, and all others are as they were.
pub proof fn law_storing_a_flow(
    flows: Seq<FlowView>,
    account: Seq<char>,
    snapshot: SnapshotView,
)
    ensures
        ({
            let after = verification::flow_stored(flows, account, snapshot);
            &&& after.contains(FlowView { account_id: account, snapshot })
            &&& keeps_others(flows, after, account, snapshot.flow_id)
            &&& verification::one_per_flow(flows) ==> forall|i: int|
                0 <= i < after.len() && (#[trigger] after[i]).account_id == account
                    && after[i].snapshot.flow_id == snapshot.flow_id ==> after[i].snapshot
                    == snapshot
        }),
{
    let after = verification::flow_stored(flows, account, snapshot);
    let entry = FlowView { account_id: account, snapshot };
    let at = verification::flow_place(flows, account, snapshot.flow_id) as int;
    verification::lemma_flow_place(flows, account, snapshot.flow_id);
    assert(after[at] == entry);
    assert forall|e: FlowView|
        e.account_id != account || e.snapshot.flow_id != snapshot.flow_id implies flows.contains(e)
        == #[trigger] after.contains(e) by {
        if flows.contains(e) {
            let i = choose|i: int| 0 <= i < flows.len() && flows[i] == e;
            assert(after[i] == e);
        }
        if after.contains(e) {
            let i = choose|i: int| 0 <= i < after.len() && after[i] == e;
            assert(flows[i] == e);
        }
    }
    if verification::one_per_flow(flows) {
        verification::law_flow_stored(flows, account, snapshot, account, snapshot.flow_id);
        assert forall|i: int|
            0 <= i < after.len() && (#[trigger] after[i]).account_id == account
                && after[i].snapshot.flow_id == snapshot.flow_id implies after[i].snapshot
            == snapshot by {
            if i < at {
                assert(!verification::is_flow(
                    after[i],
                    after[at].account_id,
                    after[at].snapshot.flow_id,
                ));
            } else if i > at {
                assert(!verification::is_flow(
                    after[at],
                    after[i].account_id,
                    after[i].snapshot.flow_id,
                ));
            }
        }
    }
}

/// A verification that is removed is under way no more, and all others are as they were.
pub proof fn law_removing_a_flow(flows: Seq<FlowView>, account: Seq<char>, flow_id: Seq<char>)
    requires
        verification::one_per_flow(flows),
    ensures
        ({
            let after = verification::flow_removed(flows, account, flow_id);
            &&& !known(after, account, flow_id)
            &&& keeps_others(flows, after, account, flow_id)
        }),
{
    let after = verification::flow_removed(flows, account, flow_id);
    let at = verification::flow_place(flows, account, flow_id) as int;
    verification::lemma_flow_place(flows, account, flow_id);
    verification::law_flow_removed(flows, account, flow_id, account, flow_id);
    lemma_find_is_known(after, account, flow_id);
    assert forall|e: FlowView|
        e.account_id != account || e.snapshot.flow_id != flow_id implies flows.contains(e)
        == #[trigger] after.contains(e) by {
        if flows.contains(e) {
            let i = choose|i: int| 0 <= i < flows.len() && flows[i] == e;
            if at < flows.len() && i > at {
                assert(after[i - 1] == e);
            } else {
                assert(after[i] == e);
            }
        }
        if after.contains(e) {
            let i = choose|i: int| 0 <= i < after.len() && after[i] == e;
            if at < flows.len() && i >= at {
                assert(flows[i + 1] == e);
            } else {
                assert(flows[i] == e);
            }
        }
    }
}

/// The end of a verification that is watched is told as what it is: one that is done as
/// done and verified, one that was cancelled as cancelled and for its own reason. The
/// verification is under way no more. Nothing is told, and nothing changes, where the
/// verification is not known or has not ended.
pub proof fn law_watched_end_is_told_as_it_is(
    bus: events::BusView,
    runtime: matrix::RuntimeView,
    watch: Watch,
    change: RequestChange,
    told: events::BusView,
    after: matrix::RuntimeView,
)
    requires
        verification::one_per_flow(runtime.flows),
        told == matrix::flow_told(
            bus,
            watch.account_id@,
            matrix::watched_end(runtime, watch, change),
        ),
        after == matrix::flow_changed(
            runtime,
            watch.account_id@,
            matrix::watched_end(runtime, watch, change),
        ),
    ensures
        ({
            let ended = known(runtime.flows, watch.account_id@, watch.flow_id@) && (change is Done
                || change is Cancelled);
            &&& ended && change is Done ==> request_laws::tells(
                bus,
                told,
                watch.account_id@,
                "matrix.verification.done"@,
                end_data(watch.flow_id@, watch.user_id@, "verified"@),
            )
            &&& ended && change is Cancelled ==> request_laws::tells(
                bus,
                told,
                watch.account_id@,
                "matrix.verification.cancelled"@,
                end_data(watch.flow_id@, watch.user_id@, change->Cancelled_0@),
            )
            &&& ended ==> {
                &&& !known(after.flows, watch.account_id@, watch.flow_id@)
                &&& keeps_others(runtime.flows, after.flows, watch.account_id@, watch.flow_id@)
                &&& same_but_flows(runtime, after)
            }
            &&& !ended ==> told == bus && after == runtime
        }),
{
    let account = watch.account_id@;
    lemma_data();
    lemma_find_is_known(runtime.flows, account, watch.flow_id@);
    law_removing_a_flow(runtime.flows, account, watch.flow_id@);
    match change {
        RequestChange::Done => {
            request_laws::law_emitting_tells(
                bus,
                account,
                "matrix.verification.done"@,
                end_data(watch.flow_id@, watch.user_id@, "verified"@),
            );
        },
        RequestChange::Cancelled(info) => {
            request_laws::law_emitting_tells(
                bus,
                account,
                "matrix.verification.cancelled"@,
                end_data(watch.flow_id@, watch.user_id@, info@),
            );
        },
        _ => {},
    }
}

/// A watched verification that has ended is watched no longer, and only then; a short
/// authentication string is started once both sides are ready, and accepted once there is
/// one.
pub proof fn law_watching_goes_on(change: RequestChange)
    ensures
        matrix::watch_step(change) == WatchStep::Stop <==> change is Done || change is Cancelled,
        matrix::watch_step(change) == WatchStep::StartSas <==> change is Ready,
        matrix::watch_step(change) == WatchStep::AcceptSas <==> change is Sas,
        matrix::watch_step(change) == WatchStep::Wait <==> change is Other,
{
}

/// A to-device event that asks for a verification is stored and told as requested, by its
/// sender and with the sender's device; one that says that a verification is done, or
/// cancelled, is told so and ends the verification. It has to have a type, a sender and the
/// verification's id; every other event changes nothing and is not told.
pub proof fn law_incoming_verifications(
    bus: events::BusView,
    runtime: matrix::RuntimeView,
    account: Seq<char>,
    event_type: Option<Seq<char>>,
    sender: Option<Seq<char>>,
    content: Option<JsonView>,
    told: events::BusView,
    after: matrix::RuntimeView,
)
    requires
        verification::one_per_flow(runtime.flows),
        told == matrix::flow_told(bus, account, matrix::change_of(event_type, sender, content)),
        after == matrix::flow_changed(
            runtime,
            account,
            matrix::change_of(event_type, sender, content),
        ),
    ensures
        ({
            let held = |key: Seq<char>|
                match content {
                    Some(c) => match c.get(key) {
                        Some(JsonView::Text(t)) => Some(t),
                        _ => None,
                    },
                    None => None::<Seq<char>>,
                };
            let flow_id = held("transaction_id"@);
            let whole = event_type is Some && sender is Some && flow_id is Some;
            let kind = event_type->0;
            &&& whole && kind == "m.key.verification.request"@ ==> {
                &&& request_laws::tells(
                    bus,
                    told,
                    account,
                    "matrix.verification.state"@,
                    stage_data(flow_id->0, sender->0, held("from_device"@), "requested"@),
                )
                &&& after.flows.contains(
                    FlowView {
                        account_id: account,
                        snapshot: SnapshotView {
                            flow_id: flow_id->0,
                            user_id: sender->0,
                            device_id: held("from_device"@),
                            stage: "requested"@,
                            sas: None,
                        },
                    },
                )
            }
            &&& whole && kind == "m.key.verification.done"@ ==> {
                &&& request_laws::tells(
                    bus,
                    told,
                    account,
                    "matrix.verification.done"@,
                    end_data(flow_id->0, sender->0, "verified"@),
                )
                &&& !known(after.flows, account, flow_id->0)
            }
            &&& whole && kind == "m.key.verification.cancel"@ ==> {
                &&& request_laws::tells(
                    bus,
                    told,
                    account,
                    "matrix.verification.cancelled"@,
                    end_data(
                        flow_id->0,
                        sender->0,
                        if held("reason"@) is Some {
                            held("reason"@)->0
                        } else {
                            "cancelled"@
                        },
                    ),
                )
                &&& !known(after.flows, account, flow_id->0)
            }
            &&& same_but_flows(runtime, after)
            &&& whole ==> keeps_others(runtime.flows, after.flows, account, flow_id->0)
            &&& !whole || (kind != "m.key.verification.request"@ && kind
                != "m.key.verification.done"@ && kind != "m.key.verification.cancel"@) ==> told
                == bus && after == runtime
        }),
{
    reveal_strlit("m.key.verification.request");
    reveal_strlit("m.key.verification.done");
    reveal_strlit("m.key.verification.cancel");
    assert("m.key.verification.request"@.len() == 26);
    assert("m.key.verification.done"@.len() == 23);
    assert("m.key.verification.cancel"@.len() == 25);
    lemma_data();
    let change = matrix::change_of(event_type, sender, content);
    match change {
        matrix::FlowChange::Nothing => {},
        matrix::FlowChange::Requested { flow_id, user_id, device_id } => {
            request_laws::law_emitting_tells(
                bus,
                account,
                "matrix.verification.state"@,
                stage_data(flow_id, user_id, device_id, "requested"@),
            );
            law_storing_a_flow(
                runtime.flows,
                account,
                matrix::requested_snapshot(flow_id, user_id, device_id),
            );
        },
        matrix::FlowChange::Done { flow_id, user_id } => {
            request_laws::law_emitting_tells(
                bus,
                account,
                "matrix.verification.done"@,
                end_data(flow_id, user_id, "verified"@),
            );
            law_removing_a_flow(runtime.flows, account, flow_id);
        },
        matrix::FlowChange::Cancelled { flow_id, user_id, reason } => {
            request_laws::law_emitting_tells(
                bus,
                account,
                "matrix.verification.cancelled"@,
                end_data(flow_id, user_id, reason),
            );
            law_removing_a_flow(runtime.flows, account, flow_id);
        },
    }
}

/// A to-device event is taken by what its text holds as its type, its sender and its
/// content.
pub proof fn law_incoming_text(raw: Seq<char>, event: matrix::ToDevice)
    ensures
        matrix::raw_change(raw) == matrix::change_of(
            json::raw_text_field(raw, "type"@),
            json::raw_text_field(raw, "sender"@),
            json::raw_json_field(raw, "content"@),
        ),
        event.event_type is Some && event.sender is Some && event.content is Some
            ==> matrix::flow_change(event) == matrix::change_of(
            Some(event.event_type->0@),
            Some(event.sender->0@),
            Some(event.content->0@),
        ),
        event.event_type is None || event.sender is None || event.content is None
            ==> matrix::flow_change(event) == matrix::FlowChange::Nothing,
{
}

/// The user that a request means: the one that is named, or the account's own where a word
/// for oneself is used.
pub open spec fn means(user: Seq<char>, own: Option<String>) -> Option<Seq<char>> {
    if user == "me"@ || user == "self"@ {
        match own {
            Some(id) => Some(id@),
            None => None,
        }
    } else {
        Some(user)
    }
}

/// A verification is asked for by the account's own client, of the user that is meant and of
/// the device that is named, or of none where none is. Without an own id a word for oneself
/// is refused, and so is a user's id that is not in order.
pub proof fn law_verification_is_asked_of_the_user(
    asked: DaemonView,
    request: RpcRequest,
    params: Params,
    client: u64,
    begun: DaemonView,
    first: Step,
    later: DaemonView,
    own: Option<String>,
    after: DaemonView,
    next: Step,
)
    requires
        request_laws::asks(request, "matrix.verification.request"@),
        params is Request,
        request_laws::has_client(asked, params->Request_account_id@, client),
        requests::handled(asked, request, Some(Ok(params)), begun, first),
        requests::resumed(later, first->Perform_1, Event::User(own), after, next),
    ensures
        begun == asked && after == later,
        first is Perform && first->Perform_0 is OwnUser,
        first->Perform_0->OwnUser_client == client,
        match means(params->Request_user_id@, own) {
            None => request_laws::fails(next, -32602, "no session user id"@),
            Some(user) => match matrix::user_id_fault(user) {
                Some(err) => request_laws::fails(next, -32603, "internal error: "@ + err),
                None => {
                    &&& next is Perform
                    &&& next->Perform_0 is RequestVerification
                    &&& next->Perform_0->RequestVerification_client == client
                    &&& next->Perform_0->RequestVerification_user_id@ == user
                    &&& request_laws::text_or_null(
                        next->Perform_0->RequestVerification_device_id,
                    ) == request_laws::text_or_null(params->Request_device_id)
                },
            },
        },
{
    request_laws::law_names_of_methods();
}

/// A verification that was asked for is under way as requested, is told so, and is answered
/// with its id, its user and its state. One that could not be asked for is answered with
/// the reason and changes nothing.
pub proof fn law_asked_verification_is_under_way(
    params: Params,
    asked: DaemonView,
    request: RpcRequest,
    begun: DaemonView,
    first: Step,
    later: DaemonView,
    own: Option<String>,
    middle: DaemonView,
    asking: Step,
    last: DaemonView,
    sent: Result<Option<RequestFacts>, String>,
    after: DaemonView,
    s: Step,
)
    requires
        request_laws::asks(request, "matrix.verification.request"@),
        params is Request,
        requests::handled(asked, request, Some(Ok(params)), begun, first),
        first is Perform,
        requests::resumed(later, first->Perform_1, Event::User(own), middle, asking),
        asking is Perform,
        requests::resumed(last, asking->Perform_1, Event::Requested(sent), after, s),
    ensures
        sent is Err ==> request_laws::fails(s, -32603, "internal error: "@ + sent->Err_0@)
            && after == last,
        sent is Ok && sent->Ok_0 is None ==> {
            &&& after == last
            &&& request_laws::fails(
                s,
                -32602,
                if params->Request_device_id is Some {
                    "unknown device"@
                } else {
                    "unknown user"@
                },
            )
        },
        sent is Ok && sent->Ok_0 is Some ==> {
            let facts = sent->Ok_0->0;
            let device_id = match params->Request_device_id {
                Some(id) => Some(id@),
                None => None::<Seq<char>>,
            };
            &&& s is Reply && s->Reply_0 is Ok
            &&& s->Reply_0->Ok_0@ is Object && s->Reply_0->Ok_0@->Object_0.len() == 3
            &&& s->Reply_0->Ok_0@->Object_0[0] == ("flow_id"@, JsonView::Text(facts.flow_id@))
            &&& s->Reply_0->Ok_0@->Object_0[1] == ("user_id"@, JsonView::Text(facts.user_id@))
            &&& s->Reply_0->Ok_0@->Object_0[2].0 == "state"@
            &&& facts.state == RequestState::Created || facts.state == RequestState::Requested
                ==> s->Reply_0->Ok_0@->Object_0[2].1 == JsonView::Text("requested"@)
            &&& facts.state == RequestState::Ready ==> s->Reply_0->Ok_0@->Object_0[2].1
                == JsonView::Text("ready"@)
            &&& facts.state == RequestState::Done ==> s->Reply_0->Ok_0@->Object_0[2].1
                == JsonView::Text("done"@)
            &&& facts.state == RequestState::Cancelled ==> s->Reply_0->Ok_0@->Object_0[2].1
                == JsonView::Text("cancelled"@)
            &&& request_laws::tells(
                last.bus,
                after.bus,
                params->Request_account_id@,
                "matrix.verification.state"@,
                stage_data(facts.flow_id@, facts.user_id@, device_id, "requested"@),
            )
            &&& after.runtime.flows.contains(
                FlowView {
                    account_id: params->Request_account_id@,
                    snapshot: SnapshotView {
                        flow_id: facts.flow_id@,
                        user_id: facts.user_id@,
                        device_id,
                        stage: "requested"@,
                        sas: None,
                    },
                },
            )
            &&& keeps_others(
                last.runtime.flows,
                after.runtime.flows,
                params->Request_account_id@,
                facts.flow_id@,
            )
            &&& same_but_flows(last.runtime, after.runtime)
            &&& after.state == last.state
        },
{
    request_laws::law_names_of_methods();
    lemma_data();
    if sent is Ok && sent->Ok_0 is Some {
        let facts = sent->Ok_0->0;
        let device_id = match params->Request_device_id {
            Some(id) => Some(id@),
            None => None::<Seq<char>>,
        };
        request_laws::law_emitting_tells(
            last.bus,
            params->Request_account_id@,
            "matrix.verification.state"@,
            stage_data(facts.flow_id@, facts.user_id@, device_id, "requested"@),
        );
        law_storing_a_flow(
            last.runtime.flows,
            params->Request_account_id@,
            matrix::requested_snapshot(facts.flow_id@, facts.user_id@, device_id),
        );
    }
}

/// Whether the step does with the verification what the method of that name is for, by the
/// client and on the verification that are named.
pub open spec fn does(
    name: Seq<char>,
    s: Step,
    client: u64,
    user_id: Seq<char>,
    flow_id: Seq<char>,
    matches: bool,
) -> bool {
    &&& s is Perform
    &&& name == "matrix.verification.accept"@ ==> {
        &&& s->Perform_0 is AcceptVerification
        &&& s->Perform_0->AcceptVerification_client == client
        &&& s->Perform_0->AcceptVerification_user_id@ == user_id
        &&& s->Perform_0->AcceptVerification_flow_id@ == flow_id
    }
    &&& name == "matrix.verification.start_sas"@ ==> {
        &&& s->Perform_0 is StartSas
        &&& s->Perform_0->StartSas_client == client
        &&& s->Perform_0->StartSas_user_id@ == user_id
        &&& s->Perform_0->StartSas_flow_id@ == flow_id
    }
    &&& name == "matrix.verification.sas"@ ==> {
        &&& s->Perform_0 is ReadSas
        &&& s->Perform_0->ReadSas_client == client
        &&& s->Perform_0->ReadSas_user_id@ == user_id
        &&& s->Perform_0->ReadSas_flow_id@ == flow_id
    }
    &&& name == "matrix.verification.cancel"@ ==> {
        &&& s->Perform_0 is CancelVerification
        &&& s->Perform_0->CancelVerification_client == client
        &&& s->Perform_0->CancelVerification_user_id@ == user_id
        &&& s->Perform_0->CancelVerification_flow_id@ == flow_id
    }
    &&& name == "matrix.verification.confirm"@ ==> {
        &&& s->Perform_0 is AnswerSas
        &&& s->Perform_0->AnswerSas_client == client
        &&& s->Perform_0->AnswerSas_user_id@ == user_id
        &&& s->Perform_0->AnswerSas_flow_id@ == flow_id
        &&& s->Perform_0->AnswerSas_matches == matches
    }
}

/// Whether the request acts on a verification, with the parameters for it.
pub open spec fn acts_on_a_flow(request: RpcRequest, params: Params) -> bool {
    ||| request_laws::asks(request, "matrix.verification.accept"@) && params is Flow
    ||| request_laws::asks(request, "matrix.verification.start_sas"@) && params is Flow
    ||| request_laws::asks(request, "matrix.verification.sas"@) && params is Flow
    ||| request_laws::asks(request, "matrix.verification.cancel"@) && params is Flow
    ||| request_laws::asks(request, "matrix.verification.confirm"@) && params is Confirm
}

/// The account that a request on a verification names.
pub open spec fn acting_account(params: Params) -> Seq<char> {
    if params is Confirm {
        params->Confirm_account_id@
    } else {
        params->Flow_account_id@
    }
}

/// The user that a request on a verification names.
pub open spec fn acting_user(params: Params) -> Seq<char> {
    if params is Confirm {
        params->Confirm_user_id@
    } else {
        params->Flow_user_id@
    }
}

/// The verification that a request names.
pub open spec fn acting_flow(params: Params) -> Seq<char> {
    if params is Confirm {
        params->Confirm_flow_id@
    } else {
        params->Flow_flow_id@
    }
}

proof fn lemma_verification_names()
    ensures
        "matrix.verification.accept"@ != "matrix.verification.start_sas"@,
        "matrix.verification.accept"@ != "matrix.verification.sas"@,
        "matrix.verification.accept"@ != "matrix.verification.cancel"@,
        "matrix.verification.accept"@ != "matrix.verification.confirm"@,
        "matrix.verification.start_sas"@ != "matrix.verification.sas"@,
        "matrix.verification.start_sas"@ != "matrix.verification.cancel"@,
        "matrix.verification.start_sas"@ != "matrix.verification.confirm"@,
        "matrix.verification.sas"@ != "matrix.verification.cancel"@,
        "matrix.verification.sas"@ != "matrix.verification.confirm"@,
        "matrix.verification.cancel"@ != "matrix.verification.confirm"@,
{
    request_laws::law_names_of_methods();
}

/// A request on a verification does what it is for with the verification that it names, of
/// the user that it means, by the account's own client. A word for oneself is looked up
/// first; a user's id that is not in order is refused.
pub proof fn law_flow_is_acted_on_as_asked(
    asked: DaemonView,
    request: RpcRequest,
    params: Params,
    client: u64,
    begun: DaemonView,
    first: Step,
    later: DaemonView,
    own: Option<String>,
    after: DaemonView,
    next: Step,
)
    requires
        acts_on_a_flow(request, params),
        request_laws::has_client(asked, acting_account(params), client),
        requests::handled(asked, request, Some(Ok(params)), begun, first),
        acting_user(params) == "me"@ || acting_user(params) == "self"@ ==> requests::resumed(
            later,
            first->Perform_1,
            Event::User(own),
            after,
            next,
        ),
    ensures
        begun == asked,
        ({
            let itself = acting_user(params) == "me"@ || acting_user(params) == "self"@;
            let acting = if itself {
                next
            } else {
                first
            };
            let matches = params is Confirm && params->Confirm_matches;
            &&& itself ==> {
                &&& after == later
                &&& first is Perform && first->Perform_0 is OwnUser
                &&& first->Perform_0->OwnUser_client == client
            }
            &&& match means(acting_user(params), own) {
                None => request_laws::fails(next, -32602, "no session user id"@),
                Some(user) => match matrix::user_id_fault(user) {
                    Some(err) => request_laws::fails(acting, -32603, "internal error: "@ + err),
                    None => does(
                        request.method->0@,
                        acting,
                        client,
                        user,
                        acting_flow(params),
                        matches,
                    ),
                },
            }
        }),
{
    request_laws::law_names_of_methods();
    lemma_verification_names();
}

/// Whether a request on a verification has come to the step that acts on it: at once, or
/// where it names oneself once the account's own id is known.
pub open spec fn comes_to(
    first: Step,
    user: Seq<char>,
    middle: DaemonView,
    own: Option<String>,
    passed: DaemonView,
    acting: Step,
) -> bool {
    &&& first is Perform
    &&& acting is Perform
    &&& if user == "me"@ || user == "self"@ {
        requests::resumed(middle, first->Perform_1, Event::User(own), passed, acting)
    } else {
        acting == first
    }
}

/// A verification that was accepted is under way as accepted and told so, and it is watched
/// from now on, by the client that accepted it. One that is not known is refused, and
/// nothing changes.
pub proof fn law_accepted_verification_is_watched(
    asked: DaemonView,
    request: RpcRequest,
    params: Params,
    client: u64,
    begun: DaemonView,
    first: Step,
    middle: DaemonView,
    own: Option<String>,
    passed: DaemonView,
    acting: Step,
    later: DaemonView,
    known_there: Result<bool, String>,
    after: DaemonView,
    s: Step,
)
    requires
        request_laws::asks(request, "matrix.verification.accept"@),
        params is Flow,
        request_laws::has_client(asked, params->Flow_account_id@, client),
        requests::handled(asked, request, Some(Ok(params)), begun, first),
        comes_to(first, params->Flow_user_id@, middle, own, passed, acting),
        requests::resumed(later, acting->Perform_1, Event::Known(known_there), after, s),
    ensures
        known_there is Err ==> after == later && request_laws::fails(
            s,
            -32603,
            "internal error: "@ + known_there->Err_0@,
        ),
        known_there == Ok::<bool, String>(false) ==> after == later && request_laws::fails(
            s,
            -32602,
            "unknown verification"@,
        ),
        known_there == Ok::<bool, String>(true) ==> {
            &&& s is Perform && s->Perform_0 is WatchVerification
            &&& s->Perform_0->WatchVerification_client == client
            &&& s->Perform_0->WatchVerification_account_id@ == params->Flow_account_id@
            &&& Some(s->Perform_0->WatchVerification_user_id@) == means(params->Flow_user_id@, own)
            &&& s->Perform_0->WatchVerification_flow_id@ == params->Flow_flow_id@
            &&& request_laws::tells(
                later.bus,
                after.bus,
                params->Flow_account_id@,
                "matrix.verification.state"@,
                bare_stage_data(
                    params->Flow_flow_id@,
                    means(params->Flow_user_id@, own)->0,
                    "accepted"@,
                ),
            )
            &&& after.runtime.flows.contains(
                FlowView {
                    account_id: params->Flow_account_id@,
                    snapshot: SnapshotView {
                        flow_id: params->Flow_flow_id@,
                        user_id: params->Flow_user_id@,
                        device_id: None,
                        stage: "accepted"@,
                        sas: None,
                    },
                },
            )
            &&& keeps_others(
                later.runtime.flows,
                after.runtime.flows,
                params->Flow_account_id@,
                params->Flow_flow_id@,
            )
            &&& same_but_flows(later.runtime, after.runtime)
            &&& after.state == later.state
        },
{
    request_laws::law_names_of_methods();
    lemma_verification_names();
    lemma_data();
    request_laws::law_emitting_tells(
        later.bus,
        params->Flow_account_id@,
        "matrix.verification.state"@,
        bare_stage_data(
                    params->Flow_flow_id@,
                    means(params->Flow_user_id@, own)->0,
                    "accepted"@,
                ),
    );
    law_storing_a_flow(
        later.runtime.flows,
        params->Flow_account_id@,
        SnapshotView {
            flow_id: params->Flow_flow_id@,
            user_id: params->Flow_user_id@,
            device_id: None,
            stage: "accepted"@,
            sas: None,
        },
    );
}

/// A verification that is being watched after it was accepted is answered as accepted.
pub proof fn law_accepted_verification_is_answered(
    before: DaemonView,
    waiting: Resume,
    middle: DaemonView,
    watching: Step,
    later: DaemonView,
    done: Result<(), String>,
    after: DaemonView,
    s: Step,
)
    requires
        waiting is FlowActed && waiting->FlowActed_call.kind is Accept,
        requests::resumed(before, waiting, Event::Known(Ok(true)), middle, watching),
        requests::resumed(later, watching->Perform_1, Event::Done(done), after, s),
    ensures
        after == later,
        request_laws::answers(
            s,
            JsonView::Object(
                seq![
                    ("flow_id"@, JsonView::Text(waiting->FlowActed_call.flow_id@)),
                    ("status"@, JsonView::Text("accepted"@)),
                ],
            ),
        ),
{
    assert(s->Reply_0->Ok_0@->Object_0 =~= seq![
        ("flow_id"@, JsonView::Text(waiting->FlowActed_call.flow_id@)),
        ("status"@, JsonView::Text("accepted"@)),
    ]);
}

/// Whether a verification has ended in between: its end is told, for that reason, it is
/// under way no more, and nothing else has changed.
pub open spec fn ends(
    before: DaemonView,
    after: DaemonView,
    account: Seq<char>,
    flow_id: Seq<char>,
    event_type: Seq<char>,
    data: JsonView,
) -> bool {
    &&& request_laws::tells(before.bus, after.bus, account, event_type, data)
    &&& !known(after.runtime.flows, account, flow_id)
    &&& keeps_others(before.runtime.flows, after.runtime.flows, account, flow_id)
    &&& same_but_flows(before.runtime, after.runtime)
    &&& after.state == before.state
}

/// Strings that are said to match end the verification as verified, and strings that are
/// said not to match end it as a mismatch; the answer says which. Where there is no string
/// nothing ends.
pub proof fn law_confirming_ends_the_verification(
    asked: DaemonView,
    request: RpcRequest,
    params: Params,
    begun: DaemonView,
    first: Step,
    middle: DaemonView,
    own: Option<String>,
    passed: DaemonView,
    acting: Step,
    later: DaemonView,
    known_there: Result<bool, String>,
    after: DaemonView,
    s: Step,
)
    requires
        verification::one_per_flow(later.runtime.flows),
        request_laws::asks(request, "matrix.verification.confirm"@),
        params is Confirm,
        requests::handled(asked, request, Some(Ok(params)), begun, first),
        comes_to(first, params->Confirm_user_id@, middle, own, passed, acting),
        requests::resumed(later, acting->Perform_1, Event::Known(known_there), after, s),
    ensures
        known_there is Err ==> after == later && request_laws::fails(
            s,
            -32603,
            "internal error: "@ + known_there->Err_0@,
        ),
        known_there == Ok::<bool, String>(false) ==> after == later && request_laws::fails(
            s,
            -32602,
            "unknown sas"@,
        ),
        known_there == Ok::<bool, String>(true) && params->Confirm_matches ==> {
            &&& ends(
                later,
                after,
                params->Confirm_account_id@,
                params->Confirm_flow_id@,
                "matrix.verification.done"@,
                end_data(
                    params->Confirm_flow_id@,
                    means(params->Confirm_user_id@, own)->0,
                    "verified"@,
                ),
            )
            &&& request_laws::answers(
                s,
                JsonView::Object(
                    seq![
                        ("flow_id"@, JsonView::Text(params->Confirm_flow_id@)),
                        ("status"@, JsonView::Text("confirmed"@)),
                    ],
                ),
            )
        },
        known_there == Ok::<bool, String>(true) && !params->Confirm_matches ==> {
            &&& ends(
                later,
                after,
                params->Confirm_account_id@,
                params->Confirm_flow_id@,
                "matrix.verification.cancelled"@,
                end_data(
                    params->Confirm_flow_id@,
                    means(params->Confirm_user_id@, own)->0,
                    "mismatch"@,
                ),
            )
            &&& request_laws::answers(
                s,
                JsonView::Object(
                    seq![
                        ("flow_id"@, JsonView::Text(params->Confirm_flow_id@)),
                        ("status"@, JsonView::Text("mismatch"@)),
                    ],
                ),
            )
        },
{
    request_laws::law_names_of_methods();
    lemma_data();
    let account = params->Confirm_account_id@;
    let flow_id = params->Confirm_flow_id@;
    let user_id = means(params->Confirm_user_id@, own)->0;
    request_laws::law_emitting_tells(
        later.bus,
        account,
        "matrix.verification.done"@,
        end_data(flow_id, user_id, "verified"@),
    );
    request_laws::law_emitting_tells(
        later.bus,
        account,
        "matrix.verification.cancelled"@,
        end_data(flow_id, user_id, "mismatch"@),
    );
    law_removing_a_flow(later.runtime.flows, account, flow_id);
    if known_there == Ok::<bool, String>(true) {
        assert(s->Reply_0->Ok_0@->Object_0 =~= seq![
            ("flow_id"@, JsonView::Text(flow_id)),
            (
                "status"@,
                JsonView::Text(
                    if params->Confirm_matches {
                        "confirmed"@
                    } else {
                        "mismatch"@
                    },
                ),
            ),
        ]);
    }
}

/// A verification that is cancelled is told as cancelled by the user, is under way no more,
/// and is answered so. Where it cannot be cancelled nothing changes.
pub proof fn law_cancelling_ends_the_verification(
    asked: DaemonView,
    request: RpcRequest,
    params: Params,
    begun: DaemonView,
    first: Step,
    middle: DaemonView,
    own: Option<String>,
    passed: DaemonView,
    acting: Step,
    later: DaemonView,
    done: Result<(), String>,
    after: DaemonView,
    s: Step,
)
    requires
        verification::one_per_flow(later.runtime.flows),
        request_laws::asks(request, "matrix.verification.cancel"@),
        params is Flow,
        requests::handled(asked, request, Some(Ok(params)), begun, first),
        comes_to(first, params->Flow_user_id@, middle, own, passed, acting),
        requests::resumed(later, acting->Perform_1, Event::Done(done), after, s),
    ensures
        done is Err ==> after == later && request_laws::fails(
            s,
            -32603,
            "internal error: "@ + done->Err_0@,
        ),
        done is Ok ==> {
            &&& ends(
                later,
                after,
                params->Flow_account_id@,
                params->Flow_flow_id@,
                "matrix.verification.cancelled"@,
                end_data(
                    params->Flow_flow_id@,
                    means(params->Flow_user_id@, own)->0,
                    "user_cancelled"@,
                ),
            )
            &&& request_laws::answers(
                s,
                JsonView::Object(
                    seq![
                        ("flow_id"@, JsonView::Text(params->Flow_flow_id@)),
                        ("status"@, JsonView::Text("cancelled"@)),
                    ],
                ),
            )
        },
{
    request_laws::law_names_of_methods();
    lemma_data();
    let account = params->Flow_account_id@;
    let flow_id = params->Flow_flow_id@;
    request_laws::law_emitting_tells(
        later.bus,
        account,
        "matrix.verification.cancelled"@,
        end_data(flow_id, means(params->Flow_user_id@, own)->0, "user_cancelled"@),
    );
    law_removing_a_flow(later.runtime.flows, account, flow_id);
    if done is Ok {
        assert(s->Reply_0->Ok_0@->Object_0 =~= seq![
            ("flow_id"@, JsonView::Text(flow_id)),
            ("status"@, JsonView::Text("cancelled"@)),
        ]);
    }
}

/// Whether a value shows a short authentication string: what it is, and its numbers and its
/// emoji, each where it has them.
pub open spec fn shows_sas(shown: JsonView, sas: SasFacts) -> bool {
    &&& shown.get("supports_emoji"@) == Some(JsonView::Bool(sas.supports_emoji))
    &&& shown.get("can_be_presented"@) == Some(JsonView::Bool(sas.can_be_presented))
    &&& shown.get("is_done"@) == Some(JsonView::Bool(sas.is_done))
    &&& shown.get("is_cancelled"@) == Some(JsonView::Bool(sas.is_cancelled))
    &&& match sas.decimals {
        None => shown.get("decimals"@) is None,
        Some(d) => shown.get("decimals"@) == Some(
            JsonView::Array(
                seq![
                    JsonView::Unsigned(d.0 as u64),
                    JsonView::Unsigned(d.1 as u64),
                    JsonView::Unsigned(d.2 as u64),
                ],
            ),
        ),
    }
    &&& match sas.emoji {
        None => shown.get("emoji"@) is None,
        Some(list) => {
            &&& shown.get("emoji"@) is Some && shown.get("emoji"@)->0 is Array
            &&& shown.get("emoji"@)->0->Array_0.len() == list@.len()
            &&& forall|i: int|
                0 <= i < list@.len() ==> #[trigger] shown.get("emoji"@)->0->Array_0[i]
                    == JsonView::Object(
                    seq![
                        ("symbol"@, JsonView::Text(list@[i].0@)),
                        ("description"@, JsonView::Text(list@[i].1@)),
                    ],
                )
        },
    }
}

/// A short authentication string is shown with its own numbers and emoji.
pub proof fn law_sas_is_shown_as_it_is(sas: SasFacts)
    ensures
        shows_sas(verification::sas_json(sas), sas),
{
    reveal_strlit("supports_emoji");
    reveal_strlit("can_be_presented");
    reveal_strlit("is_done");
    reveal_strlit("is_cancelled");
    reveal_strlit("decimals");
    reveal_strlit("emoji");
    assert("supports_emoji"@.len() == 14 && "can_be_presented"@.len() == 16 && "is_done"@.len()
        == 7 && "is_cancelled"@.len() == 12 && "decimals"@.len() == 8 && "emoji"@.len() == 5);
    let bare = JsonView::object();
    let one = bare.with("supports_emoji"@, JsonView::Bool(sas.supports_emoji));
    let two = one.with("can_be_presented"@, JsonView::Bool(sas.can_be_presented));
    let three = two.with("is_done"@, JsonView::Bool(sas.is_done));
    let flags = three.with("is_cancelled"@, JsonView::Bool(sas.is_cancelled));
    let numbers = match sas.decimals {
        Some(d) => JsonView::Array(
            seq![
                JsonView::Unsigned(d.0 as u64),
                JsonView::Unsigned(d.1 as u64),
                JsonView::Unsigned(d.2 as u64),
            ],
        ),
        None => JsonView::Null,
    };
    let numbered = if sas.decimals is Some {
        flags.with("decimals"@, numbers)
    } else {
        flags
    };
    let symbols = match sas.emoji {
        Some(list) => JsonView::Array(
            list@.map_values(|e: (String, String)| verification::emoji_json(e)),
        ),
        None => JsonView::Null,
    };
    assert forall|key: Seq<char>| true implies #[trigger] verification::sas_json(sas).get(key)
        == (if key == "supports_emoji"@ {
        Some(JsonView::Bool(sas.supports_emoji))
    } else if key == "can_be_presented"@ {
        Some(JsonView::Bool(sas.can_be_presented))
    } else if key == "is_done"@ {
        Some(JsonView::Bool(sas.is_done))
    } else if key == "is_cancelled"@ {
        Some(JsonView::Bool(sas.is_cancelled))
    } else if key == "decimals"@ && sas.decimals is Some {
        Some(numbers)
    } else if key == "emoji"@ && sas.emoji is Some {
        Some(symbols)
    } else {
        None
    }) by {
        assert(bare.get(key) is None);
        json::lemma_get_with(bare, "supports_emoji"@, JsonView::Bool(sas.supports_emoji), key);
        json::lemma_get_with(one, "can_be_presented"@, JsonView::Bool(sas.can_be_presented), key);
        json::lemma_get_with(two, "is_done"@, JsonView::Bool(sas.is_done), key);
        json::lemma_get_with(three, "is_cancelled"@, JsonView::Bool(sas.is_cancelled), key);
        json::lemma_get_with(flags, "decimals"@, numbers, key);
        json::lemma_get_with(numbered, "emoji"@, symbols, key);
    }
    if sas.emoji is Some {
        let list = sas.emoji->0;
        let shown = verification::sas_json(sas);
        assert forall|i: int| 0 <= i < list@.len() implies #[trigger] shown.get(
            "emoji"@,
        )->0->Array_0[i] == JsonView::Object(
            seq![
                ("symbol"@, JsonView::Text(list@[i].0@)),
                ("description"@, JsonView::Text(list@[i].1@)),
            ],
        ) by {
            assert(verification::emoji_json(list@[i])->Object_0 =~= seq![
                ("symbol"@, JsonView::Text(list@[i].0@)),
                ("description"@, JsonView::Text(list@[i].1@)),
            ]);
        }
    }
}

/// A short authentication string that was asked for is the answer; where there is none, or
/// it could not be read, the answer says so. Nothing else changes.
pub proof fn law_sas_is_answered(
    asked: DaemonView,
    request: RpcRequest,
    params: Params,
    begun: DaemonView,
    first: Step,
    middle: DaemonView,
    own: Option<String>,
    passed: DaemonView,
    acting: Step,
    later: DaemonView,
    sas: Result<Option<SasFacts>, String>,
    after: DaemonView,
    s: Step,
)
    requires
        request_laws::asks(request, "matrix.verification.start_sas"@) || request_laws::asks(
            request,
            "matrix.verification.sas"@,
        ),
        params is Flow,
        requests::handled(asked, request, Some(Ok(params)), begun, first),
        comes_to(first, params->Flow_user_id@, middle, own, passed, acting),
        requests::resumed(later, acting->Perform_1, Event::Sas(sas), after, s),
    ensures
        after == later,
        match sas {
            Err(err) => request_laws::fails(s, -32603, "internal error: "@ + err@),
            Ok(None) => request_laws::fails(s, -32602, "unknown sas"@),
            Ok(Some(facts)) => s is Reply && s->Reply_0 is Ok && shows_sas(
                s->Reply_0->Ok_0@,
                facts,
            ),
        },
{
    request_laws::law_names_of_methods();
    if sas is Ok && sas->Ok_0 is Some {
        law_sas_is_shown_as_it_is(sas->Ok_0->0);
    }
}

/// The data that tells a short authentication string: its numbers and its emoji, or null
/// where it has none.
pub open spec fn tells_sas(
    data: JsonView,
    flow_id: Seq<char>,
    user_id: Seq<char>,
    sas: SasFacts,
) -> bool {
    let shown = verification::sas_json(sas);
    &&& data is Object && data->Object_0.len() == 6
    &&& data->Object_0[0] == ("flow_id"@, JsonView::Text(flow_id))
    &&& data->Object_0[1] == ("user_id"@, JsonView::Text(user_id))
    &&& data->Object_0[2] == ("supports_emoji"@, JsonView::Bool(sas.supports_emoji))
    &&& data->Object_0[3] == ("can_be_presented"@, JsonView::Bool(sas.can_be_presented))
    &&& data->Object_0[4].0 == "emoji"@
    &&& sas.emoji is None ==> data->Object_0[4].1 is Null
    &&& sas.emoji is Some ==> shown.get("emoji"@) == Some(data->Object_0[4].1)
    &&& data->Object_0[5].0 == "decimals"@
    &&& sas.decimals is None ==> data->Object_0[5].1 is Null
    &&& sas.decimals is Some ==> shown.get("decimals"@) == Some(data->Object_0[5].1)
}

/// A short authentication string that a watched verification can show is told, where it was
/// not yet: first that the verification has one, and with it the string itself. It is kept
/// with the verification, which is otherwise as it was. A second one changes nothing.
pub proof fn law_shown_sas_is_told(
    bus: events::BusView,
    runtime: matrix::RuntimeView,
    watch: Watch,
    sas: SasFacts,
    told: events::BusView,
    after: matrix::RuntimeView,
)
    requires
        told == matrix::sas_shown_bus(bus, runtime, watch, verification::sas_json(sas)),
        after == matrix::sas_shown_runtime(runtime, watch, verification::sas_json(sas)),
    ensures
        ({
            let account = watch.account_id@;
            let flow_id = watch.flow_id@;
            let before = verification::find_flow(runtime.flows, account, flow_id);
            let fresh = before is None || before->0.sas is None;
            &&& !fresh ==> told == bus && after == runtime
            &&& fresh ==> {
                let middle = bus.emitted(
                    account,
                    "matrix.verification.state"@,
                    bare_stage_data(flow_id, watch.user_id@, "sas"@),
                );
                let data = told.outbox.last().data;
                &&& request_laws::tells(middle, told, account, "matrix.verification.sas"@, data)
                &&& tells_sas(data, flow_id, watch.user_id@, sas)
            }
            &&& fresh ==> {
                let kept = verification::find_flow(after.flows, account, flow_id);
                &&& kept is Some && kept->0.stage == "sas"@
                &&& kept->0.sas is Some && shows_sas(kept->0.sas->0, sas)
                &&& kept->0.flow_id == flow_id
                &&& before is Some ==> kept->0.user_id == before->0.user_id && kept->0.device_id
                    == before->0.device_id
                &&& before is None ==> kept->0.user_id == watch.user_id@ && kept->0.device_id
                    is None
                &&& keeps_others(runtime.flows, after.flows, account, flow_id)
                &&& same_but_flows(runtime, after)
            }
        }),
{
    let account = watch.account_id@;
    let flow_id = watch.flow_id@;
    let shown = verification::sas_json(sas);
    lemma_data();
    law_sas_is_shown_as_it_is(sas);
    verification::lemma_flow_place(runtime.flows, account, flow_id);
    let before = verification::find_flow(runtime.flows, account, flow_id);
    let middle = bus.emitted(
        account,
        "matrix.verification.state"@,
        bare_stage_data(flow_id, watch.user_id@, "sas"@),
    );
    request_laws::law_emitting_tells(
        middle,
        account,
        "matrix.verification.sas"@,
        verification::sas_event_json(flow_id, watch.user_id@, shown),
    );
    let snapshot = verification::sas_snapshot(before, flow_id, watch.user_id@, shown);
    law_storing_a_flow(runtime.flows, account, snapshot);
    verification::law_flow_stored(runtime.flows, account, snapshot, account, flow_id);
}

/// The verifications of an account are those entries that are the account's, in order.
pub proof fn law_flows_of_an_account(flows: Seq<FlowView>, account: Seq<char>)
    ensures
        verification::flows_of(flows, account) == flows.filter(
            |e: FlowView| e.account_id == account,
        ).map_values(|e: FlowView| e.snapshot),
    decreases flows.len(),
{
    reveal(Seq::filter);
    let own = |e: FlowView| e.account_id == account;
    let shown = |e: FlowView| e.snapshot;
    if flows.len() > 0 {
        law_flows_of_an_account(flows.drop_last(), account);
        assert(flows.filter(own).map_values(shown) =~= verification::flows_of(flows, account));
    } else {
        assert(flows.filter(own).map_values(shown) =~= Seq::empty());
    }
}

/// A verification as it is listed: its id, also in short, its user, its device and how far it
/// has come.
pub open spec fn listed_as(flow: SnapshotView) -> JsonView {
    JsonView::Object(
        seq![
            ("flow_id"@, JsonView::Text(flow.flow_id)),
            ("short_id"@, JsonView::Text(verification::short_id(flow.flow_id))),
            ("user_id"@, JsonView::Text(flow.user_id)),
            ("device_id"@, seq_or_null(flow.device_id)),
            ("stage"@, JsonView::Text(flow.stage)),
        ],
    )
}

proof fn lemma_listed_flows(flows: Seq<SnapshotView>, user: Option<Seq<char>>)
    ensures
        verification_calls::listed(flows, user) == flows.filter(
            |f: SnapshotView| user is None || f.user_id == user->0,
        ).map_values(|f: SnapshotView| listed_as(f)),
    decreases flows.len(),
{
    reveal(Seq::filter);
    let wanted = |f: SnapshotView| user is None || f.user_id == user->0;
    let shown = |f: SnapshotView| listed_as(f);
    if flows.len() > 0 {
        lemma_listed_flows(flows.drop_last(), user);
        let last = flows.last();
        assert(verification_calls::listed_json(last)->Object_0 =~= listed_as(last)->Object_0);
        assert(flows.filter(wanted).map_values(shown) =~= verification_calls::listed(flows, user));
    } else {
        assert(flows.filter(wanted).map_values(shown) =~= Seq::empty());
    }
}

/// The verifications of an account are listed in order: all of them, or those of the user
/// that is named and no other.
pub proof fn law_verifications_are_listed(
    asked: DaemonView,
    request: RpcRequest,
    params: Params,
    after: DaemonView,
    s: Step,
)
    requires
        request_laws::asks(request, "matrix.verification.list"@),
        params is OfUser,
        requests::handled(asked, request, Some(Ok(params)), after, s),
    ensures
        after == asked,
        ({
            let own = asked.runtime.flows.filter(
                |e: FlowView| e.account_id == params->OfUser_account_id@,
            ).map_values(|e: FlowView| e.snapshot);
            let wanted = own.filter(
                |f: SnapshotView|
                    params->OfUser_user is None || f.user_id == params->OfUser_user->0@,
            );
            request_laws::answers(
                s,
                JsonView::Array(wanted.map_values(|f: SnapshotView| listed_as(f))),
            )
        }),
{
    request_laws::law_names_of_methods();
    law_flows_of_an_account(asked.runtime.flows, params->OfUser_account_id@);
    let user = match params->OfUser_user {
        Some(u) => Some(u@),
        None => None::<Seq<char>>,
    };
    let own = verification::flows_of(asked.runtime.flows, params->OfUser_account_id@);
    lemma_listed_flows(own, user);
    let by_seq = |f: SnapshotView| user is None || f.user_id == user->0;
    let by_param = |f: SnapshotView|
        params->OfUser_user is None || f.user_id == params->OfUser_user->0@;
    assert(by_seq =~= by_param);
}

/// The short form of a verification's id is made of its first eight bytes, or of all where
/// it has no more.
pub proof fn law_short_id(flow_id: Seq<char>)
    requires
        verification::can_shorten(flow_id),
    ensures
        ({
            let whole = encode_utf8(flow_id);
            let short = encode_utf8(verification::short_id(flow_id));
            &&& short.is_prefix_of(whole)
            &&& short.len() == (if whole.len() > 8 {
                8
            } else {
                whole.len()
            })
        }),
{
    broadcast use encode_utf8_valid_utf8;
    broadcast use decode_utf8_encode_utf8;
    broadcast use valid_utf8_split;

    let whole = encode_utf8(flow_id);
    if whole.len() > 8 {
        assert(valid_utf8(whole.subrange(0, 8)));
    }
}

/// A device as it is listed: whose it is, its id, its name where it has one, and whether it
/// is verified.
pub open spec fn shows_device(shown: JsonView, device: DeviceFacts) -> bool {
    shown == JsonView::Object(
        seq![
            ("user_id"@, JsonView::Text(device.user_id@)),
            ("device_id"@, JsonView::Text(device.device_id@)),
            ("display_name"@, request_laws::text_or_null(device.display_name)),
            ("is_verified"@, JsonView::Bool(device.is_verified)),
        ],
    )
}

/// The devices of the user that is named, or of the account's own user, are asked of the
/// account's own client.
pub proof fn law_devices_are_asked_of_the_user(
    asked: DaemonView,
    request: RpcRequest,
    params: Params,
    client: u64,
    begun: DaemonView,
    first: Step,
    later: DaemonView,
    own: Option<String>,
    after: DaemonView,
    next: Step,
)
    requires
        request_laws::asks(request, "matrix.devices.list"@),
        params is OfUser,
        request_laws::has_client(asked, params->OfUser_account_id@, client),
        requests::handled(asked, request, Some(Ok(params)), begun, first),
        params->OfUser_user is None ==> requests::resumed(
            later,
            first->Perform_1,
            Event::User(own),
            after,
            next,
        ),
    ensures
        begun == asked,
        params->OfUser_user is Some ==> match matrix::user_id_fault(params->OfUser_user->0@) {
            Some(err) => request_laws::fails(first, -32603, "internal error: "@ + err),
            None => {
                &&& first is Perform && first->Perform_0 is Devices
                &&& first->Perform_0->Devices_client == client
                &&& first->Perform_0->Devices_user_id@ == params->OfUser_user->0@
            },
        },
        params->OfUser_user is None ==> {
            &&& after == later
            &&& first is Perform && first->Perform_0 is OwnUser
            &&& first->Perform_0->OwnUser_client == client
            &&& own is None ==> request_laws::fails(next, -32602, "missing user id"@)
            &&& own is Some ==> {
                &&& next is Perform && next->Perform_0 is Devices
                &&& next->Perform_0->Devices_client == client
                &&& next->Perform_0->Devices_user_id@ == own->0@
            }
        },
{
    request_laws::law_names_of_methods();
}

/// Every device that the client tells of is in the answer, in order, and no other is.
pub proof fn law_every_device_is_listed(
    before: DaemonView,
    waiting: Resume,
    devices: Result<Vec<DeviceFacts>, String>,
    after: DaemonView,
    s: Step,
)
    requires
        waiting is DevicesListed,
        requests::resumed(before, waiting, Event::Devices(devices), after, s),
    ensures
        after == before,
        devices is Err ==> request_laws::fails(s, -32603, "internal error: "@ + devices->Err_0@),
        devices is Ok ==> {
            let shown = s->Reply_0->Ok_0@;
            &&& s is Reply && s->Reply_0 is Ok && shown is Array
            &&& shown->Array_0.len() == devices->Ok_0@.len()
            &&& forall|i: int|
                0 <= i < devices->Ok_0@.len() ==> shows_device(
                    #[trigger] shown->Array_0[i],
                    devices->Ok_0@[i],
                )
        },
{
    if devices is Ok {
        let list = devices->Ok_0@;
        let shown = s->Reply_0->Ok_0@;
        assert forall|i: int| 0 <= i < list.len() implies shows_device(
            #[trigger] shown->Array_0[i],
            list[i],
        ) by {
            assert(matrix::device_json(list[i])->Object_0 =~= seq![
                ("user_id"@, JsonView::Text(list[i].user_id@)),
                ("device_id"@, JsonView::Text(list[i].device_id@)),
                ("display_name"@, request_laws::text_or_null(list[i].display_name)),
                ("is_verified"@, JsonView::Bool(list[i].is_verified)),
            ]);
        }
    }
}

/// Without a client of the account, no verification is asked for or acted on, and no device
/// is listed.
pub proof fn law_verifications_need_a_session(
    asked: DaemonView,
    request: RpcRequest,
    params: Params,
    after: DaemonView,
    s: Step,
)
    requires
        ({
            ||| request_laws::asks(request, "matrix.verification.request"@) && params is Request
                && !asked.runtime.clients.contains_key(params->Request_account_id@)
            ||| acts_on_a_flow(request, params) && !asked.runtime.clients.contains_key(
                acting_account(params),
            )
            ||| request_laws::asks(request, "matrix.devices.list"@) && params is OfUser
                && !asked.runtime.clients.contains_key(params->OfUser_account_id@)
        }),
        requests::handled(asked, request, Some(Ok(params)), after, s),
    ensures
        after == asked,
        request_laws::fails(s, -32602, "no active session"@),
{
    request_laws::law_names_of_methods();
}

/// What comes in of a verification that is watched, or was sent to the device, changes what
/// is under way and is told, as the laws about it say; and watching goes on as they say.
pub proof fn law_incoming_changes_take_effect(
    bus: &mut EventBus,
    runtime: &mut MatrixRuntime,
    watch: Watch,
    change: RequestChange,
    step: WatchStep,
    other_bus: &mut EventBus,
    other_runtime: &mut MatrixRuntime,
    account_id: &str,
    raw: &str,
)
    requires
        call_ensures(matrix::on_request_change, (bus, runtime, &watch, change), step),
        call_ensures(
            matrix::on_to_device_event,
            (other_bus, other_runtime, account_id, raw),
            (),
        ),
    ensures
        step == matrix::watch_step(change),
        final(bus)@ == matrix::flow_told(
            old(bus)@,
            watch.account_id@,
            matrix::watched_end(old(runtime)@, watch, change),
        ),
        final(runtime)@ == matrix::flow_changed(
            old(runtime)@,
            watch.account_id@,
            matrix::watched_end(old(runtime)@, watch, change),
        ),
        final(other_bus)@ == matrix::flow_told(
            old(other_bus)@,
            account_id@,
            matrix::raw_change(raw@),
        ),
        final(other_runtime)@ == matrix::flow_changed(
            old(other_runtime)@,
            account_id@,
            matrix::raw_change(raw@),
        ),
{
}

/// A short authentication string that was accepted is shown at once where it can be
/// presented, and is else waited for; one that is waited for is shown once the keys are
/// exchanged. Until it is shown or has ended nothing is told and nothing changes.
pub proof fn law_sas_is_shown_once_it_can_be(
    bus: &mut EventBus,
    runtime: &mut MatrixRuntime,
    watch: Watch,
    sas: SasFacts,
    waits: bool,
    later_bus: &mut EventBus,
    later_runtime: &mut MatrixRuntime,
    change: SasChange,
    waits_on: bool,
)
    requires
        call_ensures(matrix::on_sas_accepted, (bus, runtime, &watch, &sas), waits),
        call_ensures(matrix::on_sas_change, (later_bus, later_runtime, &watch, change), waits_on),
    ensures
        waits == !sas.can_be_presented,
        waits ==> final(bus)@ == old(bus)@ && final(runtime)@ == old(runtime)@,
        !waits ==> {
            &&& final(bus)@ == matrix::sas_shown_bus(
                old(bus)@,
                old(runtime)@,
                watch,
                verification::sas_json(sas),
            )
            &&& final(runtime)@ == matrix::sas_shown_runtime(
                old(runtime)@,
                watch,
                verification::sas_json(sas),
            )
        },
        waits_on <==> !(change is KeysExchanged || change is Ended),
        change is KeysExchanged ==> {
            let shown = verification::sas_json(change->KeysExchanged_0);
            &&& final(later_bus)@ == matrix::sas_shown_bus(
                old(later_bus)@,
                old(later_runtime)@,
                watch,
                shown,
            )
            &&& final(later_runtime)@ == matrix::sas_shown_runtime(
                old(later_runtime)@,
                watch,
                shown,
            )
        },
        !(change is KeysExchanged) ==> {
            &&& final(later_bus)@ == old(later_bus)@
            &&& final(later_runtime)@ == old(later_runtime)@
        },
{
}

/// A timeline event that can be read is told with its room, just as it came; one that
/// cannot is not told.
pub proof fn law_timeline_events_are_told(
    bus: &mut EventBus,
    account_id: &str,
    room_id: &str,
    raw: &str,
)
    requires
        call_ensures(matrix::on_timeline_event, (bus, account_id, room_id, raw), ()),
    ensures
        match json::json_read(raw@) {
            Err(_) => final(bus)@ == old(bus)@,
            Ok(event) => request_laws::tells(
                old(bus)@,
                final(bus)@,
                account_id@,
                "room.message"@,
                JsonView::Object(
                    seq![("room_id"@, JsonView::Text(room_id@)), ("event"@, event)],
                ),
            ),
        },
{
    if json::json_read(raw@) is Ok {
        let event = json::json_read(raw@)->Ok_0;
        let data = JsonView::Object(
            seq![("room_id"@, JsonView::Text(room_id@)), ("event"@, event)],
        );
        assert(matrix::room_message_json(room_id@, event)->Object_0 =~= data->Object_0);
        request_laws::law_emitting_tells(old(bus)@, account_id@, "room.message"@, data);
    }
}

/// A synchronisation tells that it has begun, and how it ended: well, or with what words.
pub proof fn law_synchronisation_is_told(
    bus: &mut EventBus,
    later: &mut EventBus,
    account_id: &str,
    end: Result<(), String>,
)
    requires
        call_ensures(matrix::on_sync_started, (bus, account_id), ()),
        call_ensures(matrix::on_sync_ended, (later, account_id, end), ()),
    ensures
        request_laws::tells(
            old(bus)@,
            final(bus)@,
            account_id@,
            "matrix.sync.state"@,
            JsonView::Object(seq![("state"@, JsonView::Text("syncing"@))]),
        ),
        end is Ok ==> request_laws::tells(
            old(later)@,
            final(later)@,
            account_id@,
            "matrix.sync.state"@,
            JsonView::Object(seq![("state"@, JsonView::Text("idle"@))]),
        ),
        end is Err ==> request_laws::tells(
            old(later)@,
            final(later)@,
            account_id@,
            "matrix.sync.state"@,
            JsonView::Object(
                seq![
                    ("state"@, JsonView::Text("error"@)),
                    ("error"@, JsonView::Text(end->Err_0@)),
                ],
            ),
        ),
{
    let begun = matrix::sync_state_json(None);
    assert(begun->Object_0 =~= seq![("state"@, JsonView::Text("syncing"@))]);
    request_laws::law_emitting_tells(old(bus)@, account_id@, "matrix.sync.state"@, begun);
    let ended = matrix::sync_state_json(Some(crate::text::unit_outcome(end)));
    if end is Ok {
        assert(ended->Object_0 =~= seq![("state"@, JsonView::Text("idle"@))]);
    } else {
        assert(ended->Object_0 =~= seq![
            ("state"@, JsonView::Text("error"@)),
            ("error"@, JsonView::Text(end->Err_0@)),
        ]);
    }
    request_laws::law_emitting_tells(old(later)@, account_id@, "matrix.sync.state"@, ended);
}

} // verus!
