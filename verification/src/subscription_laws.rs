//! What a subscriber is sent as a whole: every event of its account and none of another's,
//! a snapshot that leaves nothing out, and an answer at the end.

use vstd::prelude::*;

use crate::account_laws;
use crate::daemon::{Daemon, DaemonView};
use crate::events;
use crate::json::JsonView;
use crate::matrix;
use crate::matrix::RoomFacts;
use crate::room_laws;
use crate::rpc;
use crate::rpc::RpcRequest;
use crate::rpc_laws;
use crate::subscriptions;
use crate::subscriptions::{
    BusItem, SnapshotHead, SnapshotWait, SubscribeParams, SubscribeStep, Subscription,
    SubscriptionView,
};
use crate::text;
use crate::verification;
use crate::verification::SnapshotView;
use crate::verification_laws;

verus! {

/// An event as a subscriber is sent it.
pub open spec fn push(
    subscription_id: Seq<char>,
    account_id: Seq<char>,
    seq: u64,
    cursor: Seq<char>,
    event_type: Seq<char>,
    data: JsonView,
) -> JsonView {
    JsonView::Object(
        seq![
            ("jsonrpc"@, JsonView::Text("2.0"@)),
            ("method"@, JsonView::Text("events.push"@)),
            (
                "params"@,
                JsonView::Object(
                    seq![
                        ("subscription_id"@, JsonView::Text(subscription_id)),
                        ("account_id"@, JsonView::Text(account_id)),
                        ("seq"@, JsonView::Unsigned(seq)),
                        ("cursor"@, JsonView::Text(cursor)),
                        ("type"@, JsonView::Text(event_type)),
                        ("data"@, data),
                    ],
                ),
            ),
        ],
    )
}

proof fn lemma_push(
    sub: SubscriptionView,
    account_id: Seq<char>,
    seq: u64,
    cursor: Seq<char>,
    event_type: Seq<char>,
    data: JsonView,
)
    ensures
        subscriptions::push_json(sub, account_id, seq, cursor, event_type, data) == push(
            sub.subscription_id,
            account_id,
            seq,
            cursor,
            event_type,
            data,
        ),
{
    let whole = subscriptions::push_json(sub, account_id, seq, cursor, event_type, data);
    let meant = push(sub.subscription_id, account_id, seq, cursor, event_type, data);
    assert(whole->Object_0[2].1->Object_0 =~= meant->Object_0[2].1->Object_0);
    assert(whole->Object_0 =~= meant->Object_0);
}

/// An event of the account as its subscriber is sent it.
pub open spec fn push_of(sub: SubscriptionView, event: events::EventView) -> JsonView {
    push(
        sub.subscription_id,
        event.account_id,
        event.seq as u64,
        event.cursor,
        event.event_type,
        event.data,
    )
}

proof fn lemma_push_of(sub: SubscriptionView, event: events::EventView)
    ensures
        subscriptions::event_json(sub, event) == push_of(sub, event),
{
    lemma_push(
        sub,
        event.account_id,
        event.seq as u64,
        event.cursor,
        event.event_type,
        event.data,
    );
}

/// The cursor of an account's latest event, or that of number zero.
pub open spec fn latest_cursor(bus: events::BusView, account: Seq<char>) -> Seq<char> {
    if bus.logs.contains_key(account) {
        "cursor-"@ + text::decimal(bus.logs[account].last)
    } else {
        "cursor-0"@
    }
}

/// Whether a snapshot of an account stands at the number of its latest event, or at zero.
pub open spec fn stands_at_latest(bus: events::BusView, account: Seq<char>) -> bool {
    let at = subscriptions::snapshot_seq(bus, account);
    &&& bus.logs.contains_key(account) && bus.logs[account].last <= u64::MAX ==> at
        == bus.logs[account].last
    &&& !bus.logs.contains_key(account) ==> at == 0
}

/// What a subscriber is sent that has missed events: why, and from where it can go on.
pub open spec fn reset_of(
    bus: events::BusView,
    sub: SubscriptionView,
    reason: Seq<char>,
) -> JsonView {
    let latest = latest_cursor(bus, sub.account_id);
    push(
        sub.subscription_id,
        sub.account_id,
        0,
        latest,
        "events.reset"@,
        JsonView::Object(
            seq![("reason"@, JsonView::Text(reason)), ("new_since"@, JsonView::Text(latest))],
        ),
    )
}

proof fn lemma_reset(bus: events::BusView, sub: SubscriptionView, reason: Seq<char>)
    ensures
        subscriptions::reset_push_json(bus, sub, reason) == reset_of(bus, sub, reason),
{
    let latest = latest_cursor(bus, sub.account_id);
    let data = subscriptions::reset_json(reason, latest);
    assert(data->Object_0 =~= seq![
        ("reason"@, JsonView::Text(reason)),
        ("new_since"@, JsonView::Text(latest)),
    ]);
    lemma_push(sub, sub.account_id, 0, latest, "events.reset"@, data);
}

/// What comes from the bus for a subscriber is sent where it is of the subscriber's account,
/// as it is, and not where it is of another; events that came too fast are said to be lost.
pub proof fn law_events_are_delivered(
    d: Daemon,
    sub: Subscription,
    item: BusItem,
    line: Option<String>,
)
    requires
        call_ensures(subscriptions::deliver, (&d, &sub, &item), line),
    ensures
        item is Event && item->Event_0.account_id@ == sub.account_id@ ==> line is Some
            && rpc_laws::writes(line->0@, push_of(sub@, item->Event_0@)),
        item is Event && item->Event_0.account_id@ != sub.account_id@ ==> line is None,
        item is Lagged ==> line is Some && rpc_laws::writes(
            line->0@,
            reset_of(d@.bus, sub@, "cursor_too_old"@),
        ),
{
    lemma_reset(d@.bus, sub@, "cursor_too_old"@);
    if item is Event {
        lemma_push_of(sub@, item->Event_0@);
    }
}

/// Whether lines are those that are written for values, one each and in order.
pub open spec fn lines_of(lines: Seq<String>, values: Seq<JsonView>) -> bool {
    &&& lines.len() == values.len()
    &&& forall|i: int|
        0 <= i < lines.len() ==> rpc_laws::writes((#[trigger] lines[i])@, values[i])
}

/// The events of an account that are still kept.
pub open spec fn kept_of(bus: events::BusView, account: Seq<char>) -> Seq<events::EventView> {
    if bus.logs.contains_key(account) {
        bus.logs[account].kept
    } else {
        Seq::empty()
    }
}

/// Whether values are what a client has missed: with no cursor nothing; with the cursor of
/// an event of its account that is still kept all later events, in order; and with any other
/// cursor that it has missed some.
pub open spec fn is_missed(
    bus: events::BusView,
    sub: SubscriptionView,
    since: Option<Seq<char>>,
    values: Seq<JsonView>,
) -> bool {
    let kept = kept_of(bus, sub.account_id);
    &&& since is None ==> values.len() == 0
    &&& since is Some && (forall|i: int|
        0 <= i < kept.len() ==> (#[trigger] kept[i]).cursor != since->0) ==> values == seq![
        reset_of(bus, sub, "invalid_cursor"@),
    ]
    &&& forall|at: int|
        since is Some && 0 <= at < kept.len() && (#[trigger] kept[at]).cursor == since->0 && (
        forall|i: int| 0 <= i < at ==> (#[trigger] kept[i]).cursor != since->0) ==> {
            &&& values.len() == kept.len() - at - 1
            &&& forall|i: int|
                0 <= i < values.len() ==> #[trigger] values[i] == push_of(sub, kept[at + 1 + i])
        }
}

/// What a client has missed is all that came after its cursor, or that it has missed some.
pub proof fn law_missed_events(
    bus: events::BusView,
    sub: SubscriptionView,
    since: Option<Seq<char>>,
)
    ensures
        is_missed(bus, sub, since, subscriptions::replay_jsons(bus, sub, since)),
{
    let kept = kept_of(bus, sub.account_id);
    let values = subscriptions::replay_jsons(bus, sub, since);
    lemma_reset(bus, sub, "invalid_cursor"@);
    if since is Some {
        if forall|i: int| 0 <= i < kept.len() ==> (#[trigger] kept[i]).cursor != since->0 {
            events::lemma_after_cursor_absent(kept, since->0);
            assert(values =~= seq![reset_of(bus, sub, "invalid_cursor"@)]);
        }
        assert forall|at: int|
            0 <= at < kept.len() && (#[trigger] kept[at]).cursor == since->0 && (forall|i: int|
                0 <= i < at ==> (#[trigger] kept[i]).cursor != since->0) implies {
            &&& values.len() == kept.len() - at - 1
            &&& forall|i: int|
                0 <= i < values.len() ==> #[trigger] values[i] == push_of(sub, kept[at + 1 + i])
        } by {
            events::lemma_after_cursor_at(kept, since->0, at);
            assert forall|i: int| 0 <= i < values.len() implies #[trigger] values[i] == push_of(
                sub,
                kept[at + 1 + i],
            ) by {
                lemma_push_of(sub, kept[at + 1 + i]);
            }
        }
    }
}

/// A verification as a snapshot tells it: how far it has come, and its short authentication
/// string where it has one.
pub open spec fn flow_pushes(
    sub: SubscriptionView,
    seq: u64,
    cursor: Seq<char>,
    flow: SnapshotView,
) -> Seq<JsonView> {
    let stage = push(
        sub.subscription_id,
        sub.account_id,
        seq,
        cursor,
        "matrix.verification.state"@,
        verification_laws::stage_data(flow.flow_id, flow.user_id, flow.device_id, flow.stage),
    );
    if flow.sas is None {
        seq![stage]
    } else {
        let sas = flow.sas->0;
        let member = |key: Seq<char>|
            match sas.get(key) {
                Some(v) => v,
                None => JsonView::Null,
            };
        seq![
            stage,
            push(
                sub.subscription_id,
                sub.account_id,
                seq,
                cursor,
                "matrix.verification.sas"@,
                JsonView::Object(
                    seq![
                        ("flow_id"@, JsonView::Text(flow.flow_id)),
                        ("user_id"@, JsonView::Text(flow.user_id)),
                        ("supports_emoji"@, member("supports_emoji"@)),
                        ("can_be_presented"@, member("can_be_presented"@)),
                        ("emoji"@, member("emoji"@)),
                        ("decimals"@, member("decimals"@)),
                    ],
                ),
            ),
        ]
    }
}

/// A snapshot tells each verification, one after the other and none twice: one more is told
/// after all before it.
pub proof fn law_snapshot_tells_every_verification(
    sub: SubscriptionView,
    seq: u64,
    cursor: Seq<char>,
    flows: Seq<SnapshotView>,
    one_more: SnapshotView,
)
    ensures
        subscriptions::flows_jsons(sub, seq, cursor, Seq::empty()) == Seq::<JsonView>::empty(),
        subscriptions::flows_jsons(sub, seq, cursor, flows.push(one_more))
            == subscriptions::flows_jsons(sub, seq, cursor, flows) + flow_pushes(
            sub,
            seq,
            cursor,
            one_more,
        ),
{
    let flow = one_more;
    assert(flows.push(flow).drop_last() =~= flows);
    let stage = verification_laws::stage_data(
        flow.flow_id,
        flow.user_id,
        flow.device_id,
        flow.stage,
    );
    assert(verification::device_stage_json(
        flow.flow_id,
        flow.user_id,
        flow.device_id,
        flow.stage,
    )->Object_0 =~= stage->Object_0);
    lemma_push(sub, sub.account_id, seq, cursor, "matrix.verification.state"@, stage);
    if flow.sas is Some {
        let data = verification::sas_event_json(flow.flow_id, flow.user_id, flow.sas->0);
        lemma_push(sub, sub.account_id, seq, cursor, "matrix.verification.sas"@, data);
        let meant = flow_pushes(sub, seq, cursor, flow)[1]->Object_0[2].1->Object_0[5].1;
        assert(data->Object_0 =~= meant->Object_0);
    }
    assert(subscriptions::flow_jsons(sub, seq, cursor, flow) =~= flow_pushes(
        sub,
        seq,
        cursor,
        flow,
    ));
}

/// The rest of a snapshot tells first all the rooms that the client tells of, each as it is
/// and in order, and after them the verifications of the account and no other's.
pub proof fn law_snapshot_tells_every_room(
    d: Daemon,
    sub: Subscription,
    seq: u64,
    cursor: &str,
    rooms: Vec<RoomFacts>,
    lines: Vec<String>,
)
    requires
        call_ensures(subscriptions::snapshot_rest, (&d, &sub, seq, cursor, rooms), lines),
    ensures
        ({
            let own = d@.runtime.flows.filter(
                |e: verification::FlowView| e.account_id == sub.account_id@,
            ).map_values(|e: verification::FlowView| e.snapshot);
            let list = matrix::rooms_json(rooms@);
            &&& room_laws::shows_rooms(list, rooms@)
            &&& lines_of(
                lines@,
                seq![
                    push(
                        sub.subscription_id@,
                        sub.account_id@,
                        seq,
                        cursor@,
                        "room.list.snapshot"@,
                        JsonView::Object(seq![("rooms"@, list)]),
                    ),
                ] + subscriptions::flows_jsons(sub@, seq, cursor@, own),
            )
        }),
{
    let list = matrix::rooms_json(rooms@);
    room_laws::law_every_room_is_listed(rooms@);
    verification_laws::law_flows_of_an_account(d@.runtime.flows, sub.account_id@);
    let data = JsonView::object().with("rooms"@, list);
    assert(data->Object_0 =~= seq![("rooms"@, list)]);
    lemma_push(sub@, sub.account_id@, seq, cursor@, "room.list.snapshot"@, data);
}

/// A snapshot stands at the account's latest event; it begins with the account as it is,
/// where there is such an account, and the rooms are asked of the account's own client.
pub proof fn law_snapshot_begins_with_the_account(d: Daemon, sub: Subscription, head: SnapshotHead)
    requires
        call_ensures(subscriptions::snapshot_open, (&d, &sub), head),
        d@.bus.logs.contains_key(sub.account_id@) ==> d@.bus.logs[sub.account_id@].last
            <= u64::MAX,
    ensures
        head.cursor@ == latest_cursor(d@.bus, sub.account_id@),
        head.seq == (if d@.bus.logs.contains_key(sub.account_id@) {
            d@.bus.logs[sub.account_id@].last
        } else {
            0
        }),
        head.client is Some <==> d@.runtime.clients.contains_key(sub.account_id@),
        head.client is Some ==> head.client->0 == d@.runtime.clients[sub.account_id@],
        match d@.state.find(sub.account_id@) {
            None => head.lines@.len() == 0,
            Some(account) => lines_of(
                head.lines@,
                seq![
                    push(
                        sub.subscription_id@,
                        sub.account_id@,
                        head.seq,
                        head.cursor@,
                        "account.state"@,
                        account_laws::told_state(account),
                    ),
                ],
            ),
        },
{
    subscriptions::law_snapshot_stands_at_latest(d@.bus, sub.account_id@);
    let found = d@.state.find(sub.account_id@);
    if found is Some {
        let account = found->0;
        let data = matrix::account_state_json(account);
        assert(data->Object_0 =~= account_laws::told_state(account)->Object_0);
        lemma_push(
            sub@,
            sub.account_id@,
            subscriptions::snapshot_seq(d@.bus, sub.account_id@) as u64,
            d@.bus.latest_or_zero(sub.account_id@),
            "account.state"@,
            data,
        );
    }
}

/// The answer to a subscription that is open: its id, its account, and from where it can be
/// taken up again.
pub open spec fn subscribed(bus: events::BusView, sub: SubscriptionView, id: JsonView) -> JsonView {
    JsonView::Object(
        seq![
            ("jsonrpc"@, JsonView::Text("2.0"@)),
            (
                "result"@,
                JsonView::Object(
                    seq![
                        ("subscription_id"@, JsonView::Text(sub.subscription_id)),
                        ("account_id"@, JsonView::Text(sub.account_id)),
                        ("since"@, JsonView::Text(latest_cursor(bus, sub.account_id))),
                    ],
                ),
            ),
            ("id"@, id),
        ],
    )
}

proof fn lemma_subscribed(d: DaemonView, sub: SubscriptionView, id: JsonView)
    ensures
        subscriptions::subscribed_answer(d, sub, id) == subscribed(d.bus, sub, id),
{
    let answer = subscriptions::subscribed_answer(d, sub, id);
    let meant = subscribed(d.bus, sub, id);
    assert(answer->Object_0[1].1->Object_0 =~= meant->Object_0[1].1->Object_0);
    assert(answer->Object_0 =~= meant->Object_0);
}

/// A request to be sent events that is not in order is answered with its error and changes
/// nothing, the subscription that is open least of all.
pub proof fn law_refused_subscription(
    d: &mut Daemon,
    current: &mut Option<Subscription>,
    request: RpcRequest,
    read: Option<Result<SubscribeParams, String>>,
    s: SubscribeStep,
)
    requires
        call_ensures(
            subscriptions::handle_events_subscribe,
            (d, current, &request, read),
            s,
        ),
        !(request.jsonrpc is Some && request.jsonrpc->0@ == "2.0"@) || read is None || read->0
            is Err,
    ensures
        s is Refused,
        final(d)@ == old(d)@,
        *final(current) == *old(current),
        ({
            let id = rpc_laws::id_of(request);
            let right = request.jsonrpc is Some && request.jsonrpc->0@ == "2.0"@;
            rpc_laws::writes(
                s->Refused_line@,
                if !right {
                    rpc_laws::error_response(-32600, "invalid request"@, id)
                } else if read is None {
                    rpc_laws::error_response(-32602, "missing params"@, id)
                } else {
                    rpc_laws::error_response(
                        -32602,
                        "invalid params: "@ + read->0->Err_0@,
                        id,
                    )
                },
            )
        }),
{
    let id = rpc_laws::id_of(request);
    let error = rpc::params_meant(request, read)->Err_0;
    rpc_laws::lemma_error_response(error, id);
}

/// A request to be sent events opens a subscription of the account that is named, under the
/// next number, in place of the one before. It is sent first what was missed; without a
/// snapshot the answer follows; with one, the account's state, and the rooms are asked of
/// the account's client, or taken to be none where there is none, and the answer comes last.
pub proof fn law_subscription_is_opened(
    d: &mut Daemon,
    current: &mut Option<Subscription>,
    request: RpcRequest,
    params: SubscribeParams,
    s: SubscribeStep,
)
    requires
        call_ensures(
            subscriptions::handle_events_subscribe,
            (d, current, &request, Some(Ok(params))),
            s,
        ),
        request.jsonrpc is Some && request.jsonrpc->0@ == "2.0"@,
    ensures
        ({
            let before = old(d)@;
            let after = final(d)@;
            let sub = SubscriptionView {
                subscription_id: "sub-"@ + text::decimal(before.next_subscription),
                account_id: params.account_id@,
            };
            let id = rpc_laws::id_of(request);
            let since = match params.since {
                Some(c) => Some(c@),
                None => None::<Seq<char>>,
            };
            let missed = subscriptions::replay_jsons(before.bus, sub, since);
            let head = subscriptions::head_jsons(before, sub);
            let snapshot = params.snapshot != Some(false);
            let has_client = before.runtime.clients.contains_key(sub.account_id);
            &&& *final(current) is Some && (*final(current))->0@ == sub
            &&& after.state == before.state && after.bus == before.bus && after.runtime
                == before.runtime
            &&& before.next_subscription < u64::MAX ==> after.next_subscription
                == before.next_subscription + 1
            &&& is_missed(before.bus, sub, since, missed)
            &&& stands_at_latest(before.bus, sub.account_id)
            &&& before.state.find(sub.account_id) is None ==> head.len() == 0
            &&& before.state.find(sub.account_id) is Some ==> head == seq![
                push(
                    sub.subscription_id,
                    sub.account_id,
                    subscriptions::snapshot_seq(before.bus, sub.account_id) as u64,
                    latest_cursor(before.bus, sub.account_id),
                    "account.state"@,
                    account_laws::told_state(before.state.find(sub.account_id)->0),
                ),
            ]
            &&& !snapshot ==> s is Opened && lines_of(
                s->Opened_lines@,
                missed.push(subscribed(before.bus, sub, id)),
            )
            &&& snapshot && has_client ==> {
                &&& s is ListRooms
                &&& s->ListRooms_client == before.runtime.clients[sub.account_id]
                &&& lines_of(s->ListRooms_lines@, missed + head)
                &&& s->ListRooms_waiting.sub@ == sub
                &&& s->ListRooms_waiting.seq == subscriptions::snapshot_seq(
                    before.bus,
                    sub.account_id,
                ) as u64
                &&& s->ListRooms_waiting.cursor@ == latest_cursor(before.bus, sub.account_id)
                &&& s->ListRooms_waiting.id@ == id
            }
            &&& snapshot && !has_client ==> {
                &&& s is Opened
                &&& s->Opened_lines@.len() > missed.len() + head.len()
                &&& lines_of(
                    s->Opened_lines@.take((missed.len() + head.len()) as int),
                    missed + head,
                )
                &&& rpc_laws::writes(
                    s->Opened_lines@[(missed.len() + head.len()) as int]@,
                    push(
                        sub.subscription_id,
                        sub.account_id,
                        subscriptions::snapshot_seq(before.bus, sub.account_id) as u64,
                        latest_cursor(before.bus, sub.account_id),
                        "room.list.snapshot"@,
                        JsonView::Object(seq![("rooms"@, JsonView::Array(Seq::empty()))]),
                    ),
                )
                &&& rpc_laws::writes(
                    s->Opened_lines@.last()@,
                    subscribed(before.bus, sub, id),
                )
            }
        }),
{
    let before = old(d)@;
    let sub = SubscriptionView {
        subscription_id: "sub-"@ + text::decimal(before.next_subscription),
        account_id: params.account_id@,
    };
    let id = rpc_laws::id_of(request);
    let since = match params.since {
        Some(c) => Some(c@),
        None => None::<Seq<char>>,
    };
    let missed = subscriptions::replay_jsons(before.bus, sub, since);
    let head = subscriptions::head_jsons(before, sub);
    law_missed_events(before.bus, sub, since);
    if before.bus.log(sub.account_id).last <= u64::MAX {
        subscriptions::law_snapshot_stands_at_latest(before.bus, sub.account_id);
    }
    lemma_subscribed(before, sub, id);
    let read: Option<Result<SubscribeParams, String>> = Some(Ok(params));
    assert(rpc::params_meant(request, read) == Ok::<SubscribeParams, rpc::ErrorView>(params));
    assert(missed + Seq::<JsonView>::empty() =~= missed);
    let at = subscriptions::snapshot_seq(before.bus, sub.account_id) as u64;
    let cursor = latest_cursor(before.bus, sub.account_id);
    let found = before.state.find(sub.account_id);
    if found is Some {
        let data = matrix::account_state_json(found->0);
        assert(data->Object_0 =~= account_laws::told_state(found->0)->Object_0);
        lemma_push(sub, sub.account_id, at, cursor, "account.state"@, data);
        assert(head =~= seq![
            push(
                sub.subscription_id,
                sub.account_id,
                at,
                cursor,
                "account.state"@,
                account_laws::told_state(found->0),
            ),
        ]);
    }
    let none = Seq::<RoomFacts>::empty();
    let rooms = JsonView::object().with("rooms"@, matrix::rooms_json(none));
    assert(matrix::rooms_json(none)->Array_0 =~= Seq::empty());
    assert(rooms->Object_0 =~= seq![("rooms"@, JsonView::Array(Seq::empty()))]);
    lemma_push(sub, sub.account_id, at, cursor, "room.list.snapshot"@, rooms);
}

/// Once the rooms are known a subscription is sent the rest of its snapshot, and last its
/// answer.
pub proof fn law_subscription_ends_with_its_answer(
    d: Daemon,
    waiting: SnapshotWait,
    rooms: Vec<RoomFacts>,
    lines: Vec<String>,
)
    requires
        call_ensures(subscriptions::subscribe_rooms, (&d, waiting, rooms), lines),
    ensures
        ({
            let list = matrix::rooms_json(rooms@);
            &&& lines@.len() >= 2
            &&& room_laws::shows_rooms(list, rooms@)
            &&& rpc_laws::writes(
                lines@[0]@,
                push(
                    waiting.sub.subscription_id@,
                    waiting.sub.account_id@,
                    waiting.seq,
                    waiting.cursor@,
                    "room.list.snapshot"@,
                    JsonView::Object(seq![("rooms"@, list)]),
                ),
            )
            &&& lines_of(
                lines@.subrange(1, lines@.len() - 1),
                subscriptions::flows_jsons(
                    waiting.sub@,
                    waiting.seq,
                    waiting.cursor@,
                    d@.runtime.flows.filter(
                        |e: verification::FlowView| e.account_id == waiting.sub.account_id@,
                    ).map_values(|e: verification::FlowView| e.snapshot),
                ),
            )
            &&& rpc_laws::writes(
                lines@.last()@,
                subscribed(d@.bus, waiting.sub@, waiting.id@),
            )
        }),
{
    let list = matrix::rooms_json(rooms@);
    room_laws::law_every_room_is_listed(rooms@);
    verification_laws::law_flows_of_an_account(d@.runtime.flows, waiting.sub.account_id@);
    let data = JsonView::object().with("rooms"@, list);
    assert(data->Object_0 =~= seq![("rooms"@, list)]);
    lemma_push(
        waiting.sub@,
        waiting.sub.account_id@,
        waiting.seq,
        waiting.cursor@,
        "room.list.snapshot"@,
        data,
    );
    lemma_subscribed(d@, waiting.sub@, waiting.id@);
}

/// A request to be sent events no more ends the subscription that is open where it names it,
/// and no other; it is answered either way, and one that is not in order changes nothing.
pub proof fn law_unsubscribing(
    current: &mut Option<Subscription>,
    request: RpcRequest,
    read: Option<Result<String, String>>,
    line: String,
)
    requires
        call_ensures(subscriptions::unsubscribe_line, (current, &request, read), line),
    ensures
        ({
            let right = request.jsonrpc is Some && request.jsonrpc->0@ == "2.0"@;
            let fine = right && read is Some && read->0 is Ok;
            let id = rpc_laws::id_of(request);
            let open = *old(current);
            let named = fine && open is Some && open->0.subscription_id@ == read->0->Ok_0@;
            &&& named ==> *final(current) is None
            &&& !named ==> *final(current) == *old(current)
            &&& fine ==> rpc_laws::writes(
                line@,
                JsonView::Object(
                    seq![
                        ("jsonrpc"@, JsonView::Text("2.0"@)),
                        ("result"@, JsonView::Object(seq![("ok"@, JsonView::Bool(true))])),
                        ("id"@, id),
                    ],
                ),
            )
            &&& !right ==> rpc_laws::writes(
                line@,
                rpc_laws::error_response(-32600, "invalid request"@, id),
            )
            &&& right && read is None ==> rpc_laws::writes(
                line@,
                rpc_laws::error_response(-32602, "missing params"@, id),
            )
            &&& right && read is Some && read->0 is Err ==> rpc_laws::writes(
                line@,
                rpc_laws::error_response(-32602, "invalid params: "@ + read->0->Err_0@, id),
            )
        }),
{
    let id = rpc_laws::id_of(request);
    match rpc::params_meant(request, read) {
        Err(error) => {
            rpc_laws::lemma_error_response(error, id);
        },
        Ok(_) => {
            let answer = rpc::response_json(Ok(subscriptions::ok_json()), id)->Object_0;
            assert(answer[1].1->Object_0 =~= seq![("ok"@, JsonView::Bool(true))]);
            assert(answer =~= seq![
                ("jsonrpc"@, JsonView::Text("2.0"@)),
                ("result"@, JsonView::Object(seq![("ok"@, JsonView::Bool(true))])),
                ("id"@, id),
            ]);
        },
    }
}

} // verus!
