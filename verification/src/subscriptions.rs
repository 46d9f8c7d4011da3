//! Subscriptions: what a client that asked for events is sent.

use vstd::prelude::*;
use vstd::string::*;

use crate::daemon::{Daemon, DaemonView};
use crate::events;
use crate::events::ServerEvent;
use crate::json;
use crate::json::{Json, JsonView};
use crate::matrix;
use crate::matrix::RoomFacts;
use crate::rpc;
use crate::rpc::{Outcome, RpcError, RpcRequest};
use crate::text;
use crate::verification;
use crate::verification::VerificationSnapshot;

verus! {

/// A client's subscription.
pub struct Subscription {
    pub subscription_id: String,
    pub account_id: String,
}

/// A client's subscription, as a mathematical value.
#[verifier::ext_equal]
pub struct SubscriptionView {
    pub subscription_id: Seq<char>,
    pub account_id: Seq<char>,
}

impl View for Subscription {
    type V = SubscriptionView;

    open spec fn view(&self) -> SubscriptionView {
        SubscriptionView {
            subscription_id: self.subscription_id@,
            account_id: self.account_id@,
        }
    }
}

impl Subscription {
    /// A copy of the subscription.
    pub fn copy(&self) -> (r: Subscription)
        ensures
            r@ == self@,
    {
        Subscription {
            subscription_id: self.subscription_id.clone(),
            account_id: self.account_id.clone(),
        }
    }
}

/// The view of an optional subscription.
pub open spec fn opt_subscription(s: Option<Subscription>) -> Option<SubscriptionView> {
    match s {
        Some(v) => Some(v@),
        None => None,
    }
}

/// What a client asks to be sent.
pub struct SubscribeParams {
    pub account_id: String,
    pub since: Option<String>,
    pub snapshot: Option<bool>,
}

/// An event as it is pushed to a subscriber.
pub open spec fn push_json(
    sub: SubscriptionView,
    account_id: Seq<char>,
    seq: u64,
    cursor: Seq<char>,
    event_type: Seq<char>,
    data: JsonView,
) -> JsonView {
    JsonView::object().with("jsonrpc"@, JsonView::Text("2.0"@)).with(
        "method"@,
        JsonView::Text("events.push"@),
    ).with(
        "params"@,
        JsonView::object().with("subscription_id"@, JsonView::Text(sub.subscription_id)).with(
            "account_id"@,
            JsonView::Text(account_id),
        ).with("seq"@, JsonView::Unsigned(seq)).with("cursor"@, JsonView::Text(cursor)).with(
            "type"@,
            JsonView::Text(event_type),
        ).with("data"@, data),
    )
}

/// An event of the bus as it is pushed to a subscriber.
pub open spec fn event_json(sub: SubscriptionView, event: events::EventView) -> JsonView {
    push_json(
        sub,
        event.account_id,
        event.seq as u64,
        event.cursor,
        event.event_type,
        event.data,
    )
}

/// The line of an event as it is pushed to a subscriber.
pub fn event_push_raw(
    sub: &Subscription,
    account_id: &str,
    event_type: &str,
    seq: u64,
    cursor: &str,
    data: Json,
) -> (r: String)
    ensures
        json::carries(r@, push_json(sub@, account_id@, seq, cursor@, event_type@, data@)),
{
    let params: Json = Json::object().with(
        "subscription_id",
        Json::text(sub.subscription_id.as_str()),
    ).with("account_id", Json::text(account_id)).with("seq", Json::Unsigned(seq)).with(
        "cursor",
        Json::text(cursor),
    ).with("type", Json::text(event_type)).with("data", data);
    Json::object().with("jsonrpc", Json::text("2.0")).with(
        "method",
        Json::text("events.push"),
    ).with("params", params).to_text()
}

/// The line of an event of the bus as it is pushed to a subscriber.
pub fn event_push(sub: &Subscription, event: &ServerEvent) -> (r: String)
    ensures
        json::carries(r@, event_json(sub@, event@)),
{
    event_push_raw(
        sub,
        event.account_id.as_str(),
        event.event_type.as_str(),
        event.seq,
        event.cursor.as_str(),
        event.data.copy(),
    )
}

/// What a subscriber is told that has missed events.
pub open spec fn reset_json(reason: Seq<char>, latest: Seq<char>) -> JsonView {
    JsonView::object().with("reason"@, JsonView::Text(reason)).with(
        "new_since"@,
        JsonView::Text(latest),
    )
}

/// The push that tells a subscriber that it has missed events.
pub open spec fn reset_push_json(
    bus: events::BusView,
    sub: SubscriptionView,
    reason: Seq<char>,
) -> JsonView {
    let latest = bus.latest_or_zero(sub.account_id);
    push_json(sub, sub.account_id, 0, latest, "events.reset"@, reset_json(reason, latest))
}

fn reset_push(d: &Daemon, sub: &Subscription, reason: &str) -> (r: String)
    ensures
        json::carries(r@, reset_push_json(d@.bus, sub@, reason@)),
{
    let latest: String = d.bus.latest_or_zero(sub.account_id.as_str());
    let data: Json = Json::object().with("reason", Json::text(reason)).with(
        "new_since",
        Json::text(latest.as_str()),
    );
    event_push_raw(sub, sub.account_id.as_str(), "events.reset", 0, latest.as_str(), data)
}

/// What a client that has seen the events up to a cursor is pushed: the events after it, or
/// that it has missed some.
pub open spec fn replay_jsons(
    bus: events::BusView,
    sub: SubscriptionView,
    since: Option<Seq<char>>,
) -> Seq<JsonView> {
    match since {
        None => Seq::empty(),
        Some(cursor) => match bus.replayed(sub.account_id, cursor) {
            Some(list) => list.map_values(|e: events::EventView| event_json(sub, e)),
            None => seq![reset_push_json(bus, sub, "invalid_cursor"@)],
        },
    }
}

/// The lines for a client that has seen the events up to a cursor.
pub fn replay_lines(d: &Daemon, sub: &Subscription, since: &Option<String>) -> (r: Vec<String>)
    ensures
        json::all_carry(r@, replay_jsons(d@.bus, sub@, text::opt_text(*since))),
{
    let mut lines: Vec<String> = Vec::new();
    match since {
        None => {},
        Some(cursor) => match d.bus.replay_since(sub.account_id.as_str(), cursor.as_str()) {
            Some(list) => {
                let mut i: usize = 0;
                while i < list.len()
                    invariant
                        i <= list.len(),
                        lines.len() == i,
                        forall|k: int|
                            0 <= k < i ==> json::carries(
                                (#[trigger] lines@[k])@,
                                event_json(sub@, list@[k]@),
                            ),
                    decreases list.len() - i,
                {
                    lines.push(event_push(sub, &list[i]));
                    i = i + 1;
                }
            },
            None => {
                lines.push(reset_push(d, sub, "invalid_cursor"));
            },
        },
    }
    lines
}

/// The id of the subscription with the given number.
pub open spec fn numbered_subscription(n: nat) -> Seq<char> {
    "sub-"@ + text::decimal(n)
}

/// The number after the given one; after the largest comes zero.
pub open spec fn next_number(n: nat) -> nat {
    if n >= u64::MAX {
        0
    } else {
        n + 1
    }
}

/// The subscription that is opened next.
pub open spec fn next_subscription(d: DaemonView, account_id: Seq<char>) -> SubscriptionView {
    SubscriptionView { subscription_id: numbered_subscription(d.next_subscription), account_id }
}

/// The daemon once a subscription has its number.
pub open spec fn subscription_counted(d: DaemonView) -> DaemonView {
    DaemonView { next_subscription: next_number(d.next_subscription), ..d }
}

/// Opens a subscription in place of the one before, and gives the lines that the client has
/// missed.
pub fn subscribe_open(
    d: &mut Daemon,
    current: &mut Option<Subscription>,
    request: &RpcRequest,
    read: Option<Result<SubscribeParams, String>>,
) -> (r: Result<Vec<String>, RpcError>)
    ensures
        match rpc::params_meant(*request, read) {
            Err(error) => {
                &&& r is Err && r->Err_0@ == error
                &&& final(d)@ == old(d)@
                &&& *final(current) == *old(current)
            },
            Ok(params) => {
                let sub = next_subscription(old(d)@, params.account_id@);
                &&& r is Ok && json::all_carry(
                    r->Ok_0@,
                    replay_jsons(old(d)@.bus, sub, text::opt_text(params.since)),
                )
                &&& opt_subscription(*final(current)) == Some(sub)
                &&& final(d)@ == subscription_counted(old(d)@)
            },
        },
{
    let params: SubscribeParams = match rpc::take_params(request, read) {
        Err(error) => {
            return Err(error);
        },
        Ok(params) => params,
    };
    let n: u64 = d.next_subscription;
    d.next_subscription = if n == u64::MAX {
        0
    } else {
        n + 1
    };
    let sub = Subscription {
        subscription_id: text::concat2("sub-", text::u64_text(n).as_str()),
        account_id: params.account_id,
    };
    let lines: Vec<String> = replay_lines(d, &sub, &params.since);
    *current = Some(sub);
    Ok(lines)
}

/// Whether a client is sent a snapshot: it is, unless it asked not to be.
pub fn wants_snapshot(params: &SubscribeParams) -> (r: bool)
    ensures
        r == (params.snapshot != Some(false)),
{
    match params.snapshot {
        Some(b) => b,
        None => true,
    }
}

/// The beginning of a snapshot: the account's state, where there is such an account. The
/// whole snapshot stands at the cursor of the latest event.
pub struct SnapshotHead {
    pub lines: Vec<String>,
    pub cursor: String,
    pub seq: u64,
    /// The client that tells the rooms, if there is one.
    pub client: Option<u64>,
}

/// The number at which a snapshot stands.
pub open spec fn snapshot_seq(bus: events::BusView, account: Seq<char>) -> nat {
    match events::cursor_seq(bus.latest_or_zero(account)) {
        Some(seq) => seq,
        None => 0,
    }
}

/// The beginning of a snapshot: the account's state, where there is such an account.
pub open spec fn head_jsons(d: DaemonView, sub: SubscriptionView) -> Seq<JsonView> {
    match d.state.find(sub.account_id) {
        None => Seq::empty(),
        Some(account) => seq![
            push_json(
                sub,
                sub.account_id,
                snapshot_seq(d.bus, sub.account_id) as u64,
                d.bus.latest_or_zero(sub.account_id),
                "account.state"@,
                matrix::account_state_json(account),
            ),
        ],
    }
}

/// Begins a snapshot.
pub fn snapshot_open(d: &Daemon, sub: &Subscription) -> (r: SnapshotHead)
    ensures
        r.cursor@ == d@.bus.latest_or_zero(sub@.account_id),
        r.seq == snapshot_seq(d@.bus, sub@.account_id),
        r.client == d@.runtime.client(sub@.account_id),
        json::all_carry(r.lines@, head_jsons(d@, sub@)),
{
    let account_id: &str = sub.account_id.as_str();
    let cursor: String = d.bus.latest_or_zero(account_id);
    let seq: u64 = match events::cursor_to_seq(cursor.as_str()) {
        Some(seq) => seq,
        None => 0,
    };
    let mut lines: Vec<String> = Vec::new();
    match d.state.find(account_id) {
        Some(account) => {
            let data: Json = matrix::account_state_data(account);
            let line: String = event_push_raw(
                sub,
                account_id,
                "account.state",
                seq,
                cursor.as_str(),
                data,
            );
            lines.push(line);
        },
        None => {},
    }
    SnapshotHead { lines, cursor, seq, client: d.runtime.get_client(account_id) }
}

/// A verification in a snapshot: its stage, and its short authentication string, where it
/// has one.
pub open spec fn flow_jsons(
    sub: SubscriptionView,
    seq: u64,
    cursor: Seq<char>,
    flow: verification::SnapshotView,
) -> Seq<JsonView> {
    let stage = push_json(
        sub,
        sub.account_id,
        seq,
        cursor,
        "matrix.verification.state"@,
        verification::device_stage_json(flow.flow_id, flow.user_id, flow.device_id, flow.stage),
    );
    match flow.sas {
        None => seq![stage],
        Some(sas) => seq![
            stage,
            push_json(
                sub,
                sub.account_id,
                seq,
                cursor,
                "matrix.verification.sas"@,
                verification::sas_event_json(flow.flow_id, flow.user_id, sas),
            ),
        ],
    }
}

/// The verifications in a snapshot.
pub open spec fn flows_jsons(
    sub: SubscriptionView,
    seq: u64,
    cursor: Seq<char>,
    flows: Seq<verification::SnapshotView>,
) -> Seq<JsonView>
    decreases flows.len(),
{
    if flows.len() == 0 {
        Seq::empty()
    } else {
        flows_jsons(sub, seq, cursor, flows.drop_last()) + flow_jsons(
            sub,
            seq,
            cursor,
            flows.last(),
        )
    }
}

/// The rooms in a snapshot.
pub open spec fn rooms_push_json(
    sub: SubscriptionView,
    seq: u64,
    cursor: Seq<char>,
    rooms: Seq<RoomFacts>,
) -> JsonView {
    push_json(
        sub,
        sub.account_id,
        seq,
        cursor,
        "room.list.snapshot"@,
        JsonView::object().with("rooms"@, matrix::rooms_json(rooms)),
    )
}

/// The end of a snapshot: the rooms, and the verifications that are under way.
pub open spec fn rest_jsons(
    d: DaemonView,
    sub: SubscriptionView,
    seq: u64,
    cursor: Seq<char>,
    rooms: Seq<RoomFacts>,
) -> Seq<JsonView> {
    seq![rooms_push_json(sub, seq, cursor, rooms)] + flows_jsons(
        sub,
        seq,
        cursor,
        verification::flows_of(d.runtime.flows, sub.account_id),
    )
}

fn flow_lines(
    sub: &Subscription,
    seq: u64,
    cursor: &str,
    flow: &VerificationSnapshot,
) -> (r: Vec<String>)
    ensures
        json::all_carry(r@, flow_jsons(sub@, seq, cursor@, flow@)),
{
    let mut lines: Vec<String> = Vec::new();
    let account_id: &str = sub.account_id.as_str();
    let stage: Json = verification::device_stage_data(
        flow.flow_id.as_str(),
        flow.user_id.as_str(),
        &flow.device_id,
        flow.stage.as_str(),
    );
    lines.push(
        event_push_raw(sub, account_id, "matrix.verification.state", seq, cursor, stage),
    );
    match &flow.sas {
        None => {},
        Some(sas) => {
            let data: Json = verification::sas_event_data(
                flow.flow_id.as_str(),
                flow.user_id.as_str(),
                sas,
            );
            lines.push(
                event_push_raw(sub, account_id, "matrix.verification.sas", seq, cursor, data),
            );
        },
    }
    lines
}

/// Ends a snapshot: the rooms, and the verifications that are under way.
pub fn snapshot_rest(
    d: &Daemon,
    sub: &Subscription,
    seq: u64,
    cursor: &str,
    rooms: Vec<RoomFacts>,
) -> (r: Vec<String>)
    ensures
        json::all_carry(r@, rest_jsons(d@, sub@, seq, cursor@, rooms@)),
{
    let account_id: &str = sub.account_id.as_str();
    let ghost first = seq![rooms_push_json(sub@, seq, cursor@, rooms@)];
    let listed: Json = Json::object().with("rooms", matrix::list_rooms(rooms));
    let mut lines: Vec<String> = Vec::new();
    lines.push(event_push_raw(sub, account_id, "room.list.snapshot", seq, cursor, listed));
    let flows: Vec<VerificationSnapshot> = d.runtime.verifications_handle().of_account(account_id);
    let ghost all = verification::snapshot_views(flows@);
    assert(first + flows_jsons(sub@, seq, cursor@, all.take(0)) =~= first);
    let mut i: usize = 0;
    while i < flows.len()
        invariant
            i <= flows.len(),
            all == verification::snapshot_views(flows@),
            json::all_carry(lines@, first + flows_jsons(sub@, seq, cursor@, all.take(i as int))),
        decreases flows.len() - i,
    {
        let mut more: Vec<String> = flow_lines(sub, seq, cursor, &flows[i]);
        proof {
            assert(all.take(i + 1).drop_last() =~= all.take(i as int));
            assert(all.take(i + 1).last() == flows@[i as int]@);
            let before = flows_jsons(sub@, seq, cursor@, all.take(i as int));
            let flow = flow_jsons(sub@, seq, cursor@, flows@[i as int]@);
            json::lemma_all_carry(lines@, first + before, more@, flow);
            assert((first + before) + flow =~= first + (before + flow));
        }
        lines.append(&mut more);
        i = i + 1;
    }
    assert(all.take(all.len() as int) =~= all);
    lines
}

/// The answer to a subscription that is open.
pub open spec fn subscribed_json(bus: events::BusView, sub: SubscriptionView) -> JsonView {
    JsonView::object().with("subscription_id"@, JsonView::Text(sub.subscription_id)).with(
        "account_id"@,
        JsonView::Text(sub.account_id),
    ).with("since"@, JsonView::Text(bus.latest_or_zero(sub.account_id)))
}

/// The answer to a subscription that is open.
pub fn subscribe_close(d: &Daemon, sub: &Subscription) -> (r: Outcome)
    ensures
        rpc::outcome_view(r) == Ok::<JsonView, rpc::ErrorView>(subscribed_json(d@.bus, sub@)),
{
    let since: String = d.bus.latest_or_zero(sub.account_id.as_str());
    Ok(
        Json::object().with("subscription_id", Json::text(sub.subscription_id.as_str())).with(
            "account_id",
            Json::text(sub.account_id.as_str()),
        ).with("since", Json::text(since.as_str())),
    )
}

/// A subscription whose snapshot waits for the rooms.
pub struct SnapshotWait {
    pub sub: Subscription,
    /// Where the snapshot stands.
    pub seq: u64,
    pub cursor: String,
    /// The id that the answer carries.
    pub id: Json,
}

/// What is to be done for a request to be sent events.
pub enum SubscribeStep {
    /// It is refused with this line.
    Refused { line: String },
    /// The subscription is open: these lines are sent, and nothing more.
    Opened { lines: Vec<String> },
    /// The subscription is open: these lines are sent, and the client is asked for its
    /// rooms.
    ListRooms { lines: Vec<String>, client: u64, waiting: SnapshotWait },
}

/// What an open subscription is sent before its rooms are known: what the client has missed,
/// and the beginning of the snapshot, where it wants one.
pub open spec fn opening_jsons(
    d: DaemonView,
    sub: SubscriptionView,
    since: Option<Seq<char>>,
    snapshot: bool,
) -> Seq<JsonView> {
    replay_jsons(d.bus, sub, since) + (if snapshot {
        head_jsons(d, sub)
    } else {
        Seq::empty()
    })
}

/// The answer to a subscription that is open, as it is sent.
pub open spec fn subscribed_answer(d: DaemonView, sub: SubscriptionView, id: JsonView) -> JsonView {
    rpc::response_json(Ok(subscribed_json(d.bus, sub)), id)
}

/// What an open subscription is sent once its rooms are known: the end of the snapshot, and
/// last the answer.
pub open spec fn closing_jsons(
    d: DaemonView,
    sub: SubscriptionView,
    seq: u64,
    cursor: Seq<char>,
    rooms: Seq<RoomFacts>,
    id: JsonView,
) -> Seq<JsonView> {
    rest_jsons(d, sub, seq, cursor, rooms).push(subscribed_answer(d, sub, id))
}

/// Whether the step is the one that an open subscription takes: without a snapshot the
/// answer follows what was missed; with one, the rooms are asked for where the account has a
/// client, and taken to be none where it has not.
pub open spec fn subscribed_step(
    d: DaemonView,
    sub: SubscriptionView,
    since: Option<Seq<char>>,
    snapshot: bool,
    id: JsonView,
    s: SubscribeStep,
) -> bool {
    let opening = opening_jsons(d, sub, since, snapshot);
    let seq = snapshot_seq(d.bus, sub.account_id) as u64;
    let cursor = d.bus.latest_or_zero(sub.account_id);
    if !snapshot {
        s is Opened && json::all_carry(
            s->Opened_lines@,
            opening.push(subscribed_answer(d, sub, id)),
        )
    } else {
        match d.runtime.client(sub.account_id) {
            None => s is Opened && json::all_carry(
                s->Opened_lines@,
                opening + closing_jsons(d, sub, seq, cursor, Seq::empty(), id),
            ),
            Some(number) => {
                &&& s matches SubscribeStep::ListRooms { lines, client, waiting }
                &&& json::all_carry(lines@, opening)
                &&& client == number
                &&& waiting.sub@ == sub
                &&& waiting.seq == seq
                &&& waiting.cursor@ == cursor
                &&& waiting.id@ == id
            },
        }
    }
}

/// Serves a request to be sent events. It is always answered, with an id or without one.
pub fn handle_events_subscribe(
    d: &mut Daemon,
    current: &mut Option<Subscription>,
    request: &RpcRequest,
    read: Option<Result<SubscribeParams, String>>,
) -> (s: SubscribeStep)
    ensures
        match rpc::params_meant(*request, read) {
            Err(error) => {
                &&& s is Refused && json::carries(
                    s->Refused_line@,
                    rpc::response_json(Err(error), request.answer_id()),
                )
                &&& final(d)@ == old(d)@
                &&& *final(current) == *old(current)
            },
            Ok(params) => {
                let sub = next_subscription(old(d)@, params.account_id@);
                &&& subscribed_step(
                    old(d)@,
                    sub,
                    text::opt_text(params.since),
                    params.snapshot != Some(false),
                    request.answer_id(),
                    s,
                )
                &&& opt_subscription(*final(current)) == Some(sub)
                &&& final(d)@ == subscription_counted(old(d)@)
            },
        },
{
    let snapshot: bool = match &read {
        Some(Ok(params)) => wants_snapshot(params),
        _ => false,
    };
    let id: Json = request.id_or_null();
    let mut lines: Vec<String> = match subscribe_open(d, current, request, read) {
        Err(error) => {
            return SubscribeStep::Refused { line: rpc::response_line(Err(error), id) };
        },
        Ok(lines) => lines,
    };
    let sub: Subscription = match &*current {
        Some(sub) => sub.copy(),
        None => {
            return SubscribeStep::Opened { lines };
        },
    };
    let ghost missed = replay_jsons(d@.bus, sub@, text::opt_text(read->0->Ok_0.since));
    if !snapshot {
        assert(missed + Seq::<JsonView>::empty() =~= missed);
        lines.push(rpc::response_line(subscribe_close(d, &sub), id));
        return SubscribeStep::Opened { lines };
    }
    let head: SnapshotHead = snapshot_open(d, &sub);
    let mut first: Vec<String> = head.lines;
    proof {
        json::lemma_all_carry(lines@, missed, first@, head_jsons(d@, sub@));
    }
    lines.append(&mut first);
    let waiting = SnapshotWait { sub, seq: head.seq, cursor: head.cursor, id };
    match head.client {
        Some(client) => SubscribeStep::ListRooms { lines, client, waiting },
        None => {
            let rooms: Vec<RoomFacts> = Vec::new();
            assert(rooms@ =~= Seq::empty());
            let ghost opening = missed + head_jsons(d@, sub@);
            let ghost closing = closing_jsons(
                d@,
                sub@,
                head.seq,
                head.cursor@,
                Seq::empty(),
                id@,
            );
            let mut more: Vec<String> = subscribe_rooms(d, waiting, rooms);
            proof {
                json::lemma_all_carry(lines@, opening, more@, closing);
            }
            lines.append(&mut more);
            SubscribeStep::Opened { lines }
        },
    }
}

/// Goes on with a subscription once its client's rooms are known.
pub fn subscribe_rooms(d: &Daemon, waiting: SnapshotWait, rooms: Vec<RoomFacts>) -> (r: Vec<
    String,
>)
    ensures
        json::all_carry(
            r@,
            closing_jsons(
                d@,
                waiting.sub@,
                waiting.seq,
                waiting.cursor@,
                rooms@,
                waiting.id@,
            ),
        ),
{
    let mut lines: Vec<String> = snapshot_rest(
        d,
        &waiting.sub,
        waiting.seq,
        waiting.cursor.as_str(),
        rooms,
    );
    lines.push(rpc::response_line(subscribe_close(d, &waiting.sub), waiting.id));
    lines
}

/// What comes from the bus for a subscriber.
pub enum BusItem {
    /// An event of some account.
    Event(ServerEvent),
    /// Some events came too fast and are lost to the subscriber.
    Lagged,
}

/// The line that a subscriber is sent for what comes from the bus: nothing for events of
/// other accounts.
pub fn deliver(d: &Daemon, sub: &Subscription, item: &BusItem) -> (r: Option<String>)
    ensures
        match *item {
            BusItem::Event(event) => if event@.account_id == sub@.account_id {
                r is Some && json::carries(r->0@, event_json(sub@, event@))
            } else {
                r is None
            },
            BusItem::Lagged => r is Some && json::carries(
                r->0@,
                reset_push_json(d@.bus, sub@, "cursor_too_old"@),
            ),
        },
{
    match item {
        BusItem::Event(event) => if text::str_eq(
            event.account_id.as_str(),
            sub.account_id.as_str(),
        ) {
            Some(event_push(sub, event))
        } else {
            None
        },
        BusItem::Lagged => Some(reset_push(d, sub, "cursor_too_old")),
    }
}

/// The answer to a request to be sent events no more.
pub open spec fn ok_json() -> JsonView {
    JsonView::object().with("ok"@, JsonView::Bool(true))
}

/// What a request to be sent events no more is answered.
pub open spec fn unsubscribed(
    request: RpcRequest,
    read: Option<Result<String, String>>,
) -> rpc::OutcomeView {
    match rpc::params_meant(request, read) {
        Err(error) => Err(error),
        Ok(_) => Ok(ok_json()),
    }
}

/// Whether a request to be sent events no more ends the current subscription: it does where
/// it names that one.
pub open spec fn ends_current(
    current: Option<SubscriptionView>,
    request: RpcRequest,
    read: Option<Result<String, String>>,
) -> bool {
    match (rpc::params_meant(request, read), current) {
        (Ok(id), Some(sub)) => sub.subscription_id == id@,
        _ => false,
    }
}

/// Ends the subscription with the given id, where it is the current one.
pub fn handle_events_unsubscribe(
    current: &mut Option<Subscription>,
    request: &RpcRequest,
    read: Option<Result<String, String>>,
) -> (r: Outcome)
    ensures
        rpc::outcome_view(r) == unsubscribed(*request, read),
        if ends_current(opt_subscription(*old(current)), *request, read) {
            *final(current) is None
        } else {
            *final(current) == *old(current)
        },
{
    let id: String = match rpc::take_params(request, read) {
        Err(error) => {
            return Err(error);
        },
        Ok(id) => id,
    };
    let active: bool = match &*current {
        Some(sub) => text::str_eq(sub.subscription_id.as_str(), id.as_str()),
        None => false,
    };
    if active {
        *current = None;
    }
    Ok(Json::object().with("ok", Json::Bool(true)))
}

/// Serves a request to be sent events no more, and gives the line of its answer. It is
/// always answered, with an id or without one.
pub fn unsubscribe_line(
    current: &mut Option<Subscription>,
    request: &RpcRequest,
    read: Option<Result<String, String>>,
) -> (r: String)
    ensures
        json::carries(
            r@,
            rpc::response_json(unsubscribed(*request, read), request.answer_id()),
        ),
        if ends_current(opt_subscription(*old(current)), *request, read) {
            *final(current) is None
        } else {
            *final(current) == *old(current)
        },
{
    let outcome: Outcome = handle_events_unsubscribe(current, request, read);
    rpc::response_line(outcome, request.id_or_null())
}

/// A client that comes back with the cursor of an event that is still in the history is sent
/// exactly the events after it, each once and in order, up to the latest.
pub proof fn law_nothing_is_missed(bus: events::BusView, sub: SubscriptionView, seq: nat)
    requires
        bus.in_order(),
        bus.logs.contains_key(sub.account_id),
        bus.log(sub.account_id).last - bus.log(sub.account_id).kept.len() < seq,
        seq <= bus.log(sub.account_id).last,
    ensures
        ({
            let log = bus.log(sub.account_id);
            let pushed = replay_jsons(bus, sub, Some(events::cursor_text(seq)));
            let from = log.kept.len() - (log.last - seq);
            &&& pushed.len() == log.last - seq
            &&& forall|i: int|
                0 <= i < pushed.len() ==> #[trigger] pushed[i] == event_json(
                    sub,
                    log.kept[from + i],
                )
                    && log.kept[from + i].seq == seq + 1 + i
        }),
{
    events::law_replay(bus, sub.account_id, seq);
}

/// What is emitted after a replay carries the number after the latest that was replayed:
/// no event is left out between the two, and none is sent twice.
pub proof fn law_live_events_follow_the_replay(
    bus: events::BusView,
    account: Seq<char>,
    event_type: Seq<char>,
    data: JsonView,
)
    requires
        bus.in_order(),
        bus.logs.contains_key(account),
    ensures
        bus.next_event(account, event_type, data).seq == bus.log(account).last + 1,
        forall|i: int|
            0 <= i < bus.log(account).kept.len() ==> (#[trigger] bus.log(account).kept[i]).seq
                < bus.next_event(account, event_type, data).seq,
{
    assert(events::log_in_order(account, bus.logs[account], bus.max_history));
}

/// A push whose data survives being written and read does so itself: with
/// [`event_push_raw`] it reaches the client as it was meant.
pub proof fn law_push_survives(
    sub: SubscriptionView,
    account_id: Seq<char>,
    seq: u64,
    cursor: Seq<char>,
    event_type: Seq<char>,
    data: JsonView,
)
    requires
        json::plain(data, 98),
    ensures
        json::survives_text(push_json(sub, account_id, seq, cursor, event_type, data)),
{
    reveal_strlit("jsonrpc");
    reveal_strlit("method");
    reveal_strlit("params");
    reveal_strlit("subscription_id");
    reveal_strlit("account_id");
    reveal_strlit("seq");
    reveal_strlit("cursor");
    reveal_strlit("type");
    reveal_strlit("data");
    assert("jsonrpc"@[0] == 'j' && "method"@[0] == 'm' && "params"@[0] == 'p');
    assert("subscription_id"@[0] == 's' && "subscription_id"@[1] == 'u');
    assert("seq"@[0] == 's' && "seq"@[1] == 'e');
    assert("account_id"@[0] == 'a' && "cursor"@[0] == 'c' && "type"@[0] == 't' && "data"@[0]
        == 'd');
    let whole = push_json(sub, account_id, seq, cursor, event_type, data);
    let params = whole->Object_0[2].1;
    let inner = params->Object_0;
    assert(inner.len() == 6);
    assert(json::plain(inner[0].1, 98));
    assert(json::plain(inner[1].1, 98));
    assert(json::plain(inner[2].1, 98));
    assert(json::plain(inner[3].1, 98));
    assert(json::plain(inner[4].1, 98));
    assert(json::plain(inner[5].1, 98));
    assert(json::plain(params, 99));
    let outer = whole->Object_0;
    assert(outer.len() == 3);
    assert(json::plain(outer[0].1, 99));
    assert(json::plain(outer[1].1, 99));
    assert(json::plain(outer[2].1, 99));
}

/// Subscriptions with different numbers have different ids.
pub proof fn law_subscription_ids_differ(a: nat, b: nat)
    requires
        a != b,
    ensures
        numbered_subscription(a) != numbered_subscription(b),
{
    let k = "sub-"@.len() as int;
    assert(numbered_subscription(a).skip(k) =~= text::decimal(a));
    assert(numbered_subscription(b).skip(k) =~= text::decimal(b));
    if numbered_subscription(a) == numbered_subscription(b) {
        text::lemma_decimal_injective(a, b);
    }
}

/// A snapshot stands at the number of the account's latest event.
pub proof fn law_snapshot_stands_at_latest(bus: events::BusView, account: Seq<char>)
    requires
        bus.log(account).last <= u64::MAX,
    ensures
        snapshot_seq(bus, account) == bus.log(account).last,
{
    events::law_cursor_round_trip(bus.log(account).last);
    events::law_cursor_round_trip(0);
    reveal_strlit("cursor-");
    reveal_strlit("cursor-0");
    assert("cursor-0"@ =~= events::cursor_text(0)) by {
        assert(text::decimal(0) =~= seq!['0']);
    }
}

/// Whether a value is the push of an event.
pub open spec fn is_push(v: JsonView) -> bool {
    v.get("method"@) == Some(JsonView::Text("events.push"@))
}

proof fn lemma_is_push(
    sub: SubscriptionView,
    account_id: Seq<char>,
    seq: u64,
    cursor: Seq<char>,
    event_type: Seq<char>,
    data: JsonView,
)
    ensures
        is_push(push_json(sub, account_id, seq, cursor, event_type, data)),
{
    reveal_strlit("jsonrpc");
    reveal_strlit("method");
    assert("jsonrpc"@[0] == 'j' && "method"@[0] == 'm');
    let whole = push_json(sub, account_id, seq, cursor, event_type, data);
    let bare = JsonView::object();
    let head = bare.with("jsonrpc"@, JsonView::Text("2.0"@));
    let body = head.with("method"@, JsonView::Text("events.push"@));
    json::lemma_get_with(bare, "jsonrpc"@, JsonView::Text("2.0"@), "method"@);
    json::lemma_get_with(head, "method"@, JsonView::Text("events.push"@), "method"@);
    json::lemma_get_with(body, "params"@, whole->Object_0[2].1, "method"@);
    assert(bare.get("method"@) is None);
}

proof fn lemma_flows_are_pushed(
    sub: SubscriptionView,
    seq: u64,
    cursor: Seq<char>,
    flows: Seq<verification::SnapshotView>,
)
    ensures
        forall|i: int|
            0 <= i < flows_jsons(sub, seq, cursor, flows).len() ==> is_push(
                #[trigger] flows_jsons(sub, seq, cursor, flows)[i],
            ),
    decreases flows.len(),
{
    if flows.len() > 0 {
        let flow = flows.last();
        lemma_flows_are_pushed(sub, seq, cursor, flows.drop_last());
        lemma_is_push(
            sub,
            sub.account_id,
            seq,
            cursor,
            "matrix.verification.state"@,
            verification::device_stage_json(
                flow.flow_id,
                flow.user_id,
                flow.device_id,
                flow.stage,
            ),
        );
        if flow.sas is Some {
            lemma_is_push(
                sub,
                sub.account_id,
                seq,
                cursor,
                "matrix.verification.sas"@,
                verification::sas_event_json(flow.flow_id, flow.user_id, flow.sas->0),
            );
        }
        let before = flows_jsons(sub, seq, cursor, flows.drop_last());
        let all = flows_jsons(sub, seq, cursor, flows);
        assert forall|i: int| 0 <= i < all.len() implies is_push(#[trigger] all[i]) by {
            if i < before.len() {
                assert(all[i] == before[i]);
            } else {
                assert(all[i] == flow_jsons(sub, seq, cursor, flow)[i - before.len()]);
            }
        }
    }
}

/// A subscription is sent first what its client has missed and last its answer, and all that
/// goes before the answer is pushes, whatever has become of the daemon when the rooms are
/// known.
pub proof fn law_answer_comes_last(
    first: DaemonView,
    later: DaemonView,
    sub: SubscriptionView,
    since: Option<Seq<char>>,
    seq: u64,
    cursor: Seq<char>,
    rooms: Seq<RoomFacts>,
    id: JsonView,
)
    ensures
        ({
            let missed = replay_jsons(first.bus, sub, since);
            let all = opening_jsons(first, sub, since, true) + closing_jsons(
                later,
                sub,
                seq,
                cursor,
                rooms,
                id,
            );
            &&& all.take(missed.len() as int) == missed
            &&& all.last() == subscribed_answer(later, sub, id)
            &&& forall|i: int| 0 <= i < all.len() - 1 ==> is_push(#[trigger] all[i])
        }),
{
    let missed = replay_jsons(first.bus, sub, since);
    let opening = opening_jsons(first, sub, since, true);
    let closing = closing_jsons(later, sub, seq, cursor, rooms, id);
    let all = opening + closing;
    assert(all.take(missed.len() as int) =~= missed);
    assert forall|i: int| 0 <= i < missed.len() implies is_push(#[trigger] missed[i]) by {
        let cursor = since->0;
        match first.bus.replayed(sub.account_id, cursor) {
            Some(list) => {
                let e = list[i];
                lemma_is_push(
                    sub,
                    e.account_id,
                    e.seq as u64,
                    e.cursor,
                    e.event_type,
                    e.data,
                );
            },
            None => {
                let latest = first.bus.latest_or_zero(sub.account_id);
                lemma_is_push(
                    sub,
                    sub.account_id,
                    0,
                    latest,
                    "events.reset"@,
                    reset_json("invalid_cursor"@, latest),
                );
            },
        }
    }
    if first.state.find(sub.account_id) is Some {
        lemma_is_push(
            sub,
            sub.account_id,
            snapshot_seq(first.bus, sub.account_id) as u64,
            first.bus.latest_or_zero(sub.account_id),
            "account.state"@,
            matrix::account_state_json(first.state.find(sub.account_id)->0),
        );
    }
    lemma_is_push(
        sub,
        sub.account_id,
        seq,
        cursor,
        "room.list.snapshot"@,
        JsonView::object().with("rooms"@, matrix::rooms_json(rooms)),
    );
    let flows = verification::flows_of(later.runtime.flows, sub.account_id);
    lemma_flows_are_pushed(sub, seq, cursor, flows);
    assert forall|i: int| 0 <= i < all.len() - 1 implies is_push(#[trigger] all[i]) by {
        if i < missed.len() {
            assert(all[i] == missed[i]);
        } else if i < opening.len() {
            assert(all[i] == head_jsons(first, sub)[i - missed.len()]);
        } else if i > opening.len() {
            assert(all[i] == flows_jsons(sub, seq, cursor, flows)[i - opening.len() - 1]);
        }
    }
}

} // verus!
