//! Matrix sessions at run time: clients, rooms, and what comes in from a homeserver.

use vstd::prelude::*;
use vstd::string::*;

use crate::events;
use crate::events::EventBus;
use crate::json;
use crate::json::{Json, JsonView};
use crate::state;
use crate::state::{Account, MatrixSession};
use crate::strmap::StrMap;
use crate::text;
use crate::verification;
use crate::verification::{SasFacts, VerificationSnapshot, Verifications};

verus! {

/// The clients of the accounts, by number, and the verifications that are under way.
pub struct MatrixRuntime {
    clients: StrMap<u64>,
    sync_tasks: StrMap<()>,
    verifications: Verifications,
}

/// The run-time state as a mathematical value.
#[verifier::ext_equal]
pub struct RuntimeView {
    pub clients: Map<Seq<char>, u64>,
    pub syncing: Set<Seq<char>>,
    pub flows: Seq<verification::FlowView>,
}

impl View for MatrixRuntime {
    type V = RuntimeView;

    closed spec fn view(&self) -> RuntimeView {
        RuntimeView {
            clients: self.clients@,
            syncing: self.sync_tasks@.dom(),
            flows: self.verifications@,
        }
    }
}

impl RuntimeView {
    /// A run-time state without clients.
    pub open spec fn fresh() -> RuntimeView {
        RuntimeView { clients: Map::empty(), syncing: Set::empty(), flows: Seq::empty() }
    }

    /// The client of an account.
    pub open spec fn client(self, account: Seq<char>) -> Option<u64> {
        if self.clients.contains_key(account) {
            Some(self.clients[account])
        } else {
            None
        }
    }

    /// The state with the account's client.
    pub open spec fn with_client(self, account: Seq<char>, client: u64) -> RuntimeView {
        RuntimeView { clients: self.clients.insert(account, client), ..self }
    }

    /// The state in which the account is being synchronised.
    pub open spec fn with_sync(self, account: Seq<char>) -> RuntimeView {
        RuntimeView { syncing: self.syncing.insert(account), ..self }
    }

    /// The state with a verification of the account.
    pub open spec fn with_flow(
        self,
        account: Seq<char>,
        snapshot: verification::SnapshotView,
    ) -> RuntimeView {
        RuntimeView { flows: verification::flow_stored(self.flows, account, snapshot), ..self }
    }

    /// The state without a verification of the account.
    pub open spec fn without_flow(self, account: Seq<char>, flow_id: Seq<char>) -> RuntimeView {
        RuntimeView { flows: verification::flow_removed(self.flows, account, flow_id), ..self }
    }
}

impl MatrixRuntime {
    /// A run-time state without clients.
    pub fn new() -> (r: MatrixRuntime)
        ensures
            r@ == RuntimeView::fresh(),
    {
        let r = MatrixRuntime {
            clients: StrMap::new(),
            sync_tasks: StrMap::new(),
            verifications: Verifications::new(),
        };
        assert(r@.syncing =~= Set::empty());
        r
    }

    /// The client of an account.
    pub fn get_client(&self, account_id: &str) -> (r: Option<u64>)
        ensures
            r == self@.client(account_id@),
    {
        match self.clients.get(account_id) {
            Some(client) => Some(*client),
            None => None,
        }
    }

    /// Makes a client that of an account.
    pub fn insert_client(&mut self, account_id: &str, client: u64)
        ensures
            final(self)@ == old(self)@.with_client(account_id@, client),
    {
        let _ = self.clients.insert(account_id.to_owned(), client);
    }

    /// Marks an account as being synchronised, and says whether it was not yet.
    pub fn start_sync(&mut self, account_id: &str) -> (r: bool)
        ensures
            r == !old(self)@.syncing.contains(account_id@),
            final(self)@ == old(self)@.with_sync(account_id@),
    {
        let ghost before = self@;
        let old_task: Option<()> = self.sync_tasks.insert(account_id.to_owned(), ());
        assert(self@.syncing =~= before.syncing.insert(account_id@));
        old_task.is_none()
    }

    /// The verifications that are under way.
    pub fn verifications_handle(&self) -> (r: &Verifications)
        ensures
            r@ == self@.flows,
    {
        &self.verifications
    }

    /// Stores a verification of an account.
    pub fn store_flow(&mut self, account_id: &str, snapshot: VerificationSnapshot)
        ensures
            final(self)@ == old(self)@.with_flow(account_id@, snapshot@),
    {
        self.verifications.store(account_id, snapshot);
    }

    /// Removes a verification of an account, and says whether there was one.
    pub fn remove_flow(&mut self, account_id: &str, flow_id: &str) -> (r: bool)
        ensures
            r == (verification::find_flow(old(self)@.flows, account_id@, flow_id@) is Some),
            final(self)@ == old(self)@.without_flow(account_id@, flow_id@),
    {
        self.verifications.remove(account_id, flow_id)
    }

    /// Gives a flow its short authentication string, unless it has one, and says whether it
    /// did.
    pub fn set_sas_snapshot(
        &mut self,
        account_id: &str,
        flow_id: &str,
        user_id: &str,
        sas: &Json,
    ) -> (r: bool)
        ensures
            r == !verification::has_sas(old(self)@.flows, account_id@, flow_id@),
            final(self)@ == (RuntimeView {
                flows: verification::sas_stored(
                    old(self)@.flows,
                    account_id@,
                    flow_id@,
                    user_id@,
                    sas@,
                ),
                ..old(self)@
            }),
    {
        self.verifications.set_sas_snapshot(account_id, flow_id, user_id, sas)
    }
}

/// Where an account's client keeps what it knows.
pub open spec fn store_dir(state_dir: Seq<char>, account_id: Seq<char>) -> Seq<char> {
    state::joined_path(state::joined_path(state_dir, "matrix"@), account_id)
}

/// Where an account's client keeps what it knows.
pub fn account_store_dir(state_dir: &str, account_id: &str) -> (r: String)
    ensures
        r@ == store_dir(state_dir@, account_id@),
{
    let base: String = state::join_path(state_dir, "matrix");
    state::join_path(base.as_str(), account_id)
}

/// What `ruma_common::UserId::parse` finds wrong with a text, if anything.
pub uninterp spec fn user_id_fault(id: Seq<char>) -> Option<Seq<char>>;

/// What `ruma_common::RoomId::parse` finds wrong with a text, if anything.
pub uninterp spec fn room_id_fault(id: Seq<char>) -> Option<Seq<char>>;

/// `ruma_common::UserId::parse`: the words of its error, if it gives one, named by
/// `user_id_fault`. They depend on the text alone; an id that is accepted keeps its text.
#[verifier::external_body]
fn parse_user_id(id: &str) -> (r: Option<String>)
    ensures
        text::opt_text(r) == user_id_fault(id@),
{
    match ruma_common::UserId::parse(id) {
        Ok(_) => None,
        Err(err) => Some(err.to_string()),
    }
}

/// Whether a text has the form of a room's id: it begins with an exclamation mark and holds
/// no NUL.
pub open spec fn room_id_formed(id: Seq<char>) -> bool {
    id.len() > 0 && id[0] == '!' && !id.contains('\0')
}

/// `ruma_common::RoomId::parse`: the words of its error, if it gives one, named by
/// `room_id_fault`. They depend on the text alone; an id that is accepted keeps its text.
/// Only a text of the right form is accepted, and every one of at most 255 bytes is; whether
/// a longer one is rests on a feature of the crate and is left unsaid.
#[verifier::external_body]
fn parse_room_id(id: &str) -> (r: Option<String>)
    ensures
        text::opt_text(r) == room_id_fault(id@),
        r is None ==> room_id_formed(id@),
        room_id_formed(id@) && vstd::utf8::encode_utf8(id@).len() <= 255 ==> r is None,
{
    match ruma_common::RoomId::parse(id) {
        Ok(_) => None,
        Err(err) => Some(err.to_string()),
    }
}

/// What is wrong with a user's id, if anything.
pub fn check_user_id(id: &str) -> (r: Option<String>)
    ensures
        text::opt_text(r) == user_id_fault(id@),
{
    parse_user_id(id)
}

/// What is wrong with a room's id, if anything.
pub fn check_room_id(id: &str) -> (r: Option<String>)
    ensures
        text::opt_text(r) == room_id_fault(id@),
        r is None ==> room_id_formed(id@),
        room_id_formed(id@) && vstd::utf8::encode_utf8(id@).len() <= 255 ==> r is None,
{
    parse_room_id(id)
}

/// What a client tells of a room; what it could not find out is left out.
pub struct RoomFacts {
    pub room_id: String,
    pub name: Option<String>,
    pub is_direct: Option<bool>,
    pub is_encrypted: Option<bool>,
}

/// A room as it is listed.
pub struct RoomInfo {
    pub room_id: String,
    pub name: Option<String>,
    pub is_encrypted: bool,
    pub is_direct: bool,
}

impl RoomInfo {
    /// A room as it is listed, from what its client tells. What is not known to be so is
    /// taken not to be.
    pub fn from_room(room: RoomFacts) -> (r: RoomInfo)
        ensures
            r.room_id@ == room.room_id@,
            text::opt_text(r.name) == text::opt_text(room.name),
            r.is_encrypted == (room.is_encrypted == Some(true)),
            r.is_direct == (room.is_direct == Some(true)),
    {
        let is_direct: bool = match room.is_direct {
            Some(b) => b,
            None => false,
        };
        let is_encrypted: bool = match room.is_encrypted {
            Some(b) => b,
            None => false,
        };
        RoomInfo { room_id: room.room_id, name: room.name, is_encrypted, is_direct }
    }

    /// The room as JSON.
    pub open spec fn json(&self) -> JsonView {
        JsonView::object().with("room_id"@, JsonView::Text(self.room_id@)).with(
            "name"@,
            json::opt_text_view(text::opt_text(self.name)),
        ).with("is_encrypted"@, JsonView::Bool(self.is_encrypted)).with(
            "is_direct"@,
            JsonView::Bool(self.is_direct),
        )
    }

    /// The room as JSON.
    pub fn to_json(&self) -> (r: Json)
        ensures
            r@ == self.json(),
    {
        Json::object().with("room_id", Json::text(self.room_id.as_str())).with(
            "name",
            Json::opt_text(&self.name),
        ).with("is_encrypted", Json::Bool(self.is_encrypted)).with(
            "is_direct",
            Json::Bool(self.is_direct),
        )
    }
}

/// A room as it is listed, as JSON.
pub open spec fn room_json(room: RoomFacts) -> JsonView {
    JsonView::object().with("room_id"@, JsonView::Text(room.room_id@)).with(
        "name"@,
        json::opt_text_view(text::opt_text(room.name)),
    ).with("is_encrypted"@, JsonView::Bool(room.is_encrypted == Some(true))).with(
        "is_direct"@,
        JsonView::Bool(room.is_direct == Some(true)),
    )
}

/// The list of rooms as JSON.
pub open spec fn rooms_json(rooms: Seq<RoomFacts>) -> JsonView {
    JsonView::Array(rooms.map_values(|room: RoomFacts| room_json(room)))
}

/// The list of rooms as JSON, from what a client tells of them.
pub fn list_rooms(rooms: Vec<RoomFacts>) -> (r: Json)
    ensures
        r@ == rooms_json(rooms@),
{
    let ghost all = rooms@;
    let mut rooms = rooms;
    let mut items: Vec<Json> = Vec::new();
    let n: usize = rooms.len();
    let mut i: usize = 0;
    while i < n
        invariant
            i <= n,
            n == all.len(),
            rooms@ == all.skip(i as int),
            items.len() == i,
            forall|k: int| 0 <= k < i ==> (#[trigger] items@[k])@ == room_json(all[k]),
        decreases n - i,
    {
        let room: RoomFacts = rooms.remove(0);
        assert(rooms@ =~= all.skip(i + 1));
        items.push(RoomInfo::from_room(room).to_json());
        i = i + 1;
    }
    assert(json::views(items@) =~= rooms_json(all)->Array_0);
    Json::array(items)
}

/// A page of a room's history.
pub struct MessagesResponse {
    pub start: String,
    pub end: Option<String>,
    pub chunk: Vec<Json>,
}

impl MessagesResponse {
    /// The page as JSON.
    pub open spec fn json(&self) -> JsonView {
        JsonView::object().with("start"@, JsonView::Text(self.start@)).with(
            "end"@,
            json::opt_text_view(text::opt_text(self.end)),
        ).with("chunk"@, JsonView::Array(json::views(self.chunk@)))
    }

    /// The page as JSON.
    pub fn into_json(self) -> (r: Json)
        ensures
            r@ == self.json(),
    {
        Json::object().with("start", Json::text(self.start.as_str())).with(
            "end",
            Json::opt_text(&self.end),
        ).with("chunk", Json::array(self.chunk))
    }
}

/// The largest number that Matrix takes for a count.
pub const MAX_COUNT: u64 = 9007199254740991;

/// What a client tells of a device.
pub struct DeviceFacts {
    pub user_id: String,
    pub device_id: String,
    pub display_name: Option<String>,
    pub is_verified: bool,
}

/// A device as JSON.
pub open spec fn device_json(device: DeviceFacts) -> JsonView {
    JsonView::object().with("user_id"@, JsonView::Text(device.user_id@)).with(
        "device_id"@,
        JsonView::Text(device.device_id@),
    ).with("display_name"@, json::opt_text_view(text::opt_text(device.display_name))).with(
        "is_verified"@,
        JsonView::Bool(device.is_verified),
    )
}

/// The list of devices as JSON.
pub open spec fn devices_json(devices: Seq<DeviceFacts>) -> JsonView {
    JsonView::Array(devices.map_values(|device: DeviceFacts| device_json(device)))
}

/// The list of devices as JSON.
pub fn list_devices(devices: &Vec<DeviceFacts>) -> (r: Json)
    ensures
        r@ == devices_json(devices@),
{
    let mut items: Vec<Json> = Vec::new();
    let mut i: usize = 0;
    while i < devices.len()
        invariant
            i <= devices.len(),
            items.len() == i,
            forall|k: int| 0 <= k < i ==> (#[trigger] items@[k])@ == device_json(devices@[k]),
        decreases devices.len() - i,
    {
        let device: &DeviceFacts = &devices[i];
        items.push(
            Json::object().with("user_id", Json::text(device.user_id.as_str())).with(
                "device_id",
                Json::text(device.device_id.as_str()),
            ).with("display_name", Json::opt_text(&device.display_name)).with(
                "is_verified",
                Json::Bool(device.is_verified),
            ),
        );
        i = i + 1;
    }
    assert(json::views(items@) =~= devices_json(devices@)->Array_0);
    Json::array(items)
}

/// The state of an account as it is told to the subscribers.
pub open spec fn account_state_json(account: state::AccountView) -> JsonView {
    JsonView::object().with("account_id"@, JsonView::Text(account.id)).with(
        "status"@,
        JsonView::Text(state::status_text(account.status)),
    ).with("has_session"@, JsonView::Bool(account.session is Some))
}

/// The state of an account as it is told to the subscribers.
pub fn account_state_data(account: &Account) -> (r: Json)
    ensures
        r@ == account_state_json(account@),
{
    Json::object().with("account_id", Json::text(account.id.as_str())).with(
        "status",
        Json::text(state::status_to_string(&account.status)),
    ).with("has_session", Json::Bool(account.session.is_some()))
}

/// A login as it is told to the subscribers.
pub open spec fn login_ready_json(session: state::SessionView) -> JsonView {
    JsonView::object().with("status"@, JsonView::Text("ready"@)).with(
        "device_id"@,
        JsonView::Text(session.device_id),
    ).with("user_id"@, JsonView::Text(session.user_id))
}

/// A login as it is told to the subscribers.
pub fn login_ready_data(session: &MatrixSession) -> (r: Json)
    ensures
        r@ == login_ready_json(session@),
{
    Json::object().with("status", Json::text("ready")).with(
        "device_id",
        Json::text(session.device_id.as_str()),
    ).with("user_id", Json::text(session.user_id.as_str()))
}

/// A timeline event as it is told to the subscribers.
pub open spec fn room_message_json(room_id: Seq<char>, event: JsonView) -> JsonView {
    JsonView::object().with("room_id"@, JsonView::Text(room_id)).with("event"@, event)
}

/// The bus once a timeline event has come in, given what came of reading it.
pub open spec fn timeline_told(
    bus: events::BusView,
    account: Seq<char>,
    room_id: Seq<char>,
    read: Result<JsonView, Seq<char>>,
) -> events::BusView {
    match read {
        Ok(event) => bus.emitted(account, "room.message"@, room_message_json(room_id, event)),
        Err(_) => bus,
    }
}

/// Tells a timeline event to the subscribers, given what came of reading it.
pub fn on_timeline_value(
    bus: &mut EventBus,
    account_id: &str,
    room_id: &str,
    read: Result<Json, String>,
)
    requires
        old(bus)@.room_for(account_id@, 1),
    ensures
        final(bus)@ == timeline_told(old(bus)@, account_id@, room_id@, json::read_view(read)),
{
    match read {
        Ok(event) => {
            let data: Json = Json::object().with("room_id", Json::text(room_id)).with(
                "event",
                event,
            );
            let _ = bus.emit(account_id, "room.message", data);
        },
        Err(_) => {},
    }
}

/// Tells a timeline event, given as its text, to the subscribers.
pub fn on_timeline_event(bus: &mut EventBus, account_id: &str, room_id: &str, raw: &str)
    requires
        old(bus)@.room_for(account_id@, 1),
    ensures
        final(bus)@ == timeline_told(old(bus)@, account_id@, room_id@, json::json_read(raw@)),
{
    on_timeline_value(bus, account_id, room_id, Json::parse(raw))
}

/// How far the synchronisation of an account has come.
pub open spec fn sync_state_json(end: Option<Result<(), Seq<char>>>) -> JsonView {
    match end {
        None => JsonView::object().with("state"@, JsonView::Text("syncing"@)),
        Some(Ok(_)) => JsonView::object().with("state"@, JsonView::Text("idle"@)),
        Some(Err(err)) => JsonView::object().with("state"@, JsonView::Text("error"@)).with(
            "error"@,
            JsonView::Text(err),
        ),
    }
}

/// Tells the subscribers that an account is being synchronised.
pub fn on_sync_started(bus: &mut EventBus, account_id: &str)
    requires
        old(bus)@.room_for(account_id@, 1),
    ensures
        final(bus)@ == old(bus)@.emitted(
            account_id@,
            "matrix.sync.state"@,
            sync_state_json(None),
        ),
{
    let data: Json = Json::object().with("state", Json::text("syncing"));
    let _ = bus.emit(account_id, "matrix.sync.state", data);
}

/// Tells the subscribers how the synchronisation of an account ended.
pub fn on_sync_ended(bus: &mut EventBus, account_id: &str, end: Result<(), String>)
    requires
        old(bus)@.room_for(account_id@, 1),
    ensures
        final(bus)@ == old(bus)@.emitted(
            account_id@,
            "matrix.sync.state"@,
            sync_state_json(Some(text::unit_outcome(end))),
        ),
{
    let data: Json = match end {
        Ok(_) => Json::object().with("state", Json::text("idle")),
        Err(err) => Json::object().with("state", Json::text("error")).with(
            "error",
            Json::text(err.as_str()),
        ),
    };
    let _ = bus.emit(account_id, "matrix.sync.state", data);
}

/// An event that was sent to the device; what it does not hold in readable form is left
/// out.
pub struct ToDevice {
    pub event_type: Option<String>,
    pub sender: Option<String>,
    pub content: Option<Json>,
}

/// What a to-device event means for the verifications.
#[verifier::ext_equal]
pub enum FlowChange {
    Nothing,
    Requested { flow_id: Seq<char>, user_id: Seq<char>, device_id: Option<Seq<char>> },
    Done { flow_id: Seq<char>, user_id: Seq<char> },
    Cancelled { flow_id: Seq<char>, user_id: Seq<char>, reason: Seq<char> },
}

/// What a text of an optional object is.
pub open spec fn content_text(content: Option<JsonView>, key: Seq<char>) -> Option<Seq<char>> {
    match content {
        Some(c) => c.text_at(key),
        None => None,
    }
}

/// What a to-device event means for the verifications, by its type, sender and content.
pub open spec fn change_of(
    event_type: Option<Seq<char>>,
    sender: Option<Seq<char>>,
    content: Option<JsonView>,
) -> FlowChange {
    match (event_type, sender, content_text(content, "transaction_id"@)) {
        (Some(kind), Some(user_id), Some(flow_id)) => if kind == "m.key.verification.request"@ {
            FlowChange::Requested {
                flow_id,
                user_id,
                device_id: content_text(content, "from_device"@),
            }
        } else if kind == "m.key.verification.done"@ {
            FlowChange::Done { flow_id, user_id }
        } else if kind == "m.key.verification.cancel"@ {
            FlowChange::Cancelled {
                flow_id,
                user_id,
                reason: match content_text(content, "reason"@) {
                    Some(reason) => reason,
                    None => "cancelled"@,
                },
            }
        } else {
            FlowChange::Nothing
        },
        _ => FlowChange::Nothing,
    }
}

/// What a to-device event means for the verifications.
pub open spec fn flow_change(event: ToDevice) -> FlowChange {
    change_of(
        text::opt_text(event.event_type),
        text::opt_text(event.sender),
        json::opt_view(event.content),
    )
}

/// What a to-device event, given as its text, means for the verifications.
pub open spec fn raw_change(raw: Seq<char>) -> FlowChange {
    change_of(
        json::raw_text_field(raw, "type"@),
        json::raw_text_field(raw, "sender"@),
        json::raw_json_field(raw, "content"@),
    )
}

/// A verification that was just asked for.
pub open spec fn requested_snapshot(
    flow_id: Seq<char>,
    user_id: Seq<char>,
    device_id: Option<Seq<char>>,
) -> verification::SnapshotView {
    verification::SnapshotView { flow_id, user_id, device_id, stage: "requested"@, sas: None }
}

/// The run-time state after a change of the verifications.
pub open spec fn flow_changed(
    runtime: RuntimeView,
    account: Seq<char>,
    change: FlowChange,
) -> RuntimeView {
    match change {
        FlowChange::Nothing => runtime,
        FlowChange::Requested { flow_id, user_id, device_id } => runtime.with_flow(
            account,
            requested_snapshot(flow_id, user_id, device_id),
        ),
        FlowChange::Done { flow_id, user_id: _ } => runtime.without_flow(account, flow_id),
        FlowChange::Cancelled { flow_id, user_id: _, reason: _ } => runtime.without_flow(
            account,
            flow_id,
        ),
    }
}

/// The bus after a change of the verifications.
pub open spec fn flow_told(
    bus: events::BusView,
    account: Seq<char>,
    change: FlowChange,
) -> events::BusView {
    match change {
        FlowChange::Nothing => bus,
        FlowChange::Requested { flow_id, user_id, device_id } => bus.emitted(
            account,
            "matrix.verification.state"@,
            verification::device_stage_json(flow_id, user_id, device_id, "requested"@),
        ),
        FlowChange::Done { flow_id, user_id } => bus.emitted(
            account,
            "matrix.verification.done"@,
            verification::ended_json(flow_id, user_id, "verified"@),
        ),
        FlowChange::Cancelled { flow_id, user_id, reason } => bus.emitted(
            account,
            "matrix.verification.cancelled"@,
            verification::ended_json(flow_id, user_id, reason),
        ),
    }
}

fn text_in(content: &Option<Json>, key: &str) -> (r: Option<String>)
    ensures
        text::opt_text(r) == content_text(json::opt_view(*content), key@),
{
    match content {
        Some(c) => match c.text_at(key) {
            Some(s) => Some(s.to_owned()),
            None => None,
        },
        None => None,
    }
}

/// Stores a verification that was just asked for and tells the subscribers.
pub fn flow_requested(
    bus: &mut EventBus,
    runtime: &mut MatrixRuntime,
    account_id: &str,
    flow_id: &str,
    user_id: &str,
    device_id: &Option<String>,
)
    requires
        old(bus)@.room_for(account_id@, 1),
    ensures
        final(runtime)@ == old(runtime)@.with_flow(
            account_id@,
            requested_snapshot(flow_id@, user_id@, text::opt_text(*device_id)),
        ),
        final(bus)@ == old(bus)@.emitted(
            account_id@,
            "matrix.verification.state"@,
            verification::device_stage_json(
                flow_id@,
                user_id@,
                text::opt_text(*device_id),
                "requested"@,
            ),
        ),
{
    let snapshot = VerificationSnapshot {
        flow_id: flow_id.to_owned(),
        user_id: user_id.to_owned(),
        device_id: text::clone_opt(device_id),
        stage: "requested".to_owned(),
        sas: None,
    };
    runtime.store_flow(account_id, snapshot);
    let data: Json = verification::device_stage_data(flow_id, user_id, device_id, "requested");
    let _ = bus.emit(account_id, "matrix.verification.state", data);
}

/// Takes in an event that was sent to the device: the verification events change what is
/// under way and are told to the subscribers; all others are passed over.
pub fn on_to_device(
    bus: &mut EventBus,
    runtime: &mut MatrixRuntime,
    account_id: &str,
    event: &ToDevice,
)
    requires
        old(bus)@.room_for(account_id@, 1),
    ensures
        final(runtime)@ == flow_changed(old(runtime)@, account_id@, flow_change(*event)),
        final(bus)@ == flow_told(old(bus)@, account_id@, flow_change(*event)),
{
    let event_type: &String = match &event.event_type {
        Some(t) => t,
        None => {
            return;
        },
    };
    let sender: &String = match &event.sender {
        Some(s) => s,
        None => {
            return;
        },
    };
    let flow_id: String = match text_in(&event.content, "transaction_id") {
        Some(f) => f,
        None => {
            return;
        },
    };
    if text::str_eq(event_type.as_str(), "m.key.verification.request") {
        let device_id: Option<String> = text_in(&event.content, "from_device");
        flow_requested(bus, runtime, account_id, flow_id.as_str(), sender.as_str(), &device_id);
    } else if text::str_eq(event_type.as_str(), "m.key.verification.done") {
        let _ = runtime.remove_flow(account_id, flow_id.as_str());
        let data: Json = verification::ended_data(flow_id.as_str(), sender.as_str(), "verified");
        let _ = bus.emit(account_id, "matrix.verification.done", data);
    } else if text::str_eq(event_type.as_str(), "m.key.verification.cancel") {
        let reason: String = match text_in(&event.content, "reason") {
            Some(r) => r,
            None => "cancelled".to_owned(),
        };
        let _ = runtime.remove_flow(account_id, flow_id.as_str());
        let data: Json = verification::ended_data(
            flow_id.as_str(),
            sender.as_str(),
            reason.as_str(),
        );
        let _ = bus.emit(account_id, "matrix.verification.cancelled", data);
    }
}

/// Takes in an event that was sent to the device, given as its text.
pub fn on_to_device_event(
    bus: &mut EventBus,
    runtime: &mut MatrixRuntime,
    account_id: &str,
    raw: &str,
)
    requires
        old(bus)@.room_for(account_id@, 1),
    ensures
        final(runtime)@ == flow_changed(old(runtime)@, account_id@, raw_change(raw@)),
        final(bus)@ == flow_told(old(bus)@, account_id@, raw_change(raw@)),
{
    let event = ToDevice {
        event_type: json::text_field(raw, "type"),
        sender: json::text_field(raw, "sender"),
        content: json::json_field(raw, "content"),
    };
    on_to_device(bus, runtime, account_id, &event)
}

/// A verification that is being watched.
pub struct Watch {
    pub account_id: String,
    pub user_id: String,
    pub flow_id: String,
}

/// How a verification request that is being watched changed.
pub enum RequestChange {
    /// Both sides are ready.
    Ready,
    /// It has gone over into a short authentication string.
    Sas,
    /// It is done.
    Done,
    /// It was cancelled, and why.
    Cancelled(String),
    /// Something else.
    Other,
}

/// What is to be done after a change.
#[derive(Clone, Copy, Debug, PartialEq, Eq, Structural)]
pub enum WatchStep {
    /// Start a short authentication string and accept it.
    StartSas,
    /// Accept the short authentication string.
    AcceptSas,
    /// Wait for the next change.
    Wait,
    /// Watch no longer.
    Stop,
}

/// What is to be done after a change of a verification request.
pub open spec fn watch_step(change: RequestChange) -> WatchStep {
    match change {
        RequestChange::Ready => WatchStep::StartSas,
        RequestChange::Sas => WatchStep::AcceptSas,
        RequestChange::Done => WatchStep::Stop,
        RequestChange::Cancelled(_) => WatchStep::Stop,
        RequestChange::Other => WatchStep::Wait,
    }
}

/// The end of a verification request that a change tells of, where the verification is
/// still known.
pub open spec fn watched_end(
    runtime: RuntimeView,
    watch: Watch,
    change: RequestChange,
) -> FlowChange {
    if verification::find_flow(runtime.flows, watch.account_id@, watch.flow_id@) is None {
        FlowChange::Nothing
    } else {
        match change {
            RequestChange::Done => FlowChange::Done {
                flow_id: watch.flow_id@,
                user_id: watch.user_id@,
            },
            RequestChange::Cancelled(info) => FlowChange::Cancelled {
                flow_id: watch.flow_id@,
                user_id: watch.user_id@,
                reason: info@,
            },
            _ => FlowChange::Nothing,
        }
    }
}

/// Takes in a change of a verification request that is being watched. Its end is told once:
/// not where the verification is no longer known.
pub fn on_request_change(
    bus: &mut EventBus,
    runtime: &mut MatrixRuntime,
    watch: &Watch,
    change: RequestChange,
) -> (r: WatchStep)
    requires
        old(bus)@.room_for(watch.account_id@, 1),
    ensures
        r == watch_step(change),
        final(runtime)@ == flow_changed(
            old(runtime)@,
            watch.account_id@,
            watched_end(old(runtime)@, *watch, change),
        ),
        final(bus)@ == flow_told(
            old(bus)@,
            watch.account_id@,
            watched_end(old(runtime)@, *watch, change),
        ),
{
    let account_id: &str = watch.account_id.as_str();
    let flow_id: &str = watch.flow_id.as_str();
    let user_id: &str = watch.user_id.as_str();
    match change {
        RequestChange::Ready => WatchStep::StartSas,
        RequestChange::Sas => WatchStep::AcceptSas,
        RequestChange::Done => {
            if runtime.remove_flow(account_id, flow_id) {
                let data: Json = verification::ended_data(flow_id, user_id, "verified");
                let _ = bus.emit(account_id, "matrix.verification.done", data);
            }
            WatchStep::Stop
        },
        RequestChange::Cancelled(info) => {
            if runtime.remove_flow(account_id, flow_id) {
                let data: Json = verification::ended_data(flow_id, user_id, info.as_str());
                let _ = bus.emit(account_id, "matrix.verification.cancelled", data);
            }
            WatchStep::Stop
        },
        RequestChange::Other => WatchStep::Wait,
    }
}

/// How a short authentication string that is being waited for changed.
pub enum SasChange {
    /// The keys are exchanged, and this is what it shows.
    KeysExchanged(SasFacts),
    /// It was cancelled or is done.
    Ended,
    /// Something else.
    Other,
}

/// The bus once a flow has its short authentication string.
pub open spec fn sas_told(
    bus: events::BusView,
    account: Seq<char>,
    flow_id: Seq<char>,
    user_id: Seq<char>,
    sas: JsonView,
) -> events::BusView {
    bus.emitted(
        account,
        "matrix.verification.state"@,
        verification::stage_json(flow_id, user_id, "sas"@),
    ).emitted(
        account,
        "matrix.verification.sas"@,
        verification::sas_event_json(flow_id, user_id, sas),
    )
}

/// The bus after a short authentication string was shown, which is told once.
pub open spec fn sas_shown_bus(
    bus: events::BusView,
    runtime: RuntimeView,
    watch: Watch,
    sas: JsonView,
) -> events::BusView {
    if verification::has_sas(runtime.flows, watch.account_id@, watch.flow_id@) {
        bus
    } else {
        sas_told(bus, watch.account_id@, watch.flow_id@, watch.user_id@, sas)
    }
}

/// The run-time state after a short authentication string was shown.
pub open spec fn sas_shown_runtime(
    runtime: RuntimeView,
    watch: Watch,
    sas: JsonView,
) -> RuntimeView {
    RuntimeView {
        flows: verification::sas_stored(
            runtime.flows,
            watch.account_id@,
            watch.flow_id@,
            watch.user_id@,
            sas,
        ),
        ..runtime
    }
}

/// Tells a flow's short authentication string to the subscribers.
pub fn emit_sas_events(
    bus: &mut EventBus,
    account_id: &str,
    flow_id: &str,
    user_id: &str,
    sas: &Json,
)
    requires
        old(bus)@.room_for(account_id@, 2),
    ensures
        final(bus)@ == sas_told(old(bus)@, account_id@, flow_id@, user_id@, sas@),
{
    let stage: Json = verification::stage_data(flow_id, user_id, "sas");
    let _ = bus.emit(account_id, "matrix.verification.state", stage);
    let data: Json = verification::sas_event_data(flow_id, user_id, sas);
    let _ = bus.emit(account_id, "matrix.verification.sas", data);
}

fn show_sas(bus: &mut EventBus, runtime: &mut MatrixRuntime, watch: &Watch, sas: &SasFacts)
    requires
        old(bus)@.room_for(watch.account_id@, 2),
    ensures
        final(bus)@ == sas_shown_bus(
            old(bus)@,
            old(runtime)@,
            *watch,
            verification::sas_json(*sas),
        ),
        final(runtime)@ == sas_shown_runtime(
            old(runtime)@,
            *watch,
            verification::sas_json(*sas),
        ),
{
    let account_id: &str = watch.account_id.as_str();
    let flow_id: &str = watch.flow_id.as_str();
    let user_id: &str = watch.user_id.as_str();
    let shown: Json = verification::sas_to_json(sas);
    if runtime.set_sas_snapshot(account_id, flow_id, user_id, &shown) {
        emit_sas_events(bus, account_id, flow_id, user_id, &shown);
    }
}

/// Takes in a short authentication string that was just accepted: one that can be presented
/// is shown. Says whether its changes are still to be waited for.
pub fn on_sas_accepted(
    bus: &mut EventBus,
    runtime: &mut MatrixRuntime,
    watch: &Watch,
    sas: &SasFacts,
) -> (r: bool)
    requires
        old(bus)@.room_for(watch.account_id@, 2),
    ensures
        r == !sas.can_be_presented,
        r ==> final(bus)@ == old(bus)@ && final(runtime)@ == old(runtime)@,
        !r ==> final(bus)@ == sas_shown_bus(
            old(bus)@,
            old(runtime)@,
            *watch,
            verification::sas_json(*sas),
        ),
        !r ==> final(runtime)@ == sas_shown_runtime(
            old(runtime)@,
            *watch,
            verification::sas_json(*sas),
        ),
{
    if sas.can_be_presented {
        show_sas(bus, runtime, watch, sas);
        false
    } else {
        true
    }
}

/// Takes in a change of a short authentication string: it is shown once the keys are
/// exchanged. Says whether its changes are still to be waited for.
pub fn on_sas_change(
    bus: &mut EventBus,
    runtime: &mut MatrixRuntime,
    watch: &Watch,
    change: SasChange,
) -> (r: bool)
    requires
        old(bus)@.room_for(watch.account_id@, 2),
    ensures
        r == (change is Other),
        match change {
            SasChange::KeysExchanged(sas) => {
                &&& final(bus)@ == sas_shown_bus(
                    old(bus)@,
                    old(runtime)@,
                    *watch,
                    verification::sas_json(sas),
                )
                &&& final(runtime)@ == sas_shown_runtime(
                    old(runtime)@,
                    *watch,
                    verification::sas_json(sas),
                )
            },
            _ => final(bus)@ == old(bus)@ && final(runtime)@ == old(runtime)@,
        },
{
    match change {
        SasChange::KeysExchanged(sas) => {
            show_sas(bus, runtime, watch, &sas);
            false
        },
        SasChange::Ended => false,
        SasChange::Other => true,
    }
}

/// A verification's short authentication string is told once: where the flow has one, a
/// second is neither stored nor told.
pub proof fn law_sas_told_once(
    bus: events::BusView,
    runtime: RuntimeView,
    watch: Watch,
    first: JsonView,
    second: JsonView,
)
    ensures
        ({
            let after = sas_shown_runtime(runtime, watch, first);
            let told = sas_shown_bus(bus, runtime, watch, first);
            &&& sas_shown_runtime(after, watch, second) == after
            &&& sas_shown_bus(told, after, watch, second) == told
        }),
{
    verification::law_sas_is_set_once(
        runtime.flows,
        watch.account_id@,
        watch.flow_id@,
        watch.user_id@,
        first,
        watch.user_id@,
        second,
    );
}

/// The end of a watched verification is told at most once: once it was told, the flow is
/// gone, and a second end is told no more.
pub proof fn law_end_told_once(
    runtime: RuntimeView,
    watch: Watch,
    first: RequestChange,
    second: RequestChange,
)
    requires
        verification::one_per_flow(runtime.flows),
        watched_end(runtime, watch, first) != FlowChange::Nothing,
    ensures
        watched_end(
            flow_changed(runtime, watch.account_id@, watched_end(runtime, watch, first)),
            watch,
            second,
        ) == FlowChange::Nothing,
{
    verification::law_flow_removed(
        runtime.flows,
        watch.account_id@,
        watch.flow_id@,
        watch.account_id@,
        watch.flow_id@,
    );
}

} // verus!
