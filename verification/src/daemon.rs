//! The daemon's state, and the steps in which a request is served: what is to be performed
//! outside, and how it goes on with what came of that.

use vstd::prelude::*;
use vstd::string::*;

use crate::events;
use crate::events::EventBus;
use crate::fetch::{Endpoint, FetchReply, TextReply};
use crate::json::{Json, JsonView};
use crate::matrix;
use crate::matrix::{DeviceFacts, MatrixRuntime, MessagesResponse, RoomFacts};
use crate::rpc;
use crate::rpc::{bad_params, Outcome, RpcError};
use crate::state;
use crate::state::{Account, LoginMethod, MatrixSession, SaveFile, State};
use crate::verification::SasFacts;

verus! {

/// The daemon's state.
pub struct Daemon {
    pub state: State,
    pub runtime: MatrixRuntime,
    pub bus: EventBus,
    pub next_subscription: u64,
}

/// The daemon's state as a mathematical value.
#[verifier::ext_equal]
pub struct DaemonView {
    pub state: state::StateView,
    pub runtime: matrix::RuntimeView,
    pub bus: events::BusView,
    pub next_subscription: nat,
}

impl View for Daemon {
    type V = DaemonView;

    open spec fn view(&self) -> DaemonView {
        DaemonView {
            state: self.state@,
            runtime: self.runtime@,
            bus: self.bus@,
            next_subscription: self.next_subscription as nat,
        }
    }
}

impl Daemon {
    /// A daemon with the given accounts and no sessions.
    pub fn new(state: State, max_history: usize) -> (r: Daemon)
        ensures
            r@ == (DaemonView {
                state: state@,
                runtime: matrix::RuntimeView::fresh(),
                bus: events::BusView::fresh(max_history as nat),
                next_subscription: 1,
            }),
    {
        Daemon {
            state,
            runtime: MatrixRuntime::new(),
            bus: EventBus::new(max_history),
            next_subscription: 1,
        }
    }

    /// The client of an account, or the error that there is none.
    pub fn client_of(&self, account_id: &str) -> (r: Result<u64, RpcError>)
        ensures
            match r {
                Ok(client) => self@.runtime.client(account_id@) == Some(client),
                Err(e) => self@.runtime.client(account_id@) is None && e@ == rpc::bad_params_view(
                    "no active session"@,
                ),
            },
    {
        match self.runtime.get_client(account_id) {
            Some(client) => Ok(client),
            None => Err(bad_params("no active session")),
        }
    }
}

/// What a login is made with.
pub enum Credentials {
    Password { username: String, password: String, device_name: Option<String> },
    Token { token: String, device_name: Option<String> },
    Stored { session: MatrixSession },
}

/// What is done with a verification that both sides know.
#[derive(Clone, Copy, Debug, PartialEq, Eq, Structural)]
pub enum FlowKind {
    Accept,
    Confirm { matches: bool },
    Cancel,
    StartSas,
    ReadSas,
}

/// A request about a verification that both sides know.
pub struct FlowCall {
    pub account_id: String,
    pub client: u64,
    pub user_id: String,
    pub flow_id: String,
    pub kind: FlowKind,
}

/// How far a verification request has come.
#[derive(Clone, Copy, Debug, PartialEq, Eq, Structural)]
pub enum RequestState {
    Created,
    Requested,
    Ready,
    Transitioned,
    Done,
    Cancelled,
}

/// A verification request that was sent.
pub struct RequestFacts {
    pub flow_id: String,
    pub user_id: String,
    pub state: RequestState,
}

/// What is to be performed outside.
pub enum Action {
    /// Find the homeserver of a name or an address.
    ResolveHomeserver { homeserver: String },
    /// Get a page.
    Get { url: String },
    /// Write the accounts to disk.
    Save { file: SaveFile },
    /// Make a client.
    BuildClient { homeserver: String, store_dir: String },
    /// Log in with a password.
    LoginPassword { client: u64, username: String, password: String, device_name: Option<String> },
    /// Log in with a token.
    LoginToken { client: u64, token: String, device_name: Option<String> },
    /// Take up a session again.
    RestoreSession { client: u64, session: MatrixSession },
    /// Keep an account synchronised from now on.
    StartSync { account_id: String, client: u64 },
    /// List the rooms.
    ListRooms { client: u64 },
    /// Look whether there is such a room.
    FindRoom { client: u64, room_id: String },
    /// Read a page of a room's history, backwards.
    Messages { client: u64, room_id: String, limit: u64, from: Option<String> },
    /// Send a text message.
    SendText { client: u64, room_id: String, body: String, txn_id: Option<String> },
    /// Tell the user's own id.
    OwnUser { client: u64 },
    /// Ask for a verification of a device, or of the user's identity where none is named.
    RequestVerification { client: u64, user_id: String, device_id: Option<String> },
    /// Accept a verification that was asked for.
    AcceptVerification { client: u64, user_id: String, flow_id: String },
    /// Watch a verification from now on.
    WatchVerification { client: u64, account_id: String, user_id: String, flow_id: String },
    /// Confirm a short authentication string, or say that it does not match.
    AnswerSas { client: u64, user_id: String, flow_id: String, matches: bool },
    /// Cancel a verification, where there is one.
    CancelVerification { client: u64, user_id: String, flow_id: String },
    /// Start a short authentication string.
    StartSas { client: u64, user_id: String, flow_id: String },
    /// Look at a short authentication string.
    ReadSas { client: u64, user_id: String, flow_id: String },
    /// List the devices of a user.
    Devices { client: u64, user_id: String },
}

/// What came of an action.
pub enum Event {
    Text(Result<String, String>),
    Fetched(FetchReply),
    FetchedText(TextReply),
    Done(Result<(), String>),
    Client(Result<u64, String>),
    Session(Result<Option<MatrixSession>, String>),
    Rooms(Vec<RoomFacts>),
    Found(bool),
    Messages(Result<MessagesResponse, String>),
    User(Option<String>),
    Requested(Result<Option<RequestFacts>, String>),
    Known(Result<bool, String>),
    Sas(Result<Option<SasFacts>, String>),
    Devices(Result<Vec<DeviceFacts>, String>),
}

/// How a request goes on once an action is performed.
pub enum Resume {
    AddResolved { login_method: Option<LoginMethod> },
    AddFetched { homeserver: String, login_method: Option<LoginMethod> },
    AddSaved { account: Account },
    StartSaved {
        account_id: String,
        requested: Option<LoginMethod>,
        stored: Option<LoginMethod>,
        homeserver: String,
    },
    StartResolved {
        account_id: String,
        requested: Option<LoginMethod>,
        stored: Option<LoginMethod>,
    },
    StartFetched {
        account_id: String,
        requested: Option<LoginMethod>,
        stored: Option<LoginMethod>,
        homeserver: String,
    },
    StartMethodSaved { account_id: String, method: LoginMethod, homeserver: String },
    LoginBuilt { account_id: String, credentials: Credentials },
    LoginAnswered { account_id: String, client: u64, method: LoginMethod },
    LoginSaved { account_id: String, client: u64 },
    SessionRestored { account_id: String, client: u64 },
    LoginDone { account_id: String },
    Persisted { reply: Json },
    PageResolved { endpoint: Endpoint },
    PageFetched { endpoint: Endpoint, homeserver: String },
    PageText { endpoint: Endpoint, homeserver: String },
    RoomsListed { bare: bool },
    MessagesRoom { client: u64, room_id: String, limit: Option<u64>, from: Option<String> },
    MessagesRead,
    SendRoom { client: u64, room_id: String, body: String, txn_id: Option<String> },
    Sent { txn_id: Option<String> },
    RequestOwn { account_id: String, client: u64, user_id: String, device_id: Option<String> },
    RequestSent { account_id: String, device_id: Option<String> },
    FlowOwn { call: FlowCall },
    FlowActed { call: FlowCall, user_id: String },
    FlowWatched { flow_id: String },
    DevicesOwn { client: u64 },
    DevicesListed,
}

impl Resume {
    /// Whether the counters have room for what the request does next: for one more account,
    /// or for the events of its account that it tells.
    pub open spec fn has_room(&self, d: DaemonView) -> bool {
        match *self {
            Resume::AddFetched { .. } => d.state.next_id < u64::MAX,
            Resume::AddSaved { account } => d.bus.room_for(account.id@, 1),
            Resume::StartSaved { account_id, .. } => d.bus.room_for(account_id@, 1),
            Resume::LoginSaved { account_id, .. } => d.bus.room_for(account_id@, 2),
            Resume::SessionRestored { account_id, .. } => d.bus.room_for(account_id@, 2),
            Resume::LoginDone { account_id } => d.bus.room_for(account_id@, 2),
            Resume::RequestSent { account_id, .. } => d.bus.room_for(account_id@, 1),
            Resume::FlowActed { call, .. } => match call.kind {
                FlowKind::StartSas => true,
                FlowKind::ReadSas => true,
                _ => d.bus.room_for(call.account_id@, 1),
            },
            _ => true,
        }
    }

    /// Whether the counters have room for what the request does next.
    pub fn finds_room(&self, d: &Daemon) -> (r: bool)
        ensures
            r == self.has_room(d@),
    {
        match self {
            Resume::AddFetched { .. } => d.state.next_id < u64::MAX,
            Resume::AddSaved { account } => d.bus.room_for(account.id.as_str(), 1),
            Resume::StartSaved { account_id, .. } => d.bus.room_for(account_id.as_str(), 1),
            Resume::LoginSaved { account_id, .. } => d.bus.room_for(account_id.as_str(), 2),
            Resume::SessionRestored { account_id, .. } => d.bus.room_for(account_id.as_str(), 2),
            Resume::LoginDone { account_id } => d.bus.room_for(account_id.as_str(), 2),
            Resume::RequestSent { account_id, .. } => d.bus.room_for(account_id.as_str(), 1),
            Resume::FlowActed { call, .. } => match call.kind {
                FlowKind::StartSas => true,
                FlowKind::ReadSas => true,
                _ => d.bus.room_for(call.account_id.as_str(), 1),
            },
            _ => true,
        }
    }

    /// Whether an event is of the kind that the request is waiting for.
    pub open spec fn fits(&self, event: Event) -> bool {
        match *self {
            Resume::AddResolved { .. } => event is Text,
            Resume::AddFetched { .. } => event is Fetched && event->Fetched_0.valid(),
            Resume::AddSaved { .. } => event is Done,
            Resume::StartSaved { .. } => event is Done,
            Resume::StartResolved { .. } => event is Text,
            Resume::StartFetched { .. } => event is Fetched && event->Fetched_0.valid(),
            Resume::StartMethodSaved { .. } => event is Done,
            Resume::LoginBuilt { .. } => event is Client,
            Resume::LoginAnswered { .. } => event is Session,
            Resume::LoginSaved { .. } => event is Done,
            Resume::SessionRestored { .. } => event is Done,
            Resume::LoginDone { .. } => event is Done,
            Resume::Persisted { .. } => event is Done,
            Resume::PageResolved { .. } => event is Text,
            Resume::PageFetched { .. } => event is Fetched && event->Fetched_0.valid(),
            Resume::PageText { .. } => event is FetchedText && event->FetchedText_0.valid(),
            Resume::RoomsListed { .. } => event is Rooms,
            Resume::MessagesRoom { .. } => event is Found,
            Resume::MessagesRead => event is Messages,
            Resume::SendRoom { .. } => event is Found,
            Resume::Sent { .. } => event is Text,
            Resume::RequestOwn { .. } => event is User,
            Resume::RequestSent { .. } => event is Requested,
            Resume::FlowOwn { .. } => event is User,
            Resume::FlowActed { call, .. } => match call.kind {
                FlowKind::Accept => event is Known,
                FlowKind::Confirm { .. } => event is Known,
                FlowKind::Cancel => event is Done,
                FlowKind::StartSas => event is Sas,
                FlowKind::ReadSas => event is Sas,
            },
            Resume::FlowWatched { .. } => event is Done,
            Resume::DevicesOwn { .. } => event is User,
            Resume::DevicesListed => event is Devices,
        }
    }

    /// Whether an event is of the kind that the request is waiting for.
    pub fn is_fit(&self, event: &Event) -> (r: bool)
        ensures
            r == self.fits(*event),
    {
        match (self, event) {
            (Resume::AddResolved { .. }, Event::Text(_)) => true,
            (Resume::AddFetched { .. }, Event::Fetched(reply)) => reply.is_valid(),
            (Resume::AddSaved { .. }, Event::Done(_)) => true,
            (Resume::StartSaved { .. }, Event::Done(_)) => true,
            (Resume::StartResolved { .. }, Event::Text(_)) => true,
            (Resume::StartFetched { .. }, Event::Fetched(reply)) => reply.is_valid(),
            (Resume::StartMethodSaved { .. }, Event::Done(_)) => true,
            (Resume::LoginBuilt { .. }, Event::Client(_)) => true,
            (Resume::LoginAnswered { .. }, Event::Session(_)) => true,
            (Resume::LoginSaved { .. }, Event::Done(_)) => true,
            (Resume::SessionRestored { .. }, Event::Done(_)) => true,
            (Resume::LoginDone { .. }, Event::Done(_)) => true,
            (Resume::Persisted { .. }, Event::Done(_)) => true,
            (Resume::PageResolved { .. }, Event::Text(_)) => true,
            (Resume::PageFetched { .. }, Event::Fetched(reply)) => reply.is_valid(),
            (Resume::PageText { .. }, Event::FetchedText(reply)) => reply.is_valid(),
            (Resume::RoomsListed { .. }, Event::Rooms(_)) => true,
            (Resume::MessagesRoom { .. }, Event::Found(_)) => true,
            (Resume::MessagesRead, Event::Messages(_)) => true,
            (Resume::SendRoom { .. }, Event::Found(_)) => true,
            (Resume::Sent { .. }, Event::Text(_)) => true,
            (Resume::RequestOwn { .. }, Event::User(_)) => true,
            (Resume::RequestSent { .. }, Event::Requested(_)) => true,
            (Resume::FlowOwn { .. }, Event::User(_)) => true,
            (Resume::FlowActed { call, .. }, Event::Known(_)) => match call.kind {
                FlowKind::Accept => true,
                FlowKind::Confirm { .. } => true,
                _ => false,
            },
            (Resume::FlowActed { call, .. }, Event::Done(_)) => match call.kind {
                FlowKind::Cancel => true,
                _ => false,
            },
            (Resume::FlowActed { call, .. }, Event::Sas(_)) => match call.kind {
                FlowKind::StartSas => true,
                FlowKind::ReadSas => true,
                _ => false,
            },
            (Resume::FlowWatched { .. }, Event::Done(_)) => true,
            (Resume::DevicesOwn { .. }, Event::User(_)) => true,
            (Resume::DevicesListed, Event::Devices(_)) => true,
            _ => false,
        }
    }
}

/// A step of serving a request.
pub enum Step {
    /// The request is served: this came of it.
    Reply(Outcome),
    /// This is to be performed, and so it goes on.
    Perform(Action, Resume),
}

/// Whether the step ends the request with the given result.
pub open spec fn replies(step: Step, result: JsonView) -> bool {
    step matches Step::Reply(Ok(j)) && j@ == result
}

/// Whether the step ends the request with the given error.
pub open spec fn refuses(step: Step, error: rpc::ErrorView) -> bool {
    step matches Step::Reply(Err(e)) && e@ == error
}

/// The step that ends the request with an error on the way.
pub fn failed(err: &str) -> (r: Step)
    ensures
        refuses(r, rpc::internal_error_view(err@)),
{
    Step::Reply(Err(rpc::internal_error(err)))
}

/// The step that ends the request since its parameters do not do.
pub fn refused(message: &str) -> (r: Step)
    ensures
        refuses(r, rpc::bad_params_view(message@)),
{
    Step::Reply(Err(bad_params(message)))
}

} // verus!
