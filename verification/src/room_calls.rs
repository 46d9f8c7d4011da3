//! Requests about rooms: listing them, reading their history and sending to them.

use vstd::prelude::*;
use vstd::string::*;

use crate::daemon;
use crate::daemon::{Action, Daemon, DaemonView, Resume, Step};
use crate::json;
use crate::json::{Json, JsonView};
use crate::matrix;
use crate::matrix::{MessagesResponse, RoomFacts, MAX_COUNT};
use crate::rpc;
use crate::text;

verus! {

/// Whether the step is the one that [`rooms_start`] takes.
pub open spec fn rooms_start_step(
    before: DaemonView,
    account_id: Seq<char>,
    bare: bool,
    s: Step,
) -> bool {
    match before.runtime.client(account_id) {
        None => daemon::refuses(s, rpc::bad_params_view("no active session"@)),
        Some(client) => s matches Step::Perform(
            Action::ListRooms { client: c },
            Resume::RoomsListed { bare: b },
        ) && c == client && b == bare,
    }
}

/// Starts to list the rooms, as a bare list or inside an object.
pub fn rooms_start(d: &Daemon, account_id: &str, bare: bool) -> (s: Step)
    ensures
        rooms_start_step(d@, account_id@, bare, s),
{
    match d.client_of(account_id) {
        Err(error) => Step::Reply(Err(error)),
        Ok(client) => Step::Perform(Action::ListRooms { client }, Resume::RoomsListed { bare }),
    }
}

/// The rooms as they are answered with.
pub open spec fn room_list_json(rooms: Seq<RoomFacts>, bare: bool) -> JsonView {
    if bare {
        matrix::rooms_json(rooms)
    } else {
        JsonView::object().with("rooms"@, matrix::rooms_json(rooms))
    }
}

/// Ends the request with the list of rooms.
pub fn rooms_listed(bare: bool, rooms: Vec<RoomFacts>) -> (s: Step)
    ensures
        daemon::replies(s, room_list_json(rooms@, bare)),
{
    let list: Json = matrix::list_rooms(rooms);
    if bare {
        Step::Reply(Ok(list))
    } else {
        Step::Reply(Ok(Json::object().with("rooms", list)))
    }
}

/// Whether the step looks for the room, unless something is wrong with its id, and goes on
/// as given.
pub open spec fn finds_room(
    s: Step,
    client: u64,
    room_id: Seq<char>,
    fault: Option<Seq<char>>,
    next: Resume,
) -> bool {
    match fault {
        Some(err) => daemon::refuses(s, rpc::internal_error_view(err)),
        None => s matches Step::Perform(Action::FindRoom { client: c, room_id: r }, n) && c
            == client && r@ == room_id && n == next,
    }
}

/// Looks for the room, unless something is wrong with its id.
pub fn find_room(client: u64, room_id: &str, fault: Option<String>, next: Resume) -> (s: Step)
    ensures
        finds_room(s, client, room_id@, text::opt_text(fault), next),
{
    match fault {
        Some(err) => daemon::failed(err.as_str()),
        None => Step::Perform(Action::FindRoom { client, room_id: room_id.to_owned() }, next),
    }
}

/// Whether the step is the one that [`messages_start`] takes.
pub open spec fn messages_start_step(
    before: DaemonView,
    account_id: Seq<char>,
    room_id: String,
    limit: Option<u64>,
    from: Option<String>,
    s: Step,
) -> bool {
    match before.runtime.client(account_id) {
        None => daemon::refuses(s, rpc::bad_params_view("no active session"@)),
        Some(client) => finds_room(
            s,
            client,
            room_id@,
            matrix::room_id_fault(room_id@),
            Resume::MessagesRoom { client, room_id, limit, from },
        ),
    }
}

/// Starts to read a room's history: the room is looked for.
pub fn messages_start(
    d: &Daemon,
    account_id: &str,
    room_id: String,
    limit: Option<u64>,
    from: Option<String>,
) -> (s: Step)
    ensures
        messages_start_step(d@, account_id@, room_id, limit, from, s),
{
    match d.client_of(account_id) {
        Err(error) => Step::Reply(Err(error)),
        Ok(client) => {
            let fault: Option<String> = matrix::check_room_id(room_id.as_str());
            let wanted: String = room_id.clone();
            find_room(
                client,
                wanted.as_str(),
                fault,
                Resume::MessagesRoom { client, room_id, limit, from },
            )
        },
    }
}

/// How many messages are read where nothing is said of it.
pub open spec fn limit_or_preset(limit: Option<u64>) -> u64 {
    match limit {
        Some(n) => n,
        None => 20,
    }
}

/// Whether the step is the one that [`messages_room`] takes.
pub open spec fn messages_room_step(
    client: u64,
    room_id: String,
    limit: Option<u64>,
    from: Option<String>,
    found: bool,
    s: Step,
) -> bool {
    if !found {
        daemon::refuses(s, rpc::internal_error_view("unknown room"@))
    } else if limit_or_preset(limit) > MAX_COUNT {
        daemon::refuses(s, rpc::internal_error_view("invalid limit"@))
    } else {
        &&& s matches Step::Perform(
            Action::Messages { client: c, room_id: r, limit: n, from: f },
            Resume::MessagesRead,
        )
        &&& c == client
        &&& r@ == room_id@
        &&& n == limit_or_preset(limit)
        &&& f == from
    }
}

/// Goes on once the room was looked for: its history is read.
pub fn messages_room(
    client: u64,
    room_id: String,
    limit: Option<u64>,
    from: Option<String>,
    found: bool,
) -> (s: Step)
    ensures
        messages_room_step(client, room_id, limit, from, found, s),
{
    if !found {
        return daemon::failed("unknown room");
    }
    let limit: u64 = match limit {
        Some(n) => n,
        None => 20,
    };
    if limit > MAX_COUNT {
        return daemon::failed("invalid limit");
    }
    Step::Perform(Action::Messages { client, room_id, limit, from }, Resume::MessagesRead)
}

/// Whether the step is the one that [`messages_read`] takes.
pub open spec fn messages_read_step(
    page: Result<MessagesResponse, String>,
    s: Step,
) -> bool {
    match page {
        Err(err) => daemon::refuses(s, rpc::internal_error_view(err@)),
        Ok(p) => daemon::replies(s, p.json()),
    }
}

/// Ends the request with the page of the room's history.
pub fn messages_read(page: Result<MessagesResponse, String>) -> (s: Step)
    ensures
        messages_read_step(page, s),
{
    match page {
        Err(err) => daemon::failed(err.as_str()),
        Ok(p) => Step::Reply(Ok(p.into_json())),
    }
}

/// Whether the step is the one that [`send_start`] takes.
pub open spec fn send_start_step(
    before: DaemonView,
    account_id: Seq<char>,
    room_id: String,
    body: String,
    txn_id: Option<String>,
    s: Step,
) -> bool {
    match before.runtime.client(account_id) {
        None => daemon::refuses(s, rpc::bad_params_view("no active session"@)),
        Some(client) => finds_room(
            s,
            client,
            room_id@,
            matrix::room_id_fault(room_id@),
            Resume::SendRoom { client, room_id, body, txn_id },
        ),
    }
}

/// Starts to send a text message: the room is looked for.
pub fn send_start(
    d: &Daemon,
    account_id: &str,
    room_id: String,
    body: String,
    txn_id: Option<String>,
) -> (s: Step)
    ensures
        send_start_step(d@, account_id@, room_id, body, txn_id, s),
{
    match d.client_of(account_id) {
        Err(error) => Step::Reply(Err(error)),
        Ok(client) => {
            let fault: Option<String> = matrix::check_room_id(room_id.as_str());
            let wanted: String = room_id.clone();
            find_room(
                client,
                wanted.as_str(),
                fault,
                Resume::SendRoom { client, room_id, body, txn_id },
            )
        },
    }
}

/// Whether the step is the one that [`send_room`] takes.
pub open spec fn send_room_step(
    client: u64,
    room_id: String,
    body: String,
    txn_id: Option<String>,
    found: bool,
    s: Step,
) -> bool {
    if !found {
        daemon::refuses(s, rpc::internal_error_view("unknown room"@))
    } else {
        &&& s matches Step::Perform(
            Action::SendText { client: c, room_id: r, body: b, txn_id: t },
            Resume::Sent { txn_id: t2 },
        )
        &&& c == client
        &&& r@ == room_id@
        &&& b@ == body@
        &&& text::opt_text(t) == text::opt_text(txn_id)
        &&& text::opt_text(t2) == text::opt_text(txn_id)
    }
}

/// Goes on once the room was looked for: the message is sent.
pub fn send_room(
    client: u64,
    room_id: String,
    body: String,
    txn_id: Option<String>,
    found: bool,
) -> (s: Step)
    ensures
        send_room_step(client, room_id, body, txn_id, found, s),
{
    if !found {
        return daemon::failed("unknown room");
    }
    let kept: Option<String> = text::clone_opt(&txn_id);
    Step::Perform(Action::SendText { client, room_id, body, txn_id }, Resume::Sent { txn_id: kept })
}

/// The answer to a message that was sent.
pub open spec fn sent_json(event_id: Seq<char>, txn_id: Option<Seq<char>>) -> JsonView {
    JsonView::object().with("event_id"@, JsonView::Text(event_id)).with(
        "txn_id"@,
        json::opt_text_view(txn_id),
    )
}

/// Whether the step is the one that [`sent`] takes.
pub open spec fn sent_step(
    txn_id: Option<String>,
    event_id: Result<String, String>,
    s: Step,
) -> bool {
    match event_id {
        Err(err) => daemon::refuses(s, rpc::internal_error_view(err@)),
        Ok(id) => daemon::replies(s, sent_json(id@, text::opt_text(txn_id))),
    }
}

/// Ends the request once the message was sent.
pub fn sent(txn_id: &Option<String>, event_id: Result<String, String>) -> (s: Step)
    ensures
        sent_step(*txn_id, event_id, s),
{
    match event_id {
        Err(err) => daemon::failed(err.as_str()),
        Ok(id) => Step::Reply(
            Ok(
                Json::object().with("event_id", Json::text(id.as_str())).with(
                    "txn_id",
                    Json::opt_text(txn_id),
                ),
            ),
        ),
    }
}

} // verus!
