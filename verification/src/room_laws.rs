//! What the requests about rooms do as a whole: the room that is named is the one that is
//! read from and sent to, and every room is listed as it is.

use vstd::prelude::*;

use crate::daemon::{DaemonView, Event, Resume, Step};
use crate::json::{Json, JsonView};
use crate::matrix;
use crate::matrix::{MessagesResponse, RoomFacts, RoomInfo};
use crate::request_laws;
use crate::requests;
use crate::requests::Params;
use crate::rpc::RpcRequest;

verus! {

/// The history of a room is asked of the account's own client, for the room that is named,
/// from the token that is named, and for as many messages as are named, or twenty. Where
/// the room is not found nothing is read.
pub proof fn law_history_is_read_as_asked(
    asked: DaemonView,
    request: RpcRequest,
    params: Params,
    client: u64,
    begun: DaemonView,
    first: Step,
    later: DaemonView,
    found: bool,
    after: DaemonView,
    next: Step,
)
    requires
        request_laws::asks(request, "room.messages"@) || request_laws::asks(
            request,
            "matrix.room.messages"@,
        ),
        params is Messages,
        request_laws::has_client(asked, params->Messages_account_id@, client),
        requests::handled(asked, request, Some(Ok(params)), begun, first),
        first is Perform,
        requests::resumed(later, first->Perform_1, Event::Found(found), after, next),
    ensures
        begun == asked && after == later,
        first->Perform_0 is FindRoom,
        first->Perform_0->FindRoom_client == client,
        first->Perform_0->FindRoom_room_id@ == params->Messages_room_id@,
        !found ==> request_laws::fails(next, -32603, "internal error: "@ + "unknown room"@),
        found && params->Messages_limit is Some && params->Messages_limit->0 > 9007199254740991
            ==> request_laws::fails(next, -32603, "internal error: "@ + "invalid limit"@),
        found && (params->Messages_limit is Some ==> params->Messages_limit->0
            <= 9007199254740991) ==> {
            &&& next is Perform
            &&& next->Perform_0 is Messages
            &&& next->Perform_0->Messages_client == client
            &&& next->Perform_0->Messages_room_id@ == params->Messages_room_id@
            &&& next->Perform_0->Messages_from == params->Messages_from
            &&& params->Messages_limit is Some ==> next->Perform_0->Messages_limit
                == params->Messages_limit->0
            &&& params->Messages_limit is None ==> next->Perform_0->Messages_limit == 20
        },
{
    request_laws::law_names_of_methods();
}

/// A page that was read is answered with its tokens and with all its events, in order.
pub proof fn law_page_is_handed_on(
    before: DaemonView,
    waiting: Resume,
    found: bool,
    middle: DaemonView,
    asked: Step,
    later: DaemonView,
    page: MessagesResponse,
    after: DaemonView,
    s: Step,
)
    requires
        waiting is MessagesRoom,
        requests::resumed(before, waiting, Event::Found(found), middle, asked),
        asked is Perform,
        requests::resumed(later, asked->Perform_1, Event::Messages(Ok(page)), after, s),
    ensures
        after == later,
        s is Reply && s->Reply_0 is Ok,
        ({
            let shown = s->Reply_0->Ok_0@->Object_0;
            &&& s->Reply_0->Ok_0@ is Object
            &&& shown.len() == 3
            &&& shown[0] == ("start"@, JsonView::Text(page.start@))
            &&& shown[1] == ("end"@, request_laws::text_or_null(page.end))
            &&& shown[2].0 == "chunk"@ && shown[2].1 is Array
            &&& shown[2].1->Array_0.len() == page.chunk@.len()
            &&& forall|i: int|
                0 <= i < page.chunk@.len() ==> #[trigger] shown[2].1->Array_0[i]
                    == page.chunk@[i]@
        }),
{
}

/// A message is sent by the account's own client to the room that is named, which is the
/// one that was looked for, with the words and the id of the request. Where the room is not
/// found nothing is sent.
pub proof fn law_message_goes_to_its_room(
    asked: DaemonView,
    request: RpcRequest,
    params: Params,
    client: u64,
    begun: DaemonView,
    first: Step,
    later: DaemonView,
    found: bool,
    after: DaemonView,
    next: Step,
)
    requires
        request_laws::asks(request, "room.send"@),
        params is Send,
        request_laws::has_client(asked, params->Send_account_id@, client),
        requests::handled(asked, request, Some(Ok(params)), begun, first),
        first is Perform,
        requests::resumed(later, first->Perform_1, Event::Found(found), after, next),
    ensures
        begun == asked && after == later,
        first->Perform_0 is FindRoom,
        first->Perform_0->FindRoom_client == client,
        first->Perform_0->FindRoom_room_id@ == params->Send_room_id@,
        !found ==> request_laws::fails(next, -32603, "internal error: "@ + "unknown room"@),
        found ==> {
            &&& next is Perform
            &&& next->Perform_0 is SendText
            &&& next->Perform_0->SendText_client == client
            &&& next->Perform_0->SendText_room_id@ == params->Send_room_id@
            &&& next->Perform_0->SendText_body@ == params->Send_body@
            &&& request_laws::text_or_null(next->Perform_0->SendText_txn_id)
                == request_laws::text_or_null(params->Send_txn_id)
        },
{
    request_laws::law_names_of_methods();
}

/// A message that was sent is answered with the id that the homeserver gave it and the id
/// that the request gave it; one that was not is answered with the homeserver's words.
pub proof fn law_sent_message_is_answered(
    asked: DaemonView,
    request: RpcRequest,
    params: Params,
    begun: DaemonView,
    first: Step,
    later: DaemonView,
    middle: DaemonView,
    sending: Step,
    last: DaemonView,
    event_id: Result<String, String>,
    after: DaemonView,
    s: Step,
)
    requires
        request_laws::asks(request, "room.send"@),
        params is Send,
        requests::handled(asked, request, Some(Ok(params)), begun, first),
        first is Perform,
        requests::resumed(later, first->Perform_1, Event::Found(true), middle, sending),
        sending is Perform,
        requests::resumed(last, sending->Perform_1, Event::Text(event_id), after, s),
    ensures
        after == last,
        event_id is Ok ==> request_laws::answers(
            s,
            JsonView::Object(
                seq![
                    ("event_id"@, JsonView::Text(event_id->Ok_0@)),
                    ("txn_id"@, request_laws::text_or_null(params->Send_txn_id)),
                ],
            ),
        ),
        event_id is Err ==> request_laws::fails(s, -32603, "internal error: "@ + event_id->Err_0@),
{
    request_laws::law_names_of_methods();
    if event_id is Ok {
        assert(s->Reply_0->Ok_0@->Object_0 =~= seq![
            ("event_id"@, JsonView::Text(event_id->Ok_0@)),
            ("txn_id"@, request_laws::text_or_null(params->Send_txn_id)),
        ]);
    }
}

/// Whether an object shows a room: its id, its name where it is known, and whether it is
/// known to be encrypted and to be direct.
pub open spec fn shows_room(shown: JsonView, room: RoomFacts) -> bool {
    shown == JsonView::Object(
        seq![
            ("room_id"@, JsonView::Text(room.room_id@)),
            ("name"@, request_laws::text_or_null(room.name)),
            ("is_encrypted"@, JsonView::Bool(room.is_encrypted == Some(true))),
            ("is_direct"@, JsonView::Bool(room.is_direct == Some(true))),
        ],
    )
}

/// Whether a list shows all the rooms, one each and in order.
pub open spec fn shows_rooms(list: JsonView, rooms: Seq<RoomFacts>) -> bool {
    &&& list is Array
    &&& list->Array_0.len() == rooms.len()
    &&& forall|i: int|
        0 <= i < rooms.len() ==> shows_room(#[trigger] list->Array_0[i], rooms[i])
}

/// A room on its own is shown as it is in a list.
pub proof fn law_room_is_shown(room: RoomFacts, info: RoomInfo, shown: Json)
    requires
        call_ensures(RoomInfo::from_room, (room,), info),
        call_ensures(RoomInfo::to_json, (&info,), shown),
    ensures
        shows_room(shown@, room),
{
    assert(shown@->Object_0 =~= seq![
        ("room_id"@, JsonView::Text(room.room_id@)),
        ("name"@, request_laws::text_or_null(room.name)),
        ("is_encrypted"@, JsonView::Bool(room.is_encrypted == Some(true))),
        ("is_direct"@, JsonView::Bool(room.is_direct == Some(true))),
    ]);
}

/// A list of rooms shows every room that the client tells of, and no other.
pub proof fn law_every_room_is_listed(rooms: Seq<RoomFacts>)
    ensures
        shows_rooms(matrix::rooms_json(rooms), rooms),
{
    let list = matrix::rooms_json(rooms);
    assert forall|i: int| 0 <= i < rooms.len() implies shows_room(
        #[trigger] list->Array_0[i],
        rooms[i],
    ) by {
        let room = rooms[i];
        assert(list->Array_0[i]->Object_0 =~= seq![
            ("room_id"@, JsonView::Text(room.room_id@)),
            ("name"@, request_laws::text_or_null(room.name)),
            ("is_encrypted"@, JsonView::Bool(room.is_encrypted == Some(true))),
            ("is_direct"@, JsonView::Bool(room.is_direct == Some(true))),
        ]);
    }
}

/// The rooms of an account are asked of its own client, and all that it tells of are in the
/// answer: under a key, or bare where the older name of the method was used.
pub proof fn law_rooms_are_listed_as_told(
    asked: DaemonView,
    request: RpcRequest,
    params: Params,
    client: u64,
    begun: DaemonView,
    first: Step,
    later: DaemonView,
    rooms: Vec<RoomFacts>,
    after: DaemonView,
    s: Step,
)
    requires
        request_laws::asks(request, "room.list"@) || request_laws::asks(
            request,
            "matrix.rooms.list"@,
        ),
        params is Account,
        request_laws::has_client(asked, params->Account_account_id@, client),
        requests::handled(asked, request, Some(Ok(params)), begun, first),
        first is Perform,
        requests::resumed(later, first->Perform_1, Event::Rooms(rooms), after, s),
    ensures
        begun == asked && after == later,
        first->Perform_0 is ListRooms,
        first->Perform_0->ListRooms_client == client,
        s is Reply && s->Reply_0 is Ok,
        request_laws::asks(request, "matrix.rooms.list"@) ==> shows_rooms(
            s->Reply_0->Ok_0@,
            rooms@,
        ),
        request_laws::asks(request, "room.list"@) ==> {
            let shown = s->Reply_0->Ok_0@;
            &&& shown is Object && shown->Object_0.len() == 1
            &&& shown->Object_0[0].0 == "rooms"@
            &&& shows_rooms(shown->Object_0[0].1, rooms@)
        },
{
    request_laws::law_names_of_methods();
    law_every_room_is_listed(rooms@);
}

/// Without a client of the account, its rooms are neither listed nor read nor sent to.
pub proof fn law_rooms_need_a_session(
    asked: DaemonView,
    request: RpcRequest,
    params: Params,
    begun: DaemonView,
    s: Step,
)
    requires
        ({
            ||| request_laws::asks(request, "room.list"@) && params is Account
                && !asked.runtime.clients.contains_key(params->Account_account_id@)
            ||| request_laws::asks(request, "matrix.rooms.list"@) && params is Account
                && !asked.runtime.clients.contains_key(params->Account_account_id@)
            ||| request_laws::asks(request, "room.messages"@) && params is Messages
                && !asked.runtime.clients.contains_key(params->Messages_account_id@)
            ||| request_laws::asks(request, "room.send"@) && params is Send
                && !asked.runtime.clients.contains_key(params->Send_account_id@)
        }),
        requests::handled(asked, request, Some(Ok(params)), begun, s),
    ensures
        begun == asked,
        request_laws::fails(s, -32602, "no active session"@),
{
    request_laws::law_names_of_methods();
}

/// A room that is to be read from or sent to is looked for where its id is in order, and
/// what is wrong with the id is the answer where it is not.
pub proof fn law_room_is_looked_for(
    asked: DaemonView,
    request: RpcRequest,
    params: Params,
    begun: DaemonView,
    s: Step,
)
    requires
        ({
            ||| request_laws::asks(request, "room.messages"@) && params is Messages
                && asked.runtime.clients.contains_key(params->Messages_account_id@)
            ||| request_laws::asks(request, "room.send"@) && params is Send
                && asked.runtime.clients.contains_key(params->Send_account_id@)
        }),
        requests::handled(asked, request, Some(Ok(params)), begun, s),
    ensures
        ({
            let room_id = if params is Send {
                params->Send_room_id@
            } else {
                params->Messages_room_id@
            };
            match matrix::room_id_fault(room_id) {
                None => s is Perform,
                Some(err) => request_laws::fails(s, -32603, "internal error: "@ + err),
            }
        }),
{
    request_laws::law_names_of_methods();
}

} // verus!
