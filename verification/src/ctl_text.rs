//! What the command-line client shows: lists to choose from, messages and help.

use vstd::prelude::*;
use vstd::string::*;

use crate::json;
use crate::json::{Json, JsonView};
use crate::text;

verus! {

/// The text under a key, or the given one.
pub open spec fn text_or(item: JsonView, key: Seq<char>, other: Seq<char>) -> Seq<char> {
    match item.text_at(key) {
        Some(t) => t,
        None => other,
    }
}

/// The text under a key, or the given one.
pub fn get_text_or<'a>(item: &'a Json, key: &str, other: &'a str) -> (r: &'a str)
    ensures
        r@ == text_or(item@, key@, other@),
{
    match item.text_at(key) {
        Some(t) => t,
        None => other,
    }
}

/// A device in a list to choose from.
pub open spec fn device_label(index: nat, item: JsonView) -> Seq<char> {
    let device = text_or(item, "device_id"@, "unknown"@);
    let name = text_or(item, "display_name"@, ""@);
    let verified = if item.bool_at("is_verified"@) == Some(true) {
        " (verified)"@
    } else {
        ""@
    };
    if name.len() == 0 {
        text::decimal(index) + ": "@ + device + verified
    } else {
        text::decimal(index) + ": "@ + name + " ("@ + device + ")"@ + verified
    }
}

/// A room in a list to choose from.
pub open spec fn room_label(index: nat, item: JsonView) -> Seq<char> {
    text::decimal(index) + ": "@ + text_or(item, "name"@, "unnamed"@) + " ("@ + text_or(
        item,
        "room_id"@,
        "unknown"@,
    ) + ")"@
}

/// A verification in a list to choose from.
pub open spec fn flow_label(index: nat, item: JsonView) -> Seq<char> {
    let short = text_or(item, "short_id"@, "flow"@);
    let user = text_or(item, "user_id"@, "unknown"@);
    let device = text_or(item, "device_id"@, ""@);
    let stage = text_or(item, "stage"@, "unknown"@);
    if device.len() == 0 {
        text::decimal(index) + ": "@ + short + " "@ + user + " ("@ + stage + ")"@
    } else {
        text::decimal(index) + ": "@ + short + " "@ + user + " "@ + device + " ("@ + stage + ")"@
    }
}

fn append(base: String, more: &str) -> (r: String)
    ensures
        r@ == base@ + more@,
{
    text::concat2(base.as_str(), more)
}

/// A device in a list to choose from.
pub fn show_device(index: u64, item: &Json) -> (r: String)
    ensures
        r@ == device_label(index as nat, item@),
{
    let device: &str = get_text_or(item, "device_id", "unknown");
    let name: &str = get_text_or(item, "display_name", "");
    let verified: &str = match item.bool_at("is_verified") {
        Some(true) => " (verified)",
        _ => "",
    };
    let head: String = append(text::u64_text(index), ": ");
    if name.unicode_len() == 0 {
        append(append(head, device), verified)
    } else {
        append(append(append(append(append(head, name), " ("), device), ")"), verified)
    }
}

/// A room in a list to choose from.
pub fn show_room(index: u64, item: &Json) -> (r: String)
    ensures
        r@ == room_label(index as nat, item@),
{
    let room: &str = get_text_or(item, "room_id", "unknown");
    let name: &str = get_text_or(item, "name", "unnamed");
    let head: String = append(text::u64_text(index), ": ");
    append(append(append(append(head, name), " ("), room), ")")
}

/// A verification in a list to choose from.
pub fn show_flow(index: u64, item: &Json) -> (r: String)
    ensures
        r@ == flow_label(index as nat, item@),
{
    let short: &str = get_text_or(item, "short_id", "flow");
    let user: &str = get_text_or(item, "user_id", "unknown");
    let device: &str = get_text_or(item, "device_id", "");
    let stage: &str = get_text_or(item, "stage", "unknown");
    let head: String = append(
        append(append(append(text::u64_text(index), ": "), short), " "),
        user,
    );
    if device.unicode_len() == 0 {
        append(append(append(head, " ("), stage), ")")
    } else {
        append(append(append(append(append(head, " "), device), " ("), stage), ")")
    }
}

/// The event of a message item: the one that it wraps, or itself.
pub open spec fn event_of(item: JsonView) -> JsonView {
    match item.get("event"@) {
        Some(event) => if event is Object {
            event
        } else {
            item
        },
        None => item,
    }
}

/// The event of a message item: the one that it wraps, or itself.
pub fn event_in(item: &Json) -> (r: &Json)
    ensures
        r@ == event_of(item@),
{
    match item.get("event") {
        Some(event) => if event.is_object() {
            event
        } else {
            item
        },
        None => item,
    }
}

/// The content of an event, or null.
pub open spec fn content_of(event: JsonView) -> JsonView {
    event.get_or_null("content"@)
}

/// Whether an event's content is a text of the kinds that are shown.
pub open spec fn is_text_content(content: JsonView) -> bool {
    let msgtype = content.text_at("msgtype"@);
    msgtype == Some("m.text"@) || msgtype == Some("m.notice"@) || msgtype == Some("m.emote"@)
}

/// A message as it is shown: its sender, id and body. What is no text message is not shown.
pub open spec fn message_line(item: JsonView) -> Option<Seq<char>> {
    let event = event_of(item);
    let content = content_of(event);
    let head = text_or(event, "sender"@, "unknown"@) + " "@;
    match event.text_at("event_id"@) {
        None => None,
        Some(id) => if is_text_content(content) {
            Some(head + id + " "@ + text_or(content, "body"@, ""@))
        } else if event.text_at("type"@) == Some("m.room.message"@) && content.text_at(
            "body"@,
        ) is Some {
            Some(head + id + " "@ + content.text_at("body"@)->0)
        } else {
            None
        },
    }
}

fn text_is(value: Option<&str>, wanted: &str) -> (r: bool)
    ensures
        r == (match value {
            Some(s) => s@ == wanted@,
            None => false,
        }),
{
    match value {
        Some(s) => text::str_eq(s, wanted),
        None => false,
    }
}

/// A message as it is shown.
pub fn format_message_line(item: &Json) -> (r: Option<String>)
    ensures
        text::opt_text(r) == message_line(item@),
{
    let event: &Json = event_in(item);
    let event_id: &str = match event.text_at("event_id") {
        None => {
            return None;
        },
        Some(id) => id,
    };
    let null: Json = Json::Null;
    let content: &Json = match event.get("content") {
        Some(c) => c,
        None => &null,
    };
    let sender: &str = get_text_or(event, "sender", "unknown");
    let head: String = append(append(append(sender.to_owned(), " "), event_id), " ");
    let msgtype: Option<&str> = content.text_at("msgtype");
    if text_is(msgtype, "m.text") || text_is(msgtype, "m.notice") || text_is(msgtype, "m.emote") {
        return Some(append(head, get_text_or(content, "body", "")));
    }
    if text_is(event.text_at("type"), "m.room.message") {
        match content.text_at("body") {
            Some(body) => {
                return Some(append(head, body));
            },
            None => {},
        }
    }
    None
}

/// The type of a message item's event.
pub fn event_type_hint(item: &Json) -> (r: Option<&str>)
    ensures
        match r {
            Some(t) => event_of(item@).text_at("type"@) == Some(t@),
            None => event_of(item@).text_at("type"@) is None,
        },
{
    event_in(item).text_at("type")
}

/// A message item as it is shown: the message, or what kind of event it is.
pub open spec fn item_line(item: JsonView) -> Seq<char> {
    match message_line(item) {
        Some(line) => line,
        None => "<non-text event: "@ + text_or(event_of(item), "type"@, "unknown"@) + ">"@,
    }
}

/// The lines of a message item: for debugging also its text, for the first three of them.
pub open spec fn item_lines(index: nat, item: JsonView, debug: bool) -> Seq<Seq<char>> {
    if debug && index < 3 {
        seq![
            "debug event "@ + text::decimal(index + 1) + ": "@ + json::json_written(item),
            item_line(item),
        ]
    } else {
        seq![item_line(item)]
    }
}

/// The lines of a page of messages.
pub open spec fn chunk_lines(items: Seq<JsonView>, debug: bool) -> Seq<Seq<char>>
    decreases items.len(),
{
    if items.len() == 0 {
        Seq::empty()
    } else {
        chunk_lines(items.drop_last(), debug) + item_lines(
            (items.len() - 1) as nat,
            items.last(),
            debug,
        )
    }
}

/// The lines of a page of messages, which may be empty.
pub open spec fn messages_lines(items: Seq<JsonView>, debug: bool) -> Seq<Seq<char>> {
    if items.len() == 0 {
        seq!["(no messages)"@]
    } else {
        chunk_lines(items, debug)
    }
}

fn show_item(lines: &mut Vec<String>, index: usize, item: &Json, debug: bool)
    ensures
        text::texts(final(lines)@) == text::texts(old(lines)@) + item_lines(
            index as nat,
            item@,
            debug,
        ),
{
    let ghost before = lines@;
    if debug && index < 3 {
        let head: String = append(
            append("debug event ".to_owned(), text::u64_text(index as u64 + 1).as_str()),
            ": ",
        );
        lines.push(append(head, item.to_text().as_str()));
    }
    match format_message_line(item) {
        Some(line) => {
            lines.push(line);
        },
        None => {
            let kind: &str = match event_type_hint(item) {
                Some(kind) => kind,
                None => "unknown",
            };
            lines.push(text::concat3("<non-text event: ", kind, ">"));
        },
    }
    assert(text::texts(lines@) =~= text::texts(before) + item_lines(index as nat, item@, debug));
}

/// The lines of a page of messages.
pub fn show_messages(items: &Vec<Json>, debug: bool) -> (r: Vec<String>)
    ensures
        text::texts(r@) == messages_lines(json::views(items@), debug),
{
    let ghost all = json::views(items@);
    let mut lines: Vec<String> = Vec::new();
    if items.len() == 0 {
        lines.push("(no messages)".to_owned());
        assert(text::texts(lines@) =~= seq!["(no messages)"@]);
        return lines;
    }
    let mut i: usize = 0;
    assert(text::texts(lines@) =~= chunk_lines(all.take(0), debug));
    while i < items.len()
        invariant
            i <= items.len(),
            all == json::views(items@),
            text::texts(lines@) == chunk_lines(all.take(i as int), debug),
        decreases items.len() - i,
    {
        assert(all.take(i + 1).drop_last() =~= all.take(i as int));
        assert(all.take(i + 1).last() == items@[i as int]@);
        show_item(&mut lines, i, &items[i], debug);
        i = i + 1;
    }
    assert(all.take(all.len() as int) =~= all);
    lines
}

/// The help on a topic, or on all commands.
pub open spec fn help_lines(topic: Option<Seq<char>>) -> Seq<Seq<char>> {
    match topic {
        None => seq![
            "commands:"@,
            "  ping"@,
            "  version"@,
            "  account <subcommand>"@,
            "  events <subcommand>"@,
            "  matrix <subcommand>"@,
            "  room <subcommand>"@,
            "  verification <subcommand>"@,
            "  help [command]"@,
            "  quit"@,
        ],
        Some(t) => if t == "account"@ {
            seq![
                "account subcommands:"@,
                "  account add <homeserver> [--login-method sso|password]"@,
                "  account list"@,
                "  account login-start <account_id> [--login-method sso|password]"@,
                "  account login-complete <account_id> <token> [--device-name NAME]"@,
                "  account login-password <account_id> <username> <password> [--device-name NAME]"@,
                "  account session-restore <account_id>"@,
            ]
        } else if t == "events"@ {
            seq![
                "events subcommands:"@,
                "  events subscribe <account_id> [--since CURSOR] [--snapshot|--no-snapshot]"@,
                "  events unsubscribe"@,
            ]
        } else if t == "matrix"@ {
            seq![
                "matrix subcommands:"@,
                "  matrix login-flows <homeserver>"@,
                "  matrix capabilities <homeserver>"@,
            ]
        } else if t == "verification"@ {
            seq![
                "verification subcommands:"@,
                "  verification request <account_id> <user_id> [--device-id DEVICE]"@,
                "  verification accept <account_id> <user_id> <flow_id>"@,
                "  verification confirm <account_id> <user_id> <flow_id> [--match true|false]"@,
                "  verification cancel <account_id> <user_id> <flow_id>"@,
            ]
        } else if t == "room"@ {
            seq![
                "room subcommands:"@,
                "  room list <account_id>"@,
                "  room messages <account_id> <room_id> [--limit N] [--from TOKEN] [--debug]"@,
                "  room send <account_id> <room_id> <body...> [--txn-id ID]"@,
            ]
        } else {
            seq!["unknown help topic"@]
        },
    }
}

fn owned(list: Vec<&str>) -> (r: Vec<String>)
    ensures
        text::texts(r@) == list@.map_values(|s: &str| s@),
{
    let mut out: Vec<String> = Vec::new();
    let mut i: usize = 0;
    while i < list.len()
        invariant
            i <= list.len(),
            out.len() == i,
            forall|k: int| 0 <= k < i ==> (#[trigger] out@[k])@ == list@[k]@,
        decreases list.len() - i,
    {
        out.push(list[i].to_owned());
        i = i + 1;
    }
    assert(text::texts(out@) =~= list@.map_values(|s: &str| s@));
    out
}

/// The help on a topic, or on all commands.
pub fn help(topic: Option<&str>) -> (r: Vec<String>)
    ensures
        text::texts(r@) == help_lines(
            match topic {
                Some(t) => Some(t@),
                None => None,
            },
        ),
{
    let topic: &str = match topic {
        None => {
            let all: Vec<String> = owned(
                vec![
                    "commands:",
                    "  ping",
                    "  version",
                    "  account <subcommand>",
                    "  events <subcommand>",
                    "  matrix <subcommand>",
                    "  room <subcommand>",
                    "  verification <subcommand>",
                    "  help [command]",
                    "  quit",
                ],
            );
            assert(text::texts(all@) =~= help_lines(None));
            return all;
        },
        Some(t) => t,
    };
    let lines: Vec<String> = if text::str_eq(topic, "account") {
        owned(
            vec![
                "account subcommands:",
                "  account add <homeserver> [--login-method sso|password]",
                "  account list",
                "  account login-start <account_id> [--login-method sso|password]",
                "  account login-complete <account_id> <token> [--device-name NAME]",
                "  account login-password <account_id> <username> <password> [--device-name NAME]",
                "  account session-restore <account_id>",
            ],
        )
    } else if text::str_eq(topic, "events") {
        owned(
            vec![
                "events subcommands:",
                "  events subscribe <account_id> [--since CURSOR] [--snapshot|--no-snapshot]",
                "  events unsubscribe",
            ],
        )
    } else if text::str_eq(topic, "matrix") {
        owned(
            vec![
                "matrix subcommands:",
                "  matrix login-flows <homeserver>",
                "  matrix capabilities <homeserver>",
            ],
        )
    } else if text::str_eq(topic, "verification") {
        owned(
            vec![
                "verification subcommands:",
                "  verification request <account_id> <user_id> [--device-id DEVICE]",
                "  verification accept <account_id> <user_id> <flow_id>",
                "  verification confirm <account_id> <user_id> <flow_id> [--match true|false]",
                "  verification cancel <account_id> <user_id> <flow_id>",
            ],
        )
    } else if text::str_eq(topic, "room") {
        owned(
            vec![
                "room subcommands:",
                "  room list <account_id>",
                "  room messages <account_id> <room_id> [--limit N] [--from TOKEN] [--debug]",
                "  room send <account_id> <room_id> <body...> [--txn-id ID]",
            ],
        )
    } else {
        owned(vec!["unknown help topic"])
    };
    assert(text::texts(lines@) =~= help_lines(Some(topic@)));
    lines
}

} // verus!
