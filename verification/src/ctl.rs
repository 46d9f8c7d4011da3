//! The command-line client: what a command asks for, calls and shows, step by step.

use vstd::prelude::*;
use vstd::string::*;

use crate::args;
use crate::ctl_text;
use crate::json;
use crate::json::{Json, JsonView};
use crate::text;
use crate::verification_calls;
use crate::verification_calls::is_self_user;

verus! {

/// The commands that do something.
#[derive(Clone, Copy, Debug, PartialEq, Eq, Structural)]
pub enum Sub {
    Ping,
    Version,
    AccountAdd,
    AccountList,
    LoginStart,
    LoginComplete,
    LoginPassword,
    SessionRestore,
    Subscribe,
    Unsubscribe,
    LoginFlows,
    Capabilities,
    RoomList,
    RoomMessages,
    RoomSend,
    Request,
    Accept,
    Confirm,
    Cancel,
}

/// The names of the commands.
pub open spec fn commands() -> Seq<Seq<char>> {
    seq![
        "ping"@,
        "version"@,
        "account"@,
        "events"@,
        "matrix"@,
        "room"@,
        "verification"@,
        "help"@,
        "quit"@,
        "exit"@,
    ]
}

/// The names of the subcommands of a command.
pub open spec fn subcommands(command: Seq<char>) -> Seq<Seq<char>> {
    if command == "account"@ {
        seq![
            "add"@,
            "list"@,
            "login-start"@,
            "login-complete"@,
            "login-password"@,
            "session-restore"@,
        ]
    } else if command == "events"@ {
        seq!["subscribe"@, "unsubscribe"@]
    } else if command == "matrix"@ {
        seq!["login-flows"@, "capabilities"@]
    } else if command == "room"@ {
        seq!["list"@, "messages"@, "send"@]
    } else {
        seq!["request"@, "accept"@, "confirm"@, "cancel"@]
    }
}

/// What a command and a subcommand stand for.
pub open spec fn sub_named(command: Seq<char>, sub: Seq<char>) -> Sub {
    if command == "account"@ {
        if sub == "add"@ {
            Sub::AccountAdd
        } else if sub == "list"@ {
            Sub::AccountList
        } else if sub == "login-start"@ {
            Sub::LoginStart
        } else if sub == "login-complete"@ {
            Sub::LoginComplete
        } else if sub == "login-password"@ {
            Sub::LoginPassword
        } else {
            Sub::SessionRestore
        }
    } else if command == "events"@ {
        if sub == "subscribe"@ {
            Sub::Subscribe
        } else {
            Sub::Unsubscribe
        }
    } else if command == "matrix"@ {
        if sub == "login-flows"@ {
            Sub::LoginFlows
        } else {
            Sub::Capabilities
        }
    } else if command == "room"@ {
        if sub == "list"@ {
            Sub::RoomList
        } else if sub == "messages"@ {
            Sub::RoomMessages
        } else {
            Sub::RoomSend
        }
    } else {
        if sub == "request"@ {
            Sub::Request
        } else if sub == "accept"@ {
            Sub::Accept
        } else if sub == "confirm"@ {
            Sub::Confirm
        } else {
            Sub::Cancel
        }
    }
}

/// What the words of a command say.
pub enum Parsed {
    /// Only these lines are to be shown: help, or nothing where there are no words.
    Show(Vec<String>),
    /// The session ends.
    Quit,
    /// This is to be done, with these words.
    Run(Sub, Vec<String>),
    /// The words make no sense, and why.
    Fail(String),
}

/// What the words of a command say, as a mathematical value.
#[verifier::ext_equal]
pub enum ParsedView {
    Show(Seq<Seq<char>>),
    Quit,
    Run(Sub, Seq<Seq<char>>),
    Fail(Seq<char>),
}

impl View for Parsed {
    type V = ParsedView;

    open spec fn view(&self) -> ParsedView {
        match *self {
            Parsed::Show(lines) => ParsedView::Show(text::texts(lines@)),
            Parsed::Quit => ParsedView::Quit,
            Parsed::Run(sub, words) => ParsedView::Run(sub, text::texts(words@)),
            Parsed::Fail(err) => ParsedView::Fail(err@),
        }
    }
}

/// What the words behind a command with subcommands say.
pub open spec fn group_parsed(command: Seq<char>, rest: Seq<Seq<char>>) -> ParsedView {
    if rest.len() == 0 {
        ParsedView::Show(ctl_text::help_lines(Some(command)))
    } else {
        match args::resolved(rest[0], subcommands(command)) {
            Err(err) => ParsedView::Fail(err),
            Ok(sub) => ParsedView::Run(sub_named(command, sub), rest.drop_first()),
        }
    }
}

/// What the words of a command say.
pub open spec fn command_parsed(words: Seq<Seq<char>>) -> ParsedView {
    if words.len() == 0 {
        ParsedView::Show(Seq::empty())
    } else {
        first_parsed(words[0], words.drop_first())
    }
}

/// What the first word of a command and those behind it say.
pub open spec fn first_parsed(first: Seq<char>, rest: Seq<Seq<char>>) -> ParsedView {
    match args::resolved(first, commands()) {
        Err(err) => ParsedView::Fail(err),
        Ok(command) => if command == "help"@ {
            ParsedView::Show(
                ctl_text::help_lines(
                    if rest.len() == 0 {
                        None
                    } else {
                        Some(rest[0])
                    },
                ),
            )
        } else if command == "quit"@ || command == "exit"@ {
            ParsedView::Quit
        } else if command == "ping"@ {
            ParsedView::Run(Sub::Ping, rest)
        } else if command == "version"@ {
            ParsedView::Run(Sub::Version, rest)
        } else {
            group_parsed(command, rest)
        },
    }
}

fn subcommand_list(command: &str) -> (r: Vec<&'static str>)
    ensures
        args::names(r@) == subcommands(command@),
{
    let list: Vec<&'static str> = if text::str_eq(command, "account") {
        vec![
            "add",
            "list",
            "login-start",
            "login-complete",
            "login-password",
            "session-restore",
        ]
    } else if text::str_eq(command, "events") {
        vec!["subscribe", "unsubscribe"]
    } else if text::str_eq(command, "matrix") {
        vec!["login-flows", "capabilities"]
    } else if text::str_eq(command, "room") {
        vec!["list", "messages", "send"]
    } else {
        vec!["request", "accept", "confirm", "cancel"]
    };
    assert(args::names(list@) =~= subcommands(command@));
    list
}

fn name_sub(command: &str, sub: &str) -> (r: Sub)
    ensures
        r == sub_named(command@, sub@),
{
    if text::str_eq(command, "account") {
        if text::str_eq(sub, "add") {
            Sub::AccountAdd
        } else if text::str_eq(sub, "list") {
            Sub::AccountList
        } else if text::str_eq(sub, "login-start") {
            Sub::LoginStart
        } else if text::str_eq(sub, "login-complete") {
            Sub::LoginComplete
        } else if text::str_eq(sub, "login-password") {
            Sub::LoginPassword
        } else {
            Sub::SessionRestore
        }
    } else if text::str_eq(command, "events") {
        if text::str_eq(sub, "subscribe") {
            Sub::Subscribe
        } else {
            Sub::Unsubscribe
        }
    } else if text::str_eq(command, "matrix") {
        if text::str_eq(sub, "login-flows") {
            Sub::LoginFlows
        } else {
            Sub::Capabilities
        }
    } else if text::str_eq(command, "room") {
        if text::str_eq(sub, "list") {
            Sub::RoomList
        } else if text::str_eq(sub, "messages") {
            Sub::RoomMessages
        } else {
            Sub::RoomSend
        }
    } else {
        if text::str_eq(sub, "request") {
            Sub::Request
        } else if text::str_eq(sub, "accept") {
            Sub::Accept
        } else if text::str_eq(sub, "confirm") {
            Sub::Confirm
        } else {
            Sub::Cancel
        }
    }
}

fn take_first(words: &mut Vec<String>) -> (r: String)
    requires
        old(words).len() > 0,
    ensures
        r@ == text::texts(old(words)@)[0],
        text::texts(final(words)@) == text::texts(old(words)@).drop_first(),
{
    let ghost all = text::texts(words@);
    let first: String = words.remove(0);
    assert(text::texts(words@) =~= all.drop_first());
    first
}

/// What the words of a command say.
pub fn parse_command(words: Vec<String>) -> (r: Parsed)
    ensures
        r@ == command_parsed(text::texts(words@)),
{
    if words.len() == 0 {
        return Parsed::Show(no_lines());
    }
    let mut words = words;
    let first: String = take_first(&mut words);
    let options: Vec<&str> = vec![
        "ping",
        "version",
        "account",
        "events",
        "matrix",
        "room",
        "verification",
        "help",
        "quit",
        "exit",
    ];
    assert(args::names(options@) =~= commands());
    let command: String = match args::resolve_prefix(first.as_str(), options.as_slice()) {
        Err(err) => {
            return Parsed::Fail(err);
        },
        Ok(command) => command,
    };
    if text::str_eq(command.as_str(), "help") {
        if words.len() == 0 {
            return Parsed::Show(ctl_text::help(None));
        }
        assert(text::texts(words@)[0] == words@[0]@);
        return Parsed::Show(ctl_text::help(Some(words[0].as_str())));
    }
    if text::str_eq(command.as_str(), "quit") || text::str_eq(command.as_str(), "exit") {
        return Parsed::Quit;
    }
    if text::str_eq(command.as_str(), "ping") {
        return Parsed::Run(Sub::Ping, words);
    }
    if text::str_eq(command.as_str(), "version") {
        return Parsed::Run(Sub::Version, words);
    }
    if words.len() == 0 {
        return Parsed::Show(ctl_text::help(Some(command.as_str())));
    }
    let sub: String = take_first(&mut words);
    let subs: Vec<&str> = subcommand_list(command.as_str());
    match args::resolve_prefix(sub.as_str(), subs.as_slice()) {
        Err(err) => Parsed::Fail(err),
        Ok(name) => Parsed::Run(name_sub(command.as_str(), name.as_str()), words),
    }
}

/// How messages are read.
pub struct MessageOptions {
    pub debug: bool,
    pub limit: Option<usize>,
    pub from: Option<String>,
}

/// How messages are read, as a mathematical value.
#[verifier::ext_equal]
pub struct OptionsView {
    pub debug: bool,
    pub limit: Option<usize>,
    pub from: Option<Seq<char>>,
}

impl View for MessageOptions {
    type V = OptionsView;

    open spec fn view(&self) -> OptionsView {
        OptionsView { debug: self.debug, limit: self.limit, from: text::opt_text(self.from) }
    }
}

/// What a room is chosen for.
pub enum RoomTarget {
    Messages(MessageOptions),
    Send,
}

/// What a room is chosen for, as a mathematical value.
#[verifier::ext_equal]
pub enum TargetView {
    Messages(OptionsView),
    Send,
}

impl View for RoomTarget {
    type V = TargetView;

    open spec fn view(&self) -> TargetView {
        match *self {
            RoomTarget::Messages(options) => TargetView::Messages(options@),
            RoomTarget::Send => TargetView::Send,
        }
    }
}

/// What is done with a verification.
#[derive(Clone, Copy, Debug, PartialEq, Eq, Structural)]
pub enum FlowUse {
    Accept,
    Confirm,
    Cancel,
}

/// What a command waits for.
pub enum Waiting {
    /// The next of the words that it needs.
    Args { sub: Sub, options: MessageOptions, words: Vec<String> },
    /// The rooms to choose from.
    Rooms { target: RoomTarget, account_id: String },
    /// The choice of a room.
    RoomChoice { target: RoomTarget, account_id: String, list: Vec<Json> },
    /// The body of a message.
    Body { account_id: String, room_id: String, txn_id: Option<String> },
    /// The devices to choose from.
    Devices { account_id: String, user_id: String },
    /// The choice of a device.
    DeviceChoice { account_id: String, user_id: String, list: Vec<Json> },
    /// The verifications to choose from.
    Flows { purpose: FlowUse, account_id: String, user_id: String },
    /// The choice of a verification.
    FlowChoice { purpose: FlowUse, account_id: String, user_id: String, list: Vec<Json> },
    /// Whether the short authentication strings match.
    YesNo { account_id: String, user_id: String, flow_id: String },
    /// A reply that is shown as it is.
    Reply,
    /// A page of messages.
    MessagesReply { debug: bool },
}

/// What a command waits for, as a mathematical value.
#[verifier::ext_equal]
pub enum WaitView {
    Args { sub: Sub, options: OptionsView, words: Seq<Seq<char>> },
    Rooms { target: TargetView, account_id: Seq<char> },
    RoomChoice { target: TargetView, account_id: Seq<char>, list: Seq<JsonView> },
    Body { account_id: Seq<char>, room_id: Seq<char>, txn_id: Option<Seq<char>> },
    Devices { account_id: Seq<char>, user_id: Seq<char> },
    DeviceChoice { account_id: Seq<char>, user_id: Seq<char>, list: Seq<JsonView> },
    Flows { purpose: FlowUse, account_id: Seq<char>, user_id: Seq<char> },
    FlowChoice {
        purpose: FlowUse,
        account_id: Seq<char>,
        user_id: Seq<char>,
        list: Seq<JsonView>,
    },
    YesNo { account_id: Seq<char>, user_id: Seq<char>, flow_id: Seq<char> },
    Reply,
    MessagesReply { debug: bool },
}

impl View for Waiting {
    type V = WaitView;

    open spec fn view(&self) -> WaitView {
        match *self {
            Waiting::Args { sub, options, words } => WaitView::Args {
                sub,
                options: options@,
                words: text::texts(words@),
            },
            Waiting::Rooms { target, account_id } => WaitView::Rooms {
                target: target@,
                account_id: account_id@,
            },
            Waiting::RoomChoice { target, account_id, list } => WaitView::RoomChoice {
                target: target@,
                account_id: account_id@,
                list: json::views(list@),
            },
            Waiting::Body { account_id, room_id, txn_id } => WaitView::Body {
                account_id: account_id@,
                room_id: room_id@,
                txn_id: text::opt_text(txn_id),
            },
            Waiting::Devices { account_id, user_id } => WaitView::Devices {
                account_id: account_id@,
                user_id: user_id@,
            },
            Waiting::DeviceChoice { account_id, user_id, list } => WaitView::DeviceChoice {
                account_id: account_id@,
                user_id: user_id@,
                list: json::views(list@),
            },
            Waiting::Flows { purpose, account_id, user_id } => WaitView::Flows {
                purpose,
                account_id: account_id@,
                user_id: user_id@,
            },
            Waiting::FlowChoice { purpose, account_id, user_id, list } => WaitView::FlowChoice {
                purpose,
                account_id: account_id@,
                user_id: user_id@,
                list: json::views(list@),
            },
            Waiting::YesNo { account_id, user_id, flow_id } => WaitView::YesNo {
                account_id: account_id@,
                user_id: user_id@,
                flow_id: flow_id@,
            },
            Waiting::Reply => WaitView::Reply,
            Waiting::MessagesReply { debug } => WaitView::MessagesReply { debug },
        }
    }
}

/// A step of a command.
pub enum CtlStep {
    /// The command is done: this is shown.
    Done(Vec<String>),
    /// The command failed, and why.
    Fail(String),
    /// These lines are shown, and the user is asked for something.
    Prompt { before: Vec<String>, label: String, waiting: Waiting },
    /// The daemon is called.
    Call { method: String, params: Option<Json>, waiting: Waiting },
    /// Events are shown from now on.
    Subscribe(Json),
    /// Events are shown no more.
    Unsubscribe,
}

/// A step of a command, as a mathematical value.
#[verifier::ext_equal]
pub enum StepView {
    Done(Seq<Seq<char>>),
    Fail(Seq<char>),
    Prompt { before: Seq<Seq<char>>, label: Seq<char>, waiting: WaitView },
    Call { method: Seq<char>, params: Option<JsonView>, waiting: WaitView },
    Subscribe(JsonView),
    Unsubscribe,
}

impl View for CtlStep {
    type V = StepView;

    open spec fn view(&self) -> StepView {
        match *self {
            CtlStep::Done(lines) => StepView::Done(text::texts(lines@)),
            CtlStep::Fail(err) => StepView::Fail(err@),
            CtlStep::Prompt { before, label, waiting } => StepView::Prompt {
                before: text::texts(before@),
                label: label@,
                waiting: waiting@,
            },
            CtlStep::Call { method, params, waiting } => StepView::Call {
                method: method@,
                params: json::opt_view(params),
                waiting: waiting@,
            },
            CtlStep::Subscribe(params) => StepView::Subscribe(params@),
            CtlStep::Unsubscribe => StepView::Unsubscribe,
        }
    }
}

/// A call of the daemon as it is sent.
pub open spec fn call_json(method: Seq<char>, params: Option<JsonView>) -> JsonView {
    JsonView::object().with("jsonrpc"@, JsonView::Text("2.0"@)).with(
        "id"@,
        JsonView::Unsigned(1),
    ).with("method"@, JsonView::Text(method)).with(
        "params"@,
        match params {
            Some(p) => p,
            None => JsonView::Null,
        },
    )
}

/// The line of a call of the daemon.
pub fn call_line(method: &str, params: Option<Json>) -> (r: String)
    ensures
        json::carries(r@, call_json(method@, json::opt_view(params))),
{
    let params: Json = match params {
        Some(p) => p,
        None => Json::Null,
    };
    Json::object().with("jsonrpc", Json::text("2.0")).with("id", Json::Unsigned(1)).with(
        "method",
        Json::text(method),
    ).with("params", params).to_text()
}

/// A reply of the daemon, without the end of its line.
pub fn reply_text(line: &str) -> (r: String)
    ensures
        r@ == text::trim_end(line@),
{
    text::trim_right(line).to_owned()
}

/// An event as it is shown.
pub fn event_text(line: &str) -> (r: String)
    ensures
        r@ == "event "@ + text::trim_end(line@),
{
    text::concat2("event ", text::trim_right(line))
}

/// The words that a command needs, by name.
pub open spec fn arg_names(sub: Sub) -> Seq<Seq<char>> {
    match sub {
        Sub::Ping => seq![],
        Sub::Version => seq![],
        Sub::AccountAdd => seq!["homeserver"@],
        Sub::AccountList => seq![],
        Sub::LoginStart => seq!["account_id"@],
        Sub::LoginComplete => seq!["account_id"@, "token"@],
        Sub::LoginPassword => seq!["account_id"@, "username"@, "password"@],
        Sub::SessionRestore => seq!["account_id"@],
        Sub::Subscribe => seq!["account_id"@],
        Sub::Unsubscribe => seq![],
        Sub::LoginFlows => seq!["homeserver"@],
        Sub::Capabilities => seq!["homeserver"@],
        Sub::RoomList => seq!["account_id"@],
        Sub::RoomMessages => seq!["account_id"@],
        Sub::RoomSend => seq!["account_id"@],
        Sub::Request => seq!["account_id"@, "user_id"@],
        Sub::Accept => seq!["account_id"@, "user_id"@],
        Sub::Confirm => seq!["account_id"@, "user_id"@],
        Sub::Cancel => seq!["account_id"@, "user_id"@],
    }
}

fn needed_args(sub: Sub) -> (r: Vec<&'static str>)
    ensures
        args::names(r@) == arg_names(sub),
{
    let list: Vec<&'static str> = match sub {
        Sub::Ping => Vec::new(),
        Sub::Version => Vec::new(),
        Sub::AccountAdd => vec!["homeserver"],
        Sub::AccountList => Vec::new(),
        Sub::LoginStart => vec!["account_id"],
        Sub::LoginComplete => vec!["account_id", "token"],
        Sub::LoginPassword => vec!["account_id", "username", "password"],
        Sub::SessionRestore => vec!["account_id"],
        Sub::Subscribe => vec!["account_id"],
        Sub::Unsubscribe => Vec::new(),
        Sub::LoginFlows => vec!["homeserver"],
        Sub::Capabilities => vec!["homeserver"],
        Sub::RoomList => vec!["account_id"],
        Sub::RoomMessages => vec!["account_id"],
        Sub::RoomSend => vec!["account_id"],
        Sub::Request => vec!["account_id", "user_id"],
        Sub::Accept => vec!["account_id", "user_id"],
        Sub::Confirm => vec!["account_id", "user_id"],
        Sub::Cancel => vec!["account_id", "user_id"],
    };
    assert(args::names(list@) =~= arg_names(sub));
    list
}

/// An object with one text.
pub open spec fn one(key: Seq<char>, value: Seq<char>) -> JsonView {
    JsonView::object().with(key, JsonView::Text(value))
}

fn object_of(key: &str, value: &str) -> (r: Json)
    ensures
        r is Object,
        r@ == one(key@, value@),
{
    Json::object().with(key, Json::text(value))
}

/// A call whose reply is shown as it is.
pub open spec fn shown_call(method: Seq<char>, params: Option<JsonView>) -> StepView {
    StepView::Call { method, params, waiting: WaitView::Reply }
}

fn show_call(method: &str, params: Option<Json>) -> (r: CtlStep)
    ensures
        r@ == shown_call(method@, json::opt_view(params)),
{
    CtlStep::Call { method: method.to_owned(), params, waiting: Waiting::Reply }
}

/// The call for messages of a room.
pub open spec fn messages_call(
    options: OptionsView,
    account_id: Seq<char>,
    room_id: Seq<char>,
) -> StepView {
    let plain = one("account_id"@, account_id).with("room_id"@, JsonView::Text(room_id));
    let limited = match options.limit {
        Some(n) => plain.with("limit"@, JsonView::Unsigned(n as u64)),
        None => plain,
    };
    let params = match options.from {
        Some(f) => limited.with("from"@, JsonView::Text(f)),
        None => limited,
    };
    StepView::Call {
        method: "room.messages"@,
        params: Some(params),
        waiting: WaitView::MessagesReply { debug: options.debug },
    }
}

fn call_messages(options: MessageOptions, account_id: &str, room_id: &str) -> (r: CtlStep)
    ensures
        r@ == messages_call(options@, account_id@, room_id@),
{
    let plain: Json = object_of("account_id", account_id).with("room_id", Json::text(room_id));
    let limited: Json = match options.limit {
        Some(n) => plain.with("limit", Json::Unsigned(n as u64)),
        None => plain,
    };
    let params: Json = match &options.from {
        Some(f) => limited.with("from", Json::text(f.as_str())),
        None => limited,
    };
    CtlStep::Call {
        method: "room.messages".to_owned(),
        params: Some(params),
        waiting: Waiting::MessagesReply { debug: options.debug },
    }
}

/// The call that sends a message.
pub open spec fn send_call(
    account_id: Seq<char>,
    room_id: Seq<char>,
    body: Seq<char>,
    txn_id: Option<Seq<char>>,
) -> StepView {
    shown_call(
        "room.send"@,
        Some(
            one("account_id"@, account_id).with("room_id"@, JsonView::Text(room_id)).with(
                "body"@,
                JsonView::Text(body),
            ).with("txn_id"@, json::opt_text_view(txn_id)),
        ),
    )
}

fn call_send(
    account_id: &str,
    room_id: &str,
    body: &str,
    txn_id: &Option<String>,
) -> (r: CtlStep)
    ensures
        r@ == send_call(account_id@, room_id@, body@, text::opt_text(*txn_id)),
{
    show_call(
        "room.send",
        Some(
            object_of("account_id", account_id).with("room_id", Json::text(room_id)).with(
                "body",
                Json::text(body),
            ).with("txn_id", Json::opt_text(txn_id)),
        ),
    )
}

/// The question for the body of a message.
pub open spec fn body_asked(
    account_id: Seq<char>,
    room_id: Seq<char>,
    txn_id: Option<Seq<char>>,
) -> StepView {
    StepView::Prompt {
        before: Seq::empty(),
        label: "body"@,
        waiting: WaitView::Body { account_id, room_id, txn_id },
    }
}

/// What follows once a room is known: its messages, or the question for a body.
pub open spec fn room_known(
    target: TargetView,
    account_id: Seq<char>,
    room_id: Seq<char>,
) -> StepView {
    match target {
        TargetView::Messages(options) => messages_call(options, account_id, room_id),
        TargetView::Send => body_asked(account_id, room_id, None),
    }
}

/// No lines.
fn no_lines() -> (r: Vec<String>)
    ensures
        text::texts(r@) == Seq::<Seq<char>>::empty(),
{
    let r: Vec<String> = Vec::new();
    assert(text::texts(r@) =~= Seq::<Seq<char>>::empty());
    r
}

fn ask_body(account_id: String, room_id: String, txn_id: Option<String>) -> (r: CtlStep)
    ensures
        r@ == body_asked(account_id@, room_id@, text::opt_text(txn_id)),
{
    CtlStep::Prompt {
        before: no_lines(),
        label: "body".to_owned(),
        waiting: Waiting::Body { account_id, room_id, txn_id },
    }
}

fn use_room(target: RoomTarget, account_id: String, room_id: String) -> (r: CtlStep)
    ensures
        r@ == room_known(target@, account_id@, room_id@),
{
    match target {
        RoomTarget::Messages(options) => call_messages(
            options,
            account_id.as_str(),
            room_id.as_str(),
        ),
        RoomTarget::Send => ask_body(account_id, room_id, None),
    }
}

/// The call for the rooms to choose from.
pub open spec fn rooms_call(target: TargetView, account_id: Seq<char>) -> StepView {
    StepView::Call {
        method: "room.list"@,
        params: Some(one("account_id"@, account_id)),
        waiting: WaitView::Rooms { target, account_id },
    }
}

fn call_rooms(target: RoomTarget, account_id: String) -> (r: CtlStep)
    ensures
        r@ == rooms_call(target@, account_id@),
{
    CtlStep::Call {
        method: "room.list".to_owned(),
        params: Some(object_of("account_id", account_id.as_str())),
        waiting: Waiting::Rooms { target, account_id },
    }
}

/// The parameters of a call about a user's things: a word for oneself is left out.
pub open spec fn user_params(account_id: Seq<char>, user_id: Seq<char>) -> JsonView {
    if verification_calls::names_self(user_id) {
        one("account_id"@, account_id)
    } else {
        one("account_id"@, account_id).with("user_id"@, JsonView::Text(user_id))
    }
}

fn params_of_user(account_id: &str, user_id: &str) -> (r: Json)
    ensures
        r@ == user_params(account_id@, user_id@),
{
    let plain: Json = object_of("account_id", account_id);
    if is_self_user(user_id) {
        plain
    } else {
        plain.with("user_id", Json::text(user_id))
    }
}

/// The call that asks for a verification.
pub open spec fn request_call(
    account_id: Seq<char>,
    user_id: Seq<char>,
    device_id: Option<Seq<char>>,
) -> StepView {
    shown_call(
        "matrix.verification.request"@,
        Some(
            one("account_id"@, account_id).with("user_id"@, JsonView::Text(user_id)).with(
                "device_id"@,
                json::opt_text_view(device_id),
            ),
        ),
    )
}

fn call_request(account_id: &str, user_id: &str, device_id: &Option<String>) -> (r: CtlStep)
    ensures
        r@ == request_call(account_id@, user_id@, text::opt_text(*device_id)),
{
    show_call(
        "matrix.verification.request",
        Some(
            object_of("account_id", account_id).with("user_id", Json::text(user_id)).with(
                "device_id",
                Json::opt_text(device_id),
            ),
        ),
    )
}

/// The parameters of a call about a verification.
pub open spec fn flow_params(
    account_id: Seq<char>,
    user_id: Seq<char>,
    flow_id: Seq<char>,
) -> JsonView {
    one("account_id"@, account_id).with("user_id"@, JsonView::Text(user_id)).with(
        "flow_id"@,
        JsonView::Text(flow_id),
    )
}

fn params_of_flow(account_id: &str, user_id: &str, flow_id: &str) -> (r: Json)
    ensures
        r is Object,
        r@ == flow_params(account_id@, user_id@, flow_id@),
{
    object_of("account_id", account_id).with("user_id", Json::text(user_id)).with(
        "flow_id",
        Json::text(flow_id),
    )
}

/// Whether a word says yes: only one word says no.
pub open spec fn not_false(value: Option<Seq<char>>) -> Option<bool> {
    match value {
        Some(v) => Some(v != "false"@),
        None => None,
    }
}

fn is_not_false(value: &Option<String>) -> (r: Option<bool>)
    ensures
        r == not_false(text::opt_text(*value)),
{
    match value {
        Some(v) => Some(!text::str_eq(v.as_str(), "false")),
        None => None,
    }
}

/// The call that says whether the short authentication strings match.
pub open spec fn confirm_call(
    account_id: Seq<char>,
    user_id: Seq<char>,
    flow_id: Seq<char>,
    matches: bool,
) -> StepView {
    shown_call(
        "matrix.verification.confirm"@,
        Some(flow_params(account_id, user_id, flow_id).with("match"@, JsonView::Bool(matches))),
    )
}

fn call_confirm(account_id: &str, user_id: &str, flow_id: &str, matches: bool) -> (r: CtlStep)
    ensures
        r@ == confirm_call(account_id@, user_id@, flow_id@, matches),
{
    let params: Json = params_of_flow(account_id, user_id, flow_id).with(
        "match",
        Json::Bool(matches),
    );
    show_call("matrix.verification.confirm", Some(params))
}

/// What follows once a verification is known: a call, or the question whether the short
/// authentication strings match, where the words do not say so.
pub open spec fn flow_known(
    purpose: FlowUse,
    account_id: Seq<char>,
    user_id: Seq<char>,
    flow_id: Seq<char>,
    rest: Seq<Seq<char>>,
) -> StepView {
    match purpose {
        FlowUse::Accept => shown_call(
            "matrix.verification.accept"@,
            Some(flow_params(account_id, user_id, flow_id)),
        ),
        FlowUse::Cancel => shown_call(
            "matrix.verification.cancel"@,
            Some(flow_params(account_id, user_id, flow_id)),
        ),
        FlowUse::Confirm => match not_false(args::option_value(rest, "--match"@, "match"@)) {
            Some(matches) => confirm_call(account_id, user_id, flow_id, matches),
            None => StepView::Prompt {
                before: Seq::empty(),
                label: "Do they match? (y/n)"@,
                waiting: WaitView::YesNo { account_id, user_id, flow_id },
            },
        },
    }
}

fn use_flow(
    purpose: FlowUse,
    account_id: String,
    user_id: String,
    flow_id: String,
    rest: Vec<String>,
) -> (r: CtlStep)
    ensures
        r@ == flow_known(purpose, account_id@, user_id@, flow_id@, text::texts(rest@)),
{
    let mut rest = rest;
    match purpose {
        FlowUse::Accept => show_call(
            "matrix.verification.accept",
            Some(params_of_flow(account_id.as_str(), user_id.as_str(), flow_id.as_str())),
        ),
        FlowUse::Cancel => show_call(
            "matrix.verification.cancel",
            Some(params_of_flow(account_id.as_str(), user_id.as_str(), flow_id.as_str())),
        ),
        FlowUse::Confirm => {
            let given: Option<bool> = is_not_false(
                &args::take_option(&mut rest, "--match", "match"),
            );
            match given {
                Some(matches) => call_confirm(
                    account_id.as_str(),
                    user_id.as_str(),
                    flow_id.as_str(),
                    matches,
                ),
                None => CtlStep::Prompt {
                    before: no_lines(),
                    label: "Do they match? (y/n)".to_owned(),
                    waiting: Waiting::YesNo { account_id, user_id, flow_id },
                },
            }
        },
    }
}

/// What follows once an account and a user are known whose verification is meant.
pub open spec fn flow_wanted(
    purpose: FlowUse,
    account_id: Seq<char>,
    user_id: Seq<char>,
    rest: Seq<Seq<char>>,
) -> StepView {
    if rest.len() == 0 {
        StepView::Call {
            method: "matrix.verification.list"@,
            params: Some(user_params(account_id, user_id)),
            waiting: WaitView::Flows { purpose, account_id, user_id },
        }
    } else {
        flow_known(purpose, account_id, user_id, rest[0], rest.drop_first())
    }
}

fn want_flow(
    purpose: FlowUse,
    account_id: String,
    user_id: String,
    rest: Vec<String>,
) -> (r: CtlStep)
    ensures
        r@ == flow_wanted(purpose, account_id@, user_id@, text::texts(rest@)),
{
    let mut rest = rest;
    if rest.len() == 0 {
        CtlStep::Call {
            method: "matrix.verification.list".to_owned(),
            params: Some(params_of_user(account_id.as_str(), user_id.as_str())),
            waiting: Waiting::Flows { purpose, account_id, user_id },
        }
    } else {
        let flow_id: String = take_first(&mut rest);
        use_flow(purpose, account_id, user_id, flow_id, rest)
    }
}

/// Whether a subscriber asks for a snapshot.
pub open spec fn snapshot_wanted(words: Seq<Seq<char>>) -> bool {
    if words.contains("--no-snapshot"@) {
        false
    } else if words.contains("--snapshot"@) {
        true
    } else {
        match not_false(args::value_after(words, "snapshot"@)) {
            Some(b) => b,
            None => true,
        }
    }
}

fn wants_snapshot(words: Vec<String>) -> (r: bool)
    ensures
        r == snapshot_wanted(text::texts(words@)),
{
    let mut words = words;
    proof {
        args::lemma_word_place(text::texts(words@), "--no-snapshot"@);
        args::lemma_word_place(text::texts(words@), "--snapshot"@);
    }
    if args::has_flag(&mut words, "--no-snapshot") {
        return false;
    }
    if args::has_flag(&mut words, "--snapshot") {
        return true;
    }
    match is_not_false(&args::take_kv(&mut words, "snapshot")) {
        Some(b) => b,
        None => true,
    }
}

/// What follows once the words of a message are known: it is sent, or its body is asked for
/// where there are none.
pub open spec fn message_wanted(
    account_id: Seq<char>,
    room_id: Seq<char>,
    words: Seq<Seq<char>>,
    txn_id: Option<Seq<char>>,
) -> StepView {
    if words.len() == 0 {
        body_asked(account_id, room_id, txn_id)
    } else {
        send_call(account_id, room_id, text::joined(words, " "@), txn_id)
    }
}

/// What follows once a command has all the words that it needs.
pub open spec fn completed(sub: Sub, options: OptionsView, words: Seq<Seq<char>>) -> StepView {
    let first = words[0];
    let rest = words.drop_first();
    let second = rest[0];
    let rest2 = rest.drop_first();
    let third = rest2[0];
    let rest3 = rest2.drop_first();
    match sub {
        Sub::Ping => shown_call("rpc.ping"@, None),
        Sub::Version => shown_call("rpc.version"@, None),
        Sub::AccountAdd => shown_call(
            "account.add"@,
            Some(
                one("homeserver"@, first).with(
                    "login_method"@,
                    json::opt_text_view(
                        args::option_value(rest, "--login-method"@, "login_method"@),
                    ),
                ),
            ),
        ),
        Sub::AccountList => shown_call("account.list"@, None),
        Sub::LoginStart => shown_call(
            "account.login_start"@,
            Some(
                match args::option_value(rest, "--login-method"@, "login_method"@) {
                    Some(method) => one("account_id"@, first).with(
                        "login_method"@,
                        JsonView::Text(method),
                    ),
                    None => one("account_id"@, first),
                },
            ),
        ),
        Sub::LoginComplete => shown_call(
            "account.login_complete"@,
            Some(
                one("account_id"@, first).with("token"@, JsonView::Text(second)).with(
                    "device_name"@,
                    json::opt_text_view(
                        args::option_value(rest2, "--device-name"@, "device_name"@),
                    ),
                ),
            ),
        ),
        Sub::LoginPassword => shown_call(
            "account.login_password"@,
            Some(
                one("account_id"@, first).with("username"@, JsonView::Text(second)).with(
                    "password"@,
                    JsonView::Text(third),
                ).with(
                    "device_name"@,
                    json::opt_text_view(
                        args::option_value(rest3, "--device-name"@, "device_name"@),
                    ),
                ),
            ),
        ),
        Sub::SessionRestore => shown_call(
            "account.session_restore"@,
            Some(one("account_id"@, first)),
        ),
        Sub::Subscribe => StepView::Subscribe(
            one("account_id"@, first).with(
                "since"@,
                json::opt_text_view(args::option_value(rest, "--since"@, "since"@)),
            ).with(
                "snapshot"@,
                JsonView::Bool(snapshot_wanted(args::without_option(rest, "--since"@, "since"@))),
            ),
        ),
        Sub::Unsubscribe => StepView::Unsubscribe,
        Sub::LoginFlows => shown_call("matrix.login_flows"@, Some(one("homeserver"@, first))),
        Sub::Capabilities => shown_call("matrix.capabilities"@, Some(one("homeserver"@, first))),
        Sub::RoomList => shown_call("room.list"@, Some(one("account_id"@, first))),
        Sub::RoomMessages => if rest.len() == 0 {
            rooms_call(TargetView::Messages(options), first)
        } else {
            messages_call(options, first, second)
        },
        Sub::RoomSend => if rest.len() == 0 {
            rooms_call(TargetView::Send, first)
        } else {
            message_wanted(
                first,
                second,
                args::without_option(rest2, "--txn-id"@, "txn_id"@),
                args::option_value(rest2, "--txn-id"@, "txn_id"@),
            )
        },
        Sub::Request => match args::option_value(rest2, "--device-id"@, "device_id"@) {
            Some(device) => request_call(first, second, Some(device)),
            None => StepView::Call {
                method: "matrix.devices.list"@,
                params: Some(user_params(first, second)),
                waiting: WaitView::Devices { account_id: first, user_id: second },
            },
        },
        Sub::Accept => flow_wanted(FlowUse::Accept, first, second, rest2),
        Sub::Confirm => flow_wanted(FlowUse::Confirm, first, second, rest2),
        Sub::Cancel => flow_wanted(FlowUse::Cancel, first, second, rest2),
    }
}

fn complete_room_send(words: Vec<String>) -> (r: CtlStep)
    requires
        words.len() >= 1,
    ensures
        forall|options: OptionsView|
            r@ == #[trigger] completed(Sub::RoomSend, options, text::texts(words@)),
{
    let mut words = words;
    let account_id: String = take_first(&mut words);
    if words.len() == 0 {
        return call_rooms(RoomTarget::Send, account_id);
    }
    let room_id: String = take_first(&mut words);
    let txn_id: Option<String> = args::take_option(&mut words, "--txn-id", "txn_id");
    if words.len() == 0 {
        assert(text::texts(words@).len() == 0);
        return ask_body(account_id, room_id, txn_id);
    }
    assert(text::texts(words@).len() > 0);
    let body: String = text::join_strings(&words, " ");
    call_send(account_id.as_str(), room_id.as_str(), body.as_str(), &txn_id)
}

fn complete_login(sub: Sub, words: Vec<String>) -> (r: CtlStep)
    requires
        sub is LoginStart || sub is LoginComplete || sub is LoginPassword,
        words.len() >= arg_names(sub).len(),
    ensures
        forall|options: OptionsView|
            r@ == #[trigger] completed(sub, options, text::texts(words@)),
{
    let mut words = words;
    let account_id: String = take_first(&mut words);
    let plain: Json = object_of("account_id", account_id.as_str());
    match sub {
        Sub::LoginComplete => {
            let token: String = take_first(&mut words);
            let device_name: Option<String> = args::take_option(
                &mut words,
                "--device-name",
                "device_name",
            );
            let params: Json = plain.with("token", Json::text(token.as_str())).with(
                "device_name",
                Json::opt_text(&device_name),
            );
            show_call("account.login_complete", Some(params))
        },
        Sub::LoginPassword => {
            let username: String = take_first(&mut words);
            let password: String = take_first(&mut words);
            let device_name: Option<String> = args::take_option(
                &mut words,
                "--device-name",
                "device_name",
            );
            let params: Json = plain.with("username", Json::text(username.as_str())).with(
                "password",
                Json::text(password.as_str()),
            ).with("device_name", Json::opt_text(&device_name));
            show_call("account.login_password", Some(params))
        },
        _ => {
            let params: Json = match args::take_option(
                &mut words,
                "--login-method",
                "login_method",
            ) {
                Some(method) => plain.with("login_method", Json::text(method.as_str())),
                None => plain,
            };
            show_call("account.login_start", Some(params))
        },
    }
}

fn complete_verification(sub: Sub, words: Vec<String>) -> (r: CtlStep)
    requires
        sub is Request || sub is Accept || sub is Confirm || sub is Cancel,
        words.len() >= 2,
    ensures
        forall|options: OptionsView|
            r@ == #[trigger] completed(sub, options, text::texts(words@)),
{
    let mut words = words;
    let account_id: String = take_first(&mut words);
    let user_id: String = take_first(&mut words);
    match sub {
        Sub::Request => match args::take_option(&mut words, "--device-id", "device_id") {
            Some(device) => call_request(account_id.as_str(), user_id.as_str(), &Some(device)),
            None => CtlStep::Call {
                method: "matrix.devices.list".to_owned(),
                params: Some(params_of_user(account_id.as_str(), user_id.as_str())),
                waiting: Waiting::Devices { account_id, user_id },
            },
        },
        Sub::Accept => want_flow(FlowUse::Accept, account_id, user_id, words),
        Sub::Confirm => want_flow(FlowUse::Confirm, account_id, user_id, words),
        _ => want_flow(FlowUse::Cancel, account_id, user_id, words),
    }
}

/// Goes on once a command has all the words that it needs.
pub fn complete(sub: Sub, options: MessageOptions, words: Vec<String>) -> (r: CtlStep)
    requires
        words.len() >= arg_names(sub).len(),
    ensures
        r@ == completed(sub, options@, text::texts(words@)),
{
    let mut words = words;
    match sub {
        Sub::Ping => show_call("rpc.ping", None),
        Sub::Version => show_call("rpc.version", None),
        Sub::AccountAdd => {
            let homeserver: String = take_first(&mut words);
            let method: Option<String> = args::take_option(
                &mut words,
                "--login-method",
                "login_method",
            );
            let params: Json = object_of("homeserver", homeserver.as_str()).with(
                "login_method",
                Json::opt_text(&method),
            );
            show_call("account.add", Some(params))
        },
        Sub::AccountList => show_call("account.list", None),
        Sub::LoginStart => complete_login(sub, words),
        Sub::LoginComplete => complete_login(sub, words),
        Sub::LoginPassword => complete_login(sub, words),
        Sub::SessionRestore => {
            let account_id: String = take_first(&mut words);
            let params: Json = object_of("account_id", account_id.as_str());
            show_call("account.session_restore", Some(params))
        },
        Sub::Subscribe => {
            let account_id: String = take_first(&mut words);
            let since: Option<String> = args::take_option(&mut words, "--since", "since");
            let params: Json = object_of("account_id", account_id.as_str()).with(
                "since",
                Json::opt_text(&since),
            ).with("snapshot", Json::Bool(wants_snapshot(words)));
            CtlStep::Subscribe(params)
        },
        Sub::Unsubscribe => CtlStep::Unsubscribe,
        Sub::LoginFlows => {
            let homeserver: String = take_first(&mut words);
            let params: Json = object_of("homeserver", homeserver.as_str());
            show_call("matrix.login_flows", Some(params))
        },
        Sub::Capabilities => {
            let homeserver: String = take_first(&mut words);
            let params: Json = object_of("homeserver", homeserver.as_str());
            show_call("matrix.capabilities", Some(params))
        },
        Sub::RoomList => {
            let account_id: String = take_first(&mut words);
            let params: Json = object_of("account_id", account_id.as_str());
            show_call("room.list", Some(params))
        },
        Sub::RoomMessages => {
            let account_id: String = take_first(&mut words);
            if words.len() == 0 {
                call_rooms(RoomTarget::Messages(options), account_id)
            } else {
                let room_id: String = take_first(&mut words);
                call_messages(options, account_id.as_str(), room_id.as_str())
            }
        },
        Sub::RoomSend => complete_room_send(words),
        Sub::Request => complete_verification(sub, words),
        Sub::Accept => complete_verification(sub, words),
        Sub::Confirm => complete_verification(sub, words),
        Sub::Cancel => complete_verification(sub, words),
    }
}

/// What follows once a command has some words: it asks for the next one that it needs, or
/// goes on with all of them.
pub open spec fn gathered(sub: Sub, options: OptionsView, words: Seq<Seq<char>>) -> StepView {
    if words.len() < arg_names(sub).len() {
        StepView::Prompt {
            before: Seq::empty(),
            label: arg_names(sub)[words.len() as int],
            waiting: WaitView::Args { sub, options, words },
        }
    } else {
        completed(sub, options, words)
    }
}

/// Goes on once a command has some words.
pub fn gather(sub: Sub, options: MessageOptions, words: Vec<String>) -> (r: CtlStep)
    ensures
        r@ == gathered(sub, options@, text::texts(words@)),
{
    let needed: Vec<&str> = needed_args(sub);
    assert(needed@.len() == args::names(needed@).len());
    if words.len() < needed.len() {
        assert(args::names(needed@)[words.len() as int] == needed@[words.len() as int]@);
        let label: String = needed[words.len()].to_owned();
        CtlStep::Prompt {
            before: no_lines(),
            label,
            waiting: Waiting::Args { sub, options, words },
        }
    } else {
        complete(sub, options, words)
    }
}

/// How messages are read where nothing is said of it.
pub open spec fn preset_options() -> OptionsView {
    OptionsView { debug: false, limit: None, from: None }
}

/// How the words ask for messages to be read.
pub open spec fn options_in(words: Seq<Seq<char>>) -> OptionsView {
    let plain = args::without_word(words, "--debug"@);
    let unlimited = args::without_option(plain, "--limit"@, "limit"@);
    OptionsView {
        debug: words.contains("--debug"@),
        limit: match args::option_value(plain, "--limit"@, "limit"@) {
            Some(v) => match text::parse_up_to(v, usize::MAX as nat) {
                Some(n) => Some(n as usize),
                None => None,
            },
            None => None,
        },
        from: args::option_value(unlimited, "--from"@, "from"@),
    }
}

/// The words without those that say how messages are to be read.
pub open spec fn without_options(words: Seq<Seq<char>>) -> Seq<Seq<char>> {
    let plain = args::without_word(words, "--debug"@);
    let unlimited = args::without_option(plain, "--limit"@, "limit"@);
    args::without_option(unlimited, "--from"@, "from"@)
}

/// What follows at the start of a command.
pub open spec fn started(sub: Sub, words: Seq<Seq<char>>) -> StepView {
    if sub is RoomMessages {
        gathered(sub, options_in(words), without_options(words))
    } else {
        gathered(sub, preset_options(), words)
    }
}

/// Starts a command.
pub fn start(sub: Sub, words: Vec<String>) -> (r: CtlStep)
    ensures
        r@ == started(sub, text::texts(words@)),
{
    let mut words = words;
    match sub {
        Sub::RoomMessages => {
            let debug: bool = args::has_flag(&mut words, "--debug");
            let limit: Option<usize> = match args::take_option(&mut words, "--limit", "limit") {
                Some(v) => text::parse_usize(v.as_str()),
                None => None,
            };
            let from: Option<String> = args::take_option(&mut words, "--from", "from");
            gather(sub, MessageOptions { debug, limit, from }, words)
        },
        _ => gather(sub, MessageOptions { debug: false, limit: None, from: None }, words),
    }
}

/// The label with which the user is asked for what a command waits for.
pub open spec fn label_of(waiting: WaitView) -> Seq<char> {
    match waiting {
        WaitView::Args { sub, options: _, words } => arg_names(sub)[words.len() as int],
        WaitView::RoomChoice { .. } => "Select room"@,
        WaitView::DeviceChoice { .. } => "Select device"@,
        WaitView::FlowChoice { .. } => "Select verification flow"@,
        WaitView::Body { .. } => "body"@,
        _ => "Do they match? (y/n)"@,
    }
}

/// Whether a command waits for the user.
pub open spec fn asks_user(waiting: WaitView) -> bool {
    match waiting {
        WaitView::Args { sub, options: _, words } => words.len() < arg_names(sub).len(),
        WaitView::RoomChoice { .. } => true,
        WaitView::DeviceChoice { .. } => true,
        WaitView::FlowChoice { .. } => true,
        WaitView::Body { .. } => true,
        WaitView::YesNo { .. } => true,
        _ => false,
    }
}

/// Whether a command waits for the user.
pub fn is_asking(waiting: &Waiting) -> (r: bool)
    ensures
        r == asks_user(waiting@),
{
    match waiting {
        Waiting::Args { sub, options: _, words } => {
            let needed: Vec<&str> = needed_args(*sub);
            assert(needed@.len() == args::names(needed@).len());
            words.len() < needed.len()
        },
        Waiting::RoomChoice { .. } => true,
        Waiting::DeviceChoice { .. } => true,
        Waiting::FlowChoice { .. } => true,
        Waiting::Body { .. } => true,
        Waiting::YesNo { .. } => true,
        _ => false,
    }
}

fn label_for(waiting: &Waiting) -> (r: String)
    requires
        asks_user(waiting@),
    ensures
        r@ == label_of(waiting@),
{
    match waiting {
        Waiting::Args { sub, options: _, words } => {
            let needed: Vec<&str> = needed_args(*sub);
            assert(needed@.len() == args::names(needed@).len());
            assert(args::names(needed@)[words.len() as int] == needed@[words.len() as int]@);
            needed[words.len()].to_owned()
        },
        Waiting::RoomChoice { .. } => "Select room".to_owned(),
        Waiting::DeviceChoice { .. } => "Select device".to_owned(),
        Waiting::FlowChoice { .. } => "Select verification flow".to_owned(),
        Waiting::Body { .. } => "body".to_owned(),
        _ => "Do they match? (y/n)".to_owned(),
    }
}

/// The user is asked again, after these lines.
pub open spec fn asked_again(before: Seq<Seq<char>>, waiting: WaitView) -> StepView {
    StepView::Prompt { before, label: label_of(waiting), waiting }
}

fn ask_again(before: Vec<String>, waiting: Waiting) -> (r: CtlStep)
    requires
        asks_user(waiting@),
    ensures
        r@ == asked_again(text::texts(before@), waiting@),
{
    CtlStep::Prompt { before, label: label_for(&waiting), waiting }
}

fn one_line(line: &str) -> (r: Vec<String>)
    ensures
        text::texts(r@) == seq![line@],
{
    let mut r: Vec<String> = Vec::new();
    r.push(line.to_owned());
    assert(text::texts(r@) =~= seq![line@]);
    r
}

/// The item of a list that a word chooses, by its number.
pub open spec fn chosen(list: Seq<JsonView>, value: Seq<char>) -> Option<JsonView> {
    match text::parse_up_to(value, usize::MAX as nat) {
        Some(n) => if n < list.len() {
            Some(list[n as int])
        } else {
            None
        },
        None => None,
    }
}

fn choose_item<'a>(list: &'a Vec<Json>, value: &str) -> (r: Option<&'a Json>)
    ensures
        match r {
            Some(item) => chosen(json::views(list@), value@) == Some(item@),
            None => chosen(json::views(list@), value@) is None,
        },
{
    match text::parse_usize(value) {
        Some(n) => if n < list.len() {
            assert(json::views(list@)[n as int] == list@[n as int]@);
            Some(&list[n])
        } else {
            None
        },
        None => None,
    }
}

/// What a word in small letters says to a question.
pub open spec fn yes_or_no(small: Seq<char>) -> Option<bool> {
    if small == "y"@ || small == "yes"@ {
        Some(true)
    } else if small == "n"@ || small == "no"@ {
        Some(false)
    } else {
        None
    }
}

/// What a word in small letters says to a question.
pub fn read_yes_no(small: &str) -> (r: Option<bool>)
    ensures
        r == yes_or_no(small@),
{
    if text::str_eq(small, "y") || text::str_eq(small, "yes") {
        Some(true)
    } else if text::str_eq(small, "n") || text::str_eq(small, "no") {
        Some(false)
    } else {
        None
    }
}

/// What follows the user's answer to a question that is no choice of a list: the value is
/// not empty, and `small` is the same in small letters.
pub open spec fn value_taken(waiting: WaitView, value: Seq<char>, small: Seq<char>) -> StepView {
    match waiting {
        WaitView::Args { sub, options, words } => gathered(sub, options, words.push(value)),
        WaitView::RoomChoice { target, account_id, list } => match chosen(list, value) {
            None => asked_again(seq!["invalid selection"@], waiting),
            Some(item) => match item.text_at("room_id"@) {
                None => StepView::Fail("missing room_id"@),
                Some(room_id) => room_known(target, account_id, room_id),
            },
        },
        WaitView::DeviceChoice { account_id, user_id, list } => match chosen(list, value) {
            None => asked_again(seq!["invalid selection"@], waiting),
            Some(item) => request_call(account_id, user_id, item.text_at("device_id"@)),
        },
        WaitView::FlowChoice { purpose, account_id, user_id, list } => match chosen(list, value) {
            None => asked_again(seq!["invalid selection"@], waiting),
            Some(item) => match item.text_at("flow_id"@) {
                None => StepView::Fail("missing flow id"@),
                Some(flow_id) => flow_known(purpose, account_id, user_id, flow_id, Seq::empty()),
            },
        },
        WaitView::Body { account_id, room_id, txn_id } => send_call(
            account_id,
            room_id,
            value,
            txn_id,
        ),
        WaitView::YesNo { account_id, user_id, flow_id } => match yes_or_no(small) {
            None => asked_again(seq!["please answer y/n"@], waiting),
            Some(answer) => confirm_call(account_id, user_id, flow_id, answer),
        },
        _ => StepView::Done(Seq::empty()),
    }
}

/// Goes on with the user's answer, given also in small letters.
pub fn take_value(waiting: Waiting, value: &str, small: &str) -> (r: CtlStep)
    requires
        asks_user(waiting@),
    ensures
        r@ == value_taken(waiting@, value@, small@),
{
    match waiting {
        Waiting::Args { sub, options, words } => {
            let mut words = words;
            let ghost before = text::texts(words@);
            words.push(value.to_owned());
            assert(text::texts(words@) =~= before.push(value@));
            gather(sub, options, words)
        },
        Waiting::RoomChoice { target, account_id, list } => {
            let room: Option<String> = match choose_item(&list, value) {
                None => {
                    return ask_again(
                        one_line("invalid selection"),
                        Waiting::RoomChoice { target, account_id, list },
                    );
                },
                Some(item) => match item.text_at("room_id") {
                    Some(id) => Some(id.to_owned()),
                    None => None,
                },
            };
            match room {
                None => CtlStep::Fail("missing room_id".to_owned()),
                Some(room_id) => use_room(target, account_id, room_id),
            }
        },
        Waiting::DeviceChoice { account_id, user_id, list } => {
            let device: Option<String> = match choose_item(&list, value) {
                None => {
                    return ask_again(
                        one_line("invalid selection"),
                        Waiting::DeviceChoice { account_id, user_id, list },
                    );
                },
                Some(item) => match item.text_at("device_id") {
                    Some(id) => Some(id.to_owned()),
                    None => None,
                },
            };
            call_request(account_id.as_str(), user_id.as_str(), &device)
        },
        Waiting::FlowChoice { purpose, account_id, user_id, list } => {
            let flow: Option<String> = match choose_item(&list, value) {
                None => {
                    return ask_again(
                        one_line("invalid selection"),
                        Waiting::FlowChoice { purpose, account_id, user_id, list },
                    );
                },
                Some(item) => match item.text_at("flow_id") {
                    Some(id) => Some(id.to_owned()),
                    None => None,
                },
            };
            match flow {
                None => CtlStep::Fail("missing flow id".to_owned()),
                Some(flow_id) => use_flow(purpose, account_id, user_id, flow_id, no_lines()),
            }
        },
        Waiting::Body { account_id, room_id, txn_id } => call_send(
            account_id.as_str(),
            room_id.as_str(),
            value,
            &txn_id,
        ),
        Waiting::YesNo { account_id, user_id, flow_id } => match read_yes_no(small) {
            None => ask_again(
                one_line("please answer y/n"),
                Waiting::YesNo { account_id, user_id, flow_id },
            ),
            Some(answer) => call_confirm(
                account_id.as_str(),
                user_id.as_str(),
                flow_id.as_str(),
                answer,
            ),
        },
        _ => CtlStep::Done(no_lines()),
    }
}

/// What follows a line that the user typed, or the end of the input.
pub open spec fn line_taken(waiting: WaitView, line: Option<Seq<char>>) -> StepView {
    match line {
        None => StepView::Fail("missing "@ + label_of(waiting)),
        Some(l) => if text::trimmed(l).len() == 0 {
            asked_again(Seq::empty(), waiting)
        } else {
            value_taken(
                waiting,
                text::trimmed(l),
                text::lowercase(text::trimmed(l)),
            )
        },
    }
}

/// Goes on with a line that the user typed, or with the end of the input.
pub fn answered(waiting: Waiting, line: Option<String>) -> (r: CtlStep)
    requires
        asks_user(waiting@),
    ensures
        r@ == line_taken(waiting@, text::opt_text(line)),
{
    match line {
        None => CtlStep::Fail(text::concat2("missing ", label_for(&waiting).as_str())),
        Some(l) => {
            let value: &str = text::trim(l.as_str());
            if value.unicode_len() == 0 {
                ask_again(no_lines(), waiting)
            } else {
                let small: String = text::to_lowercase(value);
                take_value(waiting, value, small.as_str())
            }
        },
    }
}

/// The items of a list, each as a line to choose from.
pub open spec fn labels(
    list: Seq<JsonView>,
    label: spec_fn(nat, JsonView) -> Seq<char>,
) -> Seq<Seq<char>> {
    Seq::new(list.len(), |i: int| label(i as nat, list[i]))
}

/// How a room is shown in a list to choose from.
pub open spec fn room_labels(list: Seq<JsonView>) -> Seq<Seq<char>> {
    labels(list, |i: nat, item: JsonView| ctl_text::room_label(i, item))
}

/// How a device is shown in a list to choose from.
pub open spec fn device_labels(list: Seq<JsonView>) -> Seq<Seq<char>> {
    labels(list, |i: nat, item: JsonView| ctl_text::device_label(i, item))
}

/// How a verification is shown in a list to choose from.
pub open spec fn flow_labels(list: Seq<JsonView>) -> Seq<Seq<char>> {
    labels(list, |i: nat, item: JsonView| ctl_text::flow_label(i, item))
}

fn show_rooms(list: &Vec<Json>) -> (r: Vec<String>)
    ensures
        text::texts(r@) == room_labels(json::views(list@)),
{
    let mut out: Vec<String> = Vec::new();
    let mut i: usize = 0;
    while i < list.len()
        invariant
            i <= list.len(),
            out.len() == i,
            forall|k: int|
                0 <= k < i ==> (#[trigger] out@[k])@ == ctl_text::room_label(k as nat, list@[k]@),
        decreases list.len() - i,
    {
        out.push(ctl_text::show_room(i as u64, &list[i]));
        i = i + 1;
    }
    assert(text::texts(out@) =~= room_labels(json::views(list@)));
    out
}

fn show_devices(list: &Vec<Json>) -> (r: Vec<String>)
    ensures
        text::texts(r@) == device_labels(json::views(list@)),
{
    let mut out: Vec<String> = Vec::new();
    let mut i: usize = 0;
    while i < list.len()
        invariant
            i <= list.len(),
            out.len() == i,
            forall|k: int|
                0 <= k < i ==> (#[trigger] out@[k])@ == ctl_text::device_label(
                    k as nat,
                    list@[k]@,
                ),
        decreases list.len() - i,
    {
        out.push(ctl_text::show_device(i as u64, &list[i]));
        i = i + 1;
    }
    assert(text::texts(out@) =~= device_labels(json::views(list@)));
    out
}

fn show_flows(list: &Vec<Json>) -> (r: Vec<String>)
    ensures
        text::texts(r@) == flow_labels(json::views(list@)),
{
    let mut out: Vec<String> = Vec::new();
    let mut i: usize = 0;
    while i < list.len()
        invariant
            i <= list.len(),
            out.len() == i,
            forall|k: int|
                0 <= k < i ==> (#[trigger] out@[k])@ == ctl_text::flow_label(k as nat, list@[k]@),
        decreases list.len() - i,
    {
        out.push(ctl_text::show_flow(i as u64, &list[i]));
        i = i + 1;
    }
    assert(text::texts(out@) =~= flow_labels(json::views(list@)));
    out
}

fn copy_items(list: &Vec<Json>) -> (r: Vec<Json>)
    ensures
        json::views(r@) == json::views(list@),
{
    let mut out: Vec<Json> = Vec::new();
    let mut i: usize = 0;
    while i < list.len()
        invariant
            i <= list.len(),
            out.len() == i,
            forall|k: int| 0 <= k < i ==> (#[trigger] out@[k])@ == list@[k]@,
        decreases list.len() - i,
    {
        out.push(list[i].copy());
        i = i + 1;
    }
    assert(json::views(out@) =~= json::views(list@));
    out
}

/// The items of a list, or none.
pub open spec fn items_or_none(list: Option<Seq<JsonView>>) -> Seq<JsonView> {
    match list {
        Some(items) => items,
        None => Seq::empty(),
    }
}

fn items_of(list: Option<&Vec<Json>>) -> (r: Vec<Json>)
    ensures
        json::views(r@) == items_or_none(
            match list {
                Some(items) => Some(json::views(items@)),
                None => None,
            },
        ),
{
    match list {
        Some(items) => copy_items(items),
        None => {
            let r: Vec<Json> = Vec::new();
            assert(json::views(r@) =~= Seq::empty());
            r
        },
    }
}

/// What follows the value of a reply.
pub open spec fn value_replied(waiting: WaitView, value: JsonView) -> StepView {
    match waiting {
        WaitView::MessagesReply { debug } => match value.get("result"@) {
            None => StepView::Fail("room.messages: missing result"@),
            Some(result) => match result.items_at("chunk"@) {
                None => StepView::Fail("room.messages: missing chunk"@),
                Some(items) => StepView::Done(ctl_text::messages_lines(items, debug)),
            },
        },
        WaitView::Rooms { target, account_id } => {
            let list = items_or_none(value.get_or_null("result"@).items_at("rooms"@));
            if list.len() == 0 {
                StepView::Fail("no rooms found"@)
            } else {
                asked_again(
                    room_labels(list),
                    WaitView::RoomChoice { target, account_id, list },
                )
            }
        },
        WaitView::Devices { account_id, user_id } => {
            let list = items_or_none(value.items_at("result"@));
            if list.len() == 0 {
                StepView::Fail("no devices found"@)
            } else {
                asked_again(
                    device_labels(list),
                    WaitView::DeviceChoice { account_id, user_id, list },
                )
            }
        },
        WaitView::Flows { purpose, account_id, user_id } => {
            let list = items_or_none(value.items_at("result"@));
            if list.len() == 0 {
                StepView::Fail("no active verification flows"@)
            } else if list.len() == 1 {
                match list[0].text_at("flow_id"@) {
                    None => StepView::Fail("missing flow id"@),
                    Some(flow_id) => flow_known(
                        purpose,
                        account_id,
                        user_id,
                        flow_id,
                        Seq::empty(),
                    ),
                }
            } else {
                asked_again(
                    flow_labels(list),
                    WaitView::FlowChoice { purpose, account_id, user_id, list },
                )
            }
        },
        _ => StepView::Done(Seq::empty()),
    }
}

/// Goes on with the value of a reply.
pub fn take_reply(waiting: Waiting, value: &Json) -> (r: CtlStep)
    ensures
        r@ == value_replied(waiting@, value@),
{
    match waiting {
        Waiting::MessagesReply { debug } => match value.get("result") {
            None => CtlStep::Fail("room.messages: missing result".to_owned()),
            Some(result) => match result.items_at("chunk") {
                None => CtlStep::Fail("room.messages: missing chunk".to_owned()),
                Some(items) => CtlStep::Done(ctl_text::show_messages(items, debug)),
            },
        },
        Waiting::Rooms { target, account_id } => {
            let result: Json = value.copy_at("result");
            let list: Vec<Json> = items_of(result.items_at("rooms"));
            if list.len() == 0 {
                return CtlStep::Fail("no rooms found".to_owned());
            }
            let lines: Vec<String> = show_rooms(&list);
            ask_again(lines, Waiting::RoomChoice { target, account_id, list })
        },
        Waiting::Devices { account_id, user_id } => {
            let list: Vec<Json> = items_of(value.items_at("result"));
            if list.len() == 0 {
                return CtlStep::Fail("no devices found".to_owned());
            }
            let lines: Vec<String> = show_devices(&list);
            ask_again(lines, Waiting::DeviceChoice { account_id, user_id, list })
        },
        Waiting::Flows { purpose, account_id, user_id } => {
            let list: Vec<Json> = items_of(value.items_at("result"));
            if list.len() == 0 {
                return CtlStep::Fail("no active verification flows".to_owned());
            }
            if list.len() == 1 {
                assert(json::views(list@)[0] == list@[0]@);
                let flow: Option<String> = match list[0].text_at("flow_id") {
                    Some(id) => Some(id.to_owned()),
                    None => None,
                };
                return match flow {
                    None => CtlStep::Fail("missing flow id".to_owned()),
                    Some(flow_id) => use_flow(purpose, account_id, user_id, flow_id, no_lines()),
                };
            }
            let lines: Vec<String> = show_flows(&list);
            ask_again(lines, Waiting::FlowChoice { purpose, account_id, user_id, list })
        },
        _ => CtlStep::Done(no_lines()),
    }
}

/// What follows a reply of the daemon, or the failure of a call.
pub open spec fn reply_taken(waiting: WaitView, reply: Result<Seq<char>, Seq<char>>) -> StepView {
    match reply {
        Err(err) => StepView::Fail(err),
        Ok(line) => if waiting is Reply {
            StepView::Done(seq![line])
        } else {
            match json::json_read(line) {
                Err(err) => StepView::Fail("invalid json response: "@ + err),
                Ok(value) => value_replied(waiting, value),
            }
        },
    }
}

/// Goes on with a reply of the daemon, or with the failure of a call.
pub fn replied(waiting: Waiting, reply: Result<String, String>) -> (r: CtlStep)
    ensures
        r@ == reply_taken(waiting@, args::text_outcome(reply)),
{
    let line: String = match reply {
        Err(err) => {
            return CtlStep::Fail(err);
        },
        Ok(line) => line,
    };
    match waiting {
        Waiting::Reply => CtlStep::Done(one_line(line.as_str())),
        _ => match Json::parse(line.as_str()) {
            Err(err) => CtlStep::Fail(text::concat2("invalid json response: ", err.as_str())),
            Ok(value) => take_reply(waiting, &value),
        },
    }
}

/// A call is a JSON-RPC request: it says which version it is, and carries an id, the method
/// and the parameters.
pub proof fn law_call_is_a_request(method: Seq<char>, params: Option<JsonView>)
    ensures
        call_json(method, params).text_at("jsonrpc"@) == Some("2.0"@),
        call_json(method, params).text_at("method"@) == Some(method),
        call_json(method, params).get("id"@) == Some(JsonView::Unsigned(1)),
        call_json(method, params).get("params"@) == Some(
            match params {
                Some(p) => p,
                None => JsonView::Null,
            },
        ),
{
    reveal_strlit("jsonrpc");
    reveal_strlit("id");
    reveal_strlit("method");
    reveal_strlit("params");
    assert("jsonrpc"@[0] == 'j' && "id"@[0] == 'i' && "method"@[0] == 'm' && "params"@[0] == 'p');
    let bare = JsonView::object();
    let first = bare.with("jsonrpc"@, JsonView::Text("2.0"@));
    let second = first.with("id"@, JsonView::Unsigned(1));
    let third = second.with("method"@, JsonView::Text(method));
    let last = match params {
        Some(p) => p,
        None => JsonView::Null,
    };
    assert forall|key: Seq<char>| #[trigger]
        call_json(method, params).get(key) == (if key == "jsonrpc"@ {
            Some(JsonView::Text("2.0"@))
        } else if key == "id"@ {
            Some(JsonView::Unsigned(1))
        } else if key == "method"@ {
            Some(JsonView::Text(method))
        } else if key == "params"@ {
            Some(last)
        } else {
            None
        }) by {
        json::lemma_get_with(bare, "jsonrpc"@, JsonView::Text("2.0"@), key);
        json::lemma_get_with(first, "id"@, JsonView::Unsigned(1), key);
        json::lemma_get_with(second, "method"@, JsonView::Text(method), key);
        json::lemma_get_with(third, "params"@, last, key);
        assert(bare.get(key) is None);
    }
}

/// A call whose parameters survive being written and read does so itself: with
/// [`call_line`] it reaches the daemon as it was meant.
pub proof fn law_call_survives(method: Seq<char>, params: Option<JsonView>)
    requires
        params matches Some(p) ==> json::plain(p, 99),
    ensures
        json::survives_text(call_json(method, params)),
{
    reveal_strlit("jsonrpc");
    reveal_strlit("id");
    reveal_strlit("method");
    reveal_strlit("params");
    assert("jsonrpc"@[0] == 'j' && "id"@[0] == 'i' && "method"@[0] == 'm' && "params"@[0] == 'p');
    let members = call_json(method, params)->Object_0;
    assert(members.len() == 4);
    assert(json::plain(members[0].1, 99));
    assert(json::plain(members[1].1, 99));
    assert(json::plain(members[2].1, 99));
    assert(json::plain(members[3].1, 99));
}

/// A question is asked again until it is answered: an empty line changes nothing, and the
/// same question stands.
pub proof fn law_empty_answers_change_nothing(waiting: WaitView, line: Seq<char>)
    requires
        text::trimmed(line).len() == 0,
    ensures
        line_taken(waiting, Some(line)) == (StepView::Prompt {
            before: Seq::empty(),
            label: label_of(waiting),
            waiting,
        }),
{
}

/// A command whose words were all typed on one line and one whose words were asked for one
/// after the other do the same.
pub proof fn law_asked_words_are_as_typed(
    sub: Sub,
    options: OptionsView,
    words: Seq<Seq<char>>,
    word: Seq<char>,
    small: Seq<char>,
)
    requires
        words.len() < arg_names(sub).len(),
    ensures
        gathered(sub, options, words) is Prompt,
        value_taken(gathered(sub, options, words)->Prompt_waiting, word, small) == gathered(
            sub,
            options,
            words.push(word),
        ),
{
}

} // verus!
