//! What the command-line client does as a whole: which call a command makes and with what,
//! what is asked for where words are missing, and what of a reply is shown.

use vstd::prelude::*;

use crate::args;
use crate::ctl;
use crate::ctl::{CtlStep, FlowUse, StepView, Sub, TargetView, WaitView, Waiting};
use crate::ctl_text;
use crate::json;
use crate::json::{Json, JsonView};
use crate::rpc_laws;
use crate::text;

verus! {

/// Whether a value stands behind the first word of that kind.
pub open spec fn stands_behind(words: Seq<Seq<char>>, word: Seq<char>, at: int) -> bool {
    &&& 0 <= at && at + 1 < words.len()
    &&& words[at] == word
    &&& forall|i: int| 0 <= i < at ==> #[trigger] words[i] != word
}

/// The value of an option is the word behind the option's flag, or, where nothing stands
/// behind that, the word behind its key; the two words go, and all others stay in order.
/// Without either there is no value, and all words stay.
pub proof fn law_option_values(words: Seq<Seq<char>>, flag: Seq<char>, key: Seq<char>, at: int)
    ensures
        stands_behind(words, flag, at) ==> {
            &&& args::option_value(words, flag, key) == Some(words[at + 1])
            &&& args::without_option(words, flag, key) == words.take(at) + words.skip(at + 2)
        },
        (forall|i: int| !#[trigger] stands_behind(words, flag, i)) && stands_behind(words, key, at)
            ==> {
            &&& args::option_value(words, flag, key) == Some(words[at + 1])
            &&& args::without_option(words, flag, key) == words.take(at) + words.skip(at + 2)
        },
        (forall|i: int| !#[trigger] stands_behind(words, flag, i)) && (forall|i: int|
            !#[trigger] stands_behind(words, key, i)) ==> {
            &&& args::option_value(words, flag, key) is None
            &&& args::without_option(words, flag, key) == words
        },
{
    args::lemma_word_place(words, flag);
    args::lemma_word_place(words, key);
    let f = args::word_place(words, flag) as int;
    let k = args::word_place(words, key) as int;
    if stands_behind(words, flag, at) {
        if f < at {
            assert(words[f] != flag);
        } else if f > at {
            assert(words[at] != flag);
        }
    }
    if stands_behind(words, key, at) {
        if k < at {
            assert(words[k] != key);
        } else if k > at {
            assert(words[at] != key);
        }
    }
    if f + 1 < words.len() {
        assert(stands_behind(words, flag, f));
    }
    if k + 1 < words.len() {
        assert(stands_behind(words, key, k));
    }
}

/// A text, or null.
pub open spec fn or_null(s: Option<Seq<char>>) -> JsonView {
    match s {
        Some(t) => JsonView::Text(t),
        None => JsonView::Null,
    }
}

/// Whether a step calls a method whose reply is shown as it is, with these members.
pub open spec fn calls(
    step: StepView,
    method: Seq<char>,
    members: Seq<(Seq<char>, JsonView)>,
) -> bool {
    step == (StepView::Call {
        method,
        params: Some(JsonView::Object(members)),
        waiting: WaitView::Reply,
    })
}

/// The commands without words call their methods without parameters.
pub proof fn law_bare_commands(
    words: Vec<String>,
    ping: CtlStep,
    version: CtlStep,
    list: CtlStep,
    end: CtlStep,
)
    requires
        call_ensures(ctl::start, (Sub::Ping, words), ping),
        call_ensures(ctl::start, (Sub::Version, words), version),
        call_ensures(ctl::start, (Sub::AccountList, words), list),
        call_ensures(ctl::start, (Sub::Unsubscribe, words), end),
    ensures
        ping@ == (StepView::Call {
            method: "rpc.ping"@,
            params: None,
            waiting: WaitView::Reply,
        }),
        version@ == (StepView::Call {
            method: "rpc.version"@,
            params: None,
            waiting: WaitView::Reply,
        }),
        list@ == (StepView::Call {
            method: "account.list"@,
            params: None,
            waiting: WaitView::Reply,
        }),
        end@ is Unsubscribe,
{
}

/// The commands about accounts call their methods with their words, in order, and with the
/// values of their options.
pub proof fn law_account_commands(sub: Sub, words: Vec<String>, r: CtlStep)
    requires
        call_ensures(ctl::start, (sub, words), r),
    ensures
        ({
            let w = text::texts(words@);
            let rest = w.drop_first();
            let rest2 = rest.drop_first();
            let rest3 = rest2.drop_first();
            &&& sub == Sub::AccountAdd && w.len() >= 1 ==> calls(
                r@,
                "account.add"@,
                seq![
                    ("homeserver"@, JsonView::Text(w[0])),
                    (
                        "login_method"@,
                        or_null(args::option_value(rest, "--login-method"@, "login_method"@)),
                    ),
                ],
            )
            &&& sub == Sub::LoginStart && w.len() >= 1 && args::option_value(
                rest,
                "--login-method"@,
                "login_method"@,
            ) is None ==> calls(
                r@,
                "account.login_start"@,
                seq![("account_id"@, JsonView::Text(w[0]))],
            )
            &&& sub == Sub::LoginStart && w.len() >= 1 && args::option_value(
                rest,
                "--login-method"@,
                "login_method"@,
            ) is Some ==> calls(
                r@,
                "account.login_start"@,
                seq![
                    ("account_id"@, JsonView::Text(w[0])),
                    (
                        "login_method"@,
                        or_null(args::option_value(rest, "--login-method"@, "login_method"@)),
                    ),
                ],
            )
            &&& sub == Sub::LoginComplete && w.len() >= 2 ==> calls(
                r@,
                "account.login_complete"@,
                seq![
                    ("account_id"@, JsonView::Text(w[0])),
                    ("token"@, JsonView::Text(w[1])),
                    (
                        "device_name"@,
                        or_null(args::option_value(rest2, "--device-name"@, "device_name"@)),
                    ),
                ],
            )
            &&& sub == Sub::LoginPassword && w.len() >= 3 ==> calls(
                r@,
                "account.login_password"@,
                seq![
                    ("account_id"@, JsonView::Text(w[0])),
                    ("username"@, JsonView::Text(w[1])),
                    ("password"@, JsonView::Text(w[2])),
                    (
                        "device_name"@,
                        or_null(args::option_value(rest3, "--device-name"@, "device_name"@)),
                    ),
                ],
            )
            &&& sub == Sub::SessionRestore && w.len() >= 1 ==> calls(
                r@,
                "account.session_restore"@,
                seq![("account_id"@, JsonView::Text(w[0]))],
            )
        }),
{
    let w = text::texts(words@);
    let rest = w.drop_first();
    let rest2 = rest.drop_first();
    let rest3 = rest2.drop_first();
    let method = args::option_value(rest, "--login-method"@, "login_method"@);
    if r@ is Call && r@->Call_params is Some {
        let got = r@->Call_params->0->Object_0;
        if sub == Sub::AccountAdd && w.len() >= 1 {
            assert(got =~= seq![
                ("homeserver"@, JsonView::Text(w[0])),
                ("login_method"@, or_null(method)),
            ]);
        } else if sub == Sub::LoginStart && w.len() >= 1 {
            if method is None {
                assert(got =~= seq![("account_id"@, JsonView::Text(w[0]))]);
            } else {
                assert(got =~= seq![
                    ("account_id"@, JsonView::Text(w[0])),
                    ("login_method"@, or_null(method)),
                ]);
            }
        } else if sub == Sub::LoginComplete && w.len() >= 2 {
            assert(got =~= seq![
                ("account_id"@, JsonView::Text(w[0])),
                ("token"@, JsonView::Text(w[1])),
                (
                    "device_name"@,
                    or_null(args::option_value(rest2, "--device-name"@, "device_name"@)),
                ),
            ]);
        } else if sub == Sub::LoginPassword && w.len() >= 3 {
            assert(got =~= seq![
                ("account_id"@, JsonView::Text(w[0])),
                ("username"@, JsonView::Text(w[1])),
                ("password"@, JsonView::Text(w[2])),
                (
                    "device_name"@,
                    or_null(args::option_value(rest3, "--device-name"@, "device_name"@)),
                ),
            ]);
        } else if sub == Sub::SessionRestore && w.len() >= 1 {
            assert(got =~= seq![("account_id"@, JsonView::Text(w[0]))]);
        }
    }
}

/// The commands about a homeserver's pages and about the list of rooms call their methods
/// with their word.
pub proof fn law_commands_with_one_word(sub: Sub, words: Vec<String>, r: CtlStep)
    requires
        call_ensures(ctl::start, (sub, words), r),
        words@.len() >= 1,
    ensures
        ({
            let first = words@[0]@;
            &&& sub == Sub::LoginFlows ==> calls(
                r@,
                "matrix.login_flows"@,
                seq![("homeserver"@, JsonView::Text(first))],
            )
            &&& sub == Sub::Capabilities ==> calls(
                r@,
                "matrix.capabilities"@,
                seq![("homeserver"@, JsonView::Text(first))],
            )
            &&& sub == Sub::RoomList ==> calls(
                r@,
                "room.list"@,
                seq![("account_id"@, JsonView::Text(first))],
            )
        }),
{
    let first = words@[0]@;
    assert(text::texts(words@)[0] == first);
    if sub == Sub::LoginFlows || sub == Sub::Capabilities {
        assert(r@->Call_params->0->Object_0 =~= seq![("homeserver"@, JsonView::Text(first))]);
    } else if sub == Sub::RoomList {
        assert(r@->Call_params->0->Object_0 =~= seq![("account_id"@, JsonView::Text(first))]);
    }
}

/// A subscription is asked for of the account that is named, from the cursor that is named,
/// and with a snapshot unless the words say no.
pub proof fn law_subscribe_command(words: Vec<String>, r: CtlStep)
    requires
        call_ensures(ctl::start, (Sub::Subscribe, words), r),
        words@.len() >= 1,
    ensures
        ({
            let w = text::texts(words@);
            let rest = w.drop_first();
            let others = args::without_option(rest, "--since"@, "since"@);
            let members = r@->Subscribe_0->Object_0;
            &&& r@ is Subscribe && r@->Subscribe_0 is Object
            &&& members.len() == 3
            &&& members[0] == ("account_id"@, JsonView::Text(w[0]))
            &&& members[1] == ("since"@, or_null(args::option_value(rest, "--since"@, "since"@)))
            &&& members[2].0 == "snapshot"@ && members[2].1 is Bool
            &&& others.contains("--no-snapshot"@) ==> members[2].1 == JsonView::Bool(false)
            &&& !others.contains("--no-snapshot"@) && others.contains("--snapshot"@)
                ==> members[2].1 == JsonView::Bool(true)
            &&& !others.contains("--no-snapshot"@) && !others.contains("--snapshot"@) && (
            forall|i: int| !#[trigger] stands_behind(others, "snapshot"@, i)) ==> members[2].1
                == JsonView::Bool(true)
            &&& forall|i: int|
                !others.contains("--no-snapshot"@) && !others.contains("--snapshot"@)
                    && #[trigger] stands_behind(others, "snapshot"@, i) ==> members[2].1
                    == JsonView::Bool(others[i + 1] != "false"@)
        }),
{
    let w = text::texts(words@);
    let others = args::without_option(w.drop_first(), "--since"@, "since"@);
    args::lemma_word_place(others, "snapshot"@);
    let at = args::word_place(others, "snapshot"@) as int;
    let last = r@->Subscribe_0->Object_0[2].1;
    if at + 1 < others.len() {
        assert(stands_behind(others, "snapshot"@, at));
    }
    assert forall|i: int|
        !others.contains("--no-snapshot"@) && !others.contains("--snapshot"@)
            && #[trigger] stands_behind(others, "snapshot"@, i) implies last == JsonView::Bool(
        others[i + 1] != "false"@,
    ) by {
        if at < i {
            assert(others[at] != "snapshot"@);
        } else if at > i {
            assert(others[i] != "snapshot"@);
        }
    }
}

/// Messages are read of the room that is named, as many and from where the words say, or of
/// a room that is chosen from the account's rooms where none is named.
pub proof fn law_messages_command(words: Vec<String>, r: CtlStep)
    requires
        call_ensures(ctl::start, (Sub::RoomMessages, words), r),
    ensures
        ({
            let w = text::texts(words@);
            let plain = args::without_word(w, "--debug"@);
            let unlimited = args::without_option(plain, "--limit"@, "limit"@);
            let left = args::without_option(unlimited, "--from"@, "from"@);
            let limit = args::option_value(plain, "--limit"@, "limit"@);
            let number = match limit {
                Some(v) => text::parse_up_to(v, usize::MAX as nat),
                None => None,
            };
            let from = args::option_value(unlimited, "--from"@, "from"@);
            let debug = w.contains("--debug"@);
            &&& left.len() >= 2 ==> {
                let room = seq![
                    ("account_id"@, JsonView::Text(left[0])),
                    ("room_id"@, JsonView::Text(left[1])),
                ];
                let limited = if number is Some {
                    room.push(("limit"@, JsonView::Unsigned(number->0 as u64)))
                } else {
                    room
                };
                let members = if from is Some {
                    limited.push(("from"@, JsonView::Text(from->0)))
                } else {
                    limited
                };
                r@ == (StepView::Call {
                    method: "room.messages"@,
                    params: Some(JsonView::Object(members)),
                    waiting: WaitView::MessagesReply { debug },
                })
            }
            &&& left.len() == 1 ==> {
                &&& r@ is Call && r@->Call_method == "room.list"@
                &&& r@->Call_params == Some(
                    JsonView::Object(seq![("account_id"@, JsonView::Text(left[0]))]),
                )
                &&& r@->Call_waiting is Rooms
                &&& r@->Call_waiting->Rooms_account_id == left[0]
                &&& r@->Call_waiting->Rooms_target is Messages
                &&& r@->Call_waiting->Rooms_target->Messages_0.from == from
                &&& r@->Call_waiting->Rooms_target->Messages_0.debug == debug
                &&& r@->Call_waiting->Rooms_target->Messages_0.limit is Some == number is Some
                &&& number is Some ==> r@->Call_waiting->Rooms_target->Messages_0.limit->0
                    == number->0
            }
            &&& left.len() == 0 ==> r@ is Prompt && r@->Prompt_label == "account_id"@
        }),
{
    let w = text::texts(words@);
    let plain = args::without_word(w, "--debug"@);
    let unlimited = args::without_option(plain, "--limit"@, "limit"@);
    let left = args::without_option(unlimited, "--from"@, "from"@);
    let from = args::option_value(unlimited, "--from"@, "from"@);
    let limit = args::option_value(plain, "--limit"@, "limit"@);
    let number = match limit {
        Some(v) => text::parse_up_to(v, usize::MAX as nat),
        None => None,
    };
    assert(number is Some ==> number->0 <= usize::MAX);
    if left.len() >= 2 {
        let room = seq![
            ("account_id"@, JsonView::Text(left[0])),
            ("room_id"@, JsonView::Text(left[1])),
        ];
        let limited = if number is Some {
            room.push(("limit"@, JsonView::Unsigned(number->0 as u64)))
        } else {
            room
        };
        let members = if from is Some {
            limited.push(("from"@, JsonView::Text(from->0)))
        } else {
            limited
        };
        assert(r@->Call_params->0->Object_0 =~= members);
    } else if left.len() == 1 {
        assert(r@->Call_params->0->Object_0 =~= seq![("account_id"@, JsonView::Text(left[0]))]);
    }
}

/// Whether a step sends a message: to that room, with those words and that id.
pub open spec fn sends(
    step: StepView,
    account_id: Seq<char>,
    room_id: Seq<char>,
    body: Seq<char>,
    txn_id: Option<Seq<char>>,
) -> bool {
    calls(
        step,
        "room.send"@,
        seq![
            ("account_id"@, JsonView::Text(account_id)),
            ("room_id"@, JsonView::Text(room_id)),
            ("body"@, JsonView::Text(body)),
            ("txn_id"@, or_null(txn_id)),
        ],
    )
}

proof fn lemma_sends(
    account_id: Seq<char>,
    room_id: Seq<char>,
    body: Seq<char>,
    txn_id: Option<Seq<char>>,
)
    ensures
        sends(ctl::send_call(account_id, room_id, body, txn_id), account_id, room_id, body, txn_id),
{
    assert(ctl::send_call(
        account_id,
        room_id,
        body,
        txn_id,
    )->Call_params->0->Object_0 =~= seq![
        ("account_id"@, JsonView::Text(account_id)),
        ("room_id"@, JsonView::Text(room_id)),
        ("body"@, JsonView::Text(body)),
        ("txn_id"@, or_null(txn_id)),
    ]);
}

/// A message is sent to the room that is named, with the words behind it and the id that
/// the option names; without words its body is asked for, and without a room that is.
pub proof fn law_send_command(words: Vec<String>, r: CtlStep)
    requires
        call_ensures(ctl::start, (Sub::RoomSend, words), r),
    ensures
        ({
            let w = text::texts(words@);
            let behind = w.drop_first().drop_first();
            let body = args::without_option(behind, "--txn-id"@, "txn_id"@);
            let txn_id = args::option_value(behind, "--txn-id"@, "txn_id"@);
            &&& w.len() >= 2 && body.len() > 0 ==> sends(
                r@,
                w[0],
                w[1],
                text::joined(body, " "@),
                txn_id,
            )
            &&& w.len() >= 2 && body.len() == 0 ==> {
                &&& r@ is Prompt && r@->Prompt_label == "body"@
                &&& r@->Prompt_waiting == (WaitView::Body {
                    account_id: w[0],
                    room_id: w[1],
                    txn_id,
                })
            }
            &&& w.len() == 1 ==> {
                &&& r@ is Call && r@->Call_method == "room.list"@
                &&& r@->Call_params == Some(
                    JsonView::Object(seq![("account_id"@, JsonView::Text(w[0]))]),
                )
                &&& r@->Call_waiting == (WaitView::Rooms {
                    target: TargetView::Send,
                    account_id: w[0],
                })
            }
            &&& w.len() == 0 ==> r@ is Prompt && r@->Prompt_label == "account_id"@
        }),
{
    let w = text::texts(words@);
    let behind = w.drop_first().drop_first();
    let body = args::without_option(behind, "--txn-id"@, "txn_id"@);
    let txn_id = args::option_value(behind, "--txn-id"@, "txn_id"@);
    if w.len() >= 2 {
        lemma_sends(w[0], w[1], text::joined(body, " "@), txn_id);
    } else if w.len() == 1 {
        assert(r@->Call_params->0->Object_0 =~= seq![("account_id"@, JsonView::Text(w[0]))]);
    }
}

/// The parameters of a call about the things of a user: those of oneself are meant where no
/// user is named.
pub open spec fn of_user(account_id: Seq<char>, user: Seq<char>) -> JsonView {
    if user == "me"@ || user == "self"@ {
        JsonView::Object(seq![("account_id"@, JsonView::Text(account_id))])
    } else {
        JsonView::Object(
            seq![
                ("account_id"@, JsonView::Text(account_id)),
                ("user_id"@, JsonView::Text(user)),
            ],
        )
    }
}

proof fn lemma_of_user(account_id: Seq<char>, user: Seq<char>)
    ensures
        ctl::user_params(account_id, user) == of_user(account_id, user),
{
    assert(ctl::user_params(account_id, user)->Object_0 =~= of_user(account_id, user)->Object_0);
}

/// Whether a step asks for a verification of that user and device.
pub open spec fn asks_for(
    step: StepView,
    account_id: Seq<char>,
    user: Seq<char>,
    device_id: Option<Seq<char>>,
) -> bool {
    calls(
        step,
        "matrix.verification.request"@,
        seq![
            ("account_id"@, JsonView::Text(account_id)),
            ("user_id"@, JsonView::Text(user)),
            ("device_id"@, or_null(device_id)),
        ],
    )
}

proof fn lemma_asks_for(account_id: Seq<char>, user: Seq<char>, device_id: Option<Seq<char>>)
    ensures
        asks_for(ctl::request_call(account_id, user, device_id), account_id, user, device_id),
{
    assert(ctl::request_call(account_id, user, device_id)->Call_params->0->Object_0 =~= seq![
        ("account_id"@, JsonView::Text(account_id)),
        ("user_id"@, JsonView::Text(user)),
        ("device_id"@, or_null(device_id)),
    ]);
}

/// A verification is asked for of the user and the device that are named; where no device
/// is, the user's devices are listed to choose from.
pub proof fn law_request_command(words: Vec<String>, r: CtlStep)
    requires
        call_ensures(ctl::start, (Sub::Request, words), r),
        words@.len() >= 2,
    ensures
        ({
            let w = text::texts(words@);
            let device = args::option_value(
                w.drop_first().drop_first(),
                "--device-id"@,
                "device_id"@,
            );
            &&& device is Some ==> asks_for(r@, w[0], w[1], device)
            &&& device is None ==> r@ == (StepView::Call {
                method: "matrix.devices.list"@,
                params: Some(of_user(w[0], w[1])),
                waiting: WaitView::Devices { account_id: w[0], user_id: w[1] },
            })
        }),
{
    let w = text::texts(words@);
    let device = args::option_value(w.drop_first().drop_first(), "--device-id"@, "device_id"@);
    lemma_asks_for(w[0], w[1], device);
    lemma_of_user(w[0], w[1]);
}

/// The method that is called for a use of a verification.
pub open spec fn method_for(purpose: FlowUse) -> Seq<char> {
    match purpose {
        FlowUse::Accept => "matrix.verification.accept"@,
        FlowUse::Confirm => "matrix.verification.confirm"@,
        FlowUse::Cancel => "matrix.verification.cancel"@,
    }
}

/// Whether a step does with a verification what it is for: it is accepted or cancelled at
/// once; whether the strings match is said at once where the words say it, and else asked.
pub open spec fn uses_flow(
    step: StepView,
    purpose: FlowUse,
    account_id: Seq<char>,
    user: Seq<char>,
    flow_id: Seq<char>,
    said: Option<Seq<char>>,
) -> bool {
    let members = seq![
        ("account_id"@, JsonView::Text(account_id)),
        ("user_id"@, JsonView::Text(user)),
        ("flow_id"@, JsonView::Text(flow_id)),
    ];
    &&& purpose == FlowUse::Accept || purpose == FlowUse::Cancel ==> calls(
        step,
        method_for(purpose),
        members,
    )
    &&& purpose == FlowUse::Confirm && said is Some ==> calls(
        step,
        "matrix.verification.confirm"@,
        members.push(("match"@, JsonView::Bool(said->0 != "false"@))),
    )
    &&& purpose == FlowUse::Confirm && said is None ==> {
        &&& step is Prompt && step->Prompt_before.len() == 0
        &&& step->Prompt_label == "Do they match? (y/n)"@
        &&& step->Prompt_waiting == (WaitView::YesNo { account_id, user_id: user, flow_id })
    }
}

proof fn lemma_uses_flow(
    purpose: FlowUse,
    account_id: Seq<char>,
    user: Seq<char>,
    flow_id: Seq<char>,
    rest: Seq<Seq<char>>,
)
    ensures
        uses_flow(
            ctl::flow_known(purpose, account_id, user, flow_id, rest),
            purpose,
            account_id,
            user,
            flow_id,
            args::option_value(rest, "--match"@, "match"@),
        ),
{
    let step = ctl::flow_known(purpose, account_id, user, flow_id, rest);
    let said = args::option_value(rest, "--match"@, "match"@);
    let members = seq![
        ("account_id"@, JsonView::Text(account_id)),
        ("user_id"@, JsonView::Text(user)),
        ("flow_id"@, JsonView::Text(flow_id)),
    ];
    assert(ctl::flow_params(account_id, user, flow_id)->Object_0 =~= members);
    if purpose == FlowUse::Confirm && said is Some {
        assert(step->Call_params->0->Object_0 =~= members.push(
            ("match"@, JsonView::Bool(said->0 != "false"@)),
        ));
    }
}

/// The commands on a verification act on the one that is named, of the account and the user
/// that are named; where none is named, those of the user are listed to choose from.
pub proof fn law_flow_commands(sub: Sub, purpose: FlowUse, words: Vec<String>, r: CtlStep)
    requires
        call_ensures(ctl::start, (sub, words), r),
        words@.len() >= 2,
        (sub == Sub::Accept && purpose == FlowUse::Accept) || (sub == Sub::Confirm && purpose
            == FlowUse::Confirm) || (sub == Sub::Cancel && purpose == FlowUse::Cancel),
    ensures
        ({
            let w = text::texts(words@);
            let behind = w.drop_first().drop_first();
            &&& w.len() > 2 ==> uses_flow(
                r@,
                purpose,
                w[0],
                w[1],
                w[2],
                args::option_value(behind.drop_first(), "--match"@, "match"@),
            )
            &&& w.len() == 2 ==> r@ == (StepView::Call {
                method: "matrix.verification.list"@,
                params: Some(of_user(w[0], w[1])),
                waiting: WaitView::Flows { purpose, account_id: w[0], user_id: w[1] },
            })
        }),
{
    let w = text::texts(words@);
    let behind = w.drop_first().drop_first();
    lemma_of_user(w[0], w[1]);
    if w.len() > 2 {
        lemma_uses_flow(purpose, w[0], w[1], w[2], behind.drop_first());
    }
}

/// The words that a command needs.
pub open spec fn needs(sub: Sub) -> Seq<Seq<char>> {
    if sub == Sub::Ping || sub == Sub::Version || sub == Sub::AccountList || sub
        == Sub::Unsubscribe {
        Seq::empty()
    } else if sub == Sub::AccountAdd || sub == Sub::LoginFlows || sub == Sub::Capabilities {
        seq!["homeserver"@]
    } else if sub == Sub::LoginComplete {
        seq!["account_id"@, "token"@]
    } else if sub == Sub::LoginPassword {
        seq!["account_id"@, "username"@, "password"@]
    } else if sub == Sub::Request || sub == Sub::Accept || sub == Sub::Confirm || sub
        == Sub::Cancel {
        seq!["account_id"@, "user_id"@]
    } else {
        seq!["account_id"@]
    }
}

/// A command that lacks a word asks for it by its name and keeps those that it has; once it
/// is typed it goes on as if it had been there.
pub proof fn law_missing_words_are_asked_for(sub: Sub, words: Vec<String>, r: CtlStep)
    requires
        call_ensures(ctl::start, (sub, words), r),
        sub != Sub::RoomMessages,
        words@.len() < needs(sub).len(),
    ensures
        r@ is Prompt && r@->Prompt_before.len() == 0,
        r@->Prompt_label == needs(sub)[words@.len() as int],
        r@->Prompt_waiting is Args,
        r@->Prompt_waiting->Args_sub == sub,
        r@->Prompt_waiting->Args_words == text::texts(words@),
        forall|value: Seq<char>, small: Seq<char>|
            #[trigger] ctl::value_taken(r@->Prompt_waiting, value, small) == ctl::started(
                sub,
                text::texts(words@).push(value),
            ),
{
    assert(ctl::arg_names(sub) =~= needs(sub));
}

/// An answer is taken without the white space around it; where nothing is left it is asked
/// for again, and where the input has ended the command fails for want of it.
pub proof fn law_answers_are_taken(waiting: Waiting, line: Option<String>, r: CtlStep)
    requires
        call_ensures(ctl::answered, (waiting, line), r),
    ensures
        line is None ==> r@ == StepView::Fail("missing "@ + ctl::label_of(waiting@)),
        line is Some && text::trimmed(line->0@).len() == 0 ==> {
            &&& r@ is Prompt && r@->Prompt_before.len() == 0
            &&& r@->Prompt_label == ctl::label_of(waiting@)
            &&& r@->Prompt_waiting == waiting@
        },
        line is Some && text::trimmed(line->0@).len() > 0 ==> r@ == ctl::value_taken(
            waiting@,
            text::trimmed(line->0@),
            text::lowercase(text::trimmed(line->0@)),
        ),
{
}

/// The number that a word is, where it is one that counts an item of the list.
pub open spec fn picks(list: Seq<JsonView>, value: Seq<char>) -> Option<JsonView> {
    match text::parse_up_to(value, usize::MAX as nat) {
        None => None,
        Some(n) => if n < list.len() {
            Some(list[n as int])
        } else {
            None
        },
    }
}

/// The text under a key of an object, where there is one.
pub open spec fn held(item: JsonView, key: Seq<char>) -> Option<Seq<char>> {
    match item.get(key) {
        Some(JsonView::Text(t)) => Some(t),
        _ => None,
    }
}

/// Whether a question is asked again, with that in front.
pub open spec fn asks_again(step: StepView, waiting: WaitView, before: Seq<char>) -> bool {
    step is Prompt && step->Prompt_before == seq![before] && step->Prompt_waiting == waiting
}

/// What the user picks from a list is what is gone on with: the room, the device or the
/// verification with that number. A word that is no such number is asked for again.
pub proof fn law_picked_items_are_used(waiting: WaitView, value: Seq<char>, small: Seq<char>)
    ensures
        ({
            let next = ctl::value_taken(waiting, value, small);
            &&& waiting is RoomChoice ==> {
                let item = picks(waiting->RoomChoice_list, value);
                let account_id = waiting->RoomChoice_account_id;
                &&& item is None ==> asks_again(next, waiting, "invalid selection"@)
                &&& item is Some && held(item->0, "room_id"@) is None ==> next == StepView::Fail(
                    "missing room_id"@,
                )
                &&& item is Some && held(item->0, "room_id"@) is Some
                    && waiting->RoomChoice_target is Send ==> {
                    &&& next is Prompt && next->Prompt_label == "body"@
                    &&& next->Prompt_waiting == (WaitView::Body {
                        account_id,
                        room_id: held(item->0, "room_id"@)->0,
                        txn_id: None,
                    })
                }
                &&& item is Some && held(item->0, "room_id"@) is Some
                    && waiting->RoomChoice_target is Messages ==> {
                    let options = waiting->RoomChoice_target->Messages_0;
                    &&& next is Call && next->Call_method == "room.messages"@
                    &&& next->Call_params is Some && next->Call_params->0 is Object
                    &&& next->Call_params->0->Object_0[0] == (
                        "account_id"@,
                        JsonView::Text(account_id),
                    )
                    &&& next->Call_params->0->Object_0[1] == (
                        "room_id"@,
                        JsonView::Text(held(item->0, "room_id"@)->0),
                    )
                    &&& options.from is Some ==> next->Call_params->0->Object_0.last() == (
                        "from"@,
                        JsonView::Text(options.from->0),
                    )
                    &&& options.limit is Some ==> next->Call_params->0->Object_0[2] == (
                        "limit"@,
                        JsonView::Unsigned(options.limit->0 as u64),
                    )
                }
            }
            &&& waiting is DeviceChoice ==> {
                let item = picks(waiting->DeviceChoice_list, value);
                &&& item is None ==> asks_again(next, waiting, "invalid selection"@)
                &&& item is Some ==> asks_for(
                    next,
                    waiting->DeviceChoice_account_id,
                    waiting->DeviceChoice_user_id,
                    held(item->0, "device_id"@),
                )
            }
            &&& waiting is FlowChoice ==> {
                let item = picks(waiting->FlowChoice_list, value);
                &&& item is None ==> asks_again(next, waiting, "invalid selection"@)
                &&& item is Some && held(item->0, "flow_id"@) is None ==> next == StepView::Fail(
                    "missing flow id"@,
                )
                &&& item is Some && held(item->0, "flow_id"@) is Some ==> uses_flow(
                    next,
                    waiting->FlowChoice_purpose,
                    waiting->FlowChoice_account_id,
                    waiting->FlowChoice_user_id,
                    held(item->0, "flow_id"@)->0,
                    None,
                )
            }
        }),
{
    let none = Seq::<Seq<char>>::empty();
    law_option_values(none, "--match"@, "match"@, 0);
    if waiting is DeviceChoice {
        let item = picks(waiting->DeviceChoice_list, value);
        if item is Some {
            lemma_asks_for(
                waiting->DeviceChoice_account_id,
                waiting->DeviceChoice_user_id,
                held(item->0, "device_id"@),
            );
        }
    }
    if waiting is FlowChoice {
        let item = picks(waiting->FlowChoice_list, value);
        if item is Some && held(item->0, "flow_id"@) is Some {
            lemma_uses_flow(
                waiting->FlowChoice_purpose,
                waiting->FlowChoice_account_id,
                waiting->FlowChoice_user_id,
                held(item->0, "flow_id"@)->0,
                none,
            );
        }
    }
}

/// A body that is typed is sent to the room and with the id that it was asked for; whether
/// the strings match is said as it is answered, and asked again where the answer is neither
/// yes nor no.
pub proof fn law_typed_answers_are_used(waiting: WaitView, value: Seq<char>, small: Seq<char>)
    ensures
        ({
            let next = ctl::value_taken(waiting, value, small);
            &&& waiting is Body ==> sends(
                next,
                waiting->Body_account_id,
                waiting->Body_room_id,
                value,
                waiting->Body_txn_id,
            )
            &&& waiting is YesNo && (small == "y"@ || small == "yes"@) ==> uses_flow(
                next,
                FlowUse::Confirm,
                waiting->YesNo_account_id,
                waiting->YesNo_user_id,
                waiting->YesNo_flow_id,
                Some("true"@),
            )
            &&& waiting is YesNo && (small == "n"@ || small == "no"@) ==> uses_flow(
                next,
                FlowUse::Confirm,
                waiting->YesNo_account_id,
                waiting->YesNo_user_id,
                waiting->YesNo_flow_id,
                Some("false"@),
            )
            &&& waiting is YesNo && small != "y"@ && small != "yes"@ && small != "n"@ && small
                != "no"@ ==> asks_again(next, waiting, "please answer y/n"@)
        }),
{
    reveal_strlit("true");
    reveal_strlit("false");
    reveal_strlit("y");
    reveal_strlit("yes");
    reveal_strlit("n");
    reveal_strlit("no");
    assert("true"@.len() == 4 && "false"@.len() == 5);
    assert("y"@.len() == 1 && "n"@.len() == 1 && "y"@[0] == 'y' && "n"@[0] == 'n');
    assert("yes"@.len() == 3 && "no"@.len() == 2);
    if waiting is Body {
        lemma_sends(waiting->Body_account_id, waiting->Body_room_id, value, waiting->Body_txn_id);
    }
    if waiting is YesNo {
        let members = seq![
            ("account_id"@, JsonView::Text(waiting->YesNo_account_id)),
            ("user_id"@, JsonView::Text(waiting->YesNo_user_id)),
            ("flow_id"@, JsonView::Text(waiting->YesNo_flow_id)),
        ];
        let next = ctl::value_taken(waiting, value, small);
        if next is Call {
            let answer = small == "y"@ || small == "yes"@;
            assert(next->Call_params->0->Object_0 =~= members.push(
                ("match"@, JsonView::Bool(answer)),
            ));
        }
    }
}

/// A reply that is only to be shown is shown as it is; a call that failed fails the command,
/// and so does a reply that is no JSON where its value matters.
pub proof fn law_replies_are_taken(waiting: Waiting, reply: Result<String, String>, r: CtlStep)
    requires
        call_ensures(ctl::replied, (waiting, reply), r),
    ensures
        reply is Err ==> r@ == StepView::Fail(reply->Err_0@),
        reply is Ok && waiting@ is Reply ==> r@ == StepView::Done(seq![reply->Ok_0@]),
        reply is Ok && !(waiting@ is Reply) ==> match json::json_read(reply->Ok_0@) {
            Err(err) => r@ == StepView::Fail("invalid json response: "@ + err),
            Ok(value) => r@ == ctl::value_replied(waiting@, value),
        },
{
}

/// The items of the array under a key, or none.
pub open spec fn items_under(value: JsonView, key: Seq<char>) -> Seq<JsonView> {
    match value.get(key) {
        Some(JsonView::Array(items)) => items,
        _ => Seq::empty(),
    }
}

/// Whether a step shows every item of a list, one line each, and asks to pick one of them.
pub open spec fn offers_list(
    step: StepView,
    waiting: WaitView,
    count: nat,
    label: Seq<char>,
) -> bool {
    &&& step is Prompt
    &&& step->Prompt_before.len() == count
    &&& step->Prompt_label == label
    &&& step->Prompt_waiting == waiting
}

/// A list of rooms, devices or verifications that came in reply is shown in full to pick
/// from, and the items are kept to be picked from; an empty one fails the command. The only
/// verification there is is used at once.
pub proof fn law_lists_are_offered(waiting: WaitView, value: JsonView)
    ensures
        ({
            let next = ctl::value_replied(waiting, value);
            let list = items_under(value, "result"@);
            let rooms = match value.get("result"@) {
                Some(result) => items_under(result, "rooms"@),
                None => Seq::empty(),
            };
            &&& waiting is Rooms && rooms.len() == 0 ==> next == StepView::Fail("no rooms found"@)
            &&& waiting is Rooms && rooms.len() > 0 ==> {
                &&& offers_list(
                    next,
                    WaitView::RoomChoice {
                        target: waiting->Rooms_target,
                        account_id: waiting->Rooms_account_id,
                        list: rooms,
                    },
                    rooms.len(),
                    "Select room"@,
                )
                &&& forall|i: int|
                    0 <= i < rooms.len() ==> #[trigger] next->Prompt_before[i]
                        == text::decimal(i as nat) + ": "@ + (match held(rooms[i], "name"@) {
                        Some(name) => name,
                        None => "unnamed"@,
                    }) + " ("@ + (match held(rooms[i], "room_id"@) {
                        Some(id) => id,
                        None => "unknown"@,
                    }) + ")"@
            }
            &&& waiting is Devices && list.len() == 0 ==> next == StepView::Fail(
                "no devices found"@,
            )
            &&& waiting is Devices && list.len() > 0 ==> offers_list(
                next,
                WaitView::DeviceChoice {
                    account_id: waiting->Devices_account_id,
                    user_id: waiting->Devices_user_id,
                    list,
                },
                list.len(),
                "Select device"@,
            )
            &&& waiting is Flows && list.len() == 0 ==> next == StepView::Fail(
                "no active verification flows"@,
            )
            &&& waiting is Flows && list.len() == 1 && held(list[0], "flow_id"@) is Some
                ==> uses_flow(
                next,
                waiting->Flows_purpose,
                waiting->Flows_account_id,
                waiting->Flows_user_id,
                held(list[0], "flow_id"@)->0,
                None,
            )
            &&& waiting is Flows && list.len() == 1 && held(list[0], "flow_id"@) is None ==> next
                == StepView::Fail("missing flow id"@)
            &&& waiting is Flows && list.len() > 1 ==> offers_list(
                next,
                WaitView::FlowChoice {
                    purpose: waiting->Flows_purpose,
                    account_id: waiting->Flows_account_id,
                    user_id: waiting->Flows_user_id,
                    list,
                },
                list.len(),
                "Select verification flow"@,
            )
        }),
{
    let none = Seq::<Seq<char>>::empty();
    law_option_values(none, "--match"@, "match"@, 0);
    let list = items_under(value, "result"@);
    if waiting is Flows && list.len() == 1 && held(list[0], "flow_id"@) is Some {
        lemma_uses_flow(
            waiting->Flows_purpose,
            waiting->Flows_account_id,
            waiting->Flows_user_id,
            held(list[0], "flow_id"@)->0,
            none,
        );
    }
    assert(JsonView::Null.get("rooms"@) is None);
}

/// A device in a list shows its number, its name where it has one, its id, and whether it is
/// verified; a verification shows its number, its short id, its user, its device where it
/// has one, and how far it has come.
pub proof fn law_devices_and_flows_are_shown(index: nat, item: JsonView)
    ensures
        ({
            let text = |key: Seq<char>, other: Seq<char>|
                match held(item, key) {
                    Some(t) => t,
                    None => other,
                };
            let name = text("display_name"@, ""@);
            let device = text("device_id"@, ""@);
            let mark = if item.get("is_verified"@) == Some(JsonView::Bool(true)) {
                " (verified)"@
            } else {
                ""@
            };
            &&& name.len() > 0 ==> ctl_text::device_label(index, item) == text::decimal(index)
                + ": "@ + name + " ("@ + text("device_id"@, "unknown"@) + ")"@ + mark
            &&& name.len() == 0 ==> ctl_text::device_label(index, item) == text::decimal(index)
                + ": "@ + text("device_id"@, "unknown"@) + mark
            &&& device.len() > 0 ==> ctl_text::flow_label(index, item) == text::decimal(index)
                + ": "@ + text("short_id"@, "flow"@) + " "@ + text("user_id"@, "unknown"@) + " "@
                + device + " ("@ + text("stage"@, "unknown"@) + ")"@
            &&& device.len() == 0 ==> ctl_text::flow_label(index, item) == text::decimal(index)
                + ": "@ + text("short_id"@, "flow"@) + " "@ + text("user_id"@, "unknown"@)
                + " ("@ + text("stage"@, "unknown"@) + ")"@
        }),
{
}

/// The event that a message is about: the one inside it, or itself.
pub open spec fn inner_event(item: JsonView) -> JsonView {
    match item.get("event"@) {
        Some(event) => if event is Object {
            event
        } else {
            item
        },
        None => item,
    }
}

/// Whether a message has words to show: it is of a kind of text, or a room's message with a
/// body.
pub open spec fn has_words(item: JsonView) -> bool {
    let event = inner_event(item);
    let content = match event.get("content"@) {
        Some(c) => c,
        None => JsonView::Null,
    };
    let kind = held(content, "msgtype"@);
    &&& held(event, "event_id"@) is Some
    &&& kind == Some("m.text"@) || kind == Some("m.notice"@) || kind == Some("m.emote"@) || (held(
        event,
        "type"@,
    ) == Some("m.room.message"@) && held(content, "body"@) is Some)
}

/// A message with words shows its sender, its id and its body; any other event shows that
/// it is none, and of what type.
pub proof fn law_messages_are_shown(item: JsonView)
    ensures
        ({
            let event = inner_event(item);
            let content = match event.get("content"@) {
                Some(c) => c,
                None => JsonView::Null,
            };
            let sender = match held(event, "sender"@) {
                Some(s) => s,
                None => "unknown"@,
            };
            let body = match held(content, "body"@) {
                Some(b) => b,
                None => ""@,
            };
            let kind = match held(event, "type"@) {
                Some(t) => t,
                None => "unknown"@,
            };
            &&& has_words(item) ==> ctl_text::item_line(item) == sender + " "@ + held(
                event,
                "event_id"@,
            )->0 + " "@ + body
            &&& !has_words(item) ==> ctl_text::item_line(item) == "<non-text event: "@ + kind
                + ">"@
        }),
{
}

/// Whether the lines of a page show a message for debugging: its text in front, where it is
/// one of the first three, and the message itself.
pub open spec fn shows_debugged(lines: Seq<Seq<char>>, index: int, item: JsonView) -> bool {
    if index < 3 {
        &&& lines.len() > 2 * index + 1
        &&& lines[2 * index] == "debug event "@ + text::decimal((index + 1) as nat) + ": "@
            + json::json_written(item)
        &&& lines[2 * index + 1] == ctl_text::item_line(item)
    } else {
        lines.len() > index + 3 && lines[index + 3] == ctl_text::item_line(item)
    }
}

/// A page of messages is shown in order, one line for each, and no message is left out; for
/// debugging the first three have a line with their text in front. An empty page says so.
pub proof fn law_pages_are_shown(items: Seq<JsonView>)
    ensures
        items.len() == 0 ==> ctl_text::messages_lines(items, true) == seq!["(no messages)"@]
            && ctl_text::messages_lines(items, false) == seq!["(no messages)"@],
        items.len() > 0 ==> ctl_text::messages_lines(items, false) == items.map_values(
            |item: JsonView| ctl_text::item_line(item),
        ),
        items.len() > 0 ==> ctl_text::messages_lines(items, true).len() == items.len() + (
        if items.len() < 3 {
            items.len()
        } else {
            3
        }),
        forall|i: int|
            0 <= i < items.len() ==> shows_debugged(
                ctl_text::messages_lines(items, true),
                i,
                #[trigger] items[i],
            ),
{
    lemma_chunk(items);
}

proof fn lemma_chunk(items: Seq<JsonView>)
    ensures
        ctl_text::chunk_lines(items, false) == items.map_values(
            |item: JsonView| ctl_text::item_line(item),
        ),
        ctl_text::chunk_lines(items, true).len() == items.len() + (if items.len() < 3 {
            items.len()
        } else {
            3
        }),
        forall|i: int|
            0 <= i < items.len() ==> shows_debugged(
                ctl_text::chunk_lines(items, true),
                i,
                #[trigger] items[i],
            ),
    decreases items.len(),
{
    if items.len() > 0 {
        let front = items.drop_last();
        lemma_chunk(front);
        let lines = ctl_text::chunk_lines(items, true);
        assert forall|i: int| 0 <= i < items.len() implies shows_debugged(
            lines,
            i,
            #[trigger] items[i],
        ) by {
            if i < front.len() {
                assert(front[i] == items[i]);
                assert(shows_debugged(ctl_text::chunk_lines(front, true), i, front[i]));
            }
        }
        assert(ctl_text::chunk_lines(items, false) =~= items.map_values(
            |item: JsonView| ctl_text::item_line(item),
        ));
    } else {
        assert(ctl_text::chunk_lines(items, false) =~= items.map_values(
            |item: JsonView| ctl_text::item_line(item),
        ));
    }
}

/// A reply with messages shows them, and says what is missing where there are none.
pub proof fn law_message_replies_are_shown(debug: bool, value: JsonView)
    ensures
        ({
            let next = ctl::value_replied(WaitView::MessagesReply { debug }, value);
            match value.get("result"@) {
                None => next == StepView::Fail("room.messages: missing result"@),
                Some(result) => match result.get("chunk"@) {
                    Some(JsonView::Array(items)) => next == StepView::Done(
                        ctl_text::messages_lines(items, debug),
                    ),
                    _ => next == StepView::Fail("room.messages: missing chunk"@),
                },
            }
        }),
{
}

/// A call is sent as a request of the right version with the method and its parameters, and
/// null where there are none; a reply is shown without the end of its line, and an event
/// with its mark in front.
pub proof fn law_calls_are_sent(
    method: &str,
    params: Option<Json>,
    line: String,
    got: &str,
    reply: String,
    event: String,
)
    requires
        call_ensures(ctl::call_line, (method, params), line),
        call_ensures(ctl::reply_text, (got,), reply),
        call_ensures(ctl::event_text, (got,), event),
    ensures
        rpc_laws::writes(
            line@,
            JsonView::Object(
                seq![
                    ("jsonrpc"@, JsonView::Text("2.0"@)),
                    ("id"@, JsonView::Unsigned(1)),
                    ("method"@, JsonView::Text(method@)),
                    (
                        "params"@,
                        match params {
                            Some(p) => p@,
                            None => JsonView::Null,
                        },
                    ),
                ],
            ),
        ),
        reply@ == text::trim_end(got@),
        event@ == "event "@ + text::trim_end(got@),
{
    let call = ctl::call_json(method@, json::opt_view(params));
    assert(call->Object_0 =~= seq![
        ("jsonrpc"@, JsonView::Text("2.0"@)),
        ("id"@, JsonView::Unsigned(1)),
        ("method"@, JsonView::Text(method@)),
        (
            "params"@,
            match params {
                Some(p) => p@,
                None => JsonView::Null,
            },
        ),
    ]);
}

/// A command waits for the user where a question is open, and for a reply where none is.
pub proof fn law_who_is_waited_for(waiting: Waiting, asking: bool)
    requires
        call_ensures(ctl::is_asking, (&waiting,), asking),
    ensures
        waiting is RoomChoice || waiting is DeviceChoice || waiting is FlowChoice || waiting is Body
            || waiting is YesNo ==> asking,
        waiting is Reply || waiting is MessagesReply || waiting is Rooms || waiting is Devices
            || waiting is Flows ==> !asking,
        waiting is Args && waiting->Args_sub != Sub::RoomMessages ==> asking == (
        waiting->Args_words@.len() < needs(waiting->Args_sub).len()),
{
    if waiting is Args {
        assert(ctl::arg_names(waiting->Args_sub) =~= needs(waiting->Args_sub));
    }
}

} // verus!
