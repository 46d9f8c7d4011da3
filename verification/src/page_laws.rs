//! What a homeserver's pages are taken for as a whole: where they are asked for, what of
//! them is handed on, and what is said where they fail.

use vstd::prelude::*;

use crate::daemon::{DaemonView, Event, Step};
use crate::fetch;
use crate::fetch::{DecodedView, Endpoint, FetchReply, TextReply};
use crate::json;
use crate::json::JsonView;
use crate::login;
use crate::request_laws;
use crate::requests;
use crate::requests::Params;
use crate::rpc;
use crate::rpc::RpcRequest;
use crate::state::LoginMethod;
use crate::text;

verus! {

/// Whether an address is that of a path at a homeserver, whose trailing slashes do not count.
pub open spec fn is_at(url: Seq<char>, homeserver: Seq<char>, path: Seq<char>) -> bool {
    exists|n: int|
        0 <= n <= homeserver.len() && url == #[trigger] homeserver.take(n) + path && (n > 0
            ==> homeserver[n - 1] != '/') && forall|i: int|
            n <= i < homeserver.len() ==> #[trigger] homeserver[i] == '/'
}

/// A text without its trailing slashes is a beginning of it, ends in none, and what is
/// missing is slashes only.
pub proof fn law_trailing_slashes(s: Seq<char>)
    ensures
        ({
            let n = text::trim_slashes(s).len() as int;
            &&& n <= s.len()
            &&& text::trim_slashes(s) == s.take(n)
            &&& n > 0 ==> s[n - 1] != '/'
            &&& forall|i: int| n <= i < s.len() ==> #[trigger] s[i] == '/'
        }),
    decreases s.len(),
{
    if s.len() > 0 && s.last() == '/' {
        let rest = s.drop_last();
        law_trailing_slashes(rest);
        let n = text::trim_slashes(s).len() as int;
        assert(s.take(n) =~= rest.take(n));
        assert(n > 0 ==> s[n - 1] == rest[n - 1]);
        assert forall|i: int| n <= i < s.len() implies #[trigger] s[i] == '/' by {
            if i < rest.len() {
                assert(rest[i] == s[i]);
            }
        }
    } else {
        assert(s.take(s.len() as int) =~= s);
    }
}

proof fn lemma_trimmed_is_at(homeserver: Seq<char>, path: Seq<char>)
    ensures
        is_at(text::trim_slashes(homeserver) + path, homeserver, path),
{
    law_trailing_slashes(homeserver);
    let n = text::trim_slashes(homeserver).len() as int;
    assert(text::trim_slashes(homeserver) + path == homeserver.take(n) + path);
}

/// The login types and the capabilities of a homeserver stand at their own paths below its
/// address.
pub proof fn law_pages_stand_below_the_homeserver(homeserver: Seq<char>)
    ensures
        is_at(
            fetch::endpoint_url(homeserver, Endpoint::LoginTypes),
            homeserver,
            "/_matrix/client/v3/login"@,
        ),
        is_at(
            fetch::endpoint_url(homeserver, Endpoint::Capabilities),
            homeserver,
            "/_matrix/client/v3/capabilities"@,
        ),
{
    lemma_trimmed_is_at(homeserver, "/_matrix/client/v3/login"@);
    lemma_trimmed_is_at(homeserver, "/_matrix/client/v3/capabilities"@);
}

/// The JSON that a homeserver has answered with, where it has.
pub open spec fn got(reply: FetchReply) -> Option<JsonView> {
    match reply {
        FetchReply::Answered { status, body } => if 200 <= status < 300 && body is Ok {
            match json::json_read_bytes(body->Ok_0@) {
                Ok(value) => Some(value),
                Err(_) => None,
            }
        } else {
            None
        },
        FetchReply::Unreachable(_) => None,
    }
}

/// What is said where a homeserver has not answered with JSON.
pub open spec fn complaint(reply: FetchReply) -> Seq<char> {
    match reply {
        FetchReply::Unreachable(err) => "internal error: "@ + err@,
        FetchReply::Answered { status, body } => if !(200 <= status < 300) {
            "request failed: "@ + fetch::status_shown(status)
        } else if body is Err {
            "internal error: "@ + body->Err_0@
        } else {
            "internal error: "@ + json::json_read_bytes(body->Ok_0@)->Err_0
        },
    }
}

/// What the homeserver's answer is not of the page's type for, if it is not.
pub open spec fn wrong_with(reply: FetchReply, endpoint: Endpoint) -> Option<Seq<char>> {
    let status = reply->Answered_status;
    let body = reply->Answered_body->Ok_0@;
    let decoded = if endpoint == Endpoint::LoginTypes {
        fetch::login_types_decoded(status, body)
    } else {
        fetch::capabilities_decoded(status, body)
    };
    match decoded {
        DecodedView::Fault(err) => Some(err),
        _ => None,
    }
}

/// A homeserver's answer makes a page where it is JSON, and only there; login types are
/// handed on as they came, and so is an answer that is not of its type, with a warning;
/// capabilities of their type are taken out of their wrapping.
pub proof fn law_answers_make_pages(reply: FetchReply, endpoint: Endpoint)
    ensures
        match got(reply) {
            None => fetch::reply_meaning(reply, endpoint) == Err::<fetch::PageView, rpc::ErrorView>(
                rpc::ErrorView { code: -32603, message: complaint(reply) },
            ),
            Some(value) => {
                let page = fetch::reply_meaning(reply, endpoint)->Ok_0;
                &&& fetch::reply_meaning(reply, endpoint) is Ok
                &&& endpoint == Endpoint::LoginTypes ==> page.value == value
                &&& endpoint == Endpoint::Capabilities && wrong_with(reply, endpoint) is None
                    ==> page.value == (match value.get("capabilities"@) {
                    Some(inner) => inner,
                    None => JsonView::Null,
                })
                &&& wrong_with(reply, endpoint) is None ==> page.parse_warning is None
                &&& wrong_with(reply, endpoint) is Some ==> {
                    &&& page.value == value
                    &&& page.parse_warning == Some(
                        "non-spec response; fallback to raw JSON ("@ + wrong_with(
                            reply,
                            endpoint,
                        )->0 + ")"@,
                    )
                }
            },
        },
{
}

/// What is handed on of a page: the homeserver, the page under its own key, and its warning
/// where it has one.
pub open spec fn handed_on(
    key: Seq<char>,
    homeserver: Seq<char>,
    value: JsonView,
    warning: Option<Seq<char>>,
) -> JsonView {
    let plain = seq![("homeserver"@, JsonView::Text(homeserver)), (key, value)];
    match warning {
        None => JsonView::Object(plain),
        Some(words) => JsonView::Object(plain.push(("parse_warning"@, JsonView::Text(words)))),
    }
}

/// A page is handed on member by member.
pub proof fn lemma_handed_on(homeserver: Seq<char>, endpoint: Endpoint, page: fetch::PageView)
    ensures
        fetch::page_json(homeserver, endpoint, page) == handed_on(
            if endpoint == Endpoint::LoginTypes {
                "login"@
            } else {
                "capabilities"@
            },
            homeserver,
            page.value,
            page.parse_warning,
        ),
{
    let key = if endpoint == Endpoint::LoginTypes {
        "login"@
    } else {
        "capabilities"@
    };
    assert(fetch::page_json(homeserver, endpoint, page)->Object_0 =~= handed_on(
        key,
        homeserver,
        page.value,
        page.parse_warning,
    )->Object_0);
}

/// The login types or the capabilities of the homeserver that is named are asked for at the
/// address that was found for it, and the answer names that address and holds the page.
pub proof fn law_pages_are_read_as_asked(
    asked: DaemonView,
    request: RpcRequest,
    params: Params,
    begun: DaemonView,
    first: Step,
    later: DaemonView,
    found: Result<String, String>,
    middle: DaemonView,
    second: Step,
    last: DaemonView,
    reply: FetchReply,
    after: DaemonView,
    s: Step,
)
    requires
        request_laws::asks(request, "matrix.login_flows"@) || request_laws::asks(
            request,
            "matrix.capabilities"@,
        ),
        params is Page,
        requests::handled(asked, request, Some(Ok(params)), begun, first),
        requests::resumed(later, first->Perform_1, Event::Text(found), middle, second),
        found is Ok ==> requests::resumed(
            last,
            second->Perform_1,
            Event::Fetched(reply),
            after,
            s,
        ),
    ensures
        begun == asked && middle == later,
        first is Perform && first->Perform_0 is ResolveHomeserver,
        first->Perform_0->ResolveHomeserver_homeserver@ == params->Page_homeserver@,
        found is Err ==> request_laws::fails(
            second,
            -32603,
            "internal error: "@ + found->Err_0@,
        ),
        found is Ok ==> {
            let flows = request_laws::asks(request, "matrix.login_flows"@);
            let endpoint = if flows {
                Endpoint::LoginTypes
            } else {
                Endpoint::Capabilities
            };
            let path = if flows {
                "/_matrix/client/v3/login"@
            } else {
                "/_matrix/client/v3/capabilities"@
            };
            let key = if flows {
                "login"@
            } else {
                "capabilities"@
            };
            &&& second is Perform && second->Perform_0 is Get
            &&& is_at(second->Perform_0->Get_url@, found->Ok_0@, path)
            &&& after == last
            &&& got(reply) is None ==> request_laws::fails(s, -32603, complaint(reply))
            &&& got(reply) is Some ==> {
                let page = fetch::reply_meaning(reply, endpoint)->Ok_0;
                request_laws::answers(
                    s,
                    handed_on(key, found->Ok_0@, page.value, page.parse_warning),
                )
            }
        },
{
    request_laws::law_names_of_methods();
    if found is Ok {
        law_pages_stand_below_the_homeserver(found->Ok_0@);
        law_answers_make_pages(reply, Endpoint::LoginTypes);
        law_answers_make_pages(reply, Endpoint::Capabilities);
        if got(reply) is Some {
            lemma_handed_on(
                found->Ok_0@,
                Endpoint::LoginTypes,
                fetch::reply_meaning(reply, Endpoint::LoginTypes)->Ok_0,
            );
            lemma_handed_on(
                found->Ok_0@,
                Endpoint::Capabilities,
                fetch::reply_meaning(reply, Endpoint::Capabilities)->Ok_0,
            );
        }
    }
}

/// The page that the plain account server reads holds what its type knows, or the JSON as
/// it came with a warning where it is not of the type; what fails on the way is said.
pub proof fn law_pages_read_as_text(reply: TextReply, endpoint: Endpoint)
    ensures
        ({
            let meaning = fetch::text_meaning(reply, endpoint);
            let failed = |words: Seq<char>|
                meaning == Err::<fetch::PageView, rpc::ErrorView>(
                    rpc::ErrorView { code: -32603, message: words },
                );
            match reply {
                TextReply::Unreachable(err) => failed("request failed: "@ + err@),
                TextReply::Answered { status, body } => if !(200 <= status < 300) {
                    failed("request failed: "@ + fetch::status_shown(status))
                } else {
                    match body {
                        Err(err) => failed("read failed: "@ + err@),
                        Ok(source) => match json::json_read(source@) {
                            Err(err) => failed("invalid json: "@ + err),
                            Ok(value) => {
                                let bytes = vstd::utf8::encode_utf8(source@);
                                let decoded = if endpoint == Endpoint::LoginTypes {
                                    fetch::login_types_decoded(status, bytes)
                                } else {
                                    fetch::capabilities_decoded(status, bytes)
                                };
                                match decoded {
                                    DecodedView::Unwritable(err) => failed(
                                        "encode failed: "@ + err,
                                    ),
                                    DecodedView::Fault(err) => {
                                        &&& meaning is Ok
                                        &&& meaning->Ok_0.value == value
                                        &&& meaning->Ok_0.parse_warning == Some(
                                            "non-spec response; fallback to raw JSON ("@ + err
                                                + ")"@,
                                        )
                                    },
                                    DecodedView::Typed(content) => {
                                        &&& meaning is Ok
                                        &&& meaning->Ok_0.parse_warning is None
                                        &&& meaning->Ok_0.value == (if endpoint
                                            == Endpoint::LoginTypes {
                                            JsonView::Object(seq![("flows"@, content)])
                                        } else {
                                            content
                                        })
                                    },
                                }
                            },
                        },
                    }
                },
            }
        }),
{
    if reply is Answered && reply->Answered_body is Ok {
        let bytes = vstd::utf8::encode_utf8(reply->Answered_body->Ok_0@);
        let decoded = fetch::login_types_decoded(reply->Answered_status, bytes);
        if decoded is Typed {
            assert(JsonView::object().with("flows"@, decoded->Typed_0)->Object_0 =~= seq![
                ("flows"@, decoded->Typed_0),
            ]);
        }
    }
}

/// Whether a homeserver's answer offers a login method: one of its flows is that of a
/// password, or one through a browser.
pub open spec fn offers(answer: JsonView, method: LoginMethod) -> bool {
    &&& answer.get("flows"@) is Some && answer.get("flows"@)->0 is Array
    &&& exists|i: int|
        0 <= i < answer.get("flows"@)->0->Array_0.len() && is_flow_of(
            #[trigger] answer.get("flows"@)->0->Array_0[i],
            method,
        )
}

/// Whether a login flow is one of a method.
pub open spec fn is_flow_of(flow: JsonView, method: LoginMethod) -> bool {
    &&& flow.get("type"@) is Some && flow.get("type"@)->0 is Text
    &&& method == LoginMethod::Password ==> flow.get("type"@)->0->Text_0 == "m.login.password"@
    &&& method == LoginMethod::Sso ==> "m.login.sso"@.is_prefix_of(flow.get("type"@)->0->Text_0)
}

/// The methods that are taken from a homeserver's answer are those that it offers.
pub proof fn law_offered_methods(answer: JsonView, method: LoginMethod)
    ensures
        login::offered(answer).contains(method) <==> offers(answer, method),
{
    reveal_strlit("m.login.password");
    reveal_strlit("m.login.sso");
    assert("m.login.password"@[8] == 'p' && "m.login.sso"@[8] == 's' && "m.login.sso"@.len() == 11);
    if answer.items_at("flows"@) is Some {
        let flows = answer.items_at("flows"@)->0;
        login::law_methods_listed_once(flows);
        assert forall|i: int| 0 <= i < flows.len() implies (login::flow_method(#[trigger] flows[i])
            == Some(method)) == is_flow_of(flows[i], method) by {
            let flow = flows[i];
            if flow.text_at("type"@) is Some {
                let kind = flow.text_at("type"@)->0;
                if "m.login.sso"@.is_prefix_of(kind) {
                    assert("m.login.sso"@[8] == kind.subrange(0, 11)[8]);
                }
            }
        }
        if login::offered(answer).contains(method) {
            let i = choose|i: int|
                0 <= i < flows.len() && login::flow_method(#[trigger] flows[i]) == Some(method);
            assert(is_flow_of(answer.get("flows"@)->0->Array_0[i], method));
        }
        if offers(answer, method) {
            let i = choose|i: int|
                0 <= i < answer.get("flows"@)->0->Array_0.len() && is_flow_of(
                    #[trigger] answer.get("flows"@)->0->Array_0[i],
                    method,
                );
            assert(login::flow_method(flows[i]) == Some(method));
        }
    }
}

proof fn lemma_only_method(answer: JsonView)
    ensures
        login::offered(answer).len() == 1 <==> (offers(answer, LoginMethod::Sso) != offers(
            answer,
            LoginMethod::Password,
        )),
        login::offered(answer).len() == 1 ==> offers(answer, login::offered(answer)[0]),
{
    let all = login::offered(answer);
    law_offered_methods(answer, LoginMethod::Sso);
    law_offered_methods(answer, LoginMethod::Password);
    if answer.items_at("flows"@) is Some {
        login::law_methods_listed_once(answer.items_at("flows"@)->0);
    }
    if all.len() == 1 {
        assert(all.contains(all[0]));
    } else if all.len() == 2 {
        assert(all[0] != all[1]);
        assert(all.contains(all[0]) && all.contains(all[1]));
    }
}

/// The method of a login is the one that was asked for, where it is offered, whatever method
/// the account has; where none was asked for it is the account's own, where that is offered;
/// where the account has none it is the only one that is offered. A method that is not
/// offered is refused, and so is a choice that nothing decides.
pub proof fn law_login_goes_by_what_was_asked(
    requested: Option<LoginMethod>,
    stored: Option<LoginMethod>,
    answer: JsonView,
)
    ensures
        ({
            let chosen = login::start_choice(requested, stored, login::offered(answer));
            let unsupported = Err::<LoginMethod, rpc::ErrorView>(
                rpc::ErrorView { code: -32602, message: "unsupported login method"@ },
            );
            &&& requested is Some && offers(answer, requested->0) ==> chosen == Ok::<
                LoginMethod,
                rpc::ErrorView,
            >(requested->0)
            &&& requested is Some && !offers(answer, requested->0) ==> chosen == unsupported
            &&& requested is None && stored is Some && offers(answer, stored->0) ==> chosen == Ok::<
                LoginMethod,
                rpc::ErrorView,
            >(stored->0)
            &&& requested is None && stored is Some && !offers(answer, stored->0) ==> chosen
                == unsupported
            &&& requested is None && stored is None && offers(answer, LoginMethod::Sso) && !offers(
                answer,
                LoginMethod::Password,
            ) ==> chosen == Ok::<LoginMethod, rpc::ErrorView>(LoginMethod::Sso)
            &&& requested is None && stored is None && !offers(answer, LoginMethod::Sso) && offers(
                answer,
                LoginMethod::Password,
            ) ==> chosen == Ok::<LoginMethod, rpc::ErrorView>(LoginMethod::Password)
            &&& requested is None && stored is None && offers(answer, LoginMethod::Sso) == offers(
                answer,
                LoginMethod::Password,
            ) ==> chosen == Err::<LoginMethod, rpc::ErrorView>(
                rpc::ErrorView { code: -32602, message: "login method required"@ },
            )
        }),
{
    lemma_only_method(answer);
    law_offered_methods(answer, LoginMethod::Sso);
    law_offered_methods(answer, LoginMethod::Password);
}

/// The method of a new account is the one that was asked for, where it is offered, and is
/// refused where it is not. Where none was asked for it is the one through a browser where
/// that is offered, else the other one where that is, and else none.
pub proof fn law_new_account_goes_by_what_was_asked(
    requested: Option<LoginMethod>,
    answer: JsonView,
)
    ensures
        ({
            let chosen = login::add_choice(requested, login::offered(answer));
            let takes = |m: Option<LoginMethod>|
                chosen == Ok::<Option<LoginMethod>, rpc::ErrorView>(m);
            &&& requested is Some && offers(answer, requested->0) ==> takes(requested)
            &&& requested is Some && !offers(answer, requested->0) ==> chosen == Err::<
                Option<LoginMethod>,
                rpc::ErrorView,
            >(rpc::ErrorView { code: -32602, message: "unsupported login method"@ })
            &&& requested is None && offers(answer, LoginMethod::Sso) ==> takes(
                Some(LoginMethod::Sso),
            )
            &&& requested is None && !offers(answer, LoginMethod::Sso) && offers(
                answer,
                LoginMethod::Password,
            ) ==> takes(Some(LoginMethod::Password))
            &&& requested is None && !offers(answer, LoginMethod::Sso) && !offers(
                answer,
                LoginMethod::Password,
            ) ==> takes(None)
        }),
{
    lemma_only_method(answer);
    law_offered_methods(answer, LoginMethod::Sso);
    law_offered_methods(answer, LoginMethod::Password);
}

/// A login that was started is answered with the account and the method; one through a
/// browser also with where that is sent, below the homeserver's address, and back to.
pub proof fn law_login_says_where_to_go(
    account_id: Seq<char>,
    method: LoginMethod,
    homeserver: Seq<char>,
)
    ensures
        ({
            let shown = login::login_start_json(account_id, method, homeserver);
            &&& shown is Object
            &&& shown->Object_0[0] == ("account_id"@, JsonView::Text(account_id))
            &&& method == LoginMethod::Password ==> {
                &&& shown->Object_0.len() == 2
                &&& shown->Object_0[1] == ("login_method"@, JsonView::Text("password"@))
            }
            &&& method == LoginMethod::Sso ==> {
                &&& shown->Object_0.len() == 4
                &&& shown->Object_0[1] == ("login_method"@, JsonView::Text("sso"@))
                &&& shown->Object_0[2].0 == "sso_url"@ && shown->Object_0[2].1 is Text
                &&& is_at(
                    shown->Object_0[2].1->Text_0,
                    homeserver,
                    "/_matrix/client/v3/login/sso/redirect"@,
                )
                &&& shown->Object_0[3] == (
                    "redirect_url"@,
                    JsonView::Text("http://127.0.0.1:9388/callback"@),
                )
            }
        }),
{
    lemma_trimmed_is_at(homeserver, "/_matrix/client/v3/login/sso/redirect"@);
}

} // verus!
