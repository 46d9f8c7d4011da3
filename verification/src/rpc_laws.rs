//! What comes of lines and requests before any method is served, and how they are answered.

use vstd::prelude::*;

use crate::daemon::{DaemonView, Step};
use crate::json;
use crate::json::{Json, JsonView};
use crate::request_laws;
use crate::requests;
use crate::requests::Params;
use crate::rpc;
use crate::rpc::{LineRoute, Outcome, RpcError, RpcRequest};
use crate::text;

verus! {

/// Whether a line is the one that is written for a value: a single line that reads as the
/// value again where that survives being written.
pub open spec fn writes(line: Seq<char>, value: JsonView) -> bool {
    &&& line == json::json_written(value)
    &&& !line.contains('\n')
    &&& json::survives_text(value) ==> json::json_read(line) == Ok::<JsonView, Seq<char>>(value)
}

/// The value that a request is answered with: its result or its error, and its id.
pub open spec fn response(outcome: Outcome, id: JsonView) -> JsonView {
    match outcome {
        Ok(result) => JsonView::Object(
            seq![("jsonrpc"@, JsonView::Text("2.0"@)), ("result"@, result@), ("id"@, id)],
        ),
        Err(error) => error_response(error.code as int, error.message@, id),
    }
}

/// The value that a request is answered with where it ends in an error.
pub open spec fn error_response(code: int, message: Seq<char>, id: JsonView) -> JsonView {
    JsonView::Object(
        seq![
            ("jsonrpc"@, JsonView::Text("2.0"@)),
            (
                "error"@,
                JsonView::Object(
                    seq![
                        ("code"@, JsonView::Signed(code as i64)),
                        ("message"@, JsonView::Text(message)),
                    ],
                ),
            ),
            ("id"@, id),
        ],
    )
}

/// The id of a request, or null.
pub open spec fn id_of(request: RpcRequest) -> JsonView {
    match request.id {
        Some(id) => id@,
        None => JsonView::Null,
    }
}

/// An error is answered as what it is.
pub proof fn lemma_error_response(error: rpc::ErrorView, id: JsonView)
    ensures
        rpc::response_json(Err(error), id) == error_response(error.code, error.message, id),
{
    let shown = rpc::response_json(Err(error), id)->Object_0;
    assert(rpc::error_json(error)->Object_0 =~= seq![
        ("code"@, JsonView::Signed(error.code as i64)),
        ("message"@, JsonView::Text(error.message)),
    ]);
    assert(shown =~= error_response(error.code, error.message, id)->Object_0);
}

proof fn lemma_response(outcome: Outcome, id: JsonView)
    ensures
        rpc::response_json(rpc::outcome_view(outcome), id) == response(outcome, id),
{
    match outcome {
        Ok(result) => {
            assert(rpc::response_json(Ok(result@), id)->Object_0 =~= response(
                outcome,
                id,
            )->Object_0);
        },
        Err(error) => {
            lemma_error_response(error@, id);
        },
    }
}

/// A response is a line with the result or the error, and the id that it was given.
pub proof fn law_response_line(outcome: Outcome, id: Json, line: String)
    requires
        call_ensures(rpc::response_line, (outcome, id), line),
    ensures
        writes(line@, response(outcome, id@)),
{
    lemma_response(outcome, id@);
}

/// A request with an id is answered, with its own id; one without an id is answered only
/// where it was malformed.
pub proof fn law_requests_are_answered(request: RpcRequest, outcome: Outcome, line: Option<String>)
    requires
        call_ensures(rpc::answer_line, (&request, outcome), line),
    ensures
        line is Some <==> request.id is Some || (outcome is Err && outcome->Err_0.code == -32600),
        line is Some ==> writes(line->0@, response(outcome, id_of(request))),
{
    lemma_response(outcome, id_of(request));
}

/// A blank line is passed over; one that is no request is answered with a parse error and
/// without an id; one without a method is answered as invalid; a request for events goes its
/// own way, and every other one is served.
pub proof fn law_lines_are_routed(line: &str, read: Result<RpcRequest, String>, r: LineRoute)
    requires
        call_ensures(rpc::route_line, (line, &read), r),
    ensures
        r is Ignore <==> (forall|i: int|
            0 <= i < line@.len() ==> text::is_white(#[trigger] line@[i])),
        !(r is Ignore) && read is Err ==> r is Answer && writes(
            r->Answer_0@,
            error_response(-32700, "parse error"@, JsonView::Null),
        ),
        !(r is Ignore) && read is Ok && read->Ok_0.method is None ==> r is Answer && writes(
            r->Answer_0@,
            error_response(-32600, "invalid request"@, id_of(read->Ok_0)),
        ),
        !(r is Ignore) && read is Ok && read->Ok_0.method is Some ==> {
            let name = read->Ok_0.method->0@;
            &&& name == "events.subscribe"@ ==> r is Subscribe
            &&& name == "events.unsubscribe"@ ==> r is Unsubscribe
            &&& name != "events.subscribe"@ && name != "events.unsubscribe"@ ==> r is Handle
        },
{
    reveal_strlit("events.subscribe");
    reveal_strlit("events.unsubscribe");
    assert("events.subscribe"@.len() == 16 && "events.unsubscribe"@.len() == 18);
    lemma_error_response(rpc::parse_error_view(), JsonView::Null);
    if read is Ok {
        lemma_error_response(rpc::invalid_request_view(), id_of(read->Ok_0));
    }
    lemma_blank(line@);
}

proof fn lemma_blank(s: Seq<char>)
    ensures
        text::trimmed(s).len() == 0 <==> (forall|i: int|
            0 <= i < s.len() ==> text::is_white(#[trigger] s[i])),
{
    lemma_trim_start(s);
    lemma_trim_end(text::trim_start(s));
    let rest = text::trim_start(s);
    let n = s.len() - rest.len();
    if forall|i: int| 0 <= i < s.len() ==> text::is_white(#[trigger] s[i]) {
        if rest.len() > 0 {
            assert(s[n] == rest[0]);
        }
    }
    if text::trimmed(s).len() == 0 {
        assert forall|i: int| 0 <= i < s.len() implies text::is_white(#[trigger] s[i]) by {
            if i >= n {
                assert(s[i] == rest[i - n]);
            }
        }
    }
}

/// White space at the beginning of a text is cut off: what is missing is white, and what
/// is left begins with something else.
pub proof fn lemma_trim_start(s: Seq<char>)
    ensures
        ({
            let rest = text::trim_start(s);
            let n = s.len() - rest.len();
            &&& 0 <= n <= s.len()
            &&& rest == s.skip(n)
            &&& rest.len() > 0 ==> !text::is_white(rest[0])
            &&& forall|i: int| 0 <= i < n ==> text::is_white(#[trigger] s[i])
        }),
    decreases s.len(),
{
    if s.len() > 0 && text::is_white(s[0]) {
        let less = s.drop_first();
        lemma_trim_start(less);
        let rest = text::trim_start(s);
        let n = s.len() - rest.len();
        assert(rest =~= s.skip(n));
        assert forall|i: int| 0 <= i < n implies text::is_white(#[trigger] s[i]) by {
            if i > 0 {
                assert(less[i - 1] == s[i]);
            }
        }
    } else {
        assert(s.skip(0) =~= s);
    }
}

/// White space at the end of a text is cut off: what is missing is white, and what is left
/// ends with something else.
pub proof fn lemma_trim_end(s: Seq<char>)
    ensures
        ({
            let rest = text::trim_end(s);
            &&& rest.len() <= s.len()
            &&& rest == s.take(rest.len() as int)
            &&& rest.len() > 0 ==> !text::is_white(rest.last())
            &&& forall|i: int| rest.len() <= i < s.len() ==> text::is_white(#[trigger] s[i])
        }),
    decreases s.len(),
{
    if s.len() > 0 && text::is_white(s.last()) {
        let less = s.drop_last();
        lemma_trim_end(less);
        let rest = text::trim_end(s);
        assert(rest =~= s.take(rest.len() as int));
        assert forall|i: int| rest.len() <= i < s.len() implies text::is_white(#[trigger] s[i]) by {
            if i < less.len() {
                assert(less[i] == s[i]);
            }
        }
    } else {
        assert(s.take(s.len() as int) =~= s);
    }
}

/// Parameters have to be there and to be readable, and are then taken as they are.
pub proof fn law_parameters_are_taken(
    request: RpcRequest,
    read: Option<Result<String, String>>,
    r: Result<String, RpcError>,
)
    requires
        call_ensures(rpc::take_params::<String>, (&request, read), r),
    ensures
        ({
            let right = request.jsonrpc is Some && request.jsonrpc->0@ == "2.0"@;
            &&& !right ==> r is Err && r->Err_0.code == -32600 && r->Err_0.message@
                == "invalid request"@
            &&& right && read is None ==> r is Err && r->Err_0.code == -32602
                && r->Err_0.message@ == "missing params"@
            &&& right && read is Some && read->0 is Err ==> r is Err && r->Err_0.code == -32602
                && r->Err_0.message@ == "invalid params: "@ + read->0->Err_0@
            &&& right && read is Some && read->0 is Ok ==> r is Ok && r->Ok_0 == read->0->Ok_0
        }),
{
}

/// A request that is not of the right version, or has no method, is invalid; a method that
/// does not exist is not found; parameters that are missing or cannot be read are said to
/// be so. None of these changes anything.
pub proof fn law_malformed_requests(
    asked: DaemonView,
    request: RpcRequest,
    read: Option<Result<Params, String>>,
    after: DaemonView,
    s: Step,
)
    requires
        requests::handled(asked, request, read, after, s),
    ensures
        ({
            let right = request.jsonrpc is Some && request.jsonrpc->0@ == "2.0"@
                && request.method is Some;
            let known = requests::method_named(request.method->0@);
            let bare = known is Some && (known->0 is Ping || known->0 is Version
                || known->0 is AccountList || known->0 is SessionStatus);
            &&& !right ==> after == asked && request_laws::fails(s, -32600, "invalid request"@)
            &&& right && known is None ==> after == asked && request_laws::fails(
                s,
                -32601,
                "method not found"@,
            )
            &&& right && known is Some && !bare && read is None ==> after == asked
                && request_laws::fails(s, -32602, "missing params"@)
            &&& right && known is Some && !bare && read is Some && read->0 is Err ==> after
                == asked && request_laws::fails(
                s,
                -32602,
                "invalid params: "@ + read->0->Err_0@,
            )
        }),
{
}

/// The daemon answers a ping, and says its version.
pub proof fn law_ping_and_version(
    asked: DaemonView,
    request: RpcRequest,
    read: Option<Result<Params, String>>,
    after: DaemonView,
    s: Step,
)
    requires
        requests::handled(asked, request, read, after, s),
    ensures
        request_laws::asks(request, "rpc.ping"@) ==> after == asked && request_laws::answers(
            s,
            JsonView::Text("pong"@),
        ),
        request_laws::asks(request, "rpc.version"@) ==> after == asked && request_laws::answers(
            s,
            JsonView::Text("0.1.0"@),
        ),
{
    request_laws::law_names_of_methods();
}

/// The errors have their own codes and words.
pub proof fn law_errors_have_their_codes(
    words: &str,
    parse: RpcError,
    invalid: RpcError,
    method: RpcError,
    params: RpcError,
    internal: RpcError,
)
    requires
        call_ensures(rpc::parse_error, (), parse),
        call_ensures(rpc::invalid_request, (), invalid),
        call_ensures(rpc::no_method, (), method),
        call_ensures(rpc::bad_params, (words,), params),
        call_ensures(rpc::internal_error, (words,), internal),
    ensures
        parse.code == -32700 && parse.message@ == "parse error"@,
        invalid.code == -32600 && invalid.message@ == "invalid request"@,
        method.code == -32601 && method.message@ == "method not found"@,
        params.code == -32602 && params.message@ == words@,
        internal.code == -32603 && internal.message@ == "internal error: "@ + words@,
{
    assert(parse@.code == -32700 && invalid@.code == -32600 && method@.code == -32601);
    assert(params@.code == -32602 && internal@.code == -32603);
    assert(parse@.message == parse.message@ && invalid@.message == invalid.message@);
    assert(method@.message == method.message@ && params@.message == params.message@);
    assert(internal@.message == internal.message@);
}

} // verus!
