//! JSON-RPC framing: requests, errors, responses and the lines that carry them.

use vstd::prelude::*;
use vstd::string::*;

use crate::json;
use crate::json::{Json, JsonView};
use crate::text;

verus! {

/// A request as it came in on a line.
pub struct RpcRequest {
    pub jsonrpc: Option<String>,
    pub method: Option<String>,
    pub params: Option<Json>,
    pub id: Option<Json>,
}

/// An error that a request is answered with.
pub struct RpcError {
    pub code: i64,
    pub message: String,
}

/// An error as a mathematical value.
#[verifier::ext_equal]
pub struct ErrorView {
    pub code: int,
    pub message: Seq<char>,
}

impl View for RpcError {
    type V = ErrorView;

    open spec fn view(&self) -> ErrorView {
        ErrorView { code: self.code as int, message: self.message@ }
    }
}

/// What came of a request.
pub type Outcome = Result<Json, RpcError>;

/// What came of a request, as a mathematical value.
pub type OutcomeView = Result<JsonView, ErrorView>;

/// The view of an outcome.
pub open spec fn outcome_view(outcome: Outcome) -> OutcomeView {
    match outcome {
        Ok(result) => Ok(result@),
        Err(error) => Err(error@),
    }
}

/// The answer to a line that is no JSON-RPC request.
pub open spec fn parse_error_view() -> ErrorView {
    ErrorView { code: -32700, message: "parse error"@ }
}

/// The answer to a request that is malformed.
pub open spec fn invalid_request_view() -> ErrorView {
    ErrorView { code: -32600, message: "invalid request"@ }
}

/// The answer to a request whose method does not exist.
pub open spec fn no_method_view() -> ErrorView {
    ErrorView { code: -32601, message: "method not found"@ }
}

/// The answer to a request whose parameters do not do.
pub open spec fn bad_params_view(message: Seq<char>) -> ErrorView {
    ErrorView { code: -32602, message }
}

/// The answer to a request that failed on the way.
pub open spec fn internal_error_view(err: Seq<char>) -> ErrorView {
    ErrorView { code: -32603, message: "internal error: "@ + err }
}

/// The answer to a line that is no JSON-RPC request.
pub fn parse_error() -> (r: RpcError)
    ensures
        r@ == parse_error_view(),
{
    RpcError { code: -32700, message: "parse error".to_owned() }
}

/// The answer to a request that is malformed.
pub fn invalid_request() -> (r: RpcError)
    ensures
        r@ == invalid_request_view(),
{
    RpcError { code: -32600, message: "invalid request".to_owned() }
}

/// The answer to a request whose method does not exist.
pub fn no_method() -> (r: RpcError)
    ensures
        r@ == no_method_view(),
{
    RpcError { code: -32601, message: "method not found".to_owned() }
}

/// The answer to a request whose parameters do not do.
pub fn bad_params(message: &str) -> (r: RpcError)
    ensures
        r@ == bad_params_view(message@),
{
    RpcError { code: -32602, message: message.to_owned() }
}

/// The answer to a request that failed on the way.
pub fn internal_error(err: &str) -> (r: RpcError)
    ensures
        r@ == internal_error_view(err@),
{
    RpcError { code: -32603, message: text::concat2("internal error: ", err) }
}

/// The parameters of a request, given what came of reading them, if there were any.
pub fn parse_params<T>(read: Option<Result<T, String>>) -> (r: Result<T, RpcError>)
    ensures
        match read {
            None => r is Err && r->Err_0@ == bad_params_view("missing params"@),
            Some(Err(err)) => r is Err && r->Err_0@ == bad_params_view("invalid params: "@ + err@),
            Some(Ok(params)) => r is Ok && r->Ok_0 == params,
        },
{
    match read {
        None => Err(bad_params("missing params")),
        Some(Err(err)) => {
            let message: String = text::concat2("invalid params: ", err.as_str());
            Err(bad_params(message.as_str()))
        },
        Some(Ok(params)) => Ok(params),
    }
}

impl RpcRequest {
    /// Whether the request says that it is JSON-RPC 2.0.
    pub open spec fn right_version(&self) -> bool {
        text::opt_text(self.jsonrpc) == Some("2.0"@)
    }

    /// Whether the request says that it is JSON-RPC 2.0.
    pub fn is_right_version(&self) -> (r: bool)
        ensures
            r == self.right_version(),
    {
        match &self.jsonrpc {
            Some(v) => text::str_eq(v.as_str(), "2.0"),
            None => false,
        }
    }

    /// The id that an answer carries: that of the request, or null.
    pub open spec fn answer_id(&self) -> JsonView {
        match self.id {
            Some(id) => id@,
            None => JsonView::Null,
        }
    }

    /// The id that an answer carries: that of the request, or null.
    pub fn id_or_null(&self) -> (r: Json)
        ensures
            r@ == self.answer_id(),
    {
        match &self.id {
            Some(id) => id.copy(),
            None => Json::Null,
        }
    }
}

/// The parameters that a request means, given what came of reading them: it has to be of the
/// right version, and to have some that could be read.
pub open spec fn params_meant<T>(request: RpcRequest, read: Option<Result<T, String>>) -> Result<
    T,
    ErrorView,
> {
    if !request.right_version() {
        Err(invalid_request_view())
    } else {
        match read {
            None => Err(bad_params_view("missing params"@)),
            Some(Err(err)) => Err(bad_params_view("invalid params: "@ + err@)),
            Some(Ok(params)) => Ok(params),
        }
    }
}

/// The parameters that a request means, given what came of reading them.
pub fn take_params<T>(request: &RpcRequest, read: Option<Result<T, String>>) -> (r: Result<
    T,
    RpcError,
>)
    ensures
        match params_meant(*request, read) {
            Err(error) => r is Err && r->Err_0@ == error,
            Ok(params) => r is Ok && r->Ok_0 == params,
        },
{
    if !request.is_right_version() {
        return Err(invalid_request());
    }
    parse_params(read)
}

/// An error as JSON.
pub open spec fn error_json(error: ErrorView) -> JsonView {
    JsonView::object().with("code"@, JsonView::Signed(error.code as i64)).with(
        "message"@,
        JsonView::Text(error.message),
    )
}

/// A response as JSON: the result or the error, and the id.
pub open spec fn response_json(outcome: OutcomeView, id: JsonView) -> JsonView {
    let head = JsonView::object().with("jsonrpc"@, JsonView::Text("2.0"@));
    match outcome {
        Ok(result) => head.with("result"@, result).with("id"@, id),
        Err(error) => head.with("error"@, error_json(error)).with("id"@, id),
    }
}

/// The line of a response.
pub fn response_line(outcome: Outcome, id: Json) -> (r: String)
    ensures
        json::carries(r@, response_json(outcome_view(outcome), id@)),
{
    let head: Json = Json::object().with("jsonrpc", Json::text("2.0"));
    let body: Json = match outcome {
        Ok(result) => head.with("result", result),
        Err(error) => {
            let shown: Json = Json::object().with("code", Json::Signed(error.code)).with(
                "message",
                Json::text(error.message.as_str()),
            );
            head.with("error", shown)
        },
    };
    body.with("id", id).to_text()
}

/// Whether a request is answered: one without an id is not, unless it was malformed.
pub open spec fn is_answered(has_id: bool, outcome: OutcomeView) -> bool {
    has_id || (outcome is Err && outcome->Err_0.code == -32600)
}

/// The line that answers a request, where it is answered.
pub fn answer_line(request: &RpcRequest, outcome: Outcome) -> (r: Option<String>)
    ensures
        r is Some <==> is_answered(request.id is Some, outcome_view(outcome)),
        r matches Some(line) ==> json::carries(
            line@,
            response_json(outcome_view(outcome), request.answer_id()),
        ),
{
    let malformed: bool = match &outcome {
        Ok(_) => false,
        Err(error) => error.code == -32600,
    };
    if request.id.is_some() || malformed {
        Some(response_line(outcome, request.id_or_null()))
    } else {
        None
    }
}

/// What is to be done with a line.
pub enum LineRoute {
    /// Nothing: the line is blank.
    Ignore,
    /// It is answered with this line.
    Answer(String),
    /// It asks to be sent events.
    Subscribe,
    /// It asks to be sent events no more.
    Unsubscribe,
    /// It is a request for the daemon.
    Handle,
}

/// What is to be done with a line, given what came of reading it as a request.
pub fn route_line(line: &str, read: &Result<RpcRequest, String>) -> (r: LineRoute)
    ensures
        text::trimmed(line@).len() == 0 <==> r is Ignore,
        text::trimmed(line@).len() > 0 ==> match *read {
            Err(_) => r is Answer && json::carries(
                r->Answer_0@,
                response_json(Err(parse_error_view()), JsonView::Null),
            ),
            Ok(request) => match text::opt_text(request.method) {
                None => r is Answer && json::carries(
                    r->Answer_0@,
                    response_json(Err(invalid_request_view()), request.answer_id()),
                ),
                Some(method) => if method == "events.subscribe"@ {
                    r is Subscribe
                } else if method == "events.unsubscribe"@ {
                    r is Unsubscribe
                } else {
                    r is Handle
                },
            },
        },
{
    if text::trim(line).unicode_len() == 0 {
        return LineRoute::Ignore;
    }
    match read {
        Err(_) => LineRoute::Answer(response_line(Err(parse_error()), Json::Null)),
        Ok(request) => match &request.method {
            None => LineRoute::Answer(
                response_line(Err(invalid_request()), request.id_or_null()),
            ),
            Some(method) => if text::str_eq(method.as_str(), "events.subscribe") {
                LineRoute::Subscribe
            } else if text::str_eq(method.as_str(), "events.unsubscribe") {
                LineRoute::Unsubscribe
            } else {
                LineRoute::Handle
            },
        },
    }
}

/// A response names its protocol and carries the request's id and either a result or an
/// error, never both.
pub proof fn law_response_shape(outcome: OutcomeView, id: JsonView)
    ensures
        response_json(outcome, id).get("jsonrpc"@) == Some(JsonView::Text("2.0"@)),
        response_json(outcome, id).get("id"@) == Some(id),
        response_json(outcome, id).get("result"@) == (match outcome {
            Ok(result) => Some(result),
            Err(_) => None,
        }),
        response_json(outcome, id).get("error"@) == (match outcome {
            Ok(_) => None,
            Err(error) => Some(error_json(error)),
        }),
{
    reveal_strlit("jsonrpc");
    reveal_strlit("result");
    reveal_strlit("error");
    reveal_strlit("id");
    assert("jsonrpc"@[0] == 'j' && "result"@[0] == 'r' && "error"@[0] == 'e' && "id"@[0] == 'i');
    let bare = JsonView::object();
    let head = bare.with("jsonrpc"@, JsonView::Text("2.0"@));
    let body = match outcome {
        Ok(result) => head.with("result"@, result),
        Err(error) => head.with("error"@, error_json(error)),
    };
    assert forall|key: Seq<char>| #[trigger]
        response_json(outcome, id).get(key) == (if key == "jsonrpc"@ {
            Some(JsonView::Text("2.0"@))
        } else if key == "result"@ && outcome is Ok {
            Some(outcome->Ok_0)
        } else if key == "error"@ && outcome is Err {
            Some(error_json(outcome->Err_0))
        } else if key == "id"@ {
            Some(id)
        } else {
            None
        }) by {
        json::lemma_get_with(bare, "jsonrpc"@, JsonView::Text("2.0"@), key);
        match outcome {
            Ok(result) => json::lemma_get_with(head, "result"@, result, key),
            Err(error) => json::lemma_get_with(head, "error"@, error_json(error), key),
        }
        json::lemma_get_with(body, "id"@, id, key);
        assert(bare.get(key) is None);
    }
}

/// A response whose result and id survive being written and read does so itself: with
/// [`response_line`] it reaches the client as it was meant.
pub proof fn law_response_survives(outcome: OutcomeView, id: JsonView)
    requires
        json::plain(id, 99),
        outcome matches Ok(result) ==> json::plain(result, 99),
        outcome matches Err(error) ==> i64::MIN <= error.code < 0,
    ensures
        json::survives_text(response_json(outcome, id)),
{
    reveal_strlit("jsonrpc");
    reveal_strlit("result");
    reveal_strlit("error");
    reveal_strlit("id");
    reveal_strlit("code");
    reveal_strlit("message");
    assert("jsonrpc"@[0] == 'j' && "result"@[0] == 'r' && "error"@[0] == 'e' && "id"@[0] == 'i');
    assert("code"@[0] == 'c' && "message"@[0] == 'm');
    if outcome is Err {
        let error = outcome->Err_0;
        let members = error_json(error)->Object_0;
        assert(members.len() == 2);
        assert(json::plain(members[0].1, 98));
        assert(json::plain(members[1].1, 98));
        assert(json::plain(error_json(error), 99));
    }
    let members = response_json(outcome, id)->Object_0;
    assert(members.len() == 3);
    assert(json::plain(members[0].1, 99));
    assert(json::plain(members[1].1, 99));
    assert(json::plain(members[2].1, 99));
}

/// A request without an id is never answered with a result; one with an id always gets
/// an answer.
pub proof fn law_notifications(outcome: OutcomeView)
    ensures
        is_answered(true, outcome),
        outcome is Ok ==> !is_answered(false, outcome),
        outcome is Err ==> (is_answered(false, outcome) <==> outcome->Err_0.code == -32600),
{
}

} // verus!
