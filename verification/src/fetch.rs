//! What a homeserver's answer to a plain request is taken for.

use ruma_client_api::discovery::get_capabilities;
use ruma_client_api::session::get_login_types;
use ruma_common::api::IncomingResponse;
use vstd::prelude::*;
use vstd::string::*;

use crate::json;
use crate::json::{Json, JsonView};
use crate::rpc;
use crate::rpc::{internal_error, RpcError};
use crate::text;

verus! {

/// A page of a homeserver that the daemon reads.
#[derive(Clone, Copy, Debug, PartialEq, Eq, Structural)]
pub enum Endpoint {
    LoginTypes,
    Capabilities,
}

/// The path of a page.
pub open spec fn endpoint_path(endpoint: Endpoint) -> Seq<char> {
    match endpoint {
        Endpoint::LoginTypes => "/_matrix/client/v3/login"@,
        Endpoint::Capabilities => "/_matrix/client/v3/capabilities"@,
    }
}

/// The key under which a page's content is handed on.
pub open spec fn endpoint_key(endpoint: Endpoint) -> Seq<char> {
    match endpoint {
        Endpoint::LoginTypes => "login"@,
        Endpoint::Capabilities => "capabilities"@,
    }
}

/// The address of a page at a homeserver.
pub open spec fn endpoint_url(homeserver: Seq<char>, endpoint: Endpoint) -> Seq<char> {
    text::trim_slashes(homeserver) + endpoint_path(endpoint)
}

/// The address of a page at a homeserver.
pub fn url(homeserver: &str, endpoint: Endpoint) -> (r: String)
    ensures
        r@ == endpoint_url(homeserver@, endpoint),
{
    let base: &str = text::trim_trailing_slashes(homeserver);
    match endpoint {
        Endpoint::LoginTypes => text::concat2(base, "/_matrix/client/v3/login"),
        Endpoint::Capabilities => text::concat2(base, "/_matrix/client/v3/capabilities"),
    }
}

/// How a request to a homeserver ended.
pub enum FetchReply {
    /// No answer came, and why.
    Unreachable(String),
    /// An answer came: its status, and its body or why that could not be read.
    Answered { status: u16, body: Result<Vec<u8>, String> },
}

impl FetchReply {
    /// Whether the status is one that HTTP knows: a number of three digits.
    pub open spec fn valid(&self) -> bool {
        match *self {
            FetchReply::Unreachable(_) => true,
            FetchReply::Answered { status, body: _ } => 100 <= status <= 999,
        }
    }

    /// Whether the status is one that HTTP knows: a number of three digits.
    pub fn is_valid(&self) -> (r: bool)
        ensures
            r == self.valid(),
    {
        match self {
            FetchReply::Unreachable(_) => true,
            FetchReply::Answered { status, body: _ } => 100 <= *status && *status <= 999,
        }
    }
}

/// A page's content.
pub struct FetchResult {
    pub value: Json,
    pub parse_warning: Option<String>,
}

/// A page's content as a mathematical value.
#[verifier::ext_equal]
pub struct PageView {
    pub value: JsonView,
    pub parse_warning: Option<Seq<char>>,
}

impl View for FetchResult {
    type V = PageView;

    open spec fn view(&self) -> PageView {
        PageView { value: self.value@, parse_warning: text::opt_text(self.parse_warning) }
    }
}

/// The words with which HTTP shows a status.
pub uninterp spec fn status_shown(status: u16) -> Seq<char>;

/// What comes of decoding an answer as the type of its page.
pub enum Decoded {
    /// The page's content, encoded again from its type.
    Typed(Json),
    /// The content is of the type but could not be encoded again, and why.
    Unwritable(String),
    /// The answer is not of the type, and why.
    Fault(String),
}

/// What comes of decoding an answer, as a mathematical value.
#[verifier::ext_equal]
pub enum DecodedView {
    Typed(JsonView),
    Unwritable(Seq<char>),
    Fault(Seq<char>),
}

impl View for Decoded {
    type V = DecodedView;

    open spec fn view(&self) -> DecodedView {
        match *self {
            Decoded::Typed(content) => DecodedView::Typed(content@),
            Decoded::Unwritable(err) => DecodedView::Unwritable(err@),
            Decoded::Fault(err) => DecodedView::Fault(err@),
        }
    }
}

impl DecodedView {
    /// What is wrong with the answer, if anything.
    pub open spec fn fault(self) -> Option<Seq<char>> {
        match self {
            DecodedView::Fault(err) => Some(err),
            _ => None,
        }
    }
}

impl Decoded {
    /// What is wrong with the answer, if anything.
    pub fn into_fault(self) -> (r: Option<String>)
        ensures
            text::opt_text(r) == self@.fault(),
    {
        match self {
            Decoded::Fault(err) => Some(err),
            _ => None,
        }
    }
}

/// What comes of decoding an answer as `get_login_types::v3::Response`, and of encoding its
/// flows again.
pub uninterp spec fn login_types_decoded(status: u16, body: Seq<u8>) -> DecodedView;

/// What comes of decoding an answer as `get_capabilities::v3::Response`, and of encoding its
/// capabilities again.
pub uninterp spec fn capabilities_decoded(status: u16, body: Seq<u8>) -> DecodedView;

/// The `Display` text of `http::StatusCode`, named by `status_shown`: a number of three
/// digits and its reason phrase. It depends on the number alone.
#[verifier::external_body]
fn show_status(status: u16) -> (r: String)
    requires
        100 <= status <= 999,
    ensures
        r@ == status_shown(status),
{
    http::StatusCode::from_u16(status).expect("a status of three digits").to_string()
}

/// `try_from_http_response` of the login types' response, and `serde_json::to_value` of its
/// flows: what comes of the two, named by `login_types_decoded`. That response has no field
/// in a header, so the outcome depends on the status and the body alone.
#[verifier::external_body]
fn decode_login_types(status: u16, body: &[u8]) -> (r: Decoded)
    requires
        100 <= status <= 999,
    ensures
        r@ == login_types_decoded(status, body@),
{
    let response = http::Response::builder().status(status).body(body).expect("a status");
    match get_login_types::v3::Response::try_from_http_response(response) {
        Ok(page) => match serde_json::to_value(page.flows) {
            Ok(value) => Decoded::Typed(json::from_value(value)),
            Err(err) => Decoded::Unwritable(err.to_string()),
        },
        Err(err) => Decoded::Fault(err.to_string()),
    }
}

/// `try_from_http_response` of the capabilities' response, and `serde_json::to_value` of its
/// capabilities: what comes of the two, named by `capabilities_decoded`. That response has
/// no field in a header, so the outcome depends on the status and the body alone.
#[verifier::external_body]
fn decode_capabilities(status: u16, body: &[u8]) -> (r: Decoded)
    requires
        100 <= status <= 999,
    ensures
        r@ == capabilities_decoded(status, body@),
{
    let response = http::Response::builder().status(status).body(body).expect("a status");
    match get_capabilities::v3::Response::try_from_http_response(response) {
        Ok(page) => match serde_json::to_value(page.capabilities) {
            Ok(value) => Decoded::Typed(json::from_value(value)),
            Err(err) => Decoded::Unwritable(err.to_string()),
        },
        Err(err) => Decoded::Fault(err.to_string()),
    }
}

/// What comes of decoding an answer for a page.
pub open spec fn page_decoded(endpoint: Endpoint, status: u16, body: Seq<u8>) -> DecodedView {
    match endpoint {
        Endpoint::LoginTypes => login_types_decoded(status, body),
        Endpoint::Capabilities => capabilities_decoded(status, body),
    }
}

fn decode(endpoint: Endpoint, status: u16, body: &[u8]) -> (r: Decoded)
    requires
        100 <= status <= 999,
    ensures
        r@ == page_decoded(endpoint, status, body@),
{
    match endpoint {
        Endpoint::LoginTypes => decode_login_types(status, body),
        Endpoint::Capabilities => decode_capabilities(status, body),
    }
}

/// The warning that goes with an answer that something is wrong with.
pub open spec fn fault_warning(fault: Option<Seq<char>>) -> Option<Seq<char>> {
    match fault {
        None => None,
        Some(err) => Some("non-spec response; fallback to raw JSON ("@ + err + ")"@),
    }
}

/// The page that an answer's JSON makes, given what is wrong with the answer. Capabilities
/// are taken out of their wrapping; an answer that something is wrong with stays as it is.
pub open spec fn page_of(
    endpoint: Endpoint,
    value: JsonView,
    fault: Option<Seq<char>>,
) -> PageView {
    PageView {
        value: match (endpoint, fault) {
            (Endpoint::Capabilities, None) => value.get_or_null("capabilities"@),
            _ => value,
        },
        parse_warning: fault_warning(fault),
    }
}

/// The page that an answer's JSON makes, given what is wrong with the answer.
pub fn page(endpoint: Endpoint, value: Json, fault: Option<String>) -> (r: FetchResult)
    ensures
        r@ == page_of(endpoint, value@, text::opt_text(fault)),
{
    let value: Json = match (endpoint, &fault) {
        (Endpoint::Capabilities, None) => value.copy_at("capabilities"),
        _ => value,
    };
    let parse_warning: Option<String> = match fault {
        None => None,
        Some(err) => Some(
            text::concat3("non-spec response; fallback to raw JSON (", err.as_str(), ")"),
        ),
    };
    FetchResult { value, parse_warning }
}

/// Whether a status tells of success.
pub open spec fn is_success(status: u16) -> bool {
    200 <= status < 300
}

/// The answer where a homeserver refuses a request.
pub open spec fn refused_view(status: u16) -> rpc::ErrorView {
    fetch_error_view("request failed: "@, status_shown(status))
}

/// What a homeserver's reply is taken for.
pub open spec fn reply_meaning(reply: FetchReply, endpoint: Endpoint) -> Result<
    PageView,
    rpc::ErrorView,
> {
    match reply {
        FetchReply::Unreachable(err) => Err(rpc::internal_error_view(err@)),
        FetchReply::Answered { status, body } => if !is_success(status) {
            Err(refused_view(status))
        } else {
            match body {
                Err(err) => Err(rpc::internal_error_view(err@)),
                Ok(bytes) => match json::json_read_bytes(bytes@) {
                    Err(err) => Err(rpc::internal_error_view(err)),
                    Ok(value) => Ok(
                        page_of(
                            endpoint,
                            value,
                            page_decoded(endpoint, status, bytes@).fault(),
                        ),
                    ),
                },
            }
        },
    }
}

/// A page or an error, as a mathematical value.
pub open spec fn page_outcome(r: Result<FetchResult, RpcError>) -> Result<
    PageView,
    rpc::ErrorView,
> {
    match r {
        Ok(p) => Ok(p@),
        Err(e) => Err(e@),
    }
}

/// What a homeserver's reply is taken for: the page of its body, with a warning where it is
/// not what the page should be, or an error.
pub fn interpret(reply: FetchReply, endpoint: Endpoint) -> (r: Result<FetchResult, RpcError>)
    requires
        reply.valid(),
    ensures
        page_outcome(r) == reply_meaning(reply, endpoint),
{
    match reply {
        FetchReply::Unreachable(err) => Err(internal_error(err.as_str())),
        FetchReply::Answered { status, body } => {
            if !(200 <= status && status < 300) {
                let shown: String = show_status(status);
                return Err(fetch_error("request failed: ", shown.as_str()));
            }
            let bytes: Vec<u8> = match body {
                Err(err) => {
                    return Err(internal_error(err.as_str()));
                },
                Ok(bytes) => bytes,
            };
            let value: Json = match Json::parse_bytes(bytes.as_slice()) {
                Err(err) => {
                    return Err(internal_error(err.as_str()));
                },
                Ok(value) => value,
            };
            let decoded: Decoded = decode(endpoint, status, bytes.as_slice());
            Ok(page(endpoint, value, decoded.into_fault()))
        },
    }
}

/// How a request to a homeserver ended, where its body is read as text.
pub enum TextReply {
    /// No answer came, and why.
    Unreachable(String),
    /// An answer came: its status, and its body or why that could not be read.
    Answered { status: u16, body: Result<String, String> },
}

impl TextReply {
    /// Whether the status is one that HTTP knows: a number of three digits.
    pub open spec fn valid(&self) -> bool {
        match *self {
            TextReply::Unreachable(_) => true,
            TextReply::Answered { status, body: _ } => 100 <= status <= 999,
        }
    }

    /// Whether the status is one that HTTP knows: a number of three digits.
    pub fn is_valid(&self) -> (r: bool)
        ensures
            r == self.valid(),
    {
        match self {
            TextReply::Unreachable(_) => true,
            TextReply::Answered { status, body: _ } => 100 <= *status && *status <= 999,
        }
    }
}

/// The answer where a request to a homeserver failed, and how.
pub open spec fn fetch_error_view(how: Seq<char>, err: Seq<char>) -> rpc::ErrorView {
    rpc::ErrorView { code: -32603, message: how + err }
}

/// The page that an answer's JSON makes, given what came of decoding it: what its type knows
/// of it, or the JSON as it came where it is not of the type.
pub open spec fn typed_page_of(
    endpoint: Endpoint,
    value: JsonView,
    decoded: DecodedView,
) -> Result<PageView, rpc::ErrorView> {
    match decoded {
        DecodedView::Typed(content) => Ok(
            PageView {
                value: match endpoint {
                    Endpoint::LoginTypes => JsonView::object().with("flows"@, content),
                    Endpoint::Capabilities => content,
                },
                parse_warning: None,
            },
        ),
        DecodedView::Unwritable(err) => Err(fetch_error_view("encode failed: "@, err)),
        DecodedView::Fault(err) => Ok(page_of(endpoint, value, Some(err))),
    }
}

/// The page that an answer's JSON makes, given what came of decoding it.
pub fn typed_page(endpoint: Endpoint, value: Json, decoded: Decoded) -> (r: Result<
    FetchResult,
    RpcError,
>)
    ensures
        page_outcome(r) == typed_page_of(endpoint, value@, decoded@),
{
    match decoded {
        Decoded::Typed(content) => {
            let value: Json = match endpoint {
                Endpoint::LoginTypes => Json::object().with("flows", content),
                Endpoint::Capabilities => content,
            };
            Ok(FetchResult { value, parse_warning: None })
        },
        Decoded::Unwritable(err) => Err(fetch_error("encode failed: ", err.as_str())),
        Decoded::Fault(err) => Ok(page(endpoint, value, Some(err))),
    }
}

/// What a homeserver's reply is taken for, where its body is read as text.
pub open spec fn text_meaning(reply: TextReply, endpoint: Endpoint) -> Result<
    PageView,
    rpc::ErrorView,
> {
    match reply {
        TextReply::Unreachable(err) => Err(fetch_error_view("request failed: "@, err@)),
        TextReply::Answered { status, body } => if !is_success(status) {
            Err(refused_view(status))
        } else {
            match body {
                Err(err) => Err(fetch_error_view("read failed: "@, err@)),
                Ok(source) => match json::json_read(source@) {
                    Err(err) => Err(fetch_error_view("invalid json: "@, err)),
                    Ok(value) => typed_page_of(
                        endpoint,
                        value,
                        page_decoded(endpoint, status, vstd::utf8::encode_utf8(source@)),
                    ),
                },
            }
        },
    }
}

fn fetch_error(how: &str, err: &str) -> (r: RpcError)
    ensures
        r@ == fetch_error_view(how@, err@),
{
    RpcError { code: -32603, message: text::concat2(how, err) }
}

/// What a homeserver's reply is taken for, where its body is read as text: the page of that
/// text, as far as its type knows it, or with a warning where it is not what the page should
/// be, or an error.
pub fn interpret_text(reply: TextReply, endpoint: Endpoint) -> (r: Result<FetchResult, RpcError>)
    requires
        reply.valid(),
    ensures
        page_outcome(r) == text_meaning(reply, endpoint),
{
    match reply {
        TextReply::Unreachable(err) => Err(fetch_error("request failed: ", err.as_str())),
        TextReply::Answered { status, body } => {
            if !(200 <= status && status < 300) {
                let shown: String = show_status(status);
                return Err(fetch_error("request failed: ", shown.as_str()));
            }
            let source: String = match body {
                Err(err) => {
                    return Err(fetch_error("read failed: ", err.as_str()));
                },
                Ok(source) => source,
            };
            let value: Json = match Json::parse(source.as_str()) {
                Err(err) => {
                    return Err(fetch_error("invalid json: ", err.as_str()));
                },
                Ok(value) => value,
            };
            let bytes: &[u8] = source.as_str().as_bytes();
            typed_page(endpoint, value, decode(endpoint, status, bytes))
        },
    }
}

/// A page as it is handed on.
pub open spec fn page_json(homeserver: Seq<char>, endpoint: Endpoint, page: PageView) -> JsonView {
    let plain = JsonView::object().with("homeserver"@, JsonView::Text(homeserver)).with(
        endpoint_key(endpoint),
        page.value,
    );
    match page.parse_warning {
        Some(warning) => plain.with("parse_warning"@, JsonView::Text(warning)),
        None => plain,
    }
}

/// A page as it is handed on.
pub fn matrix_response(homeserver: &str, endpoint: Endpoint, result: FetchResult) -> (r: Json)
    ensures
        r@ == page_json(homeserver@, endpoint, result@),
{
    let key: &str = match endpoint {
        Endpoint::LoginTypes => "login",
        Endpoint::Capabilities => "capabilities",
    };
    let plain: Json = Json::object().with("homeserver", Json::text(homeserver)).with(
        key,
        result.value,
    );
    match result.parse_warning {
        Some(warning) => plain.with("parse_warning", Json::text(warning.as_str())),
        None => plain,
    }
}

/// A page that is not what it should be is handed on with a warning and the answer's JSON
/// as it came; one that is has no warning. Either way it names the homeserver.
pub proof fn law_page_warns(
    homeserver: Seq<char>,
    endpoint: Endpoint,
    value: JsonView,
    fault: Option<Seq<char>>,
)
    ensures
        ({
            let shown = page_json(homeserver, endpoint, page_of(endpoint, value, fault));
            &&& shown.get("homeserver"@) == Some(JsonView::Text(homeserver))
            &&& fault is Some ==> shown.get(endpoint_key(endpoint)) == Some(value)
            &&& fault is Some <==> shown.get("parse_warning"@) is Some
        }),
{
    reveal_strlit("homeserver");
    reveal_strlit("login");
    reveal_strlit("capabilities");
    reveal_strlit("parse_warning");
    let key = endpoint_key(endpoint);
    assert("homeserver"@[0] == 'h' && "login"@[0] == 'l' && "capabilities"@[0] == 'c'
        && "parse_warning"@[0] == 'p');
    let page = page_of(endpoint, value, fault);
    let bare = JsonView::object();
    let first = bare.with("homeserver"@, JsonView::Text(homeserver));
    let second = first.with(key, page.value);
    assert forall|wanted: Seq<char>| #[trigger] second.get(wanted) == (if wanted
        == "homeserver"@ {
        Some(JsonView::Text(homeserver))
    } else if wanted == key {
        Some(page.value)
    } else {
        None
    }) by {
        json::lemma_get_with(bare, "homeserver"@, JsonView::Text(homeserver), wanted);
        json::lemma_get_with(first, key, page.value, wanted);
        assert(bare.get(wanted) is None);
    }
    match page.parse_warning {
        Some(warning) => {
            let text = JsonView::Text(warning);
            json::lemma_get_with(second, "parse_warning"@, text, "homeserver"@);
            json::lemma_get_with(second, "parse_warning"@, text, key);
            json::lemma_get_with(second, "parse_warning"@, text, "parse_warning"@);
        },
        None => {},
    }
}

} // verus!
