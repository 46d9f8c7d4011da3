use chatter::json::Json;
use chatter::rpc::{
    answer_line, bad_params, internal_error, parse_params, response_line, route_line, LineRoute,
    RpcError, RpcRequest,
};

fn request(method: Option<&str>, id: Option<Json>) -> RpcRequest {
    RpcRequest {
        jsonrpc: Some("2.0".to_string()),
        method: method.map(|m| m.to_string()),
        params: None,
        id,
    }
}

#[test]
fn a_result_is_answered_with_the_id() {
    let req = request(Some("rpc.ping"), Some(Json::Unsigned(1)));
    assert_eq!(
        answer_line(&req, Ok(Json::text("pong"))).unwrap(),
        "{\"jsonrpc\":\"2.0\",\"result\":\"pong\",\"id\":1}"
    );
}

#[test]
fn an_error_is_answered_with_the_id() {
    let req = request(Some("x"), Some(Json::text("a")));
    assert_eq!(
        answer_line(&req, Err(bad_params("unknown account"))).unwrap(),
        "{\"jsonrpc\":\"2.0\",\"error\":{\"code\":-32602,\"message\":\"unknown account\"},\"id\":\"a\"}"
    );
}

#[test]
fn notifications_are_answered_only_where_they_are_malformed() {
    let req = request(Some("x"), None);
    assert!(answer_line(&req, Ok(Json::Null)).is_none());
    assert!(answer_line(&req, Err(internal_error("e"))).is_none());
    let malformed = RpcError { code: -32600, message: "invalid request".to_string() };
    assert_eq!(
        answer_line(&req, Err(malformed)).unwrap(),
        "{\"jsonrpc\":\"2.0\",\"error\":{\"code\":-32600,\"message\":\"invalid request\"},\"id\":null}"
    );
}

#[test]
fn routes_lines() {
    let read = Ok(request(Some("events.subscribe"), None));
    assert!(matches!(route_line("  \t", &read), LineRoute::Ignore));
    assert!(matches!(route_line("{}", &read), LineRoute::Subscribe));
    let read = Ok(request(Some("events.unsubscribe"), None));
    assert!(matches!(route_line("{}", &read), LineRoute::Unsubscribe));
    let read = Ok(request(Some("account.list"), None));
    assert!(matches!(route_line("{}", &read), LineRoute::Handle));
    match route_line("{", &Err("eof".to_string())) {
        LineRoute::Answer(line) => assert_eq!(
            line,
            "{\"jsonrpc\":\"2.0\",\"error\":{\"code\":-32700,\"message\":\"parse error\"},\"id\":null}"
        ),
        _ => panic!("not answered"),
    }
    match route_line("{}", &Ok(request(None, Some(Json::Unsigned(7))))) {
        LineRoute::Answer(line) => assert_eq!(
            line,
            "{\"jsonrpc\":\"2.0\",\"error\":{\"code\":-32600,\"message\":\"invalid request\"},\"id\":7}"
        ),
        _ => panic!("not answered"),
    }
}

#[test]
fn parameters_may_be_missing_or_wrong() {
    let missing = parse_params::<u8>(None).err().unwrap();
    assert_eq!((missing.code, missing.message.as_str()), (-32602, "missing params"));
    let wrong = parse_params::<u8>(Some(Err("no".to_string()))).err().unwrap();
    assert_eq!((wrong.code, wrong.message.as_str()), (-32602, "invalid params: no"));
    assert_eq!(parse_params(Some(Ok(5u8))).ok(), Some(5));
}

#[test]
fn errors_on_the_way_carry_their_cause() {
    let error = internal_error("disk full");
    assert_eq!(error.code, -32603);
    assert_eq!(error.message, "internal error: disk full");
}

#[test]
fn a_response_stays_on_one_line_and_reads_back() {
    let line = response_line(Ok(Json::text("a\nb")), Json::Unsigned(3));
    assert!(!line.contains('\n'));
    let back = Json::parse(&line).ok().unwrap();
    assert_eq!(back.text_at("result"), Some("a\nb"));
    assert_eq!(back.copy_at("id").to_text(), "3");
    assert!(back.get("error").is_none());
}
