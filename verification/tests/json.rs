use chatter::json::Json;

#[test]
fn reads_a_text_and_writes_it_again() {
    let source = "{\"b\":[1,-2,2.5,null,true],\"a\":{\"x\":\"\\u00e9\\n\"}}";
    let value = Json::parse(source).ok().unwrap();
    assert_eq!(
        value.to_text(),
        "{\"b\":[1,-2,2.5,null,true],\"a\":{\"x\":\"\u{e9}\\n\"}}"
    );
    assert_eq!(value.copy().to_text(), value.to_text());
}

#[test]
fn complains_of_what_is_no_json() {
    assert!(Json::parse("{").is_err());
    assert!(Json::parse("").is_err());
    assert!(Json::parse("1 2").is_err());
    assert!(Json::parse_bytes(b"\xff").is_err());
    let complaint = Json::parse("nope").err().unwrap();
    assert_eq!(complaint, "expected ident at line 1 column 2");
}

#[test]
fn reads_bytes_as_it_reads_text() {
    let value = Json::parse_bytes(b"{\"flows\":[]}").ok().unwrap();
    assert_eq!(value.to_text(), "{\"flows\":[]}");
}

#[test]
fn written_text_reads_back_as_the_same_value() {
    let value = Json::object()
        .with("n", Json::Unsigned(u64::MAX))
        .with("i", Json::Signed(-5))
        .with("t", Json::text("line\nbreak \"quoted\""))
        .with("l", Json::array(vec![Json::Null, Json::Bool(false)]));
    let line = value.to_text();
    assert!(!line.contains('\n'));
    assert_eq!(Json::parse(&line).ok().unwrap().to_text(), line);
}

#[test]
fn finds_members() {
    let value = Json::parse("{\"s\":\"t\",\"b\":true,\"l\":[1],\"o\":{}}").ok().unwrap();
    assert_eq!(value.text_at("s"), Some("t"));
    assert_eq!(value.text_at("b"), None);
    assert_eq!(value.bool_at("b"), Some(true));
    assert_eq!(value.bool_at("s"), None);
    assert_eq!(value.items_at("l").unwrap().len(), 1);
    assert!(value.items_at("o").is_none());
    assert!(value.get("o").unwrap().is_object());
    assert!(value.get("missing").is_none());
    assert!(Json::Null.get("s").is_none());
    assert_eq!(value.copy_at("missing").to_text(), "null");
    assert_eq!(value.copy_at("s").to_text(), "\"t\"");
}
