use ralph_core::json::{Json, JsonNumber};

fn text(s: &str) -> Json {
    Json::Text(s.to_string())
}

fn object(members: Vec<(&str, Json)>) -> Json {
    Json::Object(members.into_iter().map(|(k, v)| (k.to_string(), v)).collect())
}

#[test]
fn parse_reads_every_kind_of_value() {
    assert_eq!(Json::parse("null"), Some(Json::Null));
    assert_eq!(Json::parse(" true "), Some(Json::Bool(true)));
    assert_eq!(Json::parse("false"), Some(Json::Bool(false)));
    assert_eq!(Json::parse("\"a\\nb\""), Some(text("a\nb")));
    assert_eq!(Json::parse("[]"), Some(Json::Array(vec![])));
    assert_eq!(Json::parse("{}"), Some(Json::Object(vec![])));
    assert_eq!(
        Json::parse("[1, \"x\", [null]]"),
        Some(Json::Array(vec![
            Json::Number(JsonNumber::PosInt(1)),
            text("x"),
            Json::Array(vec![Json::Null]),
        ]))
    );
}

#[test]
fn parse_tells_the_kinds_of_number_apart() {
    assert_eq!(Json::parse("0"), Some(Json::Number(JsonNumber::PosInt(0))));
    assert_eq!(
        Json::parse("18446744073709551615"),
        Some(Json::Number(JsonNumber::PosInt(u64::MAX)))
    );
    assert_eq!(Json::parse("-5"), Some(Json::Number(JsonNumber::NegInt(-5))));
    assert_eq!(Json::parse("1.5"), Some(Json::Number(JsonNumber::Real("1.5".to_string()))));
    assert_eq!(Json::parse("10.0"), Some(Json::Number(JsonNumber::Real("10.0".to_string()))));
}

#[test]
fn parse_rejects_what_is_not_json() {
    assert_eq!(Json::parse(""), None);
    assert_eq!(Json::parse("{not json"), None);
    assert_eq!(Json::parse("{\"a\":1} trailing"), None);
    assert_eq!(Json::parse("[1,]"), None);
    assert_eq!(Json::parse("'single'"), None);
}

#[test]
fn parse_keeps_the_last_of_repeated_members() {
    let doc = Json::parse("{\"a\":1,\"b\":2,\"a\":3}").unwrap();
    assert_eq!(doc.get("a"), Some(&Json::Number(JsonNumber::PosInt(3))));
    assert_eq!(doc.unsigned_field("b"), Some(2));
}

#[test]
fn get_finds_the_last_member_with_the_key() {
    let doc = object(vec![("k", text("first")), ("other", Json::Null), ("k", text("second"))]);
    assert_eq!(doc.get("k"), Some(&text("second")));
    assert_eq!(doc.to_text(), "{\"k\":\"second\",\"other\":null}");
    assert_eq!(doc.get("other"), Some(&Json::Null));
    assert_eq!(doc.get("missing"), None);
    assert_eq!(doc.get(""), None);
    assert_eq!(Json::Array(vec![text("k")]).get("k"), None);
    assert_eq!(text("k").get("k"), None);
}

#[test]
fn accessors_answer_for_their_own_kind_only() {
    assert_eq!(text("abc").as_str(), Some("abc"));
    assert_eq!(Json::Null.as_str(), None);
    assert_eq!(Json::Number(JsonNumber::PosInt(7)).as_u64(), Some(7));
    assert_eq!(Json::Number(JsonNumber::NegInt(-7)).as_u64(), None);
    assert_eq!(Json::Number(JsonNumber::Real("7.0".to_string())).as_u64(), None);
    assert_eq!(text("7").as_u64(), None);
    let items = vec![Json::Null, Json::Bool(true)];
    assert_eq!(Json::Array(vec![Json::Null, Json::Bool(true)]).as_array(), Some(&items));
    assert_eq!(Json::Object(vec![]).as_array(), None);
}

#[test]
fn field_accessors_combine_lookup_and_kind() {
    let doc = Json::parse("{\"model\":\"x\",\"n\":3,\"neg\":-3,\"f\":3.5}").unwrap();
    assert_eq!(doc.text_field("model"), Some("x"));
    assert_eq!(doc.text_field("n"), None);
    assert_eq!(doc.text_field("missing"), None);
    assert_eq!(doc.unsigned_field("n"), Some(3));
    assert_eq!(doc.unsigned_field("neg"), None);
    assert_eq!(doc.unsigned_field("f"), None);
    assert_eq!(doc.unsigned_field("model"), None);
}

#[test]
fn to_text_writes_compact_json() {
    assert_eq!(Json::Null.to_text(), "null");
    assert_eq!(Json::Bool(true).to_text(), "true");
    assert_eq!(Json::Number(JsonNumber::PosInt(42)).to_text(), "42");
    assert_eq!(Json::Number(JsonNumber::NegInt(-42)).to_text(), "-42");
    assert_eq!(Json::Number(JsonNumber::Real("1.5".to_string())).to_text(), "1.5");
    assert_eq!(text("a\"b").to_text(), "\"a\\\"b\"");
    assert_eq!(Json::empty_object().to_text(), "{}");
    assert_eq!(
        object(vec![("a", Json::Array(vec![Json::Null, text("x")])), ("b", Json::Bool(false))])
            .to_text(),
        "{\"a\":[null,\"x\"],\"b\":false}"
    );
}

#[test]
fn to_text_stays_on_one_line() {
    let doc = object(vec![("multi\nline", text("first\nsecond\r\nthird"))]);
    let written = doc.to_text();
    assert!(!written.contains('\n'));
    assert_eq!(written, "{\"multi\\nline\":\"first\\nsecond\\r\\nthird\"}");
}

#[test]
fn number_text_that_is_no_number_is_written_as_null() {
    assert_eq!(Json::Number(JsonNumber::Real("abc".to_string())).to_text(), "null");
}

#[test]
fn written_text_parses_back() {
    let doc = Json::parse("{\"a\":[1,-2,3.25,\"s\",null,true],\"b\":{\"c\":{}}}").unwrap();
    assert_eq!(Json::parse(&doc.to_text()), Some(doc.duplicate()));
}

#[test]
fn duplicate_copies_the_whole_tree() {
    let doc = object(vec![
        ("a", Json::Array(vec![Json::Number(JsonNumber::Real("2.5".to_string())), Json::Null])),
        ("b", object(vec![("c", text("d"))])),
    ]);
    assert_eq!(doc.duplicate(), doc);
    assert_eq!(JsonNumber::NegInt(-1).duplicate(), JsonNumber::NegInt(-1));
}
