use comdirect_api::deposit::{serialize_deposit_as_id, ComdirectDeposit};
use comdirect_api::http::HttpResponse;
use comdirect_api::json::{Json, Member, Number};

fn parse(text: &str) -> Option<Json> {
    HttpResponse { status: 200, headers: vec![], body: text.to_string() }.json().ok()
}

fn quote(text: &str) -> String {
    serialize_deposit_as_id(&ComdirectDeposit::new(text.to_string(), String::new()))
}

#[test]
fn parse_reads_an_object_member() {
    let parsed = parse("{\"id\":\"42\",\"n\":7}").unwrap();
    let id = parsed.member("id").unwrap();
    assert_eq!(id.as_text().unwrap(), "42");
    assert_eq!(parsed.member("n").unwrap().as_integer(), Some(7));
    assert!(parsed.member("missing").is_none());
}

#[test]
fn parse_rejects_broken_text() {
    assert!(parse("{\"id\":").is_none());
    assert!(parse("").is_none());
    assert!(parse("{} trailing").is_none());
}

#[test]
fn parse_copies_every_kind_of_value() {
    let parsed = parse("[null, true, 12, \"x\", [], {\"k\": false}, 1.5]").unwrap();
    let expected = Json::Array(vec![
        Json::Null,
        Json::Bool(true),
        Json::Number(Number { integer: Some(12), text: "12".to_string() }),
        Json::Text("x".to_string()),
        Json::Array(vec![]),
        Json::Object(vec![Member { name: "k".to_string(), value: Json::Bool(false) }]),
        Json::Number(Number { integer: None, text: "1.5".to_string() }),
    ]);
    assert_eq!(parsed, expected);
}

#[test]
fn numbers_that_do_not_fit_have_no_integer() {
    let parsed = parse("[9223372036854775807, 9223372036854775808, -3]").unwrap();
    let items = parsed.as_items().unwrap();
    assert_eq!(items[0].as_integer(), Some(i64::MAX));
    assert_eq!(items[1].as_integer(), None);
    assert_eq!(items[1].as_decimal().unwrap(), "9223372036854775808");
    assert_eq!(items[2].as_integer(), Some(-3));
}

#[test]
fn member_finds_the_first_of_equal_names() {
    let object = Json::Object(vec![
        Member { name: "a".to_string(), value: Json::Bool(true) },
        Member { name: "b".to_string(), value: Json::Null },
        Member { name: "a".to_string(), value: Json::Bool(false) },
    ]);
    assert_eq!(object.member("a"), Some(&Json::Bool(true)));
    assert_eq!(object.member("b"), Some(&Json::Null));
    assert_eq!(object.member("c"), None);
    assert_eq!(Json::Null.member("a"), None);
}

#[test]
fn accessors_tell_the_kinds_apart() {
    let text = Json::Text("t".to_string());
    assert_eq!(text.as_text().unwrap(), "t");
    assert_eq!(text.as_decimal().unwrap(), "t");
    assert_eq!(text.as_bool(), None);
    assert_eq!(text.as_integer(), None);
    assert!(text.as_items().is_none());
    assert_eq!(Json::Bool(true).as_bool(), Some(true));
    assert!(Json::Bool(true).as_text().is_none());
    assert!(Json::Null.as_decimal().is_none());
    assert_eq!(Json::Array(vec![Json::Null]).as_items().unwrap().len(), 1);
}

#[test]
fn quote_writes_a_json_string() {
    assert_eq!(quote("abc"), "\"abc\"");
    assert_eq!(quote(""), "\"\"");
    assert_eq!(quote("a\"b\\c"), "\"a\\\"b\\\\c\"");
    assert_eq!(quote("line\nbreak"), "\"line\\nbreak\"");
}

#[test]
fn quoted_text_parses_back() {
    let quoted = quote("say \"hi\"");
    assert_eq!(parse(&quoted), Some(Json::Text("say \"hi\"".to_string())));
}

#[test]
fn texts_with_nothing_to_escape_are_quoted_unchanged() {
    for text in ["", " ", "plain", "a/b", "~\u{7f}", "d\u{e9}p\u{f4}t", "DEPOT-1", "x{y}[z]:,"] {
        assert_eq!(quote(text), format!("\"{}\"", text));
    }
}

#[test]
fn control_characters_quotes_and_backslashes_are_escaped() {
    assert_eq!(quote("\u{1f}"), "\"\\u001f\"");
    assert_eq!(quote("\u{0}"), "\"\\u0000\"");
    assert_eq!(quote("\t"), "\"\\t\"");
    assert_eq!(quote("\""), "\"\\\"\"");
    assert_eq!(quote("\\"), "\"\\\\\"");
}

