use electron_repl::json::{parse, push_string_literal, Json};

#[test]
fn parse_reads_an_object_member() {
    let doc = parse("{\"a\": \"x\", \"b\": [1, true, null]}").expect("valid JSON");
    let a = doc.get("a").expect("member a");
    assert_eq!(a.as_text().map(|t| t.as_str()), Some("x"));
    let b = doc.get("b").expect("member b");
    let items = b.as_items().expect("array");
    assert_eq!(items.len(), 3);
    assert!(matches!(&items[0], Json::Number(n) if n == "1"));
    assert!(matches!(&items[1], Json::Bool(true)));
    assert!(matches!(&items[2], Json::Null));
    assert!(doc.get("c").is_none());
}

#[test]
fn parse_rejects_text_that_is_not_json() {
    assert!(parse("{not json").is_none());
    assert!(parse("").is_none());
    assert!(parse("{} trailing").is_none());
}

#[test]
fn string_literal_is_quoted_and_escaped() {
    let mut buf = String::from("x=");
    push_string_literal(&mut buf, "a\"b\\c\n");
    assert_eq!(buf, "x=\"a\\\"b\\\\c\\n\"");
}

#[test]
fn parse_copies_nested_documents() {
    let doc = parse("{\"a\": {\"b\": [[], [{\"c\": \"deep\"}], 1.5e3, -2]}}").expect("valid JSON");
    let items = doc.get("a").and_then(|a| a.get("b")).and_then(|b| b.as_items()).expect("array");
    assert_eq!(items.len(), 4);
    assert_eq!(items[0].as_items().map(|i| i.len()), Some(0));
    let inner = items[1].as_items().expect("array");
    assert_eq!(
        inner[0].get("c").and_then(|c| c.as_text()).map(|t| t.as_str()),
        Some("deep")
    );
    assert!(matches!(&items[2], Json::Number(n) if n == "1500.0"));
    assert!(matches!(&items[3], Json::Number(n) if n == "-2"));
}

#[test]
fn parse_keeps_one_member_per_name() {
    let doc = parse("{\"k\": 1, \"k\": 2}").expect("valid JSON");
    match &doc {
        Json::Object(members) => assert_eq!(members.len(), 1),
        other => panic!("expected an object, got {:?}", other),
    }
    assert!(matches!(doc.get("k"), Some(Json::Number(n)) if n == "2"));
}

#[test]
fn accessors_answer_none_for_other_kinds() {
    let text = Json::Text("t".to_string());
    assert!(text.get("a").is_none());
    assert!(text.as_items().is_none());
    assert!(!text.is_object());
    let array = Json::Array(vec![]);
    assert!(array.as_text().is_none());
    assert!(array.get("a").is_none());
    assert!(Json::Object(vec![]).is_object());
}
