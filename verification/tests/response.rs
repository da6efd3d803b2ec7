use electron_repl::format::OutputKind;
use electron_repl::json::{parse, Json, Member};
use electron_repl::response::{decode_frame, decode_payload, Label, ResultValue};
use electron_repl::session::read_reply;

fn show_payload(text: &str) -> (OutputKind, String) {
    let doc = parse(text).expect("valid JSON");
    let out = electron_repl::format::format(&decode_payload(&doc));
    (out.kind, out.text)
}

fn show_frame(text: &str) -> (OutputKind, String) {
    let doc = parse(text).expect("valid JSON");
    let out = electron_repl::format::format(&decode_frame(&doc));
    (out.kind, out.text)
}

#[test]
fn payload_with_numeric_value_shows_it() {
    assert_eq!(
        show_payload("{\"result\":{\"value\":5}}"),
        (OutputKind::Value, "5".to_string())
    );
}

#[test]
fn payload_with_exception_shows_description_as_error() {
    assert_eq!(
        show_payload(
            "{\"exceptionDetails\":{\"exception\":{\"description\":\"ReferenceError: x is not defined\"}}}"
        ),
        (OutputKind::Error, "ReferenceError: x is not defined".to_string())
    );
}

#[test]
fn frame_carries_payload_under_result() {
    assert_eq!(
        show_frame("{\"id\":1,\"result\":{\"result\":{\"type\":\"number\",\"value\":42,\"description\":\"42\"}}}"),
        (OutputKind::Value, "42".to_string())
    );
    assert_eq!(
        show_frame("{\"id\":1,\"result\":{\"result\":{\"type\":\"string\",\"value\":\"hi\"}}}"),
        (OutputKind::Value, "hi".to_string())
    );
    assert_eq!(
        show_frame("{\"id\":1,\"result\":{\"result\":{\"type\":\"boolean\",\"value\":true}}}"),
        (OutputKind::Value, "true".to_string())
    );
    assert_eq!(
        show_frame("{\"id\":1,\"result\":{\"result\":{\"value\":{\"a\":1}}}}"),
        (OutputKind::Value, "(complex value)".to_string())
    );
    assert_eq!(
        show_frame("{\"id\":1,\"result\":{\"result\":{\"value\":[1,2]}}}"),
        (OutputKind::Value, "(complex value)".to_string())
    );
    assert_eq!(
        show_frame("{\"id\":1,\"result\":{\"result\":{\"value\":null}}}"),
        (OutputKind::Value, "(complex value)".to_string())
    );
    assert_eq!(
        show_frame("{\"id\":1,\"result\":{\"result\":{\"type\":\"undefined\"}}}"),
        (OutputKind::Value, "undefined".to_string())
    );
    assert_eq!(
        show_frame("{\"id\":1,\"result\":{\"result\":{}}}"),
        (OutputKind::Value, "(no output)".to_string())
    );
}

#[test]
fn frame_numbers_keep_their_decimal_text() {
    assert_eq!(
        show_frame("{\"result\":{\"result\":{\"value\":-17}}}"),
        (OutputKind::Value, "-17".to_string())
    );
    assert_eq!(
        show_frame("{\"result\":{\"result\":{\"value\":2.5}}}"),
        (OutputKind::Value, "2.5".to_string())
    );
}

#[test]
fn frame_with_both_shapes_shows_exception() {
    assert_eq!(
        show_frame(
            "{\"result\":{\"result\":{\"value\":1},\"exceptionDetails\":{\"exception\":{\"description\":\"E\"}}}}"
        ),
        (OutputKind::Error, "E".to_string())
    );
}

#[test]
fn frame_without_anything_known_shows_no_output() {
    assert_eq!(show_frame("{}"), (OutputKind::Value, "(no output)".to_string()));
    assert_eq!(
        show_frame("{\"result\":{\"other\":1}}"),
        (OutputKind::Value, "(no output)".to_string())
    );
    assert_eq!(
        show_frame("{\"result\":{\"result\":5}}"),
        (OutputKind::Value, "(no output)".to_string())
    );
}

#[test]
fn fields_of_the_wrong_kind_are_marked() {
    let doc = parse("{\"result\":{\"description\":7,\"type\":null}}").expect("valid JSON");
    let response = decode_payload(&doc);
    let object = response.result.expect("result object");
    assert!(matches!(object.description, Some(Label::Invalid)));
    assert!(matches!(object.type_label, Some(Label::Invalid)));
    assert!(object.value.is_none());
}

#[test]
fn exception_description_must_be_text() {
    let doc = parse("{\"exceptionDetails\":{\"exception\":{\"description\":3}}}")
        .expect("valid JSON");
    let response = decode_payload(&doc);
    assert!(response.exception.expect("details").description.is_none());
    let bare = parse("{\"exceptionDetails\":\"text\"}").expect("valid JSON");
    assert!(decode_payload(&bare).exception.is_none());
}

#[test]
fn decode_works_on_a_document_built_by_hand() {
    let doc = Json::Object(vec![Member {
        name: "result".to_string(),
        value: Json::Object(vec![Member {
            name: "value".to_string(),
            value: Json::Text("built".to_string()),
        }]),
    }]);
    let response = decode_payload(&doc);
    let object = response.result.expect("result object");
    assert!(matches!(object.value, Some(ResultValue::Text(ref t)) if t == "built"));
}

#[test]
fn first_member_of_a_name_is_the_one_read() {
    let doc = Json::Object(vec![
        Member { name: "a".to_string(), value: Json::Bool(true) },
        Member { name: "a".to_string(), value: Json::Bool(false) },
    ]);
    assert!(matches!(doc.get("a"), Some(Json::Bool(true))));
}

#[test]
fn reply_that_is_not_an_object_is_malformed() {
    assert!(matches!(
        read_reply("not json"),
        Err(electron_repl::failure::Failure::MalformedResponse)
    ));
    assert!(matches!(
        read_reply("[1,2,3]"),
        Err(electron_repl::failure::Failure::MalformedResponse)
    ));
    assert!(matches!(
        read_reply("\"text\""),
        Err(electron_repl::failure::Failure::MalformedResponse)
    ));
    assert!(read_reply("{}").is_ok());
}
