use electron_repl::format::{render, FormattedOutput, OutputKind};
use electron_repl::response::{
    EvaluationResponse, ExceptionDetails, Label, RemoteObject, ResultValue,
};

fn object(
    description: Option<Label>,
    value: Option<ResultValue>,
    type_label: Option<Label>,
) -> EvaluationResponse {
    EvaluationResponse {
        exception: None,
        result: Some(RemoteObject { description, value, type_label }),
    }
}

fn shown(response: &EvaluationResponse) -> (OutputKind, String) {
    let out = electron_repl::format::format(response);
    (out.kind, out.text)
}

#[test]
fn numeric_value_is_shown_in_decimal() {
    let r = object(None, Some(ResultValue::Number("42".to_string())), None);
    assert_eq!(shown(&r), (OutputKind::Value, "42".to_string()));
}

#[test]
fn boolean_value_is_shown_as_word() {
    let t = object(None, Some(ResultValue::Boolean(true)), None);
    assert_eq!(shown(&t), (OutputKind::Value, "true".to_string()));
    let f = object(None, Some(ResultValue::Boolean(false)), None);
    assert_eq!(shown(&f), (OutputKind::Value, "false".to_string()));
}

#[test]
fn text_value_is_shown_as_it_is() {
    let r = object(None, Some(ResultValue::Text("hi".to_string())), None);
    assert_eq!(shown(&r), (OutputKind::Value, "hi".to_string()));
}

#[test]
fn other_value_is_shown_as_placeholder() {
    let r = object(None, Some(ResultValue::Other), None);
    assert_eq!(shown(&r), (OutputKind::Value, "(complex value)".to_string()));
}

#[test]
fn nothing_present_is_shown_as_no_output() {
    let r = object(None, None, None);
    assert_eq!(shown(&r), (OutputKind::Value, "(no output)".to_string()));
    let neither = EvaluationResponse { exception: None, result: None };
    assert_eq!(shown(&neither), (OutputKind::Value, "(no output)".to_string()));
}

#[test]
fn description_comes_before_value_and_type() {
    let r = object(
        Some(Label::Text("Array(3)".to_string())),
        Some(ResultValue::Other),
        Some(Label::Text("object".to_string())),
    );
    assert_eq!(shown(&r), (OutputKind::Value, "Array(3)".to_string()));
}

#[test]
fn value_comes_before_type() {
    let r = object(
        None,
        Some(ResultValue::Number("7".to_string())),
        Some(Label::Text("number".to_string())),
    );
    assert_eq!(shown(&r), (OutputKind::Value, "7".to_string()));
}

#[test]
fn type_is_shown_when_alone() {
    let r = object(None, None, Some(Label::Text("undefined".to_string())));
    assert_eq!(shown(&r), (OutputKind::Value, "undefined".to_string()));
}

#[test]
fn fields_that_are_not_text_get_placeholders() {
    let d = object(Some(Label::Invalid), Some(ResultValue::Boolean(true)), None);
    assert_eq!(shown(&d), (OutputKind::Value, "(invalid description)".to_string()));
    let t = object(None, None, Some(Label::Invalid));
    assert_eq!(shown(&t), (OutputKind::Value, "(unknown type)".to_string()));
}

#[test]
fn exception_wins_over_result() {
    let r = EvaluationResponse {
        exception: Some(ExceptionDetails {
            description: Some("ReferenceError: x is not defined".to_string()),
        }),
        result: Some(RemoteObject {
            description: Some(Label::Text("ignored".to_string())),
            value: Some(ResultValue::Number("1".to_string())),
            type_label: None,
        }),
    };
    assert_eq!(
        shown(&r),
        (OutputKind::Error, "ReferenceError: x is not defined".to_string())
    );
}

#[test]
fn exception_without_description_falls_back_to_result() {
    let r = EvaluationResponse {
        exception: Some(ExceptionDetails { description: None }),
        result: Some(RemoteObject {
            description: None,
            value: Some(ResultValue::Text("v".to_string())),
            type_label: None,
        }),
    };
    assert_eq!(shown(&r), (OutputKind::Value, "v".to_string()));
    let alone = EvaluationResponse {
        exception: Some(ExceptionDetails { description: None }),
        result: None,
    };
    assert_eq!(shown(&alone), (OutputKind::Value, "(no output)".to_string()));
}

#[test]
fn format_is_deterministic() {
    let r = object(None, Some(ResultValue::Number("3.5".to_string())), None);
    assert_eq!(shown(&r), shown(&r));
}

#[test]
fn empty_text_value_is_shown_empty() {
    let r = object(None, Some(ResultValue::Text(String::new())), None);
    assert_eq!(shown(&r), (OutputKind::Value, String::new()));
}

#[test]
fn render_colours_value_green_behind_arrow() {
    let out = FormattedOutput { kind: OutputKind::Value, text: "5".to_string() };
    assert_eq!(render(&out), "\x1b[32m<- 5\x1b[0m");
}

#[test]
fn render_colours_error_red() {
    let out = FormattedOutput { kind: OutputKind::Error, text: "boom".to_string() };
    assert_eq!(render(&out), "\x1b[31mboom\x1b[0m");
}
