//! Turning a response into the line that is shown for it.

use vstd::prelude::*;
use vstd::string::*;
use crate::response::{
    EvaluationResponse, Label, LabelView, ObjectView, RemoteObject, ResponseView, ResultValue,
    ValueView,
};

verus! {

/// Whether a line shows a value or an error thrown by the evaluated expression.
#[derive(Debug, Clone, Copy, PartialEq, Eq, Structural)]
pub enum OutputKind {
    Value,
    Error,
}

/// The text shown for a response, and its kind.
#[derive(Debug)]
pub struct FormattedOutput {
    pub kind: OutputKind,
    pub text: String,
}

/// The mathematical value of a [`FormattedOutput`]: texts as sequences of characters.
pub struct OutputView {
    pub kind: OutputKind,
    pub text: Seq<char>,
}

impl View for FormattedOutput {
    type V = OutputView;

    open spec fn view(&self) -> OutputView {
        OutputView { kind: self.kind, text: self.text@ }
    }
}

/// The text of a `value` field: a string as it is, a number in its decimal text, a boolean
/// as `true` or `false`, anything else as a placeholder.
pub open spec fn value_text(value: ValueView) -> Seq<char> {
    match value {
        ValueView::Text(t) => t,
        ValueView::Number(n) => n,
        ValueView::Boolean(b) => if b {
            "true"@
        } else {
            "false"@
        },
        ValueView::Other => "(complex value)"@,
    }
}

/// The text of a remote object: its description, else its value, else the name of its type,
/// else a placeholder.
pub open spec fn object_text(object: ObjectView) -> Seq<char> {
    match object.description {
        Some(LabelView::Text(d)) => d,
        Some(LabelView::Invalid) => "(invalid description)"@,
        None => match object.value {
            Some(v) => value_text(v),
            None => match object.type_label {
                Some(LabelView::Text(t)) => t,
                Some(LabelView::Invalid) => "(unknown type)"@,
                None => "(no output)"@,
            },
        },
    }
}

/// What is shown for a response: the exception's description as an error where there is
/// one, else the text of the result object as a value, else a placeholder as a value.
pub open spec fn formatted(response: ResponseView) -> OutputView {
    match response.exception_description() {
        Some(d) => OutputView { kind: OutputKind::Error, text: d },
        None => OutputView {
            kind: OutputKind::Value,
            text: match response.result {
                Some(object) => object_text(object),
                None => "(no output)"@,
            },
        },
    }
}

/// The line printed for an output: red for an error, green behind an arrow for a value.
pub open spec fn rendered(output: OutputView) -> Seq<char> {
    match output.kind {
        OutputKind::Error => "\x1b[31m"@ + output.text + "\x1b[0m"@,
        OutputKind::Value => "\x1b[32m<- "@ + output.text + "\x1b[0m"@,
    }
}

/// The text of a `value` field.
pub fn format_value(value: &ResultValue) -> (r: String)
    ensures
        r@ == value_text(value@),
{
    match value {
        ResultValue::Text(t) => t.clone(),
        ResultValue::Number(n) => n.clone(),
        ResultValue::Boolean(b) => if *b {
            String::from_str("true")
        } else {
            String::from_str("false")
        },
        ResultValue::Other => String::from_str("(complex value)"),
    }
}

/// The text of a remote object.
pub fn format_object(object: &RemoteObject) -> (r: String)
    ensures
        r@ == object_text(object@),
{
    match &object.description {
        Some(Label::Text(d)) => d.clone(),
        Some(Label::Invalid) => String::from_str("(invalid description)"),
        None => match &object.value {
            Some(v) => format_value(v),
            None => match &object.type_label {
                Some(Label::Text(t)) => t.clone(),
                Some(Label::Invalid) => String::from_str("(unknown type)"),
                None => String::from_str("(no output)"),
            },
        },
    }
}

/// Chooses what to show for a response. Never fails.
pub fn format(response: &EvaluationResponse) -> (r: FormattedOutput)
    ensures
        r@ == formatted(response@),
{
    match &response.exception {
        Some(details) => match &details.description {
            Some(d) => {
                return FormattedOutput { kind: OutputKind::Error, text: d.clone() };
            },
            None => {},
        },
        None => {},
    }
    let text = match &response.result {
        Some(object) => format_object(object),
        None => String::from_str("(no output)"),
    };
    FormattedOutput { kind: OutputKind::Value, text }
}

/// The line to print for an output.
pub fn render(output: &FormattedOutput) -> (r: String)
    ensures
        r@ == rendered(output@),
{
    let mut line = match output.kind {
        OutputKind::Error => String::from_str("\x1b[31m"),
        OutputKind::Value => String::from_str("\x1b[32m<- "),
    };
    line.append(output.text.as_str());
    line.append("\x1b[0m");
    line
}

/// The text that the decision order picks is an empty string of the response itself: an
/// empty exception description, or an empty description, text value or type name.
pub open spec fn picks_empty_text(response: ResponseView) -> bool {
    match response.exception_description() {
        Some(d) => d.len() == 0,
        None => match response.result {
            Some(object) => match object.description {
                Some(LabelView::Text(d)) => d.len() == 0,
                Some(LabelView::Invalid) => false,
                None => match object.value {
                    Some(ValueView::Text(t)) => t.len() == 0,
                    Some(_) => false,
                    None => match object.type_label {
                        Some(LabelView::Text(t)) => t.len() == 0,
                        _ => false,
                    },
                },
            },
            None => false,
        },
    }
}

/// A well-formed response is shown as a text that is not empty, unless the field picked
/// for it holds the empty string.
pub proof fn lemma_output_not_empty(response: ResponseView)
    requires
        response.well_formed(),
        !picks_empty_text(response),
    ensures
        formatted(response).text.len() > 0,
{
    reveal_strlit("true");
    reveal_strlit("false");
    reveal_strlit("(complex value)");
    reveal_strlit("(invalid description)");
    reveal_strlit("(unknown type)");
    reveal_strlit("(no output)");
}

/// An exception's description is shown as an error, whatever the result object holds.
pub proof fn lemma_exception_wins(response: ResponseView, description: Seq<char>)
    requires
        response.exception_description() == Some(description),
    ensures
        formatted(response) == (OutputView { kind: OutputKind::Error, text: description }),
        forall|other: Option<ObjectView>|
            formatted(ResponseView { result: other, ..response }) == formatted(response),
{
}

/// A value is shown by its kind, where no description stands before it.
pub proof fn lemma_value_by_kind(response: ResponseView, object: ObjectView, value: ValueView)
    requires
        response.exception_description() is None,
        response.result == Some(object),
        object.description is None,
        object.value == Some(value),
    ensures
        formatted(response).kind == OutputKind::Value,
        value matches ValueView::Text(t) ==> formatted(response).text == t,
        value matches ValueView::Number(n) ==> formatted(response).text == n,
        value == ValueView::Boolean(true) ==> formatted(response).text == "true"@,
        value == ValueView::Boolean(false) ==> formatted(response).text == "false"@,
        value == ValueView::Other ==> formatted(response).text == "(complex value)"@,
{
}

/// A response without an exception description, and with neither description, value nor
/// type, is shown as the placeholder for no output.
pub proof fn lemma_nothing_to_show(response: ResponseView)
    requires
        response.exception_description() is None,
        response.result matches Some(object) ==> object.description is None && object.value
            is None && object.type_label is None,
    ensures
        formatted(response) == (OutputView { kind: OutputKind::Value, text: "(no output)"@ }),
{
}

} // verus!
