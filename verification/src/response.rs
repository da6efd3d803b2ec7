//! What the remote side answers to an evaluation: the typed form, and how it is
//! read out of the JSON frame that carries it.

use vstd::prelude::*;
use vstd::string::*;
use crate::json::{Json, JsonView};

verus! {

/// The `value` field of a remote object, by kind.
#[derive(Debug)]
pub enum ResultValue {
    /// A string, as it is.
    Text(String),
    /// A number, in the decimal text of the document.
    Number(String),
    Boolean(bool),
    /// An object, an array or null.
    Other,
}

/// A field that is meant to hold text and is present.
#[derive(Debug)]
pub enum Label {
    Text(String),
    /// The field holds something that is not a string.
    Invalid,
}

/// The `result` object of a response.
#[derive(Debug)]
pub struct RemoteObject {
    pub description: Option<Label>,
    pub value: Option<ResultValue>,
    pub type_label: Option<Label>,
}

/// The `exceptionDetails` object of a response.
#[derive(Debug)]
pub struct ExceptionDetails {
    /// The description of the thrown exception, where it is given as text.
    pub description: Option<String>,
}

/// One answer to an evaluation request.
#[derive(Debug)]
pub struct EvaluationResponse {
    pub exception: Option<ExceptionDetails>,
    pub result: Option<RemoteObject>,
}

/// The mathematical value of a [`ResultValue`]: texts as sequences of characters.
pub enum ValueView {
    Text(Seq<char>),
    Number(Seq<char>),
    Boolean(bool),
    Other,
}

/// The mathematical value of a [`Label`]: texts as sequences of characters.
pub enum LabelView {
    Text(Seq<char>),
    Invalid,
}

/// The mathematical value of a [`RemoteObject`]: texts as sequences of characters.
pub struct ObjectView {
    pub description: Option<LabelView>,
    pub value: Option<ValueView>,
    pub type_label: Option<LabelView>,
}

/// The mathematical value of an [`ExceptionDetails`]: texts as sequences of characters.
pub struct ExceptionView {
    pub description: Option<Seq<char>>,
}

/// The mathematical value of an [`EvaluationResponse`]: texts as sequences of characters.
pub struct ResponseView {
    pub exception: Option<ExceptionView>,
    pub result: Option<ObjectView>,
}

impl View for ResultValue {
    type V = ValueView;

    open spec fn view(&self) -> ValueView {
        match self {
            ResultValue::Text(t) => ValueView::Text(t@),
            ResultValue::Number(n) => ValueView::Number(n@),
            ResultValue::Boolean(b) => ValueView::Boolean(*b),
            ResultValue::Other => ValueView::Other,
        }
    }
}

impl View for Label {
    type V = LabelView;

    open spec fn view(&self) -> LabelView {
        match self {
            Label::Text(t) => LabelView::Text(t@),
            Label::Invalid => LabelView::Invalid,
        }
    }
}

impl View for RemoteObject {
    type V = ObjectView;

    open spec fn view(&self) -> ObjectView {
        ObjectView {
            description: match self.description {
                Some(d) => Some(d@),
                None => None,
            },
            value: match self.value {
                Some(v) => Some(v@),
                None => None,
            },
            type_label: match self.type_label {
                Some(t) => Some(t@),
                None => None,
            },
        }
    }
}

impl View for ExceptionDetails {
    type V = ExceptionView;

    open spec fn view(&self) -> ExceptionView {
        ExceptionView {
            description: match self.description {
                Some(d) => Some(d@),
                None => None,
            },
        }
    }
}

impl View for EvaluationResponse {
    type V = ResponseView;

    open spec fn view(&self) -> ResponseView {
        ResponseView {
            exception: match self.exception {
                Some(e) => Some(e@),
                None => None,
            },
            result: match self.result {
                Some(r) => Some(r@),
                None => None,
            },
        }
    }
}

impl ResponseView {
    /// The description of the thrown exception, where the response carries one.
    pub open spec fn exception_description(self) -> Option<Seq<char>> {
        match self.exception {
            Some(e) => e.description,
            None => None,
        }
    }

    /// Exactly one of the two shapes is present, and every number has its digits.
    pub open spec fn well_formed(self) -> bool {
        &&& (self.exception is Some) != (self.result is Some)
        &&& (self.result matches Some(obj) && obj.value matches Some(ValueView::Number(n))
            ==> n.len() > 0)
    }
}

/// The kind of value that a JSON value stands for in a `value` field.
pub open spec fn value_of(doc: JsonView) -> ValueView {
    match doc {
        JsonView::Text(t) => ValueView::Text(t),
        JsonView::Number(n) => ValueView::Number(n),
        JsonView::Bool(b) => ValueView::Boolean(b),
        _ => ValueView::Other,
    }
}

/// What a field that is meant to hold text holds.
pub open spec fn label_of(doc: JsonView) -> LabelView {
    match doc {
        JsonView::Text(t) => LabelView::Text(t),
        _ => LabelView::Invalid,
    }
}

/// The remote object that a JSON object describes: its `description`, `value` and `type`
/// members, each where present.
pub open spec fn object_of(doc: JsonView) -> ObjectView {
    ObjectView {
        description: match doc.member("description"@) {
            Some(d) => Some(label_of(d)),
            None => None,
        },
        value: match doc.member("value"@) {
            Some(v) => Some(value_of(v)),
            None => None,
        },
        type_label: match doc.member("type"@) {
            Some(t) => Some(label_of(t)),
            None => None,
        },
    }
}

/// The exception details that a JSON object describes: the `description` of its
/// `exception` member, where that is text.
pub open spec fn exception_of(doc: JsonView) -> ExceptionView {
    ExceptionView {
        description: match doc.member("exception"@) {
            Some(e) => match e.member("description"@) {
                Some(d) => d.text(),
                None => None,
            },
            None => None,
        },
    }
}

/// The response that a payload describes: its `exceptionDetails` and `result` members, each
/// where it is an object.
pub open spec fn payload_of(doc: JsonView) -> ResponseView {
    ResponseView {
        exception: match doc.member("exceptionDetails"@) {
            Some(e) => if e is Object {
                Some(exception_of(e))
            } else {
                None
            },
            None => None,
        },
        result: match doc.member("result"@) {
            Some(r) => if r is Object {
                Some(object_of(r))
            } else {
                None
            },
            None => None,
        },
    }
}

/// The response that a frame carries: the payload under the frame's `result` member. A frame
/// without one carries a response with neither shape.
pub open spec fn frame_of(doc: JsonView) -> ResponseView {
    match doc.member("result"@) {
        Some(payload) => payload_of(payload),
        None => ResponseView { exception: None, result: None },
    }
}

/// Reads the kind of a `value` field.
pub fn decode_value(doc: &Json) -> (r: ResultValue)
    ensures
        r@ == value_of(doc@),
{
    match doc {
        Json::Text(t) => ResultValue::Text(t.clone()),
        Json::Number(n) => ResultValue::Number(n.clone()),
        Json::Bool(b) => ResultValue::Boolean(*b),
        Json::Null => ResultValue::Other,
        Json::Array(_) => ResultValue::Other,
        Json::Object(_) => ResultValue::Other,
    }
}

/// Reads a field that is meant to hold text.
pub fn decode_label(doc: &Json) -> (r: Label)
    ensures
        r@ == label_of(doc@),
{
    match doc {
        Json::Text(t) => Label::Text(t.clone()),
        Json::Null => Label::Invalid,
        Json::Bool(_) => Label::Invalid,
        Json::Number(_) => Label::Invalid,
        Json::Array(_) => Label::Invalid,
        Json::Object(_) => Label::Invalid,
    }
}

/// Reads a remote object out of a JSON object.
pub fn decode_object(doc: &Json) -> (r: RemoteObject)
    ensures
        r@ == object_of(doc@),
{
    let description = match doc.get("description") {
        Some(d) => Some(decode_label(d)),
        None => None,
    };
    let value = match doc.get("value") {
        Some(v) => Some(decode_value(v)),
        None => None,
    };
    let type_label = match doc.get("type") {
        Some(t) => Some(decode_label(t)),
        None => None,
    };
    RemoteObject { description, value, type_label }
}

/// Reads exception details out of a JSON object.
pub fn decode_exception(doc: &Json) -> (r: ExceptionDetails)
    ensures
        r@ == exception_of(doc@),
{
    let description = match doc.get("exception") {
        Some(e) => match e.get("description") {
            Some(d) => match d.as_text() {
                Some(t) => Some(t.clone()),
                None => None,
            },
            None => None,
        },
        None => None,
    };
    ExceptionDetails { description }
}

/// Reads a response out of its payload.
pub fn decode_payload(doc: &Json) -> (r: EvaluationResponse)
    ensures
        r@ == payload_of(doc@),
{
    let exception = match doc.get("exceptionDetails") {
        Some(e) => if e.is_object() {
            Some(decode_exception(e))
        } else {
            None
        },
        None => None,
    };
    let result = match doc.get("result") {
        Some(r) => if r.is_object() {
            Some(decode_object(r))
        } else {
            None
        },
        None => None,
    };
    EvaluationResponse { exception, result }
}

/// Reads a response out of the frame that carries it.
pub fn decode_frame(doc: &Json) -> (r: EvaluationResponse)
    ensures
        r@ == frame_of(doc@),
{
    match doc.get("result") {
        Some(payload) => decode_payload(payload),
        None => EvaluationResponse { exception: None, result: None },
    }
}

} // verus!
