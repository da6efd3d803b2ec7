//! JSON documents as plain data, and the places where they meet `serde_json`: reading a
//! document from text, and writing a string as a literal.

use vstd::prelude::*;
use vstd::string::*;

verus! {

/// A JSON document held as plain values.
///
/// A number is kept as its decimal text, so that no precision is lost or invented.
/// An object keeps its members in order; a name is looked up from the front.
#[derive(Debug)]
pub enum Json {
    Null,
    Bool(bool),
    Number(String),
    Text(String),
    Array(Vec<Json>),
    Object(Vec<Member>),
}

/// One `name: value` pair of a JSON object.
#[derive(Debug)]
pub struct Member {
    pub name: String,
    pub value: Json,
}

/// The mathematical value of a [`Json`] document.
pub enum JsonView {
    Null,
    Bool(bool),
    Number(Seq<char>),
    Text(Seq<char>),
    Array(Seq<JsonView>),
    Object(Seq<(Seq<char>, JsonView)>),
}

impl View for Json {
    type V = JsonView;

    open spec fn view(&self) -> JsonView
        decreases self,
    {
        match self {
            Json::Null => JsonView::Null,
            Json::Bool(b) => JsonView::Bool(*b),
            Json::Number(n) => JsonView::Number(n@),
            Json::Text(t) => JsonView::Text(t@),
            Json::Array(items) => JsonView::Array(
                Seq::new(
                    items.len() as nat,
                    |i: int|
                        if 0 <= i < items.len() {
                            items[i].view()
                        } else {
                            JsonView::Null
                        },
                ),
            ),
            Json::Object(members) => JsonView::Object(
                Seq::new(
                    members.len() as nat,
                    |i: int|
                        if 0 <= i < members.len() {
                            (members[i].name@, members[i].value.view())
                        } else {
                            (Seq::empty(), JsonView::Null)
                        },
                ),
            ),
        }
    }
}

/// The view of an array is the sequence of its elements' views.
pub proof fn lemma_array_view(items: Vec<Json>)
    ensures
        Json::Array(items)@ is Array,
        Json::Array(items)@->Array_0.len() == items.len(),
        forall|k: int|
            0 <= k < items.len() ==> #[trigger] Json::Array(items)@->Array_0[k] == items[k]@,
{
    reveal_with_fuel(<Json as View>::view, 2);
}

/// The view of an object is the sequence of its members' names and values.
pub proof fn lemma_object_view(members: Vec<Member>)
    ensures
        Json::Object(members)@ is Object,
        Json::Object(members)@->Object_0.len() == members.len(),
        forall|k: int|
            0 <= k < members.len() ==> #[trigger] Json::Object(members)@->Object_0[k] == (
                members[k].name@,
                members[k].value@,
            ),
{
    reveal_with_fuel(<Json as View>::view, 2);
}

impl JsonView {
    /// The value of the first member called `name` at or after position `from`.
    pub open spec fn member_from(
        members: Seq<(Seq<char>, JsonView)>,
        name: Seq<char>,
        from: int,
    ) -> Option<JsonView>
        decreases members.len() - from,
    {
        if from < 0 || from >= members.len() {
            None
        } else if members[from].0 == name {
            Some(members[from].1)
        } else {
            Self::member_from(members, name, from + 1)
        }
    }

    /// The value of the first member called `name`, where this is an object that has one.
    pub open spec fn member(self, name: Seq<char>) -> Option<JsonView> {
        match self {
            JsonView::Object(members) => Self::member_from(members, name, 0),
            _ => None,
        }
    }

    /// The characters of a JSON string; `None` for every other kind of value.
    pub open spec fn text(self) -> Option<Seq<char>> {
        match self {
            JsonView::Text(t) => Some(t),
            _ => None,
        }
    }

    /// The elements of a JSON array; `None` for every other kind of value.
    pub open spec fn items(self) -> Option<Seq<JsonView>> {
        match self {
            JsonView::Array(items) => Some(items),
            _ => None,
        }
    }
}

/// What an optional document looks like to a contract.
pub open spec fn view_of(doc: Option<&Json>) -> Option<JsonView> {
    match doc {
        Some(d) => Some(d@),
        None => None,
    }
}

impl Json {
    /// Looks up the first member called `name`.
    pub fn get(&self, name: &str) -> (r: Option<&Json>)
        ensures
            view_of(r) == self@.member(name@),
    {
        match self {
            Json::Object(members) => {
                let wanted = String::from_str(name);
                let mut i: usize = 0;
                proof {
                    lemma_object_view(*members);
                }
                while i < members.len()
                    invariant
                        i <= members.len(),
                        wanted@ == name@,
                        self@ is Object,
                        self@->Object_0.len() == members.len(),
                        forall|k: int|
                            0 <= k < members.len() ==> #[trigger] self@->Object_0[k] == (
                                members[k].name@,
                                members[k].value@,
                            ),
                        JsonView::member_from(self@->Object_0, name@, 0) == JsonView::member_from(
                            self@->Object_0,
                            name@,
                            i as int,
                        ),
                    decreases members.len() - i,
                {
                    if members[i].name == wanted {
                        return Some(&members[i].value);
                    }
                    i += 1;
                }
                None
            },
            _ => None,
        }
    }

    /// Whether this is a JSON object.
    pub fn is_object(&self) -> (r: bool)
        ensures
            r == (self@ is Object),
    {
        match self {
            Json::Object(members) => {
                proof {
                    lemma_object_view(*members);
                }
                true
            },
            _ => false,
        }
    }

    /// The characters of a JSON string.
    pub fn as_text(&self) -> (r: Option<&String>)
        ensures
            match r {
                Some(t) => self@.text() == Some(t@),
                None => self@.text() is None,
            },
    {
        match self {
            Json::Text(t) => Some(t),
            _ => None,
        }
    }

    /// The elements of a JSON array.
    pub fn as_items(&self) -> (r: Option<&Vec<Json>>)
        ensures
            match r {
                Some(items) => self@.items() == Some(items.deep_view()),
                None => self@.items() is None,
            },
    {
        match self {
            Json::Array(items) => {
                proof {
                    lemma_array_view(*items);
                    assert(items.deep_view() =~= self@->Array_0);
                }
                Some(items)
            },
            _ => None,
        }
    }
}

impl DeepView for Json {
    type V = JsonView;

    open spec fn deep_view(&self) -> JsonView {
        self@
    }
}

/// Makes `serde_json::Value` known as a type. Nothing is seen inside it: what it holds is
/// spoken of through [`json_of_value`].
#[verifier::external_type_specification]
#[verifier::external_body]
pub struct ExValue(serde_json::Value);

/// Makes `serde_json::Error` known as a type. Nothing is claimed of it.
#[verifier::external_type_specification]
#[verifier::external_body]
pub struct ExError(serde_json::Error);

/// The document that `serde_json` reads from `text`; `None` where it reports an error.
pub uninterp spec fn json_of_text(text: Seq<char>) -> Option<JsonView>;

/// The document that a `serde_json::Value` holds.
pub uninterp spec fn json_of_value(value: serde_json::Value) -> JsonView;

/// The JSON string literal, quotes and escapes included, that `serde_json` writes for `text`.
pub uninterp spec fn json_string_literal(text: Seq<char>) -> Seq<char>;

/// Calls `serde_json::from_str` for a `serde_json::Value`.
///
/// Trusted: success and the value's content depend on the text alone.
#[verifier::external_body]
fn value_from_text(text: &str) -> (r: Result<serde_json::Value, serde_json::Error>)
    ensures
        r is Ok <==> json_of_text(text@) is Some,
        r matches Ok(value) ==> json_of_text(text@) == Some(json_of_value(value)),
{
    serde_json::from_str::<serde_json::Value>(text)
}

/// One level of a `serde_json::Value`: its kind and what it holds, with the values inside
/// an array or an object still to be looked into.
enum Level<'a> {
    Null,
    Bool(bool),
    Number(String),
    Text(&'a String),
    Array(&'a Vec<serde_json::Value>),
    Object(Vec<(&'a String, &'a serde_json::Value)>),
}

/// The document that one level describes.
spec fn level_view(level: Level) -> JsonView {
    match level {
        Level::Null => JsonView::Null,
        Level::Bool(b) => JsonView::Bool(b),
        Level::Number(n) => JsonView::Number(n@),
        Level::Text(t) => JsonView::Text(t@),
        Level::Array(items) => JsonView::Array(
            items@.map_values(|v: serde_json::Value| json_of_value(v)),
        ),
        Level::Object(members) => JsonView::Object(
            members@.map_values(|m: (&String, &serde_json::Value)| (m.0@, json_of_value(*m.1))),
        ),
    }
}

/// Tells the variants of a `serde_json::Value` apart and hands out what the variant holds:
/// for a number the text that `Display` of `serde_json::Number` writes, for an object the
/// pairs that `serde_json::Map::iter` yields, in its order.
///
/// Trusted: the value holds the document that this one level describes.
#[verifier::external_body]
fn unfold(value: &serde_json::Value) -> (r: Level<'_>)
    ensures
        json_of_value(*value) == level_view(r),
{
    match value {
        serde_json::Value::Null => Level::Null,
        serde_json::Value::Bool(b) => Level::Bool(*b),
        serde_json::Value::Number(n) => Level::Number(n.to_string()),
        serde_json::Value::String(t) => Level::Text(t),
        serde_json::Value::Array(a) => Level::Array(a),
        serde_json::Value::Object(o) => Level::Object(o.iter().collect()),
    }
}

/// Copies the document that a `serde_json::Value` holds into a [`Json`].
fn json_from_value(value: &serde_json::Value) -> (r: Json)
    ensures
        r@ == json_of_value(*value),
    decreases json_of_value(*value),
{
    match unfold(value) {
        Level::Null => Json::Null,
        Level::Bool(b) => Json::Bool(b),
        Level::Number(n) => Json::Number(n),
        Level::Text(t) => Json::Text(t.clone()),
        Level::Array(items) => {
            let ghost whole = json_of_value(*value);
            let mut copied: Vec<Json> = Vec::new();
            let mut i: usize = 0;
            while i < items.len()
                invariant
                    i <= items.len(),
                    copied.len() == i,
                    whole == json_of_value(*value),
                    whole == JsonView::Array(
                        items@.map_values(|v: serde_json::Value| json_of_value(v)),
                    ),
                    forall|k: int| 0 <= k < i ==> (#[trigger] copied[k])@ == json_of_value(items[k]),
                decreases items.len() - i,
            {
                proof {
                    assert(whole->Array_0[i as int] == json_of_value(items[i as int]));
                }
                copied.push(json_from_value(&items[i]));
                i += 1;
            }
            proof {
                lemma_array_view(copied);
                assert(Json::Array(copied)@->Array_0 =~= whole->Array_0);
            }
            Json::Array(copied)
        },
        Level::Object(members) => {
            let ghost whole = json_of_value(*value);
            let mut copied: Vec<Member> = Vec::new();
            let mut i: usize = 0;
            while i < members.len()
                invariant
                    i <= members.len(),
                    copied.len() == i,
                    whole == json_of_value(*value),
                    whole == JsonView::Object(
                        members@.map_values(
                            |m: (&String, &serde_json::Value)| (m.0@, json_of_value(*m.1)),
                        ),
                    ),
                    forall|k: int|
                        0 <= k < i ==> (#[trigger] copied[k]).name@ == members[k].0@ && copied[k].value@
                            == json_of_value(*members[k].1),
                decreases members.len() - i,
            {
                proof {
                    // The member's value is a part of a part of the whole.
                    assert(whole->Object_0[i as int] == (
                        members[i as int].0@,
                        json_of_value(*members[i as int].1),
                    ));
                    assert(decreases_to!(whole->Object_0 => whole->Object_0[i as int]));
                    assert(decreases_to!(whole->Object_0[i as int] => whole->Object_0[i as int].1));
                }
                let name = members[i].0.clone();
                let inner = json_from_value(members[i].1);
                copied.push(Member { name, value: inner });
                i += 1;
            }
            proof {
                lemma_object_view(copied);
                assert(Json::Object(copied)@->Object_0 =~= whole->Object_0);
            }
            Json::Object(copied)
        },
    }
}

/// Writes `text` as a JSON string literal, through `Display` of `serde_json::Value::String`.
///
/// Trusted: the literal depends on the text alone.
#[verifier::external_body]
fn string_literal(text: &str) -> (r: String)
    ensures
        r@ == json_string_literal(text@),
{
    serde_json::Value::String(text.to_owned()).to_string()
}

/// Reads a JSON document from `text`.
pub fn parse(text: &str) -> (r: Option<Json>)
    ensures
        match r {
            Some(doc) => json_of_text(text@) == Some(doc@),
            None => json_of_text(text@) is None,
        },
{
    match value_from_text(text) {
        Ok(value) => Some(json_from_value(&value)),
        Err(_) => None,
    }
}

/// Appends `text` to `buf` as a JSON string literal.
pub fn push_string_literal(buf: &mut String, text: &str)
    ensures
        final(buf)@ == old(buf)@ + json_string_literal(text@),
{
    let literal = string_literal(text);
    buf.append(literal.as_str());
}

} // verus!
