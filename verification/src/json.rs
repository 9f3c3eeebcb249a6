//! JSON documents as plain data.
//!
//! Reading and writing JSON text is the work of `serde_json`; the library
//! holds a document as a tree of its own, so that the logic which reads
//! fields out of a document is verified against a mathematical model of it.

use crate::text::str_eq;
use serde_json::Value;
use vstd::prelude::*;

verus! {

/// A JSON number: a non-negative integer, a negative integer, or any other
/// number kept as its decimal text.
#[derive(Debug, Clone, PartialEq)]
pub enum JsonNumber {
    PosInt(u64),
    NegInt(i64),
    Real(String),
}

/// A JSON document.  An object keeps its members in order; of several
/// members with one key the last is the one that counts.
#[derive(Debug, PartialEq)]
pub enum Json {
    Null,
    Bool(bool),
    Number(JsonNumber),
    Text(String),
    Array(Vec<Json>),
    Object(Vec<(String, Json)>),
}

/// The mathematical content of a JSON number.
pub ghost enum NumberValue {
    PosInt(u64),
    NegInt(i64),
    Real(Seq<char>),
}

/// The mathematical content of a JSON document.
pub ghost enum JsonValue {
    Null,
    Bool(bool),
    Number(NumberValue),
    Text(Seq<char>),
    Array(Seq<JsonValue>),
    Object(Seq<(Seq<char>, JsonValue)>),
}

impl View for JsonNumber {
    type V = NumberValue;

    open spec fn view(&self) -> NumberValue {
        match self {
            JsonNumber::PosInt(n) => NumberValue::PosInt(*n),
            JsonNumber::NegInt(n) => NumberValue::NegInt(*n),
            JsonNumber::Real(text) => NumberValue::Real(text@),
        }
    }
}

impl View for Json {
    type V = JsonValue;

    open spec fn view(&self) -> JsonValue
        decreases self,
    {
        match self {
            Json::Null => JsonValue::Null,
            Json::Bool(b) => JsonValue::Bool(*b),
            Json::Number(n) => JsonValue::Number(n@),
            Json::Text(s) => JsonValue::Text(s@),
            Json::Array(items) => JsonValue::Array(view_items(items@)),
            Json::Object(members) => JsonValue::Object(view_members(members@)),
        }
    }
}

/// The contents of the elements of an array, in order.
pub open spec fn view_items(items: Seq<Json>) -> Seq<JsonValue>
    decreases items,
{
    if items.len() == 0 {
        Seq::empty()
    } else {
        view_items(items.drop_last()).push(items.last().view())
    }
}

/// The contents of the members of an object, in order.
pub open spec fn view_members(members: Seq<(String, Json)>) -> Seq<(Seq<char>, JsonValue)>
    decreases members,
{
    if members.len() == 0 {
        Seq::empty()
    } else {
        view_members(members.drop_last()).push((members.last().0@, members.last().1.view()))
    }
}

/// The contents of an array are the contents of its elements, one for one.
pub proof fn lemma_view_items(items: Seq<Json>)
    ensures
        view_items(items).len() == items.len(),
        forall|i: int| 0 <= i < items.len() ==> #[trigger] view_items(items)[i] == items[i]@,
    decreases items.len(),
{
    if items.len() > 0 {
        let rest = items.drop_last();
        lemma_view_items(rest);
        assert(view_items(items) == view_items(rest).push(items.last()@));
        assert forall|i: int| 0 <= i < items.len() implies #[trigger] view_items(items)[i]
            == items[i]@ by {
            if i < rest.len() {
                assert(view_items(rest)[i] == rest[i]@);
            }
        }
    }
}

/// The contents of an object are the contents of its members, one for one.
pub proof fn lemma_view_members(members: Seq<(String, Json)>)
    ensures
        view_members(members).len() == members.len(),
        forall|i: int|
            0 <= i < members.len() ==> #[trigger] view_members(members)[i] == (
                members[i].0@,
                members[i].1@,
            ),
    decreases members.len(),
{
    if members.len() > 0 {
        let rest = members.drop_last();
        lemma_view_members(rest);
        assert(view_members(members) == view_members(rest).push(
            (members.last().0@, members.last().1@),
        ));
        assert forall|i: int| 0 <= i < members.len() implies #[trigger] view_members(
            members,
        )[i] == (members[i].0@, members[i].1@) by {
            if i < rest.len() {
                assert(view_members(rest)[i] == (rest[i].0@, rest[i].1@));
            }
        }
    }
}

/// The value of the last member named `key` among the first `upto` members.
pub open spec fn lookup_upto(
    members: Seq<(Seq<char>, JsonValue)>,
    key: Seq<char>,
    upto: int,
) -> Option<JsonValue>
    decreases upto,
{
    if upto <= 0 || upto > members.len() {
        None
    } else if members[upto - 1].0 == key {
        Some(members[upto - 1].1)
    } else {
        lookup_upto(members, key, upto - 1)
    }
}

impl JsonValue {
    /// The empty object, `{}`.
    pub open spec fn empty_object() -> JsonValue {
        JsonValue::Object(Seq::empty())
    }

    /// The value of the member named `key`, if this is an object that has one.
    /// Of several members with the key the last counts, as it does when a
    /// text with a repeated key is read.
    pub open spec fn field(self, key: Seq<char>) -> Option<JsonValue> {
        match self {
            JsonValue::Object(members) => lookup_upto(members, key, members.len() as int),
            _ => None,
        }
    }

    /// The text, if this is a string.
    pub open spec fn as_text(self) -> Option<Seq<char>> {
        match self {
            JsonValue::Text(s) => Some(s),
            _ => None,
        }
    }

    /// The number, if this is a non-negative integer.
    pub open spec fn as_unsigned(self) -> Option<u64> {
        match self {
            JsonValue::Number(NumberValue::PosInt(n)) => Some(n),
            _ => None,
        }
    }

    /// The elements, if this is an array.
    pub open spec fn as_items(self) -> Option<Seq<JsonValue>> {
        match self {
            JsonValue::Array(items) => Some(items),
            _ => None,
        }
    }

    /// The text of the member named `key`, if there is one and it is a string.
    pub open spec fn text_field(self, key: Seq<char>) -> Option<Seq<char>> {
        match self.field(key) {
            Some(v) => v.as_text(),
            None => None,
        }
    }

    /// The number of the member named `key`, if there is one and it is a
    /// non-negative integer.
    pub open spec fn unsigned_field(self, key: Seq<char>) -> Option<u64> {
        match self.field(key) {
            Some(v) => v.as_unsigned(),
            None => None,
        }
    }
}

/// `lookup_upto` finds the last member with the key: no member after it, up
/// to `upto`, has that key.
pub proof fn lemma_lookup_upto(members: Seq<(Seq<char>, JsonValue)>, key: Seq<char>, upto: int)
    requires
        upto <= members.len(),
    ensures
        match lookup_upto(members, key, upto) {
            Some(v) => exists|i: int|
                0 <= i < upto && members[i] == (key, v) && forall|j: int|
                    i < j < upto ==> members[j].0 != key,
            None => forall|j: int| 0 <= j < upto ==> members[j].0 != key,
        },
    decreases upto,
{
    if upto <= 0 {
    } else if members[upto - 1].0 == key {
        assert(members[upto - 1] == (key, members[upto - 1].1));
    } else {
        lemma_lookup_upto(members, key, upto - 1);
    }
}

/// `serde_json::Value`, the tree that `serde_json` reads text into and writes
/// text from.  The library sees nothing inside it; the two converters below
/// carry it across.
#[verifier::external_type_specification]
#[verifier::external_body]
pub struct ExValue(Value);

/// The document that `serde_json::from_str` reads from a text, or `None` where
/// it reports an error.
pub uninterp spec fn json_parse(text: Seq<char>) -> Option<JsonValue>;

/// The compact text that `serde_json::to_string` writes for a document.
pub uninterp spec fn json_render(value: JsonValue) -> Seq<char>;

/// Copies a `serde_json::Value` into the library's tree, node for node.  A
/// number is kept as `u64` where `serde_json` holds it so, else as `i64` where
/// it holds it so, else as the text that `serde_json` prints for it.
#[verifier::external_body]
fn lift(value: &Value) -> Json {
    match value {
        Value::Null => Json::Null,
        Value::Bool(b) => Json::Bool(*b),
        Value::Number(n) => Json::Number(
            match (n.as_u64(), n.as_i64()) {
                (Some(u), _) => JsonNumber::PosInt(u),
                (None, Some(i)) => JsonNumber::NegInt(i),
                (None, None) => JsonNumber::Real(n.to_string()),
            },
        ),
        Value::String(s) => Json::Text(s.clone()),
        Value::Array(a) => Json::Array(a.iter().map(lift).collect()),
        Value::Object(m) => Json::Object(m.iter().map(|(k, v)| (k.clone(), lift(v))).collect()),
    }
}

/// Builds the `serde_json::Value` for a document of the library, node for
/// node.  A number kept as text is read back by `serde_json`; text that it
/// does not accept as a number becomes `null`.
#[verifier::external_body]
fn lower(doc: &Json) -> Value {
    match doc {
        Json::Null => Value::Null,
        Json::Bool(b) => Value::Bool(*b),
        Json::Number(JsonNumber::PosInt(u)) => Value::from(*u),
        Json::Number(JsonNumber::NegInt(i)) => Value::from(*i),
        Json::Number(JsonNumber::Real(t)) => t.parse().map_or(Value::Null, Value::Number),
        Json::Text(s) => Value::String(s.clone()),
        Json::Array(a) => Value::Array(a.iter().map(lower).collect()),
        Json::Object(m) => Value::Object(m.iter().map(|(k, v)| (k.clone(), lower(v))).collect()),
    }
}

/// Reads a JSON document with `serde_json::from_str`.  Trusted: the result is
/// a function of the text alone, named `json_parse`.
#[verifier::external_body]
fn read_document(text: &str) -> (doc: Option<Json>)
    ensures
        match doc {
            Some(d) => json_parse(text@) == Some(d@),
            None => json_parse(text@) is None,
        },
{
    match serde_json::from_str::<Value>(text) {
        Ok(value) => Some(lift(&value)),
        Err(_) => None,
    }
}

/// Writes a JSON document with `serde_json::to_string`.  Trusted: the result
/// is a function of the document alone, named `json_render`, and holds no line
/// break, since the compact form has no white space between tokens and every
/// control character inside a string is escaped.
#[verifier::external_body]
fn write_document(doc: &Json) -> (text: String)
    ensures
        text@ == json_render(doc@),
        forall|i: int| 0 <= i < text@.len() ==> text@[i] != '\n',
{
    serde_json::to_string(&lower(doc)).unwrap_or_default()
}

impl JsonNumber {
    /// A copy of the number.
    pub fn duplicate(&self) -> (copy: JsonNumber)
        ensures
            copy@ == self@,
    {
        match self {
            JsonNumber::PosInt(n) => JsonNumber::PosInt(*n),
            JsonNumber::NegInt(n) => JsonNumber::NegInt(*n),
            JsonNumber::Real(text) => JsonNumber::Real(text.clone()),
        }
    }
}

impl Json {
    /// The document that a text holds, or `None` if the text is not JSON.
    pub fn parse(text: &str) -> (doc: Option<Json>)
        ensures
            match doc {
                Some(d) => json_parse(text@) == Some(d@),
                None => json_parse(text@) is None,
            },
    {
        read_document(text)
    }

    /// The document as compact JSON text on one line.
    pub fn to_text(&self) -> (text: String)
        ensures
            text@ == json_render(self@),
            forall|i: int| 0 <= i < text@.len() ==> text@[i] != '\n',
    {
        write_document(self)
    }

    /// The empty object, `{}`.
    pub fn empty_object() -> (doc: Json)
        ensures
            doc@ == JsonValue::empty_object(),
    {
        Json::Object(Vec::new())
    }

    /// The value of the member named `key`, if this is an object that has one;
    /// of several members with the key, the last.
    pub fn get(&self, key: &str) -> (value: Option<&Json>)
        ensures
            match value {
                Some(v) => self@.field(key@) == Some(v@),
                None => self@.field(key@) is None,
            },
    {
        match self {
            Json::Object(members) => {
                let ghost model = self@->Object_0;
                proof {
                    lemma_view_members(members@);
                }
                let mut i: usize = members.len();
                while i > 0
                    invariant
                        i <= members.len(),
                        self@ == JsonValue::Object(model),
                        model.len() == members.len(),
                        forall|k: int|
                            0 <= k < members.len() ==> #[trigger] model[k] == (
                                members@[k].0@,
                                members@[k].1@,
                            ),
                        lookup_upto(model, key@, model.len() as int) == lookup_upto(
                            model,
                            key@,
                            i as int,
                        ),
                    decreases i,
                {
                    i -= 1;
                    assert(model[i as int].0 == members@[i as int].0@);
                    if str_eq(members[i].0.as_str(), key) {
                        return Some(&members[i].1);
                    }
                }
                None
            },
            _ => None,
        }
    }

    /// The text, if this is a string.
    pub fn as_str(&self) -> (text: Option<&str>)
        ensures
            match text {
                Some(s) => self@.as_text() == Some(s@),
                None => self@.as_text() is None,
            },
    {
        match self {
            Json::Text(s) => Some(s.as_str()),
            _ => None,
        }
    }

    /// The number, if this is a non-negative integer.
    pub fn as_u64(&self) -> (number: Option<u64>)
        ensures
            number == self@.as_unsigned(),
    {
        match self {
            Json::Number(JsonNumber::PosInt(n)) => Some(*n),
            _ => None,
        }
    }

    /// The elements, if this is an array.
    pub fn as_array(&self) -> (items: Option<&Vec<Json>>)
        ensures
            match items {
                Some(v) => self@.as_items() == Some(view_items(v@)),
                None => self@.as_items() is None,
            },
    {
        match self {
            Json::Array(items) => {
                proof {
                    lemma_view_items(items@);
                }
                Some(items)
            },
            _ => None,
        }
    }

    /// The text of the member named `key`, if there is one and it is a string.
    pub fn text_field(&self, key: &str) -> (text: Option<&str>)
        ensures
            match text {
                Some(s) => self@.text_field(key@) == Some(s@),
                None => self@.text_field(key@) is None,
            },
    {
        match self.get(key) {
            Some(value) => value.as_str(),
            None => None,
        }
    }

    /// The number of the member named `key`, if there is one and it is a
    /// non-negative integer.
    pub fn unsigned_field(&self, key: &str) -> (number: Option<u64>)
        ensures
            number == self@.unsigned_field(key@),
    {
        match self.get(key) {
            Some(value) => value.as_u64(),
            None => None,
        }
    }

    /// A copy of the document.
    #[verifier::loop_isolation(false)]
    pub fn duplicate(&self) -> (copy: Json)
        ensures
            copy@ == self@,
        decreases self,
    {
        match self {
            Json::Null => Json::Null,
            Json::Bool(b) => Json::Bool(*b),
            Json::Number(n) => Json::Number(n.duplicate()),
            Json::Text(s) => Json::Text(s.clone()),
            Json::Array(items) => {
                let mut out: Vec<Json> = Vec::new();
                let mut i: usize = 0;
                while i < items.len()
                    invariant
                        i <= items.len(),
                        out@.len() == i,
                        forall|k: int| 0 <= k < i ==> out@[k]@ == items@[k]@,
                    decreases items.len() - i,
                {
                    out.push(items[i].duplicate());
                    i += 1;
                }
                let copy = Json::Array(out);
                proof {
                    lemma_view_items(out@);
                    lemma_view_items(items@);
                }
                assert(view_items(out@) =~= view_items(items@));
                copy
            },
            Json::Object(members) => {
                let mut out: Vec<(String, Json)> = Vec::new();
                let mut i: usize = 0;
                while i < members.len()
                    invariant
                        i <= members.len(),
                        out@.len() == i,
                        forall|k: int|
                            0 <= k < i ==> out@[k].0@ == members@[k].0@ && out@[k].1@
                                == members@[k].1@,
                    decreases members.len() - i,
                {
                    out.push((members[i].0.clone(), members[i].1.duplicate()));
                    i += 1;
                }
                let copy = Json::Object(out);
                proof {
                    lemma_view_members(out@);
                    lemma_view_members(members@);
                }
                assert(view_members(out@) =~= view_members(members@));
                copy
            },
        }
    }
}

} // verus!
