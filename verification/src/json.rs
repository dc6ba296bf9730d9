//! JSON documents as plain values.

use vstd::prelude::*;
use crate::string_map::{find_value, lemma_first_occurrence, lemma_key_position};
use crate::text::same_text;

verus! {

/// `serde_json::Value`, as a value that is only handed on: nothing is known
/// of what is inside but through [`value_document`].
#[verifier::external_type_specification]
#[verifier::external_body]
pub struct ExValue(serde_json::Value);

/// `serde_json::Error`, as a value that is only handed on: nothing is known
/// of what is inside but through [`error_text`].
#[verifier::external_type_specification]
#[verifier::external_body]
pub struct ExError(serde_json::Error);

/// A JSON document.
#[derive(Debug)]
pub enum Json {
    Null,
    Bool(bool),
    Number { unsigned: Option<u64>, literal: String },
    Text(String),
    Array(Vec<Json>),
    Object(Vec<(String, Json)>),
}

/// What a `Json` holds, as plain values.
pub enum JsonView {
    Null,
    Bool(bool),
    Number { unsigned: Option<u64>, literal: Seq<char> },
    Text(Seq<char>),
    Array(Seq<JsonView>),
    Object(Seq<(Seq<char>, JsonView)>),
}

impl JsonView {
    /// The member `key` of an object; nothing for other documents.
    pub open spec fn member(self, key: Seq<char>) -> Option<JsonView> {
        match self {
            JsonView::Object(members) => find_value(members, key),
            _ => None,
        }
    }

    /// The characters of a text; nothing for other documents.
    pub open spec fn text(self) -> Option<Seq<char>> {
        match self {
            JsonView::Text(s) => Some(s),
            _ => None,
        }
    }

    /// The items of an array; nothing for other documents.
    pub open spec fn items(self) -> Option<Seq<JsonView>> {
        match self {
            JsonView::Array(items) => Some(items),
            _ => None,
        }
    }

    /// The value of a number that is a non-negative integer below 2^64;
    /// nothing for other numbers and other documents.
    pub open spec fn number(self) -> Option<u64> {
        match self {
            JsonView::Number { unsigned, literal } => unsigned,
            _ => None,
        }
    }

    /// The value of a boolean; nothing for other documents.
    pub open spec fn flag(self) -> Option<bool> {
        match self {
            JsonView::Bool(b) => Some(b),
            _ => None,
        }
    }

    /// The text under `key`, where the document is an object that has such a
    /// member and the member is a text.
    pub open spec fn text_at(self, key: Seq<char>) -> Option<Seq<char>> {
        match self.member(key) {
            Some(m) => m.text(),
            None => None,
        }
    }

    /// The unsigned number under `key`.
    pub open spec fn number_at(self, key: Seq<char>) -> Option<u64> {
        match self.member(key) {
            Some(m) => m.number(),
            None => None,
        }
    }

    /// The boolean under `key`.
    pub open spec fn flag_at(self, key: Seq<char>) -> Option<bool> {
        match self.member(key) {
            Some(m) => m.flag(),
            None => None,
        }
    }
}

/// What `serde_json::from_str` makes of a text: the document it stands for,
/// or the message of the error.
pub uninterp spec fn json_reading(text: Seq<char>) -> Result<JsonView, Seq<char>>;

/// The document that a `serde_json::Value` holds.
pub uninterp spec fn value_document(v: serde_json::Value) -> JsonView;

/// The message that a `serde_json::Error` displays.
pub uninterp spec fn error_text(e: serde_json::Error) -> Seq<char>;

/// `serde_json::from_str` at the type `serde_json::Value`. The outcome is a
/// function of the text alone; the contract names it.
#[verifier::external_body]
fn parse_value(text: &str) -> (r: Result<serde_json::Value, serde_json::Error>)
    ensures
        match r {
            Ok(v) => json_reading(text@) == Ok::<JsonView, Seq<char>>(value_document(v)),
            Err(e) => json_reading(text@) == Err::<JsonView, Seq<char>>(error_text(e)),
        },
{
    serde_json::from_str::<serde_json::Value>(text)
}

/// Copies a `serde_json::Value` into a `Json`, variant by variant: members
/// and items in the order in which the value's own iterators give them, a
/// number with `as_u64` and its display form.
#[verifier::external_body]
fn document_of(v: &serde_json::Value) -> (j: Json)
    ensures
        j.deep_view() == value_document(*v),
{
    match v {
        serde_json::Value::Null => Json::Null,
        serde_json::Value::Bool(b) => Json::Bool(*b),
        serde_json::Value::Number(n) => Json::Number { unsigned: n.as_u64(), literal: n.to_string() },
        serde_json::Value::String(s) => Json::Text(s.clone()),
        serde_json::Value::Array(a) => Json::Array(a.iter().map(document_of).collect()),
        serde_json::Value::Object(m) => Json::Object(
            m.iter().map(|(k, v)| (k.clone(), document_of(v))).collect(),
        ),
    }
}

/// The `Display` form of a `serde_json::Error`.
#[verifier::external_body]
fn error_message(e: &serde_json::Error) -> (m: String)
    ensures
        m@ == error_text(*e),
{
    e.to_string()
}

/// Reads a JSON text. Gives the document, or the message of the error where
/// the text is not JSON.
pub fn parse_json(text: &str) -> (r: Result<Json, String>)
    ensures
        match r {
            Ok(j) => json_reading(text@) == Ok::<JsonView, Seq<char>>(j.deep_view()),
            Err(m) => json_reading(text@) == Err::<JsonView, Seq<char>>(m@),
        },
{
    match parse_value(text) {
        Ok(v) => Ok(document_of(&v)),
        Err(e) => Err(error_message(&e)),
    }
}

/// The document that a `Json` stands for.
pub open spec fn document(j: Json) -> JsonView
    decreases j,
{
    match j {
        Json::Null => JsonView::Null,
        Json::Bool(b) => JsonView::Bool(b),
        Json::Number { unsigned, literal } => JsonView::Number { unsigned, literal: literal@ },
        Json::Text(s) => JsonView::Text(s@),
        Json::Array(items) => JsonView::Array(
            Seq::new(
                items@.len(),
                |i: int|
                    if 0 <= i < items@.len() {
                        document(items@[i])
                    } else {
                        JsonView::Null
                    },
            ),
        ),
        Json::Object(members) => JsonView::Object(
            Seq::new(
                members@.len(),
                |i: int|
                    if 0 <= i < members@.len() {
                        (members@[i].0@, document(members@[i].1))
                    } else {
                        (Seq::empty(), JsonView::Null)
                    },
            ),
        ),
    }
}

impl DeepView for Json {
    type V = JsonView;

    open spec fn deep_view(&self) -> JsonView {
        document(*self)
    }
}

impl Clone for Json {
    /// A copy with the same deep view.
    #[verifier::loop_isolation(false)]
    fn clone(&self) -> (r: Self)
        ensures
            r.deep_view() == self.deep_view(),
        decreases self,
    {
        match self {
            Json::Null => Json::Null,
            Json::Bool(b) => Json::Bool(*b),
            Json::Number { unsigned, literal } => Json::Number {
                unsigned: *unsigned,
                literal: literal.clone(),
            },
            Json::Text(s) => Json::Text(s.clone()),
            Json::Array(items) => {
                let mut out: Vec<Json> = Vec::new();
                let mut i: usize = 0;
                while i < items.len()
                    invariant
                        i <= items.len(),
                        out@.len() == i,
                        forall|k: int| 0 <= k < i ==> out@[k].deep_view() == items@[k].deep_view(),
                    decreases items.len() - i,
                {
                    let item = items[i].clone();
                    out.push(item);
                    i += 1;
                }
                let r = Json::Array(out);
                assert(r.deep_view()->Array_0 =~= self.deep_view()->Array_0);
                r
            },
            Json::Object(members) => {
                let mut out: Vec<(String, Json)> = Vec::new();
                let mut i: usize = 0;
                while i < members.len()
                    invariant
                        i <= members.len(),
                        out@.len() == i,
                        forall|k: int|
                            0 <= k < i ==> out@[k].0@ == members@[k].0@ && out@[k].1.deep_view()
                                == members@[k].1.deep_view(),
                    decreases members.len() - i,
                {
                    let key = members[i].0.clone();
                    let value = members[i].1.clone();
                    out.push((key, value));
                    i += 1;
                }
                let r = Json::Object(out);
                assert(r.deep_view()->Object_0 =~= self.deep_view()->Object_0);
                r
            },
        }
    }
}

impl Json {
    /// The member `key` of an object.
    pub fn get(&self, key: &str) -> (r: Option<&Json>)
        ensures
            r.deep_view() == self.deep_view().member(key@),
    {
        match self {
            Json::Object(members) => {
                let ghost pairs = self.deep_view()->Object_0;
                let mut i: usize = 0;
                while i < members.len()
                    invariant
                        i <= members.len(),
                        pairs.len() == members@.len(),
                        self.deep_view() == JsonView::Object(pairs),
                        forall|k: int|
                            0 <= k < pairs.len() ==> pairs[k] == (
                                members@[k].0@,
                                members@[k].1.deep_view(),
                            ),
                        forall|k: int| 0 <= k < i ==> pairs[k].0 != key@,
                    decreases members.len() - i,
                {
                    if same_text(members[i].0.as_str(), key) {
                        proof {
                            lemma_first_occurrence(pairs, key@, i as int);
                            lemma_key_position(pairs, key@);
                        }
                        return Some(&members[i].1);
                    }
                    i += 1;
                }
                proof {
                    lemma_first_occurrence(pairs, key@, i as int);
                    lemma_key_position(pairs, key@);
                }
                None
            },
            _ => None,
        }
    }

    /// The characters of a text.
    pub fn as_str(&self) -> (r: Option<&str>)
        ensures
            r.deep_view() == self.deep_view().text(),
    {
        match self {
            Json::Text(s) => Some(s.as_str()),
            _ => None,
        }
    }

    /// The items of an array.
    pub fn as_array(&self) -> (r: Option<&Vec<Json>>)
        ensures
            r.deep_view() == self.deep_view().items(),
    {
        match self {
            Json::Array(items) => {
                assert(items.deep_view() =~= self.deep_view()->Array_0);
                Some(items)
            },
            _ => None,
        }
    }

    /// The value of a number that is a non-negative integer below 2^64.
    pub fn as_u64(&self) -> (r: Option<u64>)
        ensures
            r == self.deep_view().number(),
    {
        match self {
            Json::Number { unsigned, literal } => *unsigned,
            _ => None,
        }
    }

    /// The value of a boolean.
    pub fn as_bool(&self) -> (r: Option<bool>)
        ensures
            r == self.deep_view().flag(),
    {
        match self {
            Json::Bool(b) => Some(*b),
            _ => None,
        }
    }

    /// The text under `key`.
    pub fn text_at(&self, key: &str) -> (r: Option<&str>)
        ensures
            r.deep_view() == self.deep_view().text_at(key@),
    {
        match self.get(key) {
            Some(m) => m.as_str(),
            None => None,
        }
    }

    /// The unsigned number under `key`.
    pub fn number_at(&self, key: &str) -> (r: Option<u64>)
        ensures
            r == self.deep_view().number_at(key@),
    {
        match self.get(key) {
            Some(m) => m.as_u64(),
            None => None,
        }
    }

    /// The boolean under `key`.
    pub fn flag_at(&self, key: &str) -> (r: Option<bool>)
        ensures
            r == self.deep_view().flag_at(key@),
    {
        match self.get(key) {
            Some(m) => m.as_bool(),
            None => None,
        }
    }
}

} // verus!
