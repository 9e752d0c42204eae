//! JSON documents as `serde_json` holds them, and what they mean.
//!
//! [`Json`] is the mathematical value of a document. [`json_view`] names the
//! value that a `serde_json::Value` holds, and each call into the crate is
//! described over that name.

use serde_json::Value;
use vstd::prelude::*;

verus! {

/// A number of a JSON document: an integer, or a floating point number given by
/// the bits of its IEEE 754 representation.
pub enum JsonNumber {
    Int(int),
    Float(u64),
}

/// The mathematical value of a JSON document.
pub enum Json {
    Null,
    Bool(bool),
    Number(JsonNumber),
    Text(Seq<char>),
    Array(Seq<Json>),
    Object(Map<Seq<char>, Json>),
}

impl Json {
    /// A member of an object; `None` where the object has no such member or the
    /// value is no object.
    pub open spec fn member(self, key: Seq<char>) -> Option<Json> {
        match self {
            Json::Object(m) => if m.contains_key(key) {
                Some(m[key])
            } else {
                None
            },
            _ => None,
        }
    }

    /// The object with one member set; a value that is no object stays as it is.
    pub open spec fn with_member(self, key: Seq<char>, value: Json) -> Json {
        match self {
            Json::Object(m) => Json::Object(m.insert(key, value)),
            _ => self,
        }
    }

    /// A member of a member.
    pub open spec fn nested(self, outer: Seq<char>, inner: Seq<char>) -> Option<Json> {
        match self.member(outer) {
            Some(v) => v.member(inner),
            None => None,
        }
    }

    /// The object with a member of one of its members set.
    pub open spec fn with_nested(self, outer: Seq<char>, inner: Seq<char>, value: Json) -> Json {
        match self.member(outer) {
            Some(v) => self.with_member(outer, v.with_member(inner, value)),
            None => self,
        }
    }
}

/// An integer as a JSON value.
pub open spec fn json_int(n: int) -> Json {
    Json::Number(JsonNumber::Int(n))
}

/// A list of texts as a JSON value.
pub open spec fn json_texts(list: Seq<Seq<char>>) -> Json {
    Json::Array(list.map_values(|s: Seq<char>| Json::Text(s)))
}

/// The values that a sequence of documents holds, in order.
pub open spec fn json_views(values: Seq<Value>) -> Seq<Json> {
    values.map_values(|v: Value| json_view(v))
}

/// Whether a key stands for itself in a JSON pointer, and for no array index.
pub open spec fn plain_key(key: Seq<char>) -> bool {
    &&& key.len() > 0
    &&& !('0' <= key[0] <= '9')
    &&& forall|i: int| 0 <= i < key.len() ==> #[trigger] key[i] != '/' && key[i] != '~'
}

/// `serde_json::Value`, a JSON document.
#[verifier::external_type_specification]
#[verifier::external_body]
pub struct ExValue(serde_json::Value);

/// `serde_json::Error`, why a document could not be written.
#[verifier::external_type_specification]
#[verifier::external_body]
pub struct ExJsonError(serde_json::Error);

/// The content of a `serde_json::Value`: its members, elements, texts and
/// numbers. The map behind an object keeps one value per key and orders its
/// members by their keys, so it holds no more than this.
pub uninterp spec fn json_view(v: serde_json::Value) -> Json;

/// The document that `serde_json::from_reader` reads from a text, or what the
/// error says that it reports.
pub uninterp spec fn json_parsed(text: Seq<u8>) -> Result<Json, Seq<char>>;

/// The text that `serde_json::to_vec` writes for a document.
pub uninterp spec fn json_text(value: Json) -> Seq<u8>;

/// `Value::as_str`: the text of a JSON string, `None` of any other value.
pub assume_specification[ serde_json::Value::as_str ](v: &serde_json::Value) -> (r: Option<&str>)
    ensures
        match r {
            Some(s) => json_view(*v) == Json::Text(s@),
            None => !(json_view(*v) is Text),
        },
;

/// `Value::as_array_mut`: the elements of a JSON array, which stays an array of
/// what the caller leaves in them; `None` of any other value, which is left as
/// it was.
pub assume_specification[ serde_json::Value::as_array_mut ](
    v: &mut serde_json::Value,
) -> (r: Option<&mut Vec<serde_json::Value>>)
    ensures
        match r {
            Some(list) => json_view(*old(v)) == Json::Array(json_views(list@)) && json_view(
                *final(v),
            ) == Json::Array(json_views(final(list)@)),
            None => !(json_view(*old(v)) is Array) && *final(v) == *old(v),
        },
;

/// Calls `serde_json::from_reader` for a `Value`, on bytes that are at hand, and
/// turns its error into text. Which texts are documents, of what value, and what
/// the error says of the others, is left to the name.
#[verifier::external_body]
pub(crate) fn parse(text: &Vec<u8>) -> (r: Result<Value, String>)
    ensures
        match r {
            Ok(v) => json_parsed(text@) == Ok::<Json, Seq<char>>(json_view(v)),
            Err(reason) => json_parsed(text@) == Err::<Json, Seq<char>>(reason@),
        },
{
    match serde_json::from_reader(text.as_slice()) {
        Ok(v) => Ok(v),
        Err(e) => Err(e.to_string()),
    }
}

/// Calls `serde_json::to_vec` on a `Value`. It succeeds: the keys of an object
/// are texts, numbers that are not finite have a text too, and a vector takes
/// what is written to it. What the text looks like is left to the name.
#[verifier::external_body]
pub(crate) fn to_text(v: &Value) -> (r: Result<Vec<u8>, serde_json::Error>)
    ensures
        r is Ok,
        r->Ok_0@ == json_text(json_view(*v)),
{
    serde_json::to_vec(v)
}

/// Calls `Value::get` with a text: the member of an object.
#[verifier::external_body]
pub(crate) fn get<'a>(v: &'a Value, key: &str) -> (r: Option<&'a Value>)
    ensures
        match r {
            Some(m) => json_view(*v).member(key@) == Some(json_view(*m)),
            None => json_view(*v).member(key@) is None,
        },
{
    v.get(key)
}

/// Calls `Value::get_mut` with a text: the member of an object, which holds
/// afterwards what the caller leaves in it.
#[verifier::external_body]
pub(crate) fn get_mut<'a>(v: &'a mut Value, key: &str) -> (r: Option<&'a mut Value>)
    ensures
        match r {
            Some(m) => json_view(*old(v)).member(key@) == Some(json_view(*m)) && json_view(
                *final(v),
            ) == json_view(*old(v)).with_member(key@, json_view(*final(m))),
            None => json_view(*old(v)).member(key@) is None && *final(v) == *old(v),
        },
{
    v.get_mut(key)
}

/// Calls `Value::pointer_mut` with the pointer to a member of a member, which
/// holds afterwards what the caller leaves in it. The keys stand for themselves
/// in the pointer, so an array has no such member.
#[verifier::external_body]
pub(crate) fn nested_mut<'a>(v: &'a mut Value, outer: &str, inner: &str) -> (r: Option<
    &'a mut Value,
>)
    requires
        plain_key(outer@),
        plain_key(inner@),
    ensures
        match r {
            Some(m) => json_view(*old(v)).nested(outer@, inner@) == Some(json_view(*m))
                && json_view(*final(v)) == json_view(*old(v)).with_nested(
                outer@,
                inner@,
                json_view(*final(m)),
            ),
            None => json_view(*old(v)).nested(outer@, inner@) is None && *final(v) == *old(v),
        },
{
    v.pointer_mut(&format!("/{}/{}", outer, inner))
}

/// Assigns through `Value`'s `IndexMut` with a text: sets a member of an object,
/// which need not have been there.
#[verifier::external_body]
pub(crate) fn set_member(v: &mut Value, key: &str, value: Value)
    requires
        json_view(*old(v)) is Object,
    ensures
        json_view(*final(v)) == json_view(*old(v)).with_member(key@, json_view(value)),
{
    v[key] = value;
}

/// Compares a `Value` with an `i32` through `Value`'s `PartialEq`: they are equal
/// where the value is that integer, and not where it is a floating point number.
#[verifier::external_body]
pub(crate) fn equals_int(v: &Value, n: i32) -> (r: bool)
    ensures
        r == (json_view(*v) == json_int(n as int)),
{
    *v == n
}

/// Calls `Value::from` on an integer.
#[verifier::external_body]
pub(crate) fn number(n: u64) -> (v: Value)
    ensures
        json_view(v) == json_int(n as int),
{
    Value::from(n)
}

/// Calls `Value::from` on a text.
#[verifier::external_body]
pub(crate) fn text(s: String) -> (v: Value)
    ensures
        json_view(v) == Json::Text(s@),
{
    Value::from(s)
}

/// Calls `Value::from` on a vector of documents.
#[verifier::external_body]
pub(crate) fn array(list: Vec<Value>) -> (v: Value)
    ensures
        json_view(v) == Json::Array(json_views(list@)),
{
    Value::from(list)
}

/// Calls `Value::from` on a new `serde_json::Map`: the object without members.
#[verifier::external_body]
pub(crate) fn empty_object() -> (v: Value)
    ensures
        json_view(v) == Json::Object(Map::<Seq<char>, Json>::empty()),
{
    Value::from(serde_json::Map::new())
}

/// Setting a member to what it already is changes nothing.
pub proof fn lemma_same_member(v: Json, key: Seq<char>)
    ensures
        v.member(key) matches Some(m) ==> v.with_member(key, m) == v,
{
    match v {
        Json::Object(m) => {
            if m.contains_key(key) {
                assert(m.insert(key, m[key]) =~= m);
            }
        },
        _ => {},
    }
}

/// Setting a member of a member to what it already is changes nothing.
pub proof fn lemma_same_nested(v: Json, outer: Seq<char>, inner: Seq<char>)
    ensures
        v.nested(outer, inner) matches Some(m) ==> v.with_nested(outer, inner, m) == v,
{
    lemma_same_member(v, outer);
    match v.member(outer) {
        Some(w) => {
            lemma_same_member(w, inner);
        },
        None => {},
    }
}

} // verus!
