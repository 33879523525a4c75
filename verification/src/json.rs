//! JSON values.
//!
//! The values themselves are `serde_json::Value`s, which the verifier cannot
//! look into. [`Json`] is the tree that such a value stands for, and
//! [`json_of`] names the tree of a given value. Every function below that is
//! marked `external_body` is a single call into `serde_json` whose contract is
//! taken on trust from that crate's source. The crate is built without its
//! `preserve_order` and `arbitrary_precision` features: an object is a sorted
//! map, and a number is one of three machine representations.
use vstd::prelude::*;
use serde_json::{Map as JsonMap, Value};

verus! {

/// A JSON number as `serde_json` stores it.
pub enum JsonNumber {
    /// A non-negative integer.
    PosInt(u64),
    /// A negative integer.
    NegInt(i64),
    /// Any other finite number, by its IEEE-754 bits.
    Float(u64),
}

/// The mathematical tree of a JSON value.
pub enum Json {
    Null,
    Bool(bool),
    Number(JsonNumber),
    String(Seq<char>),
    Array(Seq<Json>),
    Object(Map<Seq<char>, Json>),
}

impl Json {
    /// The member of an object under `key`; `None` where `self` is no object
    /// or has no such member.
    pub open spec fn member(self, key: Seq<char>) -> Option<Json> {
        match self {
            Json::Object(m) => if m.contains_key(key) {
                Some(m[key])
            } else {
                None
            },
            _ => None,
        }
    }

    /// The member under `key`, where a `null` member counts as absent.
    pub open spec fn optional_member(self, key: Seq<char>) -> Option<Json> {
        match self.member(key) {
            Some(j) => present(Some(j)),
            None => None,
        }
    }

    /// The value of a non-negative integer that fits 64 bits.
    pub open spec fn as_u64(self) -> Option<u64> {
        match self {
            Json::Number(JsonNumber::PosInt(n)) => Some(n),
            _ => None,
        }
    }

    /// The characters of a string.
    pub open spec fn as_str(self) -> Option<Seq<char>> {
        match self {
            Json::String(s) => Some(s),
            _ => None,
        }
    }

    /// The value of a boolean.
    pub open spec fn as_bool(self) -> Option<bool> {
        match self {
            Json::Bool(b) => Some(b),
            _ => None,
        }
    }

    /// The member under `key` where it is a non-negative integer.
    pub open spec fn u64_member(self, key: Seq<char>) -> Option<u64> {
        match self.member(key) {
            Some(j) => j.as_u64(),
            None => None,
        }
    }

    /// The member under `key` where it is a string.
    pub open spec fn str_member(self, key: Seq<char>) -> Option<Seq<char>> {
        match self.member(key) {
            Some(j) => j.as_str(),
            None => None,
        }
    }

    /// The member under `key` where it is a boolean.
    pub open spec fn bool_member(self, key: Seq<char>) -> Option<bool> {
        match self.member(key) {
            Some(j) => j.as_bool(),
            None => None,
        }
    }
}

/// The characters of an optional string.
pub open spec fn opt_str_view(s: Option<String>) -> Option<Seq<char>> {
    match s {
        Some(x) => Some(x@),
        None => None,
    }
}

/// An optional value in which `null` counts as absent.
pub open spec fn present(j: Option<Json>) -> Option<Json> {
    match j {
        Some(Json::Null) => None,
        other => other,
    }
}

/// An optional value in which absence is written as `null`.
pub open spec fn or_null(j: Option<Json>) -> Json {
    match j {
        Some(x) => x,
        None => Json::Null,
    }
}

/// `serde_json::Value`: a JSON value. What it holds is told by [`json_of`].
#[verifier::external_type_specification]
#[verifier::external_body]
pub struct ExValue(Value);

/// `serde_json::Error`: why a text was not parsed or a value not converted.
/// Nothing is read from it.
#[verifier::external_type_specification]
#[verifier::external_body]
pub struct ExJsonError(serde_json::Error);

/// `serde_json::Map`: the members of a JSON object, sorted by key. What it
/// holds is told by [`members_of`].
#[verifier::external_type_specification]
#[verifier::external_body]
#[verifier::reject_recursive_types(K)]
#[verifier::reject_recursive_types(V)]
pub struct ExJsonMap<K, V>(JsonMap<K, V>);

/// A JSON object under construction.
pub type JsonObject = JsonMap<String, Value>;

/// The tree that a `serde_json::Value` stands for.
pub uninterp spec fn json_of(v: Value) -> Json;

/// The members that a `serde_json::Map` holds.
pub uninterp spec fn members_of(m: JsonObject) -> Map<Seq<char>, Json>;

/// What `serde_json::from_slice` makes of a byte string: the tree of the
/// value it returns, or `None` where it reports an error.
pub uninterp spec fn json_parse(bytes: Seq<u8>) -> Option<Json>;

/// What `serde_json::to_vec` makes of a value with this tree: the bytes it
/// writes, or `None` where it reports an error.
pub uninterp spec fn json_text(j: Json) -> Option<Seq<u8>>;

/// The members of an object that has none.
pub open spec fn no_members() -> Map<Seq<char>, Json> {
    Map::empty()
}

/// The tree of an optional value.
pub open spec fn opt_json_of(v: Option<Value>) -> Option<Json> {
    match v {
        Some(x) => Some(json_of(x)),
        None => None,
    }
}

/// `<Value as Clone>::clone`: the copy is the same value.
pub assume_specification[ <Value as Clone>::clone ](v: &Value) -> (r: Value)
    ensures
        r == *v,
;

/// `serde_json::from_slice::<Value>`: parses one JSON text that spans the
/// whole input. The outcome depends on the bytes alone.
#[verifier::external_body]
pub(crate) fn parse_json(bytes: &[u8]) -> (r: Result<Value, serde_json::Error>)
    ensures
        match r {
            Ok(v) => json_parse(bytes@) == Some(json_of(v)),
            Err(_) => json_parse(bytes@) is None,
        },
{
    serde_json::from_slice::<Value>(bytes)
}

/// `serde_json::to_vec` on a `Value`: the compact JSON text of the value.
/// Whether it succeeds, and what it writes, depends on the tree alone.
#[verifier::external_body]
pub(crate) fn print_json(v: &Value) -> (r: Result<Vec<u8>, serde_json::Error>)
    ensures
        match r {
            Ok(text) => json_text(json_of(*v)) == Some(text@),
            Err(_) => json_text(json_of(*v)) is None,
        },
{
    serde_json::to_vec(v)
}

/// `Value::get` with a string index: the member of an object under that key.
#[verifier::external_body]
pub(crate) fn value_get<'a>(v: &'a Value, key: &str) -> (r: Option<&'a Value>)
    ensures
        match r {
            Some(x) => json_of(*v).member(key@) == Some(json_of(*x)),
            None => json_of(*v).member(key@) is None,
        },
{
    v.get(key)
}

/// `Value::as_u64`: the number, where it is a non-negative integer.
#[verifier::external_body]
pub(crate) fn value_as_u64(v: &Value) -> (r: Option<u64>)
    ensures
        r == json_of(*v).as_u64(),
{
    v.as_u64()
}

/// `Value::as_str`: the string, where the value is one.
#[verifier::external_body]
pub(crate) fn value_as_str<'a>(v: &'a Value) -> (r: Option<&'a str>)
    ensures
        match r {
            Some(s) => json_of(*v).as_str() == Some(s@),
            None => json_of(*v).as_str() is None,
        },
{
    v.as_str()
}

/// `Value::as_bool`: the boolean, where the value is one.
#[verifier::external_body]
pub(crate) fn value_as_bool(v: &Value) -> (r: Option<bool>)
    ensures
        r == json_of(*v).as_bool(),
{
    v.as_bool()
}

/// `Value::is_null`: true exactly for `null`.
#[verifier::external_body]
pub(crate) fn value_is_null(v: &Value) -> (r: bool)
    ensures
        r == (json_of(*v) is Null),
{
    v.is_null()
}

/// The variant `Value::Null`.
#[verifier::external_body]
pub(crate) fn value_null() -> (r: Value)
    ensures
        json_of(r) == Json::Null,
{
    Value::Null
}

/// The variant `Value::Bool`.
#[verifier::external_body]
pub(crate) fn value_bool(b: bool) -> (r: Value)
    ensures
        json_of(r) == Json::Bool(b),
{
    Value::Bool(b)
}

/// `Value::from` on a `u64`: a number that holds the integer as it is.
#[verifier::external_body]
pub(crate) fn value_u64(n: u64) -> (r: Value)
    ensures
        json_of(r) == Json::Number(JsonNumber::PosInt(n)),
{
    Value::from(n)
}

/// The variant `Value::String`.
#[verifier::external_body]
pub(crate) fn value_string(s: String) -> (r: Value)
    ensures
        json_of(r) == Json::String(s@),
{
    Value::String(s)
}

/// The variant `Value::Array`: the items' trees in the same order.
#[verifier::external_body]
pub(crate) fn value_array(items: Vec<Value>) -> (r: Value)
    ensures
        json_of(r) == Json::Array(items@.map_values(|v: Value| json_of(v))),
{
    Value::Array(items)
}

/// The variant `Value::Object`.
#[verifier::external_body]
pub(crate) fn value_object(m: JsonObject) -> (r: Value)
    ensures
        json_of(r) == Json::Object(members_of(m)),
{
    Value::Object(m)
}

/// `Map::new`: a map without members.
#[verifier::external_body]
pub(crate) fn map_new() -> (r: JsonObject)
    ensures
        members_of(r) == no_members(),
{
    JsonMap::new()
}

/// `Map::insert`: sets the member under `key`, replacing one that was there.
#[verifier::external_body]
pub(crate) fn map_insert(m: &mut JsonObject, key: String, v: Value) -> (r: Option<Value>)
    ensures
        members_of(*final(m)) == members_of(*old(m)).insert(key@, json_of(v)),
        opt_json_of(r) == (if members_of(*old(m)).contains_key(key@) {
            Some(members_of(*old(m))[key@])
        } else {
            None
        }),
{
    m.insert(key, v)
}

/// A string value with the characters of `s`.
pub fn string(s: &str) -> (r: Value)
    ensures
        json_of(r) == Json::String(s@),
{
    value_string(s.to_owned())
}

/// The value itself, or `null` where there is none.
pub fn or_null_value(v: Option<Value>) -> (r: Value)
    ensures
        json_of(r) == or_null(opt_json_of(v)),
{
    match v {
        Some(x) => x,
        None => value_null(),
    }
}

/// Sets the member of `m` under the key `key`.
pub fn put(m: &mut JsonObject, key: &str, v: Value)
    ensures
        members_of(*final(m)) == members_of(*old(m)).insert(key@, json_of(v)),
{
    let _ = map_insert(m, key.to_owned(), v);
}

/// The member of `v` under `key` as an owned value, where a `null` member
/// counts as absent.
pub fn optional_member(v: &Value, key: &str) -> (r: Option<Value>)
    ensures
        opt_json_of(r) == json_of(*v).optional_member(key@),
{
    match value_get(v, key) {
        Some(x) => if value_is_null(x) {
            None
        } else {
            Some(x.clone())
        },
        None => None,
    }
}

/// The member of `v` under `key` where it is a non-negative integer.
pub fn u64_member(v: &Value, key: &str) -> (r: Option<u64>)
    ensures
        r == json_of(*v).u64_member(key@),
{
    match value_get(v, key) {
        Some(x) => value_as_u64(x),
        None => None,
    }
}

/// The member of `v` under `key` where it is a boolean.
pub fn bool_member(v: &Value, key: &str) -> (r: Option<bool>)
    ensures
        r == json_of(*v).bool_member(key@),
{
    match value_get(v, key) {
        Some(x) => value_as_bool(x),
        None => None,
    }
}

/// The member of `v` under `key` where it is a string.
pub fn string_member(v: &Value, key: &str) -> (r: Option<String>)
    ensures
        opt_str_view(r) == json_of(*v).str_member(key@),
{
    match value_get(v, key) {
        Some(x) => match value_as_str(x) {
            Some(s) => Some(s.to_owned()),
            None => None,
        },
        None => None,
    }
}

} // verus!
