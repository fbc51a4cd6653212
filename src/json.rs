//! A JSON document in plain values, and the typed readers that vendor schemas
//! are decoded with.
use vstd::prelude::*;

verus! {

/// A JSON number as the JSON reader classifies it.
#[derive(Clone, Debug, PartialEq, Eq)]
pub enum JsonNumber {
    /// A non-negative integer that fits in 64 bits.
    PosInt(u64),
    /// A negative integer that fits in 64 bits.
    NegInt(i64),
    /// Any other number, as the shortest decimal text that reads back to the
    /// same double-precision value.
    Float(String),
}

/// A parsed JSON document. Object members keep the order the reader gives.
#[derive(Debug, PartialEq, Eq)]
pub enum Json {
    Null,
    Bool(bool),
    Number(JsonNumber),
    Str(String),
    Array(Vec<Json>),
    Object(Vec<(String, Json)>),
}

#[verifier::external_type_specification]
#[verifier::external_body]
pub struct ExJsonValue(serde_json::Value);

/// The document that the JSON reader finds in `text`, or `None` where `text`
/// is not JSON.
pub uninterp spec fn json_text(text: Seq<char>) -> Option<Json>;

/// Relies on `serde_json::from_str::<serde_json::Value>`: reads a JSON text,
/// or reports why it is not one. Equal texts give equal documents.
#[verifier::external_body]
pub(crate) fn parse_json(text: &str) -> (r: Result<Json, String>)
    ensures
        match r {
            Ok(j) => json_text(text@) == Some(j),
            Err(_) => json_text(text@) is None,
        },
{
    serde_json::from_str::<serde_json::Value>(text).map(json_from_value).map_err(|e| e.to_string())
}

/// Moves a `serde_json::Value` into the library's own form, variant for
/// variant; `serde_json::Number::as_u64` and `as_i64` tell the integer kinds
/// apart, and a float keeps serde_json's text of it.
#[verifier::external_body]
fn json_from_value(v: serde_json::Value) -> Json {
    match v {
        serde_json::Value::Null => Json::Null,
        serde_json::Value::Bool(b) => Json::Bool(b),
        serde_json::Value::Number(n) => Json::Number(match (n.as_u64(), n.as_i64()) {
            (Some(u), _) => JsonNumber::PosInt(u),
            (None, Some(i)) => JsonNumber::NegInt(i),
            (None, None) => JsonNumber::Float(n.to_string()),
        }),
        serde_json::Value::String(s) => Json::Str(s),
        serde_json::Value::Array(a) => Json::Array(a.into_iter().map(json_from_value).collect()),
        serde_json::Value::Object(m) => Json::Object(
            m.into_iter().map(|(k, x)| (k, json_from_value(x))).collect(),
        ),
    }
}

/// The value of the first member of `obj` named `key`.
pub open spec fn field(obj: Seq<(String, Json)>, key: Seq<char>) -> Option<Json>
    decreases obj.len(),
{
    if obj.len() == 0 {
        None
    } else if obj[0].0@ == key {
        Some(obj[0].1)
    } else {
        field(obj.drop_first(), key)
    }
}

/// A member added at the end of an object under another name leaves the
/// value found for `key` as it was.
pub proof fn lemma_field_ignores_other_member(obj: Seq<(String, Json)>, extra: (String, Json), key: Seq<char>)
    requires
        extra.0@ != key,
    ensures
        field(obj.push(extra), key) == field(obj, key),
    decreases obj.len(),
{
    if obj.len() > 0 {
        assert(obj.push(extra)[0] == obj[0]);
        assert(obj.push(extra).drop_first() =~= obj.drop_first().push(extra));
        lemma_field_ignores_other_member(obj.drop_first(), extra, key);
        if obj[0].0@ != key {
            assert(field(obj.push(extra), key) == field(obj.push(extra).drop_first(), key));
        }
    } else {
        assert(obj.push(extra)[0] == extra);
        assert(obj.push(extra).drop_first() =~= Seq::<(String, Json)>::empty());
        assert(field(Seq::<(String, Json)>::empty(), key) is None);
    }
}

/// A string.
pub open spec fn str_of(v: Option<Json>) -> Option<String> {
    match v {
        Some(Json::Str(s)) => Some(s),
        _ => None,
    }
}

/// A string, or nothing where the member is absent or `null`.
pub open spec fn opt_str_of(v: Option<Json>) -> Option<Option<String>> {
    match v {
        None => Some(None),
        Some(Json::Null) => Some(None),
        Some(Json::Str(s)) => Some(Some(s)),
        _ => None,
    }
}

/// A boolean.
pub open spec fn bool_of(v: Option<Json>) -> Option<bool> {
    match v {
        Some(Json::Bool(b)) => Some(b),
        _ => None,
    }
}

/// Any number.
pub open spec fn number_of(v: Option<Json>) -> Option<JsonNumber> {
    match v {
        Some(Json::Number(n)) => Some(n),
        _ => None,
    }
}

/// An integer from 0 to `u64::MAX`.
pub open spec fn u64_of(v: Option<Json>) -> Option<u64> {
    match v {
        Some(Json::Number(JsonNumber::PosInt(u))) => Some(u),
        _ => None,
    }
}

/// An integer from 0 to `u32::MAX`.
pub open spec fn u32_of(v: Option<Json>) -> Option<u32> {
    match v {
        Some(Json::Number(JsonNumber::PosInt(u))) => if u <= u32::MAX {
            Some(u as u32)
        } else {
            None
        },
        _ => None,
    }
}

/// An integer from `i64::MIN` to `i64::MAX`.
pub open spec fn i64_of(v: Option<Json>) -> Option<i64> {
    match v {
        Some(Json::Number(JsonNumber::PosInt(u))) => if u <= i64::MAX {
            Some(u as i64)
        } else {
            None
        },
        Some(Json::Number(JsonNumber::NegInt(i))) => Some(i),
        _ => None,
    }
}

/// An integer from `i32::MIN` to `i32::MAX`.
pub open spec fn i32_of(v: Option<Json>) -> Option<i32> {
    match v {
        Some(Json::Number(JsonNumber::PosInt(u))) => if u <= i32::MAX {
            Some(u as i32)
        } else {
            None
        },
        Some(Json::Number(JsonNumber::NegInt(i))) => if i >= i32::MIN {
            Some(i as i32)
        } else {
            None
        },
        _ => None,
    }
}

/// The members of an object.
pub open spec fn object_of(v: Option<Json>) -> Option<Seq<(String, Json)>> {
    match v {
        Some(Json::Object(o)) => Some(o@),
        _ => None,
    }
}

/// The first member of `obj` named `key`, if there is one.
pub fn get_field<'a>(obj: &'a Vec<(String, Json)>, key: &str) -> (r: Option<&'a Json>)
    ensures
        match r {
            Some(v) => field(obj@, key@) == Some(*v),
            None => field(obj@, key@) is None,
        },
{
    let k = key.to_owned();
    let mut i: usize = 0;
    assert(obj@.subrange(0, obj@.len() as int) =~= obj@);
    while i < obj.len()
        invariant
            i <= obj@.len(),
            k@ == key@,
            field(obj@, key@) == field(obj@.subrange(i as int, obj@.len() as int), key@),
        decreases obj@.len() - i,
    {
        if obj[i].0 == k {
            return Some(&obj[i].1);
        }
        assert(obj@.subrange(i as int + 1, obj@.len() as int) =~= obj@.subrange(
            i as int,
            obj@.len() as int,
        ).drop_first());
        i += 1;
    }
    assert(obj@.subrange(i as int, obj@.len() as int) =~= Seq::<(String, Json)>::empty());
    None
}

/// A copy of a number.
pub fn copy_number(n: &JsonNumber) -> (r: JsonNumber)
    ensures
        r == *n,
{
    match n {
        JsonNumber::PosInt(u) => JsonNumber::PosInt(*u),
        JsonNumber::NegInt(i) => JsonNumber::NegInt(*i),
        JsonNumber::Float(s) => JsonNumber::Float(s.clone()),
    }
}

/// The string member `key` of `obj`.
pub fn str_field(obj: &Vec<(String, Json)>, key: &str) -> (r: Option<String>)
    ensures
        r == str_of(field(obj@, key@)),
{
    match get_field(obj, key) {
        Some(Json::Str(s)) => Some(s.clone()),
        _ => None,
    }
}

/// The optional string member `key` of `obj`.
pub fn opt_str_field(obj: &Vec<(String, Json)>, key: &str) -> (r: Option<Option<String>>)
    ensures
        r == opt_str_of(field(obj@, key@)),
{
    match get_field(obj, key) {
        None => Some(None),
        Some(Json::Null) => Some(None),
        Some(Json::Str(s)) => Some(Some(s.clone())),
        _ => None,
    }
}

/// The boolean member `key` of `obj`.
pub fn bool_field(obj: &Vec<(String, Json)>, key: &str) -> (r: Option<bool>)
    ensures
        r == bool_of(field(obj@, key@)),
{
    match get_field(obj, key) {
        Some(Json::Bool(b)) => Some(*b),
        _ => None,
    }
}

/// The numeric member `key` of `obj`.
pub fn number_field(obj: &Vec<(String, Json)>, key: &str) -> (r: Option<JsonNumber>)
    ensures
        r == number_of(field(obj@, key@)),
{
    match get_field(obj, key) {
        Some(Json::Number(n)) => Some(copy_number(n)),
        _ => None,
    }
}

/// The unsigned 64-bit member `key` of `obj`.
pub fn u64_field(obj: &Vec<(String, Json)>, key: &str) -> (r: Option<u64>)
    ensures
        r == u64_of(field(obj@, key@)),
{
    match get_field(obj, key) {
        Some(Json::Number(JsonNumber::PosInt(u))) => Some(*u),
        _ => None,
    }
}

/// The unsigned 32-bit member `key` of `obj`.
pub fn u32_field(obj: &Vec<(String, Json)>, key: &str) -> (r: Option<u32>)
    ensures
        r == u32_of(field(obj@, key@)),
{
    match get_field(obj, key) {
        Some(Json::Number(JsonNumber::PosInt(u))) => if *u <= u32::MAX as u64 {
            Some(*u as u32)
        } else {
            None
        },
        _ => None,
    }
}

/// The signed 64-bit member `key` of `obj`.
pub fn i64_field(obj: &Vec<(String, Json)>, key: &str) -> (r: Option<i64>)
    ensures
        r == i64_of(field(obj@, key@)),
{
    match get_field(obj, key) {
        Some(Json::Number(JsonNumber::PosInt(u))) => if *u <= i64::MAX as u64 {
            Some(*u as i64)
        } else {
            None
        },
        Some(Json::Number(JsonNumber::NegInt(i))) => Some(*i),
        _ => None,
    }
}

/// A signed 32-bit integer.
pub fn i32_value(v: &Json) -> (r: Option<i32>)
    ensures
        r == i32_of(Some(*v)),
{
    match v {
        Json::Number(JsonNumber::PosInt(u)) => if *u <= i32::MAX as u64 {
            Some(*u as i32)
        } else {
            None
        },
        Json::Number(JsonNumber::NegInt(i)) => if *i >= i32::MIN as i64 {
            Some(*i as i32)
        } else {
            None
        },
        _ => None,
    }
}

/// Whether `obj` has a member `key`, whatever its value.
pub fn has_field(obj: &Vec<(String, Json)>, key: &str) -> (r: bool)
    ensures
        r == field(obj@, key@) is Some,
{
    get_field(obj, key).is_some()
}

} // verus!
