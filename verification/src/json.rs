//! A mathematical model of JSON documents, and access to `serde_json`'s
//! document type through that model.
//!
//! A `serde_json::Value` is opaque to the verifier; `json_of` names its
//! contents as a [`Json`] tree, and every reader below states what it returns
//! over that tree. Numbers appear in the model either as mathematical
//! integers or, for non-integral numbers, as the canonical text `serde_json`
//! renders them with.
use vstd::prelude::*;

use serde_json::Value;

use crate::jtext::spec_int_text;

verus! {

/// A mathematical JSON document: the model of a `serde_json::Value`.
pub enum Json {
    Null,
    Bool(bool),
    /// An integral number, in the range `serde_json` can hold (`i64`/`u64`).
    Int(int),
    /// A non-integral number, as the canonical decimal text `serde_json`
    /// renders it with.
    Dec(Seq<char>),
    Str(Seq<char>),
    Arr(Seq<Json>),
    Obj(Map<Seq<char>, Json>),
}

/// `serde_json`'s document type, opaque to the verifier but for `json_of`.
#[verifier::external_type_specification]
#[verifier::external_body]
pub struct ExValue(Value);

/// `serde_json`'s error type; carried through, never inspected.
#[verifier::external_type_specification]
#[verifier::external_body]
pub struct ExJsonError(serde_json::Error);

/// The contents of a `serde_json::Value`, as a mathematical JSON document.
pub uninterp spec fn json_of(v: Value) -> Json;

/// What `serde_json::from_str::<Value>` yields on a given text: `Some` of the
/// document it parses to, or `None` when the text is not valid JSON. The
/// result depends on the text alone.
pub uninterp spec fn spec_parsed_json(s: Seq<char>) -> Option<Json>;

/// Relies on `serde_json::from_str::<Value>`: parsing is a function of the
/// text alone, yielding a document exactly when the text is valid JSON.
#[verifier::external_body]
pub(crate) fn parse_json(s: &str) -> (r: Result<Value, serde_json::Error>)
    ensures
        match r {
            Ok(v) => spec_parsed_json(s@) == Some(json_of(v)),
            Err(_) => spec_parsed_json(s@) is None,
        },
{
    serde_json::from_str(s)
}

/// Relies on `serde_json::Value::is_object`: true exactly on JSON objects.
#[verifier::external_body]
pub(crate) fn is_obj_w(v: &Value) -> (r: bool)
    ensures
        r == (json_of(*v) is Obj),
{
    v.is_object()
}

/// Relies on `serde_json::Value::is_null`: true exactly on JSON null.
#[verifier::external_body]
pub(crate) fn is_null_w(v: &Value) -> (r: bool)
    ensures
        r == (json_of(*v) is Null),
{
    v.is_null()
}

/// Relies on `serde_json::Value::as_str`: the string contents of a JSON
/// string, and nothing for any other document.
#[verifier::external_body]
pub(crate) fn as_str_w(v: &Value) -> (r: Option<&str>)
    ensures
        r is Some <==> json_of(*v) is Str,
        r matches Some(s) ==> json_of(*v) == Json::Str(s@),
{
    v.as_str()
}

/// Relies on `serde_json::Value::as_bool`: the value of a JSON boolean, and
/// nothing for any other document.
#[verifier::external_body]
pub(crate) fn as_bool_w(v: &Value) -> (r: Option<bool>)
    ensures
        r is Some <==> json_of(*v) is Bool,
        r matches Some(b) ==> json_of(*v) == Json::Bool(b),
{
    v.as_bool()
}

/// Relies on `serde_json::Value::as_i64`: the value of an integral JSON
/// number when it fits in an `i64`, and nothing otherwise.
#[verifier::external_body]
pub(crate) fn as_i64_w(v: &Value) -> (r: Option<i64>)
    ensures
        match json_of(*v) {
            Json::Int(n) => r == if i64::MIN <= n <= i64::MAX {
                Some(n as i64)
            } else {
                None::<i64>
            },
            _ => r is None,
        },
{
    v.as_i64()
}

/// Relies on `serde_json::Number`'s canonical rendering (through
/// `ToString`): the decimal text of a JSON number, which for integral numbers
/// is the standard decimal rendering and for non-integral numbers is the text
/// the model carries; nothing for non-numbers. The result depends on the
/// number alone.
#[verifier::external_body]
pub(crate) fn num_text_w(v: &Value) -> (r: Option<String>)
    ensures
        match json_of(*v) {
            Json::Int(n) => r matches Some(s) && s@ == spec_int_text(n),
            Json::Dec(t) => r matches Some(s) && s@ == t,
            _ => r is None,
        },
{
    match v {
        Value::Number(n) => Some(n.to_string()),
        _ => None,
    }
}

/// Relies on `serde_json::Value::get` with a string index: the value under a
/// key of a JSON object, and nothing for a missing key or any other document.
#[verifier::external_body]
pub(crate) fn get_w<'a>(v: &'a Value, key: &str) -> (r: Option<&'a Value>)
    ensures
        match json_of(*v) {
            Json::Obj(m) => {
                &&& r is Some <==> m.contains_key(key@)
                &&& (r matches Some(u) ==> m.contains_key(key@) && json_of(*u) == m[key@])
            },
            _ => r is None,
        },
{
    v.get(key)
}

/// Relies on `serde_json::Value::as_array`: the elements of a JSON array in
/// order, and nothing for any other document.
#[verifier::external_body]
pub(crate) fn as_array_w(v: &Value) -> (r: Option<&Vec<Value>>)
    ensures
        r is Some <==> json_of(*v) is Arr,
        r matches Some(a) ==> json_of(*v) matches Json::Arr(s) && a@.len() == s.len()
            && (forall|i: int| 0 <= i < s.len() ==> json_of(#[trigger] a@[i]) == s[i]),
{
    v.as_array()
}

/// Relies on `serde_json::Value::as_object` and `serde_json::Map::iter`: the
/// entries of a JSON object, each key once, together covering the object;
/// nothing for any other document.
#[verifier::external_body]
pub(crate) fn obj_entries_w(v: &Value) -> (r: Option<Vec<(String, Value)>>)
    ensures
        r is Some <==> json_of(*v) is Obj,
        r matches Some(es) ==> json_of(*v) matches Json::Obj(m) && (forall|i: int, j: int|
            0 <= i < j < es@.len() ==> (#[trigger] es@[i]).0@ != (#[trigger] es@[j]).0@) && (forall|
            i: int,
        |
            0 <= i < es@.len() ==> m.contains_key((#[trigger] es@[i]).0@) && m[es@[i].0@]
                == json_of(es@[i].1)) && (forall|k: Seq<char>|
            #[trigger] m.contains_key(k) ==> exists|i: int|
                0 <= i < es@.len() && (#[trigger] es@[i]).0@ == k),
{
    match v.as_object() {
        Some(m) => Some(m.iter().map(|(k, u)| (k.clone(), u.clone())).collect()),
        None => None,
    }
}

/// What a key holds in a JSON object, when present.
pub open spec fn obj_get(m: Map<Seq<char>, Json>, k: Seq<char>) -> Option<Json> {
    if m.contains_key(k) {
        Some(m[k])
    } else {
        None
    }
}

/// A required string field: its contents when the key holds a string,
/// nothing otherwise.
pub open spec fn spec_req_str(m: Map<Seq<char>, Json>, k: Seq<char>) -> Option<Seq<char>> {
    match obj_get(m, k) {
        Some(Json::Str(s)) => Some(s),
        _ => None,
    }
}

/// An optional string field: absent or null reads as `None`, a string as its
/// contents, anything else as a schema mismatch.
pub open spec fn spec_opt_str(m: Map<Seq<char>, Json>, k: Seq<char>) -> Option<
    Option<Seq<char>>,
> {
    match obj_get(m, k) {
        None => Some(None),
        Some(Json::Null) => Some(None),
        Some(Json::Str(s)) => Some(Some(s)),
        _ => None,
    }
}

/// A required integer field, within `i64` range.
pub open spec fn spec_req_i64(m: Map<Seq<char>, Json>, k: Seq<char>) -> Option<i64> {
    match obj_get(m, k) {
        Some(Json::Int(n)) => if i64::MIN <= n <= i64::MAX {
            Some(n as i64)
        } else {
            None
        },
        _ => None,
    }
}

/// An optional integer field, within `i64` range; absent or null reads as
/// `None`.
pub open spec fn spec_opt_i64(m: Map<Seq<char>, Json>, k: Seq<char>) -> Option<Option<i64>> {
    match obj_get(m, k) {
        None => Some(None),
        Some(Json::Null) => Some(None),
        Some(Json::Int(n)) => if i64::MIN <= n <= i64::MAX {
            Some(Some(n as i64))
        } else {
            None
        },
        _ => None,
    }
}

/// A required boolean field.
pub open spec fn spec_req_bool(m: Map<Seq<char>, Json>, k: Seq<char>) -> Option<bool> {
    match obj_get(m, k) {
        Some(Json::Bool(b)) => Some(b),
        _ => None,
    }
}

/// An optional boolean field; absent or null reads as `None`.
pub open spec fn spec_opt_bool(m: Map<Seq<char>, Json>, k: Seq<char>) -> Option<Option<bool>> {
    match obj_get(m, k) {
        None => Some(None),
        Some(Json::Null) => Some(None),
        Some(Json::Bool(b)) => Some(Some(b)),
        _ => None,
    }
}

/// The canonical decimal text of a JSON number.
pub open spec fn spec_num_of(j: Json) -> Option<Seq<char>> {
    match j {
        Json::Int(n) => Some(spec_int_text(n)),
        Json::Dec(t) => Some(t),
        _ => None,
    }
}

/// A required numeric field, as its canonical decimal text.
pub open spec fn spec_req_num(m: Map<Seq<char>, Json>, k: Seq<char>) -> Option<Seq<char>> {
    match obj_get(m, k) {
        Some(j) => spec_num_of(j),
        None => None,
    }
}

/// An optional numeric field, as its canonical decimal text; absent or null
/// reads as `None`.
pub open spec fn spec_opt_num(m: Map<Seq<char>, Json>, k: Seq<char>) -> Option<
    Option<Seq<char>>,
> {
    match obj_get(m, k) {
        None => Some(None),
        Some(Json::Null) => Some(None),
        Some(j) => match spec_num_of(j) {
            Some(t) => Some(Some(t)),
            None => None,
        },
    }
}

/// Read a required string field of a JSON object.
pub(crate) fn req_str(v: &Value, k: &str) -> (r: Option<String>)
    requires
        json_of(*v) is Obj,
    ensures
        match spec_req_str(json_of(*v)->Obj_0, k@) {
            Some(s) => r matches Some(x) && x@ == s,
            None => r is None,
        },
{
    match get_w(v, k) {
        Some(u) => match as_str_w(u) {
            Some(s) => Some(s.to_owned()),
            None => None,
        },
        None => None,
    }
}

/// Read an optional string field of a JSON object.
pub(crate) fn opt_str(v: &Value, k: &str) -> (r: Option<Option<String>>)
    requires
        json_of(*v) is Obj,
    ensures
        match spec_opt_str(json_of(*v)->Obj_0, k@) {
            Some(Some(s)) => r matches Some(Some(x)) && x@ == s,
            Some(None) => r == Some(None::<String>),
            None => r is None,
        },
{
    match get_w(v, k) {
        None => Some(None),
        Some(u) => if is_null_w(u) {
            Some(None)
        } else {
            match as_str_w(u) {
                Some(s) => Some(Some(s.to_owned())),
                None => None,
            }
        },
    }
}

/// Read a required integer field of a JSON object.
pub(crate) fn req_i64(v: &Value, k: &str) -> (r: Option<i64>)
    requires
        json_of(*v) is Obj,
    ensures
        r == spec_req_i64(json_of(*v)->Obj_0, k@),
{
    match get_w(v, k) {
        Some(u) => as_i64_w(u),
        None => None,
    }
}

/// Read an optional integer field of a JSON object.
pub(crate) fn opt_i64(v: &Value, k: &str) -> (r: Option<Option<i64>>)
    requires
        json_of(*v) is Obj,
    ensures
        r == spec_opt_i64(json_of(*v)->Obj_0, k@),
{
    match get_w(v, k) {
        None => Some(None),
        Some(u) => if is_null_w(u) {
            Some(None)
        } else {
            match as_i64_w(u) {
                Some(n) => Some(Some(n)),
                None => None,
            }
        },
    }
}

/// Read a required boolean field of a JSON object.
pub(crate) fn req_bool(v: &Value, k: &str) -> (r: Option<bool>)
    requires
        json_of(*v) is Obj,
    ensures
        r == spec_req_bool(json_of(*v)->Obj_0, k@),
{
    match get_w(v, k) {
        Some(u) => as_bool_w(u),
        None => None,
    }
}

/// Read an optional boolean field of a JSON object.
pub(crate) fn opt_bool(v: &Value, k: &str) -> (r: Option<Option<bool>>)
    requires
        json_of(*v) is Obj,
    ensures
        r == spec_opt_bool(json_of(*v)->Obj_0, k@),
{
    match get_w(v, k) {
        None => Some(None),
        Some(u) => if is_null_w(u) {
            Some(None)
        } else {
            match as_bool_w(u) {
                Some(b) => Some(Some(b)),
                None => None,
            }
        },
    }
}

/// Read a required numeric field of a JSON object, as its decimal text.
pub(crate) fn req_num(v: &Value, k: &str) -> (r: Option<String>)
    requires
        json_of(*v) is Obj,
    ensures
        match spec_req_num(json_of(*v)->Obj_0, k@) {
            Some(s) => r matches Some(x) && x@ == s,
            None => r is None,
        },
{
    match get_w(v, k) {
        Some(u) => num_text_w(u),
        None => None,
    }
}

/// Read an optional numeric field of a JSON object, as its decimal text.
pub(crate) fn opt_num(v: &Value, k: &str) -> (r: Option<Option<String>>)
    requires
        json_of(*v) is Obj,
    ensures
        match spec_opt_num(json_of(*v)->Obj_0, k@) {
            Some(Some(s)) => r matches Some(Some(x)) && x@ == s,
            Some(None) => r == Some(None::<String>),
            None => r is None,
        },
{
    match get_w(v, k) {
        None => Some(None),
        Some(u) => if is_null_w(u) {
            Some(None)
        } else {
            match num_text_w(u) {
                Some(s) => Some(Some(s)),
                None => None,
            }
        },
    }
}

} // verus!
