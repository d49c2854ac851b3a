//! The configuration payload reader: a thin trusted surface over the JSON
//! parser, and verified helpers that pull typed fields out of a parsed
//! document.
//!
//! The document a payload string denotes is modelled by [`JsonVal`]: the
//! parse result of the outside parser is named [`doc_of`], and each trusted
//! accessor is specified against that model, so a transport's schema check
//! is a verified function with an exact acceptance contract: required
//! fields must be present with the right type, and a document that carries
//! fields a schema does not know is rejected, never silently accepted.

use vstd::prelude::*;
use vstd::set_lib::lemma_len_subset;
use vstd::string::StringExecFns;

use crate::sock::SockError;

verus! {

broadcast use vstd::set::group_set_axioms;

/// The model of a JSON value, at the granularity the configuration schemas
/// read: strings, unsigned integers, objects, and everything else (null,
/// booleans, arrays, and numbers outside the unsigned integer range).
pub enum JsonVal {
    /// A JSON string.
    Str(Seq<char>),
    /// A JSON number representable as an unsigned integer.
    UInt(u64),
    /// A JSON object: its fields, by name.
    Obj(Map<Seq<char>, JsonVal>),
    /// Null, a boolean, an array, or a number outside the unsigned range.
    Other,
}

/// The document a payload string parses to, or nothing when the string is
/// not valid JSON. Stands for the result of serde_json::from_str.
pub uninterp spec fn doc_of(s: Seq<char>) -> Option<JsonVal>;

/// The document a parsed serde_json value represents.
pub uninterp spec fn value_model(v: serde_json::Value) -> JsonVal;

/// The fields an object's map holds, by name.
pub uninterp spec fn obj_model(m: serde_json::Map<String, serde_json::Value>) -> Map<
    Seq<char>,
    JsonVal,
>;

#[verifier::external_type_specification]
#[verifier::external_body]
pub struct ExJsonValue(serde_json::Value);

#[verifier::external_type_specification]
#[verifier::external_body]
#[verifier::reject_recursive_types(K)]
#[verifier::reject_recursive_types(V)]
pub struct ExJsonMap<K, V>(serde_json::Map<K, V>);

/// Relies on serde_json::from_str::<Value>: parses a JSON document,
/// deterministically in the string alone. The outside parse error becomes
/// the library's configuration error.
#[verifier::external_body]
pub(crate) fn json_parse(s: &str) -> (r: Result<serde_json::Value, SockError>)
    ensures
        match r {
            Ok(v) => doc_of(s@) == Some(value_model(v)),
            Err(e) => e == SockError::InvalidConfig && doc_of(s@) is None,
        },
{
    match serde_json::from_str::<serde_json::Value>(s) {
        Ok(v) => Ok(v),
        Err(_) => Err(SockError::InvalidConfig),
    }
}

/// Relies on serde_json::Value::get: looks a key up in a JSON object;
/// absent keys and non-objects give nothing.
#[verifier::external_body]
pub(crate) fn json_get<'a>(v: &'a serde_json::Value, key: &str) -> (r: Option<
    &'a serde_json::Value,
>)
    ensures
        match value_model(*v) {
            JsonVal::Obj(m) => match r {
                Some(f) => m.contains_key(key@) && value_model(*f) == m[key@],
                None => !m.contains_key(key@),
            },
            _ => r is None,
        },
{
    v.get(key)
}

/// Relies on serde_json::Value::as_str: the text of a JSON string value,
/// and nothing for any other value.
#[verifier::external_body]
fn json_as_string(v: &serde_json::Value) -> (r: Option<String>)
    ensures
        match r {
            Some(s) => value_model(*v) == JsonVal::Str(s@),
            None => !(value_model(*v) is Str),
        },
{
    match v.as_str() {
        Some(s) => Some(s.to_string()),
        None => None,
    }
}

/// Relies on serde_json::Value::as_u64: the value of a JSON number
/// representable as an unsigned integer, and nothing otherwise.
#[verifier::external_body]
pub(crate) fn json_as_u64(v: &serde_json::Value) -> (r: Option<u64>)
    ensures
        match r {
            Some(n) => value_model(*v) == JsonVal::UInt(n),
            None => !(value_model(*v) is UInt),
        },
{
    v.as_u64()
}

/// Relies on serde_json::Value::as_object: the field map of a JSON object,
/// which is always finite, and nothing for any other value.
#[verifier::external_body]
fn json_as_object<'a>(v: &'a serde_json::Value) -> (r: Option<
    &'a serde_json::Map<String, serde_json::Value>,
>)
    ensures
        match r {
            Some(m) => value_model(*v) == JsonVal::Obj(obj_model(*m)) && obj_model(
                *m,
            ).dom().finite(),
            None => !(value_model(*v) is Obj),
        },
{
    v.as_object()
}

/// Relies on serde_json::Map::len: how many fields a JSON object holds.
#[verifier::external_body]
fn json_map_len(m: &serde_json::Map<String, serde_json::Value>) -> (r: usize)
    ensures
        r == obj_model(*m).dom().len(),
{
    m.len()
}

/// The text of a string field of an object, when the document is an object,
/// the field is present and it is a string.
pub open spec fn str_field(d: JsonVal, k: Seq<char>) -> Option<Seq<char>> {
    match d {
        JsonVal::Obj(m) => if m.contains_key(k) {
            match m[k] {
                JsonVal::Str(s) => Some(s),
                _ => None,
            }
        } else {
            None
        },
        _ => None,
    }
}

/// The value of an unsigned integer field of an object, when the document
/// is an object, the field is present and it is such an integer.
pub open spec fn uint_field(d: JsonVal, k: Seq<char>) -> Option<u64> {
    match d {
        JsonVal::Obj(m) => if m.contains_key(k) {
            match m[k] {
                JsonVal::UInt(n) => Some(n),
                _ => None,
            }
        } else {
            None
        },
        _ => None,
    }
}

/// How many fields a JSON object holds; nothing when the value is not an
/// object.
pub(crate) fn obj_len(v: &serde_json::Value) -> (r: Option<usize>)
    ensures
        match r {
            Some(n) => {
                &&& value_model(*v) is Obj
                &&& value_model(*v)->Obj_0.dom().finite()
                &&& n == value_model(*v)->Obj_0.dom().len()
            },
            None => !(value_model(*v) is Obj),
        },
{
    match json_as_object(v) {
        Some(m) => Some(json_map_len(m)),
        None => None,
    }
}

/// The text of a string field; nothing when absent or not a string.
pub(crate) fn get_string_field(v: &serde_json::Value, key: &str) -> (r: Option<String>)
    ensures
        match r {
            Some(s) => str_field(value_model(*v), key@) == Some(s@),
            None => str_field(value_model(*v), key@) is None,
        },
{
    match json_get(v, key) {
        Some(f) => json_as_string(f),
        None => None,
    }
}

/// The value of an unsigned integer field; nothing when absent or not such
/// an integer.
pub(crate) fn get_u64_field(v: &serde_json::Value, key: &str) -> (r: Option<u64>)
    ensures
        match r {
            Some(n) => uint_field(value_model(*v), key@) == Some(n),
            None => uint_field(value_model(*v), key@) is None,
        },
{
    match json_get(v, key) {
        Some(f) => json_as_u64(f),
        None => None,
    }
}

/// Whether a string equals a literal tag.
pub(crate) fn str_is(t: &String, lit: &str) -> (r: bool)
    ensures
        r == (t@ == lit@),
{
    let s = String::from_str(lit);
    *t == s
}

/// A u64 that must fit the address space (a size taken from configuration).
pub(crate) fn u64_to_usize(n: u64) -> (r: Result<usize, SockError>)
    ensures
        match r {
            Ok(v) => n <= usize::MAX && v == n,
            Err(e) => n > usize::MAX && e == SockError::InvalidConfig,
        },
{
    if n > usize::MAX as u64 {
        Err(SockError::InvalidConfig)
    } else {
        Ok(n as usize)
    }
}

/// A port number taken from a JSON integer: accepted exactly when it fits
/// sixteen bits.
pub(crate) fn port_from_u64(n: u64) -> (r: Result<u16, SockError>)
    ensures
        match r {
            Ok(v) => n <= u16::MAX && v == n,
            Err(e) => n > u16::MAX && e == SockError::InvalidConfig,
        },
{
    if n > u16::MAX as u64 {
        Err(SockError::InvalidConfig)
    } else {
        Ok(n as u16)
    }
}

/// A finite set that contains a subset of the same size is that subset: the
/// step behind every schema's unknown-field rejection, which compares the
/// object's field count with the count of its recognized fields.
pub(crate) proof fn lemma_subset_same_len<A>(a: Set<A>, b: Set<A>)
    requires
        a.subset_of(b),
        b.finite(),
        a.len() == b.len(),
    ensures
        a =~= b,
{
    lemma_len_subset(a, b);
    if exists|x: A| b.contains(x) && !a.contains(x) {
        let x = choose|x: A| b.contains(x) && !a.contains(x);
        lemma_len_subset(a.insert(x), b);
        assert(a.insert(x).len() == a.len() + 1);
        assert(false);
    }
}

} // verus!
