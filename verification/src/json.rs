//! Trusted bindings to `serde_json`, which parses the relay channel's JSON
//! text, together with the mathematical model of what it parses. A parsed
//! value is opaque here; `spec_json_of` names the value a text parses to,
//! `spec_value_model` names what an opaque value holds, and each accessor's
//! contract ties what it returns to that model. The relay engine reads
//! values only through these accessors and decides everything else in
//! verified code.
use vstd::prelude::*;

verus! {

/// The declaration of `serde_json`'s value type, so it can stand in
/// signatures; nothing of its inside is visible here.
#[verifier::external_type_specification]
#[verifier::external_body]
pub struct ExValue(serde_json::Value);

/// The mathematical value of a JSON document: null, a boolean, a number —
/// kept exactly when it is an unsigned 64-bit integer, only noted
/// otherwise — a text, an array, or an object keyed by member name.
#[verifier::ext_equal]
pub enum JsonV {
    Null,
    Bool(bool),
    UInt(u64),
    OtherNumber,
    Str(Seq<char>),
    Arr(Seq<JsonV>),
    Object(Map<Seq<char>, JsonV>),
}

/// What `serde_json::from_str` makes of a text: nothing when the text is
/// not JSON it accepts, else the parsed value's model.
pub uninterp spec fn spec_json_of(s: Seq<char>) -> Option<JsonV>;

/// What an opaque `serde_json::Value` holds.
pub uninterp spec fn spec_value_model(v: serde_json::Value) -> JsonV;

/// What each of a sequence of opaque values holds.
pub open spec fn spec_values_model(s: Seq<serde_json::Value>) -> Seq<JsonV> {
    s.map_values(|v: serde_json::Value| spec_value_model(v))
}

/// Relies on `serde_json::from_str`: the parsed value of a JSON text — a
/// function of the text alone — or nothing when the text is not valid
/// JSON.
#[verifier::external_body]
pub(crate) fn json_from_str(s: &str) -> (r: Option<serde_json::Value>)
    ensures
        r is Some <==> spec_json_of(s@) is Some,
        r matches Some(v) ==> Some(spec_value_model(v)) == spec_json_of(s@),
{
    serde_json::from_str::<serde_json::Value>(s).ok()
}

/// Relies on `serde_json::Value::get`: the member of an object under a
/// key, or nothing when the value is no object or lacks the key.
#[verifier::external_body]
pub(crate) fn json_get<'a>(v: &'a serde_json::Value, key: &str) -> (r: Option<
    &'a serde_json::Value,
>)
    ensures
        r is Some <==> (spec_value_model(*v) matches JsonV::Object(m) && m.dom().contains(key@)),
        r matches Some(w) ==> (spec_value_model(*v) matches JsonV::Object(m)
            && spec_value_model(*w) == m[key@]),
{
    v.get(key)
}

/// Relies on `serde_json::Value::as_str`: the text of a JSON string, or
/// nothing for any other kind of value.
#[verifier::external_body]
pub(crate) fn json_as_str(v: &serde_json::Value) -> (r: Option<String>)
    ensures
        r is Some <==> spec_value_model(*v) is Str,
        r matches Some(s) ==> spec_value_model(*v) == JsonV::Str(s@),
{
    match v.as_str() {
        Some(s) => Some(s.to_string()),
        None => None,
    }
}

/// Relies on `serde_json::Value::as_u64`: the value of a JSON number that
/// is an unsigned 64-bit integer, or nothing otherwise.
#[verifier::external_body]
pub(crate) fn json_as_u64(v: &serde_json::Value) -> (r: Option<u64>)
    ensures
        r is Some <==> spec_value_model(*v) is UInt,
        r matches Some(n) ==> spec_value_model(*v) == JsonV::UInt(n),
{
    v.as_u64()
}

/// Relies on `serde_json::Value::as_array`: the elements of a JSON array,
/// or nothing for any other kind of value.
#[verifier::external_body]
pub(crate) fn json_as_array(v: &serde_json::Value) -> (r: Option<Vec<serde_json::Value>>)
    ensures
        r is Some <==> spec_value_model(*v) is Arr,
        r matches Some(a) ==> spec_value_model(*v) == JsonV::Arr(spec_values_model(a@)),
{
    match v.as_array() {
        Some(a) => Some(a.clone()),
        None => None,
    }
}

/// Relies on `serde_json::Value::is_null`: whether the value is JSON null.
#[verifier::external_body]
pub(crate) fn json_is_null(v: &serde_json::Value) -> (r: bool)
    ensures
        r == (spec_value_model(*v) is Null),
{
    v.is_null()
}

} // verus!
