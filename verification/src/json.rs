//! Trusted boundary to `serde_json`.
//!
//! The service answers with JSON documents whose shape, apart from the
//! `status` key, is open-ended; they are held as opaque `serde_json::Value`
//! values.  A value is modelled by `json_model`, the text of its compact
//! JSON serialization, which is a function of the value alone: this crate is
//! built without `serde_json`'s `preserve_order` feature, so object members
//! render in their (deterministic) map order.  Each wrapper below states its
//! result over that model.

use vstd::prelude::*;

verus! {

#[verifier::external_type_specification]
#[verifier::external_body]
pub struct ExValue(serde_json::Value);

#[verifier::external_type_specification]
#[verifier::external_body]
pub struct ExJsonError(serde_json::Error);

/// The compact JSON text of a value: the result of `serde_json::to_string`.
pub uninterp spec fn json_model(v: serde_json::Value) -> Seq<char>;

/// The outcome of parsing a text as JSON: the model of the parsed value, or
/// `None` when the text is not a single valid JSON document.
pub uninterp spec fn json_parse_of(s: Seq<char>) -> Option<Seq<char>>;

/// The member of an object document under a key: the model of that member,
/// or `None` when the document is not an object or lacks the key.
pub uninterp spec fn json_field_of(doc: Seq<char>, key: Seq<char>) -> Option<Seq<char>>;

/// The characters of a string document, or `None` when the document is not
/// a JSON string.
pub uninterp spec fn json_str_of(doc: Seq<char>) -> Option<Seq<char>>;

/// The document left when an object's member under a key is removed; a
/// document that is not an object, or lacks the key, is left unchanged.
pub uninterp spec fn json_rest_of(doc: Seq<char>, key: Seq<char>) -> Seq<char>;

/// Relies on `serde_json::from_str::<Value>`: whether a text parses, and to
/// which value, depends on the text alone.
#[verifier::external_body]
pub(crate) fn parse_json(s: &str) -> (r: Result<serde_json::Value, serde_json::Error>)
    ensures
        match r {
            Ok(v) => json_parse_of(s@) == Some(json_model(v)),
            Err(_) => json_parse_of(s@) is None,
        },
{
    serde_json::from_str::<serde_json::Value>(s)
}

/// Relies on `Value::as_object_mut` and `Map::remove`: the member returned
/// is exactly the one an object lookup under the key finds, and `None`
/// comes back exactly when the value is not an object or has no such member;
/// what stays behind is the document shorn of that member.
#[verifier::external_body]
pub(crate) fn take_field(v: &mut serde_json::Value, key: &str) -> (r: Option<serde_json::Value>)
    ensures
        json_model(*final(v)) == json_rest_of(json_model(*old(v)), key@),
        match r {
            Some(f) => json_field_of(json_model(*old(v)), key@) == Some(json_model(f)),
            None => json_field_of(json_model(*old(v)), key@) is None,
        },
{
    match v.as_object_mut() {
        Some(m) => m.remove(key),
        None => None,
    }
}

/// Relies on `Value::as_str`: `Some` exactly for a JSON string, whose
/// characters it returns.
#[verifier::external_body]
pub(crate) fn value_as_str(v: &serde_json::Value) -> (r: Option<String>)
    ensures
        match r {
            Some(s) => json_str_of(json_model(*v)) == Some(s@),
            None => json_str_of(json_model(*v)) is None,
        },
{
    v.as_str().map(str::to_owned)
}

/// Relies on `Value::is_null`: true exactly for the JSON value whose compact
/// text is `null`.
#[verifier::external_body]
pub(crate) fn value_is_null(v: &serde_json::Value) -> (r: bool)
    ensures
        r == (json_model(*v) == "null"@),
{
    v.is_null()
}

/// Relies on `Value::as_object` and `Map::is_empty`: true exactly for the
/// value whose compact text is `{}`, the object with no members.
#[verifier::external_body]
pub(crate) fn value_is_empty_object(v: &serde_json::Value) -> (r: bool)
    ensures
        r == (json_model(*v) == "{}"@),
{
    match v.as_object() {
        Some(m) => m.is_empty(),
        None => false,
    }
}

/// Relies on `serde_json::Value::Null`: the value whose compact text is
/// `null`.
#[verifier::external_body]
pub(crate) fn null_value() -> (r: serde_json::Value)
    ensures
        json_model(r) == "null"@,
{
    serde_json::Value::Null
}

/// Relies on `serde_json::to_string`: the compact serialization.  Its
/// documentation owes an error only for maps with non-string keys, which a
/// `Value` cannot hold, so the call never fails.
#[verifier::external_body]
pub(crate) fn render_json(v: &serde_json::Value) -> (r: String)
    ensures
        r@ == json_model(*v),
{
    serde_json::to_string(v).unwrap_or_default()
}

} // verus!
