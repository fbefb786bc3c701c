//! The boundary to serde_json: the measurement tool's raw output is
//! JSON text, and this module holds the declarations, names and
//! wrappers through which the verified parser reads it.
//!
//! Every read here is a pure function of its arguments, so each result
//! carries a name. A `serde_json::Value` is opaque to the verifier; it
//! is modeled by the text it renders back to (`jv_text`): serde_json's
//! compact rendering is injective on values — object keys are kept
//! sorted, numbers render distinctly by kind — so every read of a value
//! is a function of that text. The names say nothing about what any
//! given text parses to; the parser is verified over them.

use vstd::prelude::*;

verus! {

#[verifier::external_type_specification]
#[verifier::external_body]
pub struct ExValue(serde_json::Value);

#[verifier::external_type_specification]
#[verifier::external_body]
pub struct ExJsonError(serde_json::Error);

/// Whether `serde_json::from_str::<Value>` accepts the text.
pub uninterp spec fn json_accepts(s: Seq<char>) -> bool;

/// The canonical (compactly re-rendered) text of the value that the
/// text parses to.
pub uninterp spec fn json_canon(s: Seq<char>) -> Seq<char>;

/// What a `serde_json::Value` holds, as the canonical text it renders
/// back to.
pub uninterp spec fn jv_text(v: serde_json::Value) -> Seq<char>;

/// Whether the value with the given canonical text is an object with
/// the given key.
pub uninterp spec fn jv_has(t: Seq<char>, key: Seq<char>) -> bool;

/// The canonical text of the named member of the object with the given
/// canonical text.
pub uninterp spec fn jv_field(t: Seq<char>, key: Seq<char>) -> Seq<char>;

/// The value with the given canonical text, read as an unsigned
/// integer: `None` when it is no such number.
pub uninterp spec fn jv_u64(t: Seq<char>) -> Option<u64>;

/// The value with the given canonical text, read as a JSON string:
/// `None` when it is no string.
pub uninterp spec fn jv_str(t: Seq<char>) -> Option<Seq<char>>;

/// The decimal text of the value with the given canonical text, when it
/// is a JSON number: `None` otherwise.
pub uninterp spec fn jv_num_text(t: Seq<char>) -> Option<Seq<char>>;

/// Whether the value with the given canonical text is JSON null.
pub uninterp spec fn jv_is_null(t: Seq<char>) -> bool;

/// Relies on `serde_json::from_str::<Value>`: parses JSON text into a
/// tree value, or reports why it could not. Acceptance and the parsed
/// value are functions of the text alone.
#[verifier::external_body]
pub(crate) fn json_from_str(s: &str) -> (r: Result<serde_json::Value, serde_json::Error>)
    ensures
        r is Ok <==> json_accepts(s@),
        r matches Ok(v) ==> jv_text(v) == json_canon(s@),
{
    serde_json::from_str::<serde_json::Value>(s)
}

/// Relies on `serde_json::Error`'s `Display`: renders the error's
/// diagnostic text.
#[verifier::external_body]
pub(crate) fn json_error_text(e: &serde_json::Error) -> String {
    format!("{}", e)
}

/// Relies on `serde_json::Value::get`: looks a key up in a JSON object,
/// `None` when the value is no object or the key is absent.
#[verifier::external_body]
pub(crate) fn json_get<'a>(v: &'a serde_json::Value, key: &str) -> (r: Option<
    &'a serde_json::Value,
>)
    ensures
        r is Some <==> jv_has(jv_text(*v), key@),
        r matches Some(f) ==> jv_text(*f) == jv_field(jv_text(*v), key@),
{
    v.get(key)
}

/// Relies on `serde_json::Value::as_u64`: the value as an unsigned
/// integer, `None` when it is no such number.
#[verifier::external_body]
pub(crate) fn json_as_u64(v: &serde_json::Value) -> (r: Option<u64>)
    ensures
        r == jv_u64(jv_text(*v)),
{
    v.as_u64()
}

/// Relies on `serde_json::Value::as_str`: the value's text when it is a
/// JSON string, `None` otherwise.
#[verifier::external_body]
pub(crate) fn json_as_string(v: &serde_json::Value) -> (r: Option<String>)
    ensures
        r is Some <==> jv_str(jv_text(*v)) is Some,
        r matches Some(s) ==> s@ == jv_str(jv_text(*v))->Some_0,
{
    match v.as_str() {
        Some(s) => Some(s.to_owned()),
        None => None,
    }
}

/// Relies on `serde_json::Number`'s `Display`: the number's decimal
/// text, `None` when the value is no number.
#[verifier::external_body]
pub(crate) fn json_number_text(v: &serde_json::Value) -> (r: Option<String>)
    ensures
        r is Some <==> jv_num_text(jv_text(*v)) is Some,
        r matches Some(s) ==> s@ == jv_num_text(jv_text(*v))->Some_0,
{
    match v {
        serde_json::Value::Number(n) => Some(format!("{}", n)),
        _ => None,
    }
}

/// Relies on `serde_json::Value::is_null`: whether the value is JSON
/// null.
#[verifier::external_body]
pub(crate) fn json_is_null(v: &serde_json::Value) -> (r: bool)
    ensures
        r == jv_is_null(jv_text(*v)),
{
    v.is_null()
}

/// Relies on `serde_json::Value`'s `Display`: the value rendered back
/// as its canonical compact JSON text.
#[verifier::external_body]
pub(crate) fn json_value_text(v: &serde_json::Value) -> (r: String)
    ensures
        r@ == jv_text(*v),
{
    format!("{}", v)
}

} // verus!
