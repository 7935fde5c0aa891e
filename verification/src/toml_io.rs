//! The trusted boundary to the TOML library. Verified code sees a TOML
//! document through two uninterpreted models: the map of top-level keys
//! whose values are strings, and the string payload of a single value.
//! Everything the launcher reads from a document goes through these.

use vstd::prelude::*;

verus! {

#[verifier::external_type_specification]
#[verifier::external_body]
pub struct ExTomlValue(toml::Value);

#[verifier::external_type_specification]
#[verifier::external_body]
pub struct ExTomlDeError(toml::de::Error);

/// The string fields of TOML document `s`: `None` when `s` is not a valid
/// TOML document; otherwise the map from each top-level key whose value is
/// a string to that string.
pub uninterp spec fn toml_string_fields(s: Seq<char>) -> Option<Map<Seq<char>, Seq<char>>>;

/// The description that the TOML library gives for why document `s` does
/// not parse; meaningful only when `toml_string_fields(s)` is `None`.
pub uninterp spec fn toml_parse_error_text(s: Seq<char>) -> Seq<char>;

/// What a parsed TOML value holds, as far as the launcher reads it: the
/// map from each key of a table value whose entry is a string to that
/// string (empty for a non-table value).
pub uninterp spec fn value_string_fields(v: toml::Value) -> Map<Seq<char>, Seq<char>>;

/// The string payload of a TOML value: `Some` exactly when the value is a
/// string.
pub uninterp spec fn value_as_string(v: toml::Value) -> Option<Seq<char>>;

/// The description that the TOML library gives for a parse error value.
pub uninterp spec fn de_error_text(e: toml::de::Error) -> Seq<char>;

/// Relies on `toml::from_str::<toml::Value>`: parses a TOML document into
/// its value tree, a table at top level; fails exactly on documents that
/// are not valid TOML.
#[verifier::external_body]
pub(crate) fn parse_document(s: &str) -> (r: Result<toml::Value, toml::de::Error>)
    ensures
        r is Ok <==> toml_string_fields(s@) is Some,
        r matches Ok(v) ==> toml_string_fields(s@) == Some(value_string_fields(v)),
        r matches Err(e) ==> de_error_text(e) == toml_parse_error_text(s@),
{
    toml::from_str::<toml::Value>(s)
}

/// Relies on `toml::Value::get` with a string index: looks the key up in a
/// table value; `None` when the key is absent or the value is not a table.
#[verifier::external_body]
pub(crate) fn value_get<'a>(v: &'a toml::Value, key: &str) -> (r: Option<&'a toml::Value>)
    ensures
        match r {
            Some(w) => value_as_string(*w) == (if value_string_fields(*v).dom().contains(key@) {
                Some(value_string_fields(*v)[key@])
            } else {
                None
            }),
            None => !value_string_fields(*v).dom().contains(key@),
        },
{
    v.get(key)
}

/// Relies on `toml::Value::as_str`: the string payload of a string value,
/// `None` for every other kind of value.
#[verifier::external_body]
pub(crate) fn value_as_str<'a>(v: &'a toml::Value) -> (r: Option<&'a str>)
    ensures
        match r {
            Some(s) => value_as_string(*v) == Some(s@),
            None => value_as_string(*v) is None,
        },
{
    v.as_str()
}

/// Relies on the `Display` implementation of `toml::de::Error`: the
/// human-readable description of the parse error.
#[verifier::external_body]
pub(crate) fn parse_error_text(e: &toml::de::Error) -> (r: String)
    ensures
        r@ == de_error_text(*e),
{
    format!("{}", e)
}

} // verus!
