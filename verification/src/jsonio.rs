//! Trusted declarations over `serde_json`: the JSON value type carried
//! through the tool-config merge, and the calls that move between text,
//! values and entry lists.
//!
//! Every call here is a function of its arguments alone, so each result is
//! named by an uninterpreted spec function; the merge logic and the entry
//! assembly are verified elsewhere over those names. Object entries are
//! spoken of as pairs of a key view and a value, the form
//! [`crate::assoc::entries_view`] produces.

use vstd::prelude::*;

use crate::assoc::entries_view;

verus! {

/// `serde_json::Value`, declared so it can stand in signatures and fields.
/// Values of it are opaque: the library carries them through unchanged.
#[verifier::external_type_specification]
#[verifier::external_body]
pub struct ExValue(serde_json::Value);

/// The top-level entries of a JSON object document, or `None` when the
/// text is not a JSON object.
pub uninterp spec fn json_doc_entries(text: Seq<char>) -> Option<
    Seq<(Seq<char>, serde_json::Value)>,
>;

/// The entries of an object value, or `None` for any other kind of value.
pub uninterp spec fn json_value_entries(v: serde_json::Value) -> Option<
    Seq<(Seq<char>, serde_json::Value)>,
>;

/// The object value holding the given entries. On a repeated key the later
/// entry wins, as the underlying map's insertion order dictates.
pub uninterp spec fn json_object_of(entries: Seq<(Seq<char>, serde_json::Value)>)
    -> serde_json::Value;

/// The pretty-printed text of a value.
pub uninterp spec fn json_pretty_of(v: serde_json::Value) -> Seq<char>;

/// The string value holding the given text.
pub uninterp spec fn json_string_of(s: Seq<char>) -> serde_json::Value;

/// The array value holding the given strings, in order.
pub uninterp spec fn json_string_array_of(items: Seq<Seq<char>>) -> serde_json::Value;

/// The object value mapping each pair's key to its value as a string.
pub uninterp spec fn json_string_map_of(pairs: Seq<(Seq<char>, Seq<char>)>) -> serde_json::Value;

/// Relies on serde_json::from_str: the top-level entries of a JSON object
/// document, in the order the parsed map yields them, or `None` when the
/// text is not a JSON object.
#[verifier::external_body]
pub fn parse_object_entries(s: &str) -> (r: Option<Vec<(String, serde_json::Value)>>)
    ensures
        (r is Some) == (json_doc_entries(s@) is Some),
        r matches Some(v) ==> json_doc_entries(s@) == Some(entries_view(v@)),
{
    match serde_json::from_str::<serde_json::Value>(s) {
        Ok(serde_json::Value::Object(m)) => Some(m.into_iter().collect()),
        _ => None,
    }
}

/// Relies on serde_json::Value::Object: the entries of an object value,
/// or `None` for any other kind of value.
#[verifier::external_body]
pub fn object_entries(v: &serde_json::Value) -> (r: Option<Vec<(String, serde_json::Value)>>)
    ensures
        (r is Some) == (json_value_entries(*v) is Some),
        r matches Some(es) ==> json_value_entries(*v) == Some(entries_view(es@)),
{
    match v {
        serde_json::Value::Object(m) => Some(
            m.iter().map(|(k, x)| (k.clone(), x.clone())).collect(),
        ),
        _ => None,
    }
}

/// Relies on serde_json::Value::Object: the object value holding exactly
/// the given entries.
#[verifier::external_body]
pub fn object_from_entries(es: Vec<(String, serde_json::Value)>) -> (r: serde_json::Value)
    ensures
        r == json_object_of(entries_view(es@)),
{
    serde_json::Value::Object(es.into_iter().collect())
}

/// Relies on serde_json::to_string_pretty, which cannot fail on a
/// `serde_json::Value`: the pretty-printed text of the value.
#[verifier::external_body]
pub fn to_pretty_string(v: &serde_json::Value) -> (r: String)
    ensures
        r@ == json_pretty_of(*v),
{
    match serde_json::to_string_pretty(v) {
        Ok(s) => s,
        Err(_) => String::new(),
    }
}

/// Relies on serde_json::Value::String: the string value holding `s`.
#[verifier::external_body]
pub fn json_string_value(s: &str) -> (r: serde_json::Value)
    ensures
        r == json_string_of(s@),
{
    serde_json::Value::String(s.to_string())
}

/// Relies on serde_json::Value::Array: the array of the given strings.
#[verifier::external_body]
pub fn json_string_array(items: &Vec<String>) -> (r: serde_json::Value)
    ensures
        r == json_string_array_of(items.deep_view()),
{
    serde_json::Value::Array(items.iter().map(|a| serde_json::Value::String(a.clone())).collect())
}

/// Relies on serde_json::Value::Object: the object of the given
/// string-to-string pairs.
#[verifier::external_body]
pub fn json_string_map(pairs: &Vec<(String, String)>) -> (r: serde_json::Value)
    ensures
        r == json_string_map_of(pairs@.map_values(|p: (String, String)| (p.0@, p.1@))),
{
    let m = pairs.iter().map(|(k, v)| (k.clone(), serde_json::Value::String(v.clone())));
    serde_json::Value::Object(m.collect())
}

} // verus!
