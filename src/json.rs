//! JSON values: strict parsing, lenient repair of prefixes, and reading
//! strings and objects, each behind a contract.
use crate::text::trim_seq;
use vstd::prelude::*;

verus! {

#[verifier::external_type_specification]
#[verifier::external_body]
pub struct ExJsonValue(serde_json::Value);

/// Relies on `serde_json::Value`'s `Clone`, which copies the whole tree.
pub assume_specification[ <serde_json::Value as Clone>::clone ](v: &serde_json::Value) -> (r:
    serde_json::Value)
    ensures
        r == *v,
;

/// What a strict JSON parse makes of a text: the value, or `None` when the
/// text is not one JSON document.
pub uninterp spec fn json_parse(s: Seq<char>) -> Option<serde_json::Value>;

/// The message of the error that a strict JSON parse reports for a text.
pub uninterp spec fn json_error_text(s: Seq<char>) -> Seq<char>;

/// The candidate text that the lenient JSON completion makes of a prefix.
pub uninterp spec fn repaired_json(s: Seq<char>) -> Seq<char>;

/// The compact JSON text of a value.
pub uninterp spec fn json_text(v: serde_json::Value) -> Seq<char>;

/// Relies on `serde_json::from_str::<Value>`: a strict parse whose outcome
/// depends on the text alone; on failure, the error's `Display` text.
#[verifier::external_body]
pub(crate) fn parse_json(s: &str) -> (r: Result<serde_json::Value, String>)
    ensures
        r matches Ok(v) ==> json_parse(s@) == Some(v),
        r matches Err(e) ==> json_parse(s@) is None && e@ == json_error_text(s@),
{
    match serde_json::from_str::<serde_json::Value>(s) {
        Ok(v) => Ok(v),
        Err(e) => Err(e.to_string()),
    }
}

/// Relies on `serde_json::Value::Object` over `serde_json::Map::new()`: the
/// empty object, which is what a strict parse makes of `{}`.
#[verifier::external_body]
pub(crate) fn empty_json_object() -> (r: serde_json::Value)
    ensures
        json_parse(seq!['{', '}']) == Some(r),
{
    serde_json::Value::Object(serde_json::Map::new())
}

/// Relies on `partial_json_fixer::fix_json`: closes unterminated strings,
/// arrays and objects of a JSON prefix; it never fails.
#[verifier::external_body]
pub(crate) fn repair_json(s: &str) -> (r: String)
    ensures
        r@ == repaired_json(s@),
{
    partial_json_fixer::fix_json(s)
}

/// Relies on `serde_json::to_string` on a `Value`, which cannot fail since
/// every object key is a string.
#[verifier::external_body]
pub(crate) fn json_to_string(v: &serde_json::Value) -> (r: String)
    ensures
        r@ == json_text(*v),
{
    serde_json::to_string(v).unwrap_or_default()
}

/// The value that a finished tool call's arguments stand for: the empty
/// object for a blank text, else the strict parse of the trimmed text.
pub open spec fn final_arguments(raw: Seq<char>) -> Option<serde_json::Value> {
    if trim_seq(raw).len() == 0 {
        json_parse(seq!['{', '}'])
    } else {
        json_parse(trim_seq(raw))
    }
}

/// The text of a JSON string value; `None` for every other value.
pub uninterp spec fn json_str(v: serde_json::Value) -> Option<Seq<char>>;

/// The members of a JSON object in the map's order; `None` for every other
/// value.
pub uninterp spec fn json_entries(v: serde_json::Value) -> Option<Seq<(Seq<char>, serde_json::Value)>>;

/// The lowercase form of a text.
pub uninterp spec fn lower_of(s: Seq<char>) -> Seq<char>;

pub open spec fn entries_view(v: Seq<(String, serde_json::Value)>) -> Seq<(Seq<char>, serde_json::Value)> {
    Seq::new(v.len(), |i: int| (v[i].0@, v[i].1))
}

/// Relies on `serde_json::Value::as_str`: the text of a string value.
#[verifier::external_body]
pub(crate) fn json_as_string(v: &serde_json::Value) -> (r: Option<String>)
    ensures
        r matches Some(s) ==> json_str(*v) == Some(s@),
        r is None ==> json_str(*v) is None,
{
    v.as_str().map(|s| s.to_string())
}

/// Relies on `serde_json::Value::as_object` and the map's `iter`: the members
/// of an object value, in the map's order.
#[verifier::external_body]
pub(crate) fn json_object_entries(v: &serde_json::Value) -> (r: Option<Vec<(String, serde_json::Value)>>)
    ensures
        r matches Some(es) ==> json_entries(*v) == Some(entries_view(es@)),
        r is None ==> json_entries(*v) is None,
{
    v.as_object().map(|o| o.iter().map(|(k, x)| (k.clone(), x.clone())).collect())
}

/// Relies on `str::to_lowercase`: the result depends on the characters alone.
#[verifier::external_body]
pub(crate) fn to_lowercase(s: &str) -> (r: String)
    ensures
        r@ == lower_of(s@),
{
    s.to_lowercase()
}

} // verus!
