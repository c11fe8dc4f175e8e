//! JSON values: the type of claim values and what the library reads of them.

use vstd::prelude::*;

verus! {

#[verifier::external_type_specification]
#[verifier::external_body]
pub struct ExJsonValue(serde_json::Value);

/// The text of a JSON value that is a string, as `Value::as_str` gives it.
pub uninterp spec fn json_text_of(value: serde_json::Value) -> Option<Seq<char>>;

/// The number of a JSON value that is an integer fitting `i64`, as `Value::as_i64` gives it.
pub uninterp spec fn json_i64_of(value: serde_json::Value) -> Option<i64>;

/// The members of a JSON value that is an object, by name.
pub uninterp spec fn json_object_of(value: serde_json::Value) -> Option<Map<Seq<char>, serde_json::Value>>;

/// The JSON string value holding a text, as `Value::String` builds it.
pub uninterp spec fn json_string_value(text: Seq<char>) -> serde_json::Value;

/// Whether no name occurs twice among name and value pairs.
pub open spec fn names_distinct<T>(pairs: Seq<(String, T)>) -> bool {
    forall|i: int, j: int| 0 <= i < j < pairs.len() ==> #[trigger] pairs[i].0@ != #[trigger] pairs[j].0@
}

/// `serde_json::Value::as_str`, copied.
#[verifier::external_body]
pub(crate) fn json_as_str(v: &serde_json::Value) -> (r: Option<String>)
    ensures
        match r {
            Some(s) => json_text_of(*v) == Some(s@),
            None => json_text_of(*v) is None,
        },
{
    v.as_str().map(str::to_string)
}

/// `serde_json::Value::as_i64`.
#[verifier::external_body]
pub(crate) fn json_as_i64(v: &serde_json::Value) -> (r: Option<i64>)
    ensures
        r == json_i64_of(*v),
{
    v.as_i64()
}

/// The map of name and value pairs, read from the last pair to the first:
/// where a name occurs twice, its first pair gives the value.
pub open spec fn pairs_map(pairs: Seq<(String, serde_json::Value)>) -> Map<Seq<char>, serde_json::Value>
    decreases pairs.len(),
{
    if pairs.len() == 0 {
        Map::empty()
    } else {
        pairs_map(pairs.drop_first()).insert(pairs[0].0@, pairs[0].1)
    }
}

/// The members of a `serde_json::Value::Object`, as name and value pairs; `None`
/// for other kinds of value. The pairs come from a map, so no name occurs twice.
#[verifier::external_body]
pub(crate) fn json_object_entries(v: serde_json::Value) -> (r: Option<Vec<(String, serde_json::Value)>>)
    ensures
        match r {
            Some(pairs) => json_object_of(v) == Some(pairs_map(pairs@)) && names_distinct(pairs@),
            None => json_object_of(v) is None,
        },
{
    match v {
        serde_json::Value::Object(map) => Some(map.into_iter().collect()),
        _ => None,
    }
}

/// `serde_json::Value::String`: the JSON string holding the text, whose
/// `as_str` is that text.
#[verifier::external_body]
pub(crate) fn json_string(text: String) -> (v: serde_json::Value)
    ensures
        v == json_string_value(text@),
        json_text_of(v) == Some(text@),
{
    serde_json::Value::String(text)
}

} // verus!
