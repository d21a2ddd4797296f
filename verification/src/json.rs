//! JSON values. They are `serde_json`'s own and pass through this library
//! unopened; what the library needs to know of one it asks `serde_json`.

use vstd::prelude::*;

verus! {

#[verifier::external_type_specification]
#[verifier::external_body]
pub struct ExValue(serde_json::Value);

/// The compact JSON text of a value, as `serde_json::to_string` writes it.
pub uninterp spec fn json_text(v: serde_json::Value) -> Seq<char>;

/// The string that a value holds, if it is a JSON string: what
/// `serde_json::from_value::<String>` makes of it.
pub uninterp spec fn json_string(v: serde_json::Value) -> Option<Seq<char>>;

/// `Clone` of `serde_json::Value`, which the crate derives: the copy is the
/// same JSON value as the one copied.
pub assume_specification[ <serde_json::Value as Clone>::clone ](v: &serde_json::Value) -> (r:
    serde_json::Value)
    ensures
        r == *v,
;

/// Calls `serde_json::to_string` on a value. The result is the value's compact
/// text; of a `Value` the call does not fail, its keys being strings.
#[verifier::external_body]
pub(crate) fn to_text(v: &serde_json::Value) -> (s: String)
    ensures
        s@ == json_text(*v),
{
    serde_json::to_string(v).unwrap_or_default()
}

/// Calls `serde_json::from_value::<String>` on a copy of the value. The result
/// is the string that the value holds, and `None` for every other kind of value.
#[verifier::external_body]
pub(crate) fn as_string(v: &serde_json::Value) -> (s: Option<String>)
    ensures
        s is Some == json_string(*v) is Some,
        s matches Some(t) ==> Some(t@) == json_string(*v),
{
    serde_json::from_value::<String>(v.clone()).ok()
}

/// The JSON string with the given characters, as `Value::from` makes it of a
/// string slice.
pub uninterp spec fn json_of_string(s: Seq<char>) -> serde_json::Value;

/// The JSON array of the given items, as `Value::from` makes it of a vector.
pub uninterp spec fn json_of_items(items: Seq<serde_json::Value>) -> serde_json::Value;

/// The JSON object that is collected from the given pairs of name and value.
pub uninterp spec fn json_of_pairs(pairs: Seq<(Seq<char>, serde_json::Value)>) -> serde_json::Value;

/// The pairs of name and value of a JSON object, in the order in which
/// `serde_json::Map::iter` walks them; `None` for every other kind of value.
pub uninterp spec fn json_entries(v: serde_json::Value) -> Option<
    Seq<(Seq<char>, serde_json::Value)>,
>;

/// The names and values of a list of pairs.
pub open spec fn pairs_view(pairs: Seq<(String, serde_json::Value)>) -> Seq<
    (Seq<char>, serde_json::Value),
> {
    pairs.map_values(|p: (String, serde_json::Value)| (p.0@, p.1))
}

/// Makes `Value::Null`, whose compact text is `null`.
#[verifier::external_body]
pub(crate) fn null() -> (v: serde_json::Value)
    ensures
        json_text(v) == "null"@,
{
    serde_json::Value::Null
}

/// Calls `Value::from` on a string slice, which makes a `Value::String` of
/// it: a JSON string that holds the slice's characters, and as such is read
/// back.
#[verifier::external_body]
pub(crate) fn string(s: &str) -> (v: serde_json::Value)
    ensures
        v == json_of_string(s@),
        json_string(v) == Some(s@),
{
    serde_json::Value::from(s)
}

/// Calls `Value::from` on a vector of values, which makes a `Value::Array`
/// of its items in their order.
#[verifier::external_body]
pub(crate) fn array(items: Vec<serde_json::Value>) -> (v: serde_json::Value)
    ensures
        v == json_of_items(items@),
{
    serde_json::Value::from(items)
}

/// Collects the pairs into a `serde_json::Map` and makes a `Value::Object`
/// of it: the result is an object, whatever the pairs.
#[verifier::external_body]
pub(crate) fn object(pairs: Vec<(String, serde_json::Value)>) -> (v: serde_json::Value)
    ensures
        v == json_of_pairs(pairs_view(pairs@)),
        json_entries(v) is Some,
{
    serde_json::Value::Object(pairs.into_iter().collect())
}

/// Calls `Value::as_object` and walks the map with `Map::iter`, copying each
/// name and value. The result is `None` unless the value is an object.
#[verifier::external_body]
pub(crate) fn entries(v: &serde_json::Value) -> (r: Option<Vec<(String, serde_json::Value)>>)
    ensures
        r is Some == json_entries(*v) is Some,
        r matches Some(pairs) ==> Some(pairs_view(pairs@)) == json_entries(*v),
{
    v.as_object().map(|map| map.iter().map(|(name, value)| (name.clone(), value.clone())).collect())
}

} // verus!
