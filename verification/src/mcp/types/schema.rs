//! JSON schemas for the properties of a tool's input.

use vstd::prelude::*;
use crate::common::Metadata;
use crate::json::{array, json_of_items, json_of_pairs, json_of_string, object, string};
use crate::text::owned;

verus! {

/// The JSON schema of a property of a simple type: its type and what it is.
pub open spec fn simple_schema(kind: Seq<char>, description: Seq<char>) -> serde_json::Value {
    json_of_pairs(
        seq![
            ("type"@, json_of_string(kind)),
            ("description"@, json_of_string(description)),
        ],
    )
}

/// The JSON schema of an array property: the schema of its items and what
/// it is.
pub open spec fn array_schema(items: serde_json::Value, description: Seq<char>) -> serde_json::Value {
    json_of_pairs(
        seq![
            ("type"@, json_of_string("array"@)),
            ("items"@, items),
            ("description"@, json_of_string(description)),
        ],
    )
}

/// The JSON schema of an object property: the schemas of its own properties,
/// the names of those that must be there, and what it is.
pub open spec fn object_schema(
    properties: Seq<(Seq<char>, serde_json::Value)>,
    required: Seq<Seq<char>>,
    description: Seq<char>,
) -> serde_json::Value {
    json_of_pairs(
        seq![
            ("type"@, json_of_string("object"@)),
            ("properties"@, json_of_pairs(properties)),
            ("required"@, json_of_items(required.map_values(|name: Seq<char>| json_of_string(name)))),
            ("description"@, json_of_string(description)),
        ],
    )
}

fn simple_property(kind: &str, description: &str) -> (r: serde_json::Value)
    ensures
        r == simple_schema(kind@, description@),
{
    let mut pairs: Vec<(String, serde_json::Value)> = Vec::new();
    pairs.push((owned("type"), string(kind)));
    pairs.push((owned("description"), string(description)));
    proof {
        assert(pairs@.map_values(|p: (String, serde_json::Value)| (p.0@, p.1)) =~= seq![
            ("type"@, json_of_string(kind@)),
            ("description"@, json_of_string(description@)),
        ]);
    }
    object(pairs)
}

/// The schema of a string property.
pub fn string_property(description: &str) -> (r: serde_json::Value)
    ensures
        r == simple_schema("string"@, description@),
{
    simple_property("string", description)
}

/// The schema of a number property.
pub fn number_property(description: &str) -> (r: serde_json::Value)
    ensures
        r == simple_schema("number"@, description@),
{
    simple_property("number", description)
}

/// The schema of a boolean property.
pub fn boolean_property(description: &str) -> (r: serde_json::Value)
    ensures
        r == simple_schema("boolean"@, description@),
{
    simple_property("boolean", description)
}

/// The schema of an array property whose items have the given schema.
pub fn array_property(items: serde_json::Value, description: &str) -> (r: serde_json::Value)
    ensures
        r == array_schema(items, description@),
{
    let mut pairs: Vec<(String, serde_json::Value)> = Vec::new();
    pairs.push((owned("type"), string("array")));
    pairs.push((owned("items"), items));
    pairs.push((owned("description"), string(description)));
    proof {
        assert(pairs@.map_values(|p: (String, serde_json::Value)| (p.0@, p.1)) =~= seq![
            ("type"@, json_of_string("array"@)),
            ("items"@, items),
            ("description"@, json_of_string(description@)),
        ]);
    }
    object(pairs)
}

/// The schema of an object property with the given properties, of which
/// those named in `required` must be there.
pub fn object_property(properties: &Metadata, required: &Vec<String>, description: &str) -> (r:
    serde_json::Value)
    ensures
        r == object_schema(
            properties.pairs(),
            required@.map_values(|name: String| name@),
            description@,
        ),
{
    let n = required.len();
    let mut names: Vec<serde_json::Value> = Vec::new();
    let mut i: usize = 0;
    while i < n
        invariant
            i <= n,
            n == required@.len(),
            names@.len() == i,
            forall|j: int| 0 <= j < i ==> #[trigger] names@[j] == json_of_string(required@[j]@),
        decreases n - i,
    {
        names.push(string(required[i].as_str()));
        i += 1;
    }
    proof {
        assert(names@ =~= required@.map_values(|name: String| name@).map_values(
            |name: Seq<char>| json_of_string(name),
        ));
    }
    let mut pairs: Vec<(String, serde_json::Value)> = Vec::new();
    pairs.push((owned("type"), string("object")));
    pairs.push((owned("properties"), properties.to_value()));
    pairs.push((owned("required"), array(names)));
    pairs.push((owned("description"), string(description)));
    proof {
        assert(pairs@.map_values(|p: (String, serde_json::Value)| (p.0@, p.1)) =~= seq![
            ("type"@, json_of_string("object"@)),
            ("properties"@, json_of_pairs(properties.pairs())),
            (
                "required"@,
                json_of_items(
                    required@.map_values(|name: String| name@).map_values(
                        |name: Seq<char>| json_of_string(name),
                    ),
                ),
            ),
            ("description"@, json_of_string(description@)),
        ]);
    }
    object(pairs)
}

} // verus!
