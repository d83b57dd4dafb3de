//! JSON Schema definitions, as tools and forms describe their inputs, and the
//! schemas of common Rust types.

use vstd::prelude::*;
use crate::text::owned;

verus! {

/// A JSON Schema definition, by its `type`. The bounds of a `number` are held
/// by the IEEE-754 bit patterns of their `f64` values: no rule of this
/// library computes with them.
#[derive(Debug, PartialEq)]
pub enum JsonSchema {
    String {
        description: Option<String>,
        pattern: Option<String>,
        min_length: Option<u64>,
        max_length: Option<u64>,
        enum_values: Option<Vec<String>>,
    },
    Number {
        description: Option<String>,
        minimum: Option<u64>,
        maximum: Option<u64>,
    },
    Integer {
        description: Option<String>,
        minimum: Option<i64>,
        maximum: Option<i64>,
    },
    Boolean {
        description: Option<String>,
    },
    Array {
        description: Option<String>,
        items: Option<Box<JsonSchema>>,
        min_items: Option<u64>,
        max_items: Option<u64>,
    },
    Object {
        description: Option<String>,
        properties: Option<Vec<(String, JsonSchema)>>,
        required: Option<Vec<String>>,
        additional_properties: Option<bool>,
    },
}

/// Whether `d` is the description `text`.
pub open spec fn is_description(d: Option<String>, text: Option<Seq<char>>) -> bool {
    match (d, text) {
        (Some(x), Some(t)) => x@ == t,
        (None, None) => true,
        _ => false,
    }
}

impl JsonSchema {
    /// The description of the schema, whatever its type.
    pub open spec fn description_spec(self) -> Option<String> {
        match self {
            JsonSchema::String { description, .. } => description,
            JsonSchema::Number { description, .. } => description,
            JsonSchema::Integer { description, .. } => description,
            JsonSchema::Boolean { description } => description,
            JsonSchema::Array { description, .. } => description,
            JsonSchema::Object { description, .. } => description,
        }
    }

    /// Whether `self` and `other` have the same type and agree on every
    /// field but the description.
    pub open spec fn same_but_description(self, other: JsonSchema) -> bool {
        match (self, other) {
            (
                JsonSchema::String { pattern: p1, min_length: a1, max_length: b1, enum_values: e1, .. },
                JsonSchema::String { pattern: p2, min_length: a2, max_length: b2, enum_values: e2, .. },
            ) => p1 == p2 && a1 == a2 && b1 == b2 && e1 == e2,
            (
                JsonSchema::Number { minimum: a1, maximum: b1, .. },
                JsonSchema::Number { minimum: a2, maximum: b2, .. },
            ) => a1 == a2 && b1 == b2,
            (
                JsonSchema::Integer { minimum: a1, maximum: b1, .. },
                JsonSchema::Integer { minimum: a2, maximum: b2, .. },
            ) => a1 == a2 && b1 == b2,
            (JsonSchema::Boolean { .. }, JsonSchema::Boolean { .. }) => true,
            (
                JsonSchema::Array { items: i1, min_items: a1, max_items: b1, .. },
                JsonSchema::Array { items: i2, min_items: a2, max_items: b2, .. },
            ) => i1 == i2 && a1 == a2 && b1 == b2,
            (
                JsonSchema::Object { properties: p1, required: r1, additional_properties: x1, .. },
                JsonSchema::Object { properties: p2, required: r2, additional_properties: x2, .. },
            ) => p1 == p2 && r1 == r2 && x1 == x2,
            _ => false,
        }
    }

    /// A string schema with no constraints.
    pub fn string() -> (r: Self)
        ensures
            r == (JsonSchema::String {
                description: None,
                pattern: None,
                min_length: None,
                max_length: None,
                enum_values: None,
            }),
    {
        JsonSchema::String { description: None, pattern: None, min_length: None, max_length: None, enum_values: None }
    }

    /// A string schema described by `description`.
    pub fn string_with_description(description: &str) -> (r: Self)
        ensures
            r matches JsonSchema::String { description: d, pattern: None, min_length: None, max_length: None, enum_values: None }
                && is_description(d, Some(description@)),
    {
        JsonSchema::String {
            description: Some(owned(description)),
            pattern: None,
            min_length: None,
            max_length: None,
            enum_values: None,
        }
    }

    /// A string schema restricted to `values`.
    pub fn string_enum(values: Vec<String>) -> (r: Self)
        ensures
            r == (JsonSchema::String {
                description: None,
                pattern: None,
                min_length: None,
                max_length: None,
                enum_values: Some(values),
            }),
    {
        JsonSchema::String { description: None, pattern: None, min_length: None, max_length: None, enum_values: Some(values) }
    }

    /// A number schema with no bounds.
    pub fn number() -> (r: Self)
        ensures
            r == (JsonSchema::Number { description: None, minimum: None, maximum: None }),
    {
        JsonSchema::Number { description: None, minimum: None, maximum: None }
    }

    /// A number schema described by `description`.
    pub fn number_with_description(description: &str) -> (r: Self)
        ensures
            r matches JsonSchema::Number { description: d, minimum: None, maximum: None }
                && is_description(d, Some(description@)),
    {
        JsonSchema::Number { description: Some(owned(description)), minimum: None, maximum: None }
    }

    /// An integer schema with no bounds.
    pub fn integer() -> (r: Self)
        ensures
            r == (JsonSchema::Integer { description: None, minimum: None, maximum: None }),
    {
        JsonSchema::Integer { description: None, minimum: None, maximum: None }
    }

    /// An integer schema described by `description`.
    pub fn integer_with_description(description: &str) -> (r: Self)
        ensures
            r matches JsonSchema::Integer { description: d, minimum: None, maximum: None }
                && is_description(d, Some(description@)),
    {
        JsonSchema::Integer { description: Some(owned(description)), minimum: None, maximum: None }
    }

    /// A boolean schema.
    pub fn boolean() -> (r: Self)
        ensures
            r == (JsonSchema::Boolean { description: None }),
    {
        JsonSchema::Boolean { description: None }
    }

    /// A boolean schema described by `description`.
    pub fn boolean_with_description(description: &str) -> (r: Self)
        ensures
            r matches JsonSchema::Boolean { description: d } && is_description(d, Some(description@)),
    {
        JsonSchema::Boolean { description: Some(owned(description)) }
    }

    /// An array schema of `items`.
    pub fn array(items: JsonSchema) -> (r: Self)
        ensures
            r == (JsonSchema::Array { description: None, items: Some(Box::new(items)), min_items: None, max_items: None }),
    {
        JsonSchema::Array { description: None, items: Some(Box::new(items)), min_items: None, max_items: None }
    }

    /// An array schema of `items` described by `description`.
    pub fn array_with_description(items: JsonSchema, description: &str) -> (r: Self)
        ensures
            r matches JsonSchema::Array { description: d, items: Some(i), min_items: None, max_items: None }
                && *i == items && is_description(d, Some(description@)),
    {
        JsonSchema::Array {
            description: Some(owned(description)),
            items: Some(Box::new(items)),
            min_items: None,
            max_items: None,
        }
    }

    /// An object schema with nothing stated.
    pub fn object() -> (r: Self)
        ensures
            r == (JsonSchema::Object { description: None, properties: None, required: None, additional_properties: None }),
    {
        JsonSchema::Object { description: None, properties: None, required: None, additional_properties: None }
    }

    /// An object schema with `properties`.
    pub fn object_with_properties(properties: Vec<(String, JsonSchema)>) -> (r: Self)
        ensures
            r == (JsonSchema::Object {
                description: None,
                properties: Some(properties),
                required: None,
                additional_properties: None,
            }),
    {
        JsonSchema::Object { description: None, properties: Some(properties), required: None, additional_properties: None }
    }

    /// An object schema with `properties`, of which `required` are required.
    pub fn object_with_required(properties: Vec<(String, JsonSchema)>, required: Vec<String>) -> (r: Self)
        ensures
            r == (JsonSchema::Object {
                description: None,
                properties: Some(properties),
                required: Some(required),
                additional_properties: None,
            }),
    {
        JsonSchema::Object {
            description: None,
            properties: Some(properties),
            required: Some(required),
            additional_properties: None,
        }
    }

    /// The same schema described by `description`, whatever its type.
    pub fn with_description(self, description: &str) -> (r: Self)
        ensures
            r.same_but_description(self),
            is_description(r.description_spec(), Some(description@)),
    {
        let d = Some(owned(description));
        match self {
            JsonSchema::String { pattern, min_length, max_length, enum_values, .. } =>
                JsonSchema::String { description: d, pattern, min_length, max_length, enum_values },
            JsonSchema::Number { minimum, maximum, .. } => JsonSchema::Number { description: d, minimum, maximum },
            JsonSchema::Integer { minimum, maximum, .. } => JsonSchema::Integer { description: d, minimum, maximum },
            JsonSchema::Boolean { .. } => JsonSchema::Boolean { description: d },
            JsonSchema::Array { items, min_items, max_items, .. } =>
                JsonSchema::Array { description: d, items, min_items, max_items },
            JsonSchema::Object { properties, required, additional_properties, .. } =>
                JsonSchema::Object { description: d, properties, required, additional_properties },
        }
    }

    /// The same schema with `properties` where it is an object schema; any
    /// other schema unchanged.
    pub fn with_properties(self, properties: Vec<(String, JsonSchema)>) -> (r: Self)
        ensures
            match self {
                JsonSchema::Object { description, required, additional_properties, .. } =>
                    r == (JsonSchema::Object { description, properties: Some(properties), required, additional_properties }),
                _ => r == self,
            },
    {
        match self {
            JsonSchema::Object { description, required, additional_properties, .. } =>
                JsonSchema::Object { description, properties: Some(properties), required, additional_properties },
            other => other,
        }
    }

    /// The same schema with `required` as its required properties where it is
    /// an object schema; any other schema unchanged.
    pub fn with_required(self, required: Vec<String>) -> (r: Self)
        ensures
            match self {
                JsonSchema::Object { description, properties, additional_properties, .. } =>
                    r == (JsonSchema::Object { description, properties, required: Some(required), additional_properties }),
                _ => r == self,
            },
    {
        match self {
            JsonSchema::Object { description, properties, additional_properties, .. } =>
                JsonSchema::Object { description, properties, required: Some(required), additional_properties },
            other => other,
        }
    }
}

/// The JSON Schema of a Rust type.
pub trait ToJsonSchema {
    fn to_json_schema() -> JsonSchema;
}

/// The string schema with no constraints.
pub open spec fn plain_string_schema() -> JsonSchema {
    JsonSchema::String { description: None, pattern: None, min_length: None, max_length: None, enum_values: None }
}

/// The integer schema with no bounds.
pub open spec fn plain_integer_schema() -> JsonSchema {
    JsonSchema::Integer { description: None, minimum: None, maximum: None }
}

impl ToJsonSchema for String {
    fn to_json_schema() -> (r: JsonSchema)
        ensures
            r == plain_string_schema(),
    {
        JsonSchema::string()
    }
}

impl<'a> ToJsonSchema for &'a str {
    fn to_json_schema() -> (r: JsonSchema)
        ensures
            r == plain_string_schema(),
    {
        JsonSchema::string()
    }
}

impl ToJsonSchema for i32 {
    fn to_json_schema() -> (r: JsonSchema)
        ensures
            r == plain_integer_schema(),
    {
        JsonSchema::integer()
    }
}

impl ToJsonSchema for i64 {
    fn to_json_schema() -> (r: JsonSchema)
        ensures
            r == plain_integer_schema(),
    {
        JsonSchema::integer()
    }
}

impl ToJsonSchema for bool {
    fn to_json_schema() -> (r: JsonSchema)
        ensures
            r == (JsonSchema::Boolean { description: None }),
    {
        JsonSchema::boolean()
    }
}

impl<T: ToJsonSchema> ToJsonSchema for Vec<T> {
    fn to_json_schema() -> (r: JsonSchema)
        ensures
            r matches JsonSchema::Array { description: None, items: Some(_), min_items: None, max_items: None },
    {
        JsonSchema::array(T::to_json_schema())
    }
}

impl<T: ToJsonSchema> ToJsonSchema for Option<T> {
    fn to_json_schema() -> JsonSchema {
        T::to_json_schema()
    }
}

} // verus!
