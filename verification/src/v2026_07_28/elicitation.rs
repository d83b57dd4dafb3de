//! Elicitation form schemas: string, boolean and enum fields in their
//! single-select, multi-select and legacy shapes; URL-mode parameters; the
//! user's action.

use std::collections::HashMap;
use vstd::prelude::*;
use crate::text::owned;
use crate::json::{Json, member, get_member, lookup, keys_distinct, insert_entry, inserted, object_insert};

verus! {

/// Formats a string field may be constrained to.
#[derive(Debug, Clone, Copy, PartialEq, Eq, Structural)]
pub enum StringFormat {
    Email,
    Uri,
    Date,
    DateTime,
}

/// A string field (`type` is `string`).
#[derive(Debug, Clone)]
pub struct StringSchema {
    pub schema_type: String,
    pub title: Option<String>,
    pub description: Option<String>,
    pub default: Option<String>,
    pub min_length: Option<usize>,
    pub max_length: Option<usize>,
    pub format: Option<StringFormat>,
}

/// A number field (`type` is `number` or `integer`). Its default and bounds
/// are held by their IEEE-754 bit patterns: no rule of this library computes
/// with them.
#[derive(Debug, Clone)]
pub struct NumberSchema {
    pub schema_type: String,
    pub title: Option<String>,
    pub description: Option<String>,
    pub default: Option<u64>,
    pub minimum: Option<u64>,
    pub maximum: Option<u64>,
}

/// A boolean field (`type` is `boolean`).
#[derive(Debug, Clone)]
pub struct BooleanSchema {
    pub schema_type: String,
    pub title: Option<String>,
    pub description: Option<String>,
    pub default: Option<bool>,
}

/// The legacy enum field: values with optional parallel display names.
#[derive(Debug, Clone)]
pub struct LegacyTitledEnumSchema {
    pub schema_type: String,
    pub title: Option<String>,
    pub description: Option<String>,
    pub enum_values: Vec<String>,
    pub enum_names: Option<Vec<String>>,
    pub default: Option<String>,
}

/// A single choice among plain values.
#[derive(Debug, Clone)]
pub struct UntitledSingleSelectEnumSchema {
    pub schema_type: String,
    pub title: Option<String>,
    pub description: Option<String>,
    pub enum_values: Vec<String>,
    pub default: Option<String>,
}

/// One option of a titled enum: the value and its display title.
#[derive(Debug, Clone)]
pub struct TitledEnumOption {
    pub const_value: String,
    pub title: String,
}

/// A single choice among titled options.
#[derive(Debug, Clone)]
pub struct TitledSingleSelectEnumSchema {
    pub schema_type: String,
    pub title: Option<String>,
    pub description: Option<String>,
    pub one_of: Vec<TitledEnumOption>,
    pub default: Option<String>,
}

/// A single-select enum field.
#[derive(Debug, Clone)]
pub enum SingleSelectEnumSchema {
    Untitled(UntitledSingleSelectEnumSchema),
    Titled(TitledSingleSelectEnumSchema),
}

/// The items of an untitled multi-select: plain string values.
#[derive(Debug, Clone)]
pub struct UntitledMultiSelectItems {
    pub schema_type: String,
    pub enum_values: Vec<String>,
}

/// Several choices among plain values (`type` is `array`).
#[derive(Debug, Clone)]
pub struct UntitledMultiSelectEnumSchema {
    pub schema_type: String,
    pub title: Option<String>,
    pub description: Option<String>,
    pub min_items: Option<u32>,
    pub max_items: Option<u32>,
    pub items: UntitledMultiSelectItems,
    pub default: Option<Vec<String>>,
}

/// The items of a titled multi-select: titled options.
#[derive(Debug, Clone)]
pub struct TitledMultiSelectItems {
    pub any_of: Vec<TitledEnumOption>,
}

/// Several choices among titled options (`type` is `array`).
#[derive(Debug, Clone)]
pub struct TitledMultiSelectEnumSchema {
    pub schema_type: String,
    pub title: Option<String>,
    pub description: Option<String>,
    pub min_items: Option<u32>,
    pub max_items: Option<u32>,
    pub items: TitledMultiSelectItems,
    pub default: Option<Vec<String>>,
}

/// A multi-select enum field.
#[derive(Debug, Clone)]
pub enum MultiSelectEnumSchema {
    Untitled(UntitledMultiSelectEnumSchema),
    Titled(TitledMultiSelectEnumSchema),
}

/// An enum field in any of its shapes.
#[derive(Debug, Clone)]
pub enum EnumSchema {
    SingleSelect(SingleSelectEnumSchema),
    MultiSelect(MultiSelectEnumSchema),
    LegacyTitled(LegacyTitledEnumSchema),
}

/// The `mode` of form-mode elicitation parameters.
#[derive(Debug, Clone, Copy, PartialEq, Eq, Structural)]
pub enum FormModeMarker {
    Form,
}

/// The `mode` of URL-mode elicitation parameters.
#[derive(Debug, Clone, Copy, PartialEq, Eq, Structural)]
pub enum UrlModeMarker {
    Url,
}

/// Parameters of a URL-mode elicitation: the user is sent to `url`.
#[derive(Debug, Clone)]
pub struct ElicitRequestURLParams {
    pub mode: UrlModeMarker,
    pub message: String,
    pub url: String,
}

/// How the user answered an elicitation.
#[derive(Debug, Clone, Copy, PartialEq, Eq, Structural)]
pub enum ElicitAction {
    /// Submitted the form or confirmed.
    Accept,
    /// Explicitly declined.
    Decline,
    /// Dismissed without an explicit choice.
    Cancel,
}

/// Builder of common elicitation patterns.
pub struct ElicitationBuilder;

/// The values of titled options, in order.
pub open spec fn option_values(options: Seq<TitledEnumOption>) -> Seq<String> {
    options.map_values(|o: TitledEnumOption| o.const_value)
}

/// The values an enum field allows, whatever its shape.
pub open spec fn allowed_values_of(e: EnumSchema) -> Seq<String> {
    match e {
        EnumSchema::SingleSelect(SingleSelectEnumSchema::Untitled(v)) => v.enum_values@,
        EnumSchema::SingleSelect(SingleSelectEnumSchema::Titled(v)) => option_values(v.one_of@),
        EnumSchema::MultiSelect(MultiSelectEnumSchema::Untitled(v)) => v.items.enum_values@,
        EnumSchema::MultiSelect(MultiSelectEnumSchema::Titled(v)) => option_values(v.items.any_of@),
        EnumSchema::LegacyTitled(v) => v.enum_values@,
    }
}

/// The description of an enum field, whatever its shape.
pub open spec fn enum_description(e: EnumSchema) -> Option<String> {
    match e {
        EnumSchema::SingleSelect(SingleSelectEnumSchema::Untitled(v)) => v.description,
        EnumSchema::SingleSelect(SingleSelectEnumSchema::Titled(v)) => v.description,
        EnumSchema::MultiSelect(MultiSelectEnumSchema::Untitled(v)) => v.description,
        EnumSchema::MultiSelect(MultiSelectEnumSchema::Titled(v)) => v.description,
        EnumSchema::LegacyTitled(v) => v.description,
    }
}

/// The title of an enum field, whatever its shape.
pub open spec fn enum_title(e: EnumSchema) -> Option<String> {
    match e {
        EnumSchema::SingleSelect(SingleSelectEnumSchema::Untitled(v)) => v.title,
        EnumSchema::SingleSelect(SingleSelectEnumSchema::Titled(v)) => v.title,
        EnumSchema::MultiSelect(MultiSelectEnumSchema::Untitled(v)) => v.title,
        EnumSchema::MultiSelect(MultiSelectEnumSchema::Titled(v)) => v.title,
        EnumSchema::LegacyTitled(v) => v.title,
    }
}

/// Whether `b` is `a` in the same shape with every field but the
/// description unchanged, and the description `d`.
pub open spec fn same_but_description(a: EnumSchema, b: EnumSchema, d: Option<String>) -> bool {
    match (a, b) {
        (
            EnumSchema::SingleSelect(SingleSelectEnumSchema::Untitled(x)),
            EnumSchema::SingleSelect(SingleSelectEnumSchema::Untitled(y)),
        ) => y == UntitledSingleSelectEnumSchema { description: d, ..x },
        (
            EnumSchema::SingleSelect(SingleSelectEnumSchema::Titled(x)),
            EnumSchema::SingleSelect(SingleSelectEnumSchema::Titled(y)),
        ) => y == TitledSingleSelectEnumSchema { description: d, ..x },
        (
            EnumSchema::MultiSelect(MultiSelectEnumSchema::Untitled(x)),
            EnumSchema::MultiSelect(MultiSelectEnumSchema::Untitled(y)),
        ) => y == UntitledMultiSelectEnumSchema { description: d, ..x },
        (
            EnumSchema::MultiSelect(MultiSelectEnumSchema::Titled(x)),
            EnumSchema::MultiSelect(MultiSelectEnumSchema::Titled(y)),
        ) => y == TitledMultiSelectEnumSchema { description: d, ..x },
        (EnumSchema::LegacyTitled(x), EnumSchema::LegacyTitled(y)) => y == LegacyTitledEnumSchema {
            description: d,
            ..x
        },
        _ => false,
    }
}

impl StringSchema {
    /// A string field with no constraints.
    pub fn new() -> (r: Self)
        ensures
            r.schema_type@ == "string"@,
            r.title is None,
            r.description is None,
            r.default is None,
            r.min_length is None,
            r.max_length is None,
            r.format is None,
    {
        StringSchema {
            schema_type: owned("string"),
            title: None,
            description: None,
            default: None,
            min_length: None,
            max_length: None,
            format: None,
        }
    }

    /// A string field holding a URI.
    pub fn url() -> (r: Self)
        ensures
            r.schema_type@ == "string"@,
            r.title is None,
            r.description is None,
            r.default is None,
            r.min_length is None,
            r.max_length is None,
            r.format == Some(StringFormat::Uri),
    {
        StringSchema {
            schema_type: owned("string"),
            title: None,
            description: None,
            default: None,
            min_length: None,
            max_length: None,
            format: Some(StringFormat::Uri),
        }
    }

    /// The same field with `description` set.
    pub fn with_description(self, description: &str) -> (r: Self)
        ensures
            r == (StringSchema { description: r.description, ..self }),
            r.description matches Some(d) && d@ == description@,
    {
        StringSchema { description: Some(owned(description)), ..self }
    }

    /// The same field with the default value `default`.
    pub fn with_default(self, default: &str) -> (r: Self)
        ensures
            r == (StringSchema { default: r.default, ..self }),
            r.default matches Some(d) && d@ == default@,
    {
        StringSchema { default: Some(owned(default)), ..self }
    }
}

impl Default for StringSchema {
    fn default() -> (r: Self)
        ensures
            r.schema_type@ == "string"@,
            r.title is None,
            r.description is None,
            r.default is None,
            r.min_length is None,
            r.max_length is None,
            r.format is None,
    {
        StringSchema::new()
    }
}

impl BooleanSchema {
    /// A boolean field with no default.
    pub fn new() -> (r: Self)
        ensures
            r.schema_type@ == "boolean"@,
            r.title is None,
            r.description is None,
            r.default is None,
    {
        BooleanSchema { schema_type: owned("boolean"), title: None, description: None, default: None }
    }

    /// The same field with `description` set.
    pub fn with_description(self, description: &str) -> (r: Self)
        ensures
            r == (BooleanSchema { description: r.description, ..self }),
            r.description matches Some(d) && d@ == description@,
    {
        BooleanSchema { description: Some(owned(description)), ..self }
    }
}

impl Default for BooleanSchema {
    fn default() -> (r: Self)
        ensures
            r.schema_type@ == "boolean"@,
            r.title is None,
            r.description is None,
            r.default is None,
    {
        BooleanSchema::new()
    }
}

impl LegacyTitledEnumSchema {
    /// A legacy enum field over `enum_values`, with nothing else stated.
    pub fn new(enum_values: Vec<String>) -> (r: Self)
        ensures
            r.schema_type@ == "string"@,
            r.title is None,
            r.description is None,
            r.enum_values == enum_values,
            r.enum_names is None,
            r.default is None,
    {
        LegacyTitledEnumSchema {
            schema_type: owned("string"),
            title: None,
            description: None,
            enum_values,
            enum_names: None,
            default: None,
        }
    }

    /// The same field with `description` set.
    pub fn with_description(self, description: &str) -> (r: Self)
        ensures
            r == (LegacyTitledEnumSchema { description: r.description, ..self }),
            r.description matches Some(d) && d@ == description@,
    {
        LegacyTitledEnumSchema { description: Some(owned(description)), ..self }
    }

    /// The same field with display names for its values.
    pub fn with_enum_names(self, enum_names: Vec<String>) -> (r: Self)
        ensures
            r == (LegacyTitledEnumSchema { enum_names: Some(enum_names), ..self }),
    {
        LegacyTitledEnumSchema { enum_names: Some(enum_names), ..self }
    }

    /// The same field with the default value `default`.
    pub fn with_default(self, default: &str) -> (r: Self)
        ensures
            r == (LegacyTitledEnumSchema { default: r.default, ..self }),
            r.default matches Some(d) && d@ == default@,
    {
        LegacyTitledEnumSchema { default: Some(owned(default)), ..self }
    }
}

impl UntitledSingleSelectEnumSchema {
    /// A single choice among `enum_values`.
    pub fn new(enum_values: Vec<String>) -> (r: Self)
        ensures
            r.schema_type@ == "string"@,
            r.title is None,
            r.description is None,
            r.enum_values == enum_values,
            r.default is None,
    {
        UntitledSingleSelectEnumSchema {
            schema_type: owned("string"),
            title: None,
            description: None,
            enum_values,
            default: None,
        }
    }
}

impl TitledEnumOption {
    /// The option `const_value` displayed as `title`.
    pub fn new(const_value: &str, title: &str) -> (r: Self)
        ensures
            r.const_value@ == const_value@,
            r.title@ == title@,
    {
        TitledEnumOption { const_value: owned(const_value), title: owned(title) }
    }
}

impl TitledSingleSelectEnumSchema {
    /// A single choice among the titled options `one_of`.
    pub fn new(one_of: Vec<TitledEnumOption>) -> (r: Self)
        ensures
            r.schema_type@ == "string"@,
            r.title is None,
            r.description is None,
            r.one_of == one_of,
            r.default is None,
    {
        TitledSingleSelectEnumSchema {
            schema_type: owned("string"),
            title: None,
            description: None,
            one_of,
            default: None,
        }
    }
}

impl UntitledMultiSelectEnumSchema {
    /// Several choices among `enum_values`.
    pub fn new(enum_values: Vec<String>) -> (r: Self)
        ensures
            r.schema_type@ == "array"@,
            r.title is None,
            r.description is None,
            r.min_items is None,
            r.max_items is None,
            r.items.schema_type@ == "string"@,
            r.items.enum_values == enum_values,
            r.default is None,
    {
        UntitledMultiSelectEnumSchema {
            schema_type: owned("array"),
            title: None,
            description: None,
            min_items: None,
            max_items: None,
            items: UntitledMultiSelectItems { schema_type: owned("string"), enum_values },
            default: None,
        }
    }
}

impl TitledMultiSelectEnumSchema {
    /// Several choices among the titled options `any_of`.
    pub fn new(any_of: Vec<TitledEnumOption>) -> (r: Self)
        ensures
            r.schema_type@ == "array"@,
            r.title is None,
            r.description is None,
            r.min_items is None,
            r.max_items is None,
            r.items.any_of == any_of,
            r.default is None,
    {
        TitledMultiSelectEnumSchema {
            schema_type: owned("array"),
            title: None,
            description: None,
            min_items: None,
            max_items: None,
            items: TitledMultiSelectItems { any_of },
            default: None,
        }
    }
}

/// The values of `options`, in order.
fn values_of_options(options: &Vec<TitledEnumOption>) -> (r: Vec<String>)
    ensures
        r@ == option_values(options@),
{
    let mut out: Vec<String> = Vec::new();
    let mut i: usize = 0;
    while i < options.len()
        invariant
            i <= options@.len(),
            out@ == option_values(options@.take(i as int)),
        decreases options.len() - i,
    {
        out.push(options[i].const_value.clone());
        i = i + 1;
        assert(out@ =~= option_values(options@.take(i as int)));
    }
    assert(options@.take(options@.len() as int) =~= options@);
    out
}

/// A copy of a list of strings.
fn copy_strings(v: &Vec<String>) -> (r: Vec<String>)
    ensures
        r@ == v@,
{
    let mut out: Vec<String> = Vec::new();
    let mut i: usize = 0;
    while i < v.len()
        invariant
            i <= v@.len(),
            out@ == v@.take(i as int),
        decreases v.len() - i,
    {
        out.push(v[i].clone());
        i = i + 1;
        assert(out@ =~= v@.take(i as int));
    }
    assert(v@.take(v@.len() as int) =~= v@);
    out
}

impl EnumSchema {
    /// An untitled single choice among `enum_values`.
    pub fn new(enum_values: Vec<String>) -> (r: Self)
        ensures
            r matches EnumSchema::SingleSelect(SingleSelectEnumSchema::Untitled(v)) && v.schema_type@
                == "string"@ && v.title is None && v.description is None && v.enum_values
                == enum_values && v.default is None,
    {
        EnumSchema::SingleSelect(SingleSelectEnumSchema::Untitled(UntitledSingleSelectEnumSchema::new(enum_values)))
    }

    /// The same field, in the same shape, with `description` set.
    pub fn with_description(self, description: &str) -> (r: Self)
        ensures
            enum_description(r) matches Some(d) && d@ == description@,
            same_but_description(self, r, enum_description(r)),
    {
        let d = Some(owned(description));
        match self {
            EnumSchema::SingleSelect(SingleSelectEnumSchema::Untitled(v)) => EnumSchema::SingleSelect(
                SingleSelectEnumSchema::Untitled(UntitledSingleSelectEnumSchema { description: d, ..v }),
            ),
            EnumSchema::SingleSelect(SingleSelectEnumSchema::Titled(v)) => EnumSchema::SingleSelect(
                SingleSelectEnumSchema::Titled(TitledSingleSelectEnumSchema { description: d, ..v }),
            ),
            EnumSchema::MultiSelect(MultiSelectEnumSchema::Untitled(v)) => EnumSchema::MultiSelect(
                MultiSelectEnumSchema::Untitled(UntitledMultiSelectEnumSchema { description: d, ..v }),
            ),
            EnumSchema::MultiSelect(MultiSelectEnumSchema::Titled(v)) => EnumSchema::MultiSelect(
                MultiSelectEnumSchema::Titled(TitledMultiSelectEnumSchema { description: d, ..v }),
            ),
            EnumSchema::LegacyTitled(v) => EnumSchema::LegacyTitled(
                LegacyTitledEnumSchema { description: d, ..v },
            ),
        }
    }

    /// The values the field allows, whatever its shape: the plain values,
    /// or the values of the titled options, in order.
    pub fn allowed_values(&self) -> (r: Vec<String>)
        ensures
            r@ == allowed_values_of(*self),
    {
        match self {
            EnumSchema::SingleSelect(SingleSelectEnumSchema::Untitled(v)) => copy_strings(&v.enum_values),
            EnumSchema::SingleSelect(SingleSelectEnumSchema::Titled(v)) => values_of_options(&v.one_of),
            EnumSchema::MultiSelect(MultiSelectEnumSchema::Untitled(v)) => copy_strings(&v.items.enum_values),
            EnumSchema::MultiSelect(MultiSelectEnumSchema::Titled(v)) => values_of_options(&v.items.any_of),
            EnumSchema::LegacyTitled(v) => copy_strings(&v.enum_values),
        }
    }

    /// Whether the field is a multi-select.
    pub fn is_multi_select(&self) -> (r: bool)
        ensures
            r == (*self is MultiSelect),
    {
        match self {
            EnumSchema::MultiSelect(_) => true,
            _ => false,
        }
    }

    /// Attaches display names. A legacy field takes them; an untitled
    /// single choice becomes a legacy field with the same type, title,
    /// description, values and default, and takes them; the titled and
    /// multi-select shapes, which have no display names, are returned
    /// unchanged.
    pub fn with_enum_names(self, enum_names: Vec<String>) -> (r: Self)
        ensures
            match self {
                EnumSchema::LegacyTitled(v) => r == EnumSchema::LegacyTitled(
                    LegacyTitledEnumSchema { enum_names: Some(enum_names), ..v },
                ),
                EnumSchema::SingleSelect(SingleSelectEnumSchema::Untitled(v)) => r
                    == EnumSchema::LegacyTitled(
                    LegacyTitledEnumSchema {
                        schema_type: v.schema_type,
                        title: v.title,
                        description: v.description,
                        enum_values: v.enum_values,
                        enum_names: Some(enum_names),
                        default: v.default,
                    },
                ),
                _ => r == self,
            },
    {
        let legacy = match self {
            EnumSchema::LegacyTitled(v) => v,
            EnumSchema::SingleSelect(SingleSelectEnumSchema::Untitled(v)) => LegacyTitledEnumSchema {
                schema_type: v.schema_type,
                title: v.title,
                description: v.description,
                enum_values: v.enum_values,
                enum_names: None,
                default: v.default,
            },
            other => {
                return other;
            },
        };
        EnumSchema::LegacyTitled(legacy.with_enum_names(enum_names))
    }
}

/// Attaching display names keeps the values an enum field allows.
pub proof fn lemma_with_enum_names_keeps_allowed_values(e: EnumSchema, r: EnumSchema, names: Vec<String>)
    requires
        match e {
            EnumSchema::LegacyTitled(v) => r == EnumSchema::LegacyTitled(
                LegacyTitledEnumSchema { enum_names: Some(names), ..v },
            ),
            EnumSchema::SingleSelect(SingleSelectEnumSchema::Untitled(v)) => r
                == EnumSchema::LegacyTitled(
                LegacyTitledEnumSchema {
                    schema_type: v.schema_type,
                    title: v.title,
                    description: v.description,
                    enum_values: v.enum_values,
                    enum_names: Some(names),
                    default: v.default,
                },
            ),
            _ => r == e,
        },
    ensures
        allowed_values_of(r) == allowed_values_of(e),
        enum_description(r) == enum_description(e),
        enum_title(r) == enum_title(e),
{
}

/// Setting the description keeps the values an enum field allows and its shape.
pub proof fn lemma_with_description_keeps_allowed_values(e: EnumSchema, r: EnumSchema, d: Option<String>)
    requires
        same_but_description(e, r, d),
    ensures
        allowed_values_of(r) == allowed_values_of(e),
        (r is MultiSelect) == (e is MultiSelect),
        enum_title(r) == enum_title(e),
        enum_description(r) == d,
{
}

impl ElicitRequestURLParams {
    /// URL-mode parameters sending the user to `url` with `message`.
    pub fn new(message: &str, url: &str) -> (r: Self)
        ensures
            r.mode == UrlModeMarker::Url,
            r.message@ == message@,
            r.url@ == url@,
    {
        ElicitRequestURLParams { mode: UrlModeMarker::Url, message: owned(message), url: owned(url) }
    }
}

/// The shape a primitive schema is read as, chosen by its `type`.
#[derive(Debug, Clone, Copy, PartialEq, Eq, Structural)]
pub enum PrimitiveSchemaKind {
    String,
    Number,
    Boolean,
    Enum,
}

/// The shape of a primitive schema, from its `type` and whether it carries
/// `enum` or `oneOf`: a plain `string` is a string field, `number` and
/// `integer` a number field, a plain `boolean` a boolean field, an
/// enum-bearing `string` or any `array` an enum field; anything else has no
/// shape.
pub open spec fn primitive_schema_kind_of(value: Json) -> Option<PrimitiveSchemaKind> {
    let enum_shaped = member(value, "enum"@) is Some || member(value, "oneOf"@) is Some;
    match member(value, "type"@) {
        Some(Json::String(t)) => if t@ == "string"@ {
            if enum_shaped {
                Some(PrimitiveSchemaKind::Enum)
            } else {
                Some(PrimitiveSchemaKind::String)
            }
        } else if t@ == "number"@ || t@ == "integer"@ {
            Some(PrimitiveSchemaKind::Number)
        } else if t@ == "boolean"@ {
            if enum_shaped {
                None
            } else {
                Some(PrimitiveSchemaKind::Boolean)
            }
        } else if t@ == "array"@ {
            Some(PrimitiveSchemaKind::Enum)
        } else {
            None
        },
        _ => None,
    }
}

/// The `type` text of a schema, where its `type` member is a string.
pub open spec fn type_tag(value: Json) -> Option<Seq<char>> {
    match member(value, "type"@) {
        Some(Json::String(t)) => Some(t@),
        _ => None,
    }
}

/// Whether a schema carries an `enum` or a `oneOf` member.
pub open spec fn carries_choices(value: Json) -> bool {
    member(value, "enum"@) is Some || member(value, "oneOf"@) is Some
}

/// How the `type` discriminator picks the shape of a primitive schema: a
/// `number` or `integer` schema is a number field whatever else it carries;
/// a `string` schema is a string field, or an enum field where it carries
/// `enum` or `oneOf`; a `boolean` schema is a boolean field unless it carries
/// them; an `array` schema is an enum field; any other or missing `type`
/// gives no shape.
pub proof fn lemma_primitive_schema_dispatch(value: Json)
    ensures
        (type_tag(value) == Some("number"@) || type_tag(value) == Some("integer"@))
            ==> primitive_schema_kind_of(value) == Some(PrimitiveSchemaKind::Number),
        type_tag(value) == Some("string"@) && !carries_choices(value)
            ==> primitive_schema_kind_of(value) == Some(PrimitiveSchemaKind::String),
        type_tag(value) == Some("string"@) && carries_choices(value)
            ==> primitive_schema_kind_of(value) == Some(PrimitiveSchemaKind::Enum),
        type_tag(value) == Some("boolean"@) && !carries_choices(value)
            ==> primitive_schema_kind_of(value) == Some(PrimitiveSchemaKind::Boolean),
        type_tag(value) == Some("boolean"@) && carries_choices(value)
            ==> primitive_schema_kind_of(value) is None,
        type_tag(value) == Some("array"@)
            ==> primitive_schema_kind_of(value) == Some(PrimitiveSchemaKind::Enum),
        !(type_tag(value) == Some("number"@) || type_tag(value) == Some("integer"@)
            || type_tag(value) == Some("string"@) || type_tag(value) == Some("boolean"@)
            || type_tag(value) == Some("array"@)) ==> primitive_schema_kind_of(value) is None,
{
    reveal_strlit("number");
    reveal_strlit("integer");
    reveal_strlit("string");
    reveal_strlit("boolean");
    reveal_strlit("array");
    assert("number"@[0] != "string"@[0]);
    assert("integer"@.len() != "string"@.len());
    assert("boolean"@[0] != "string"@[0]);
    assert("boolean"@[0] != "number"@[0]);
    assert("boolean"@[0] != "integer"@[0]);
}

/// Chooses the shape a primitive schema is read as (the decoder then reads
/// the value as that shape, and reports an unrecognized or missing `type`
/// where there is none).
pub fn primitive_schema_kind(value: &Json) -> (r: Option<PrimitiveSchemaKind>)
    ensures
        r == primitive_schema_kind_of(*value),
{
    let enum_shaped = get_member(value, &owned("enum")).is_some() || get_member(value, &owned("oneOf")).is_some();
    match get_member(value, &owned("type")) {
        Some(Json::String(t)) => {
            if *t == owned("string") {
                if enum_shaped {
                    Some(PrimitiveSchemaKind::Enum)
                } else {
                    Some(PrimitiveSchemaKind::String)
                }
            } else if *t == owned("number") || *t == owned("integer") {
                Some(PrimitiveSchemaKind::Number)
            } else if *t == owned("boolean") {
                if enum_shaped {
                    None
                } else {
                    Some(PrimitiveSchemaKind::Boolean)
                }
            } else if *t == owned("array") {
                Some(PrimitiveSchemaKind::Enum)
            } else {
                None
            }
        },
        _ => None,
    }
}

impl NumberSchema {
    /// A number field with nothing else stated.
    pub fn new() -> (r: Self)
        ensures
            r.schema_type@ == "number"@,
            r.title is None,
            r.description is None,
            r.default is None,
            r.minimum is None,
            r.maximum is None,
    {
        NumberSchema { schema_type: owned("number"), title: None, description: None, default: None, minimum: None, maximum: None }
    }

    /// An integer field with nothing else stated.
    pub fn integer() -> (r: Self)
        ensures
            r.schema_type@ == "integer"@,
            r.title is None,
            r.description is None,
            r.default is None,
            r.minimum is None,
            r.maximum is None,
    {
        NumberSchema { schema_type: owned("integer"), title: None, description: None, default: None, minimum: None, maximum: None }
    }

    /// The same field with `description` set.
    pub fn with_description(self, description: &str) -> (r: Self)
        ensures
            r == (NumberSchema { description: r.description, ..self }),
            r.description matches Some(d) && d@ == description@,
    {
        NumberSchema { description: Some(owned(description)), ..self }
    }

    /// The same field with the default value whose bit pattern is `default`.
    pub fn with_default(self, default: u64) -> (r: Self)
        ensures
            r == (NumberSchema { default: Some(default), ..self }),
    {
        NumberSchema { default: Some(default), ..self }
    }
}

impl Default for NumberSchema {
    fn default() -> (r: Self)
        ensures
            r.schema_type@ == "number"@,
            r.title is None,
            r.description is None,
            r.default is None,
            r.minimum is None,
            r.maximum is None,
    {
        NumberSchema::new()
    }
}

/// A field of an elicitation form: one primitive value or an enum.
#[derive(Debug, Clone)]
pub enum PrimitiveSchemaDefinition {
    String(StringSchema),
    Number(NumberSchema),
    Boolean(BooleanSchema),
    Enum(EnumSchema),
}

/// Whether `s` is a string field with no constraints but `format`, and the
/// description `description`.
pub open spec fn is_string_field(s: StringSchema, description: Option<Seq<char>>, format: Option<StringFormat>) -> bool {
    &&& s.schema_type@ == "string"@
    &&& s.title is None
    &&& match (s.description, description) {
        (Some(d), Some(e)) => d@ == e,
        (None, None) => true,
        _ => false,
    }
    &&& s.default is None
    &&& s.min_length is None
    &&& s.max_length is None
    &&& s.format == format
}

/// Whether `s` is a number field of type `schema_type` with nothing else
/// stated.
pub open spec fn is_plain_number_field(s: NumberSchema, schema_type: Seq<char>) -> bool {
    &&& s.schema_type@ == schema_type
    &&& s.title is None
    &&& s.description is None
    &&& s.default is None
    &&& s.minimum is None
    &&& s.maximum is None
}

/// Whether `s` is a boolean field with nothing else stated.
pub open spec fn is_plain_boolean_field(s: BooleanSchema) -> bool {
    &&& s.schema_type@ == "boolean"@
    &&& s.title is None
    &&& s.description is None
    &&& s.default is None
}

impl PrimitiveSchemaDefinition {
    /// A string field with no constraints.
    pub fn string() -> (r: Self)
        ensures
            r matches PrimitiveSchemaDefinition::String(s) && is_string_field(s, None, None),
    {
        PrimitiveSchemaDefinition::String(StringSchema::new())
    }

    /// A string field described by `description`.
    pub fn string_with_description(description: &str) -> (r: Self)
        ensures
            r matches PrimitiveSchemaDefinition::String(s) && is_string_field(s, Some(description@), None),
    {
        PrimitiveSchemaDefinition::String(StringSchema::new().with_description(description))
    }

    /// A string field holding a URI.
    pub fn url() -> (r: Self)
        ensures
            r matches PrimitiveSchemaDefinition::String(s) && is_string_field(s, None, Some(StringFormat::Uri)),
    {
        PrimitiveSchemaDefinition::String(StringSchema::url())
    }

    /// A string field holding a URI, described by `description`.
    pub fn url_with_description(description: &str) -> (r: Self)
        ensures
            r matches PrimitiveSchemaDefinition::String(s)
                && is_string_field(s, Some(description@), Some(StringFormat::Uri)),
    {
        PrimitiveSchemaDefinition::String(StringSchema::url().with_description(description))
    }

    /// A number field.
    pub fn number() -> (r: Self)
        ensures
            r matches PrimitiveSchemaDefinition::Number(s) && is_plain_number_field(s, "number"@),
    {
        PrimitiveSchemaDefinition::Number(NumberSchema::new())
    }

    /// An integer field.
    pub fn integer() -> (r: Self)
        ensures
            r matches PrimitiveSchemaDefinition::Number(s) && is_plain_number_field(s, "integer"@),
    {
        PrimitiveSchemaDefinition::Number(NumberSchema::integer())
    }

    /// A boolean field.
    pub fn boolean() -> (r: Self)
        ensures
            r matches PrimitiveSchemaDefinition::Boolean(s) && is_plain_boolean_field(s),
    {
        PrimitiveSchemaDefinition::Boolean(BooleanSchema::new())
    }

    /// A single choice among `values`.
    pub fn enum_values(values: Vec<String>) -> (r: Self)
        ensures
            r matches PrimitiveSchemaDefinition::Enum(e) && !(e is MultiSelect)
                && allowed_values_of(e) == values@ && enum_description(e) is None,
    {
        PrimitiveSchemaDefinition::Enum(EnumSchema::new(values))
    }
}

/// The form an elicitation asks the user to fill: an object (`type` is
/// `object`) of named fields, some of them required, and optionally the JSON
/// Schema dialect it is written in.
#[derive(Debug, Clone)]
pub struct ElicitationSchema {
    pub schema_dialect: Option<String>,
    pub schema_type: String,
    pub properties: Vec<(String, PrimitiveSchemaDefinition)>,
    pub required: Option<Vec<String>>,
}

impl ElicitationSchema {
    /// The field named `name`, where the form has one.
    pub open spec fn property(self, name: Seq<char>) -> Option<PrimitiveSchemaDefinition> {
        lookup(self.properties@, name)
    }

    /// Whether no two fields of the form share a name.
    pub open spec fn wf(self) -> bool {
        keys_distinct(self.properties@)
    }

    /// An empty form.
    pub fn new() -> (r: Self)
        ensures
            r.schema_dialect is None,
            r.schema_type@ == "object"@,
            r.properties@ == Seq::<(String, PrimitiveSchemaDefinition)>::empty(),
            r.required is None,
            r.wf(),
    {
        ElicitationSchema { schema_dialect: None, schema_type: owned("object"), properties: Vec::new(), required: None }
    }

    /// The same form with the field `name` set to `schema`: a field of that
    /// name is replaced in place, otherwise the field is added last.
    pub fn with_property(self, name: String, schema: PrimitiveSchemaDefinition) -> (r: Self)
        ensures
            r.schema_dialect == self.schema_dialect,
            r.schema_type == self.schema_type,
            r.required == self.required,
            r.properties@ == insert_entry(self.properties@, name, schema),
            inserted(self.properties@, r.properties@, name@, schema),
            self.wf() ==> r.wf(),
    {
        let mut properties = self.properties;
        object_insert(&mut properties, name, schema);
        ElicitationSchema { schema_dialect: self.schema_dialect, schema_type: self.schema_type, properties, required: self.required }
    }

    /// The same form with `required` as its required fields.
    pub fn with_required(self, required: Vec<String>) -> (r: Self)
        ensures
            r == (ElicitationSchema { required: Some(required), ..self }),
    {
        ElicitationSchema { required: Some(required), ..self }
    }

    /// The same form, declared to be written in the JSON Schema dialect
    /// `dialect`.
    pub fn with_schema_dialect(self, dialect: &str) -> (r: Self)
        ensures
            r == (ElicitationSchema { schema_dialect: r.schema_dialect, ..self }),
            r.schema_dialect matches Some(d) && d@ == dialect@,
    {
        ElicitationSchema { schema_dialect: Some(owned(dialect)), ..self }
    }
}

impl Default for ElicitationSchema {
    fn default() -> (r: Self)
        ensures
            r.schema_dialect is None,
            r.schema_type@ == "object"@,
            r.properties@ == Seq::<(String, PrimitiveSchemaDefinition)>::empty(),
            r.required is None,
    {
        ElicitationSchema::new()
    }
}

/// Parameters of a form-mode elicitation: the message and the form.
#[derive(Debug, Clone)]
pub struct ElicitRequestFormParams {
    pub mode: Option<FormModeMarker>,
    pub message: String,
    pub requested_schema: ElicitationSchema,
}

impl ElicitRequestFormParams {
    /// Form-mode parameters showing `message` and asking for
    /// `requested_schema`; the mode is left implicit.
    pub fn new(message: &str, requested_schema: ElicitationSchema) -> (r: Self)
        ensures
            r.mode is None,
            r.message@ == message@,
            r.requested_schema == requested_schema,
    {
        ElicitRequestFormParams { mode: None, message: owned(message), requested_schema }
    }
}

/// The parameters of an elicitation: URL mode or form mode.
#[derive(Debug, Clone)]
pub enum ElicitRequestParams {
    Url(ElicitRequestURLParams),
    Form(ElicitRequestFormParams),
}

/// An `elicitation/create` request.
#[derive(Debug, Clone)]
pub struct ElicitRequest {
    pub method: String,
    pub params: ElicitRequestParams,
}

impl ElicitRequest {
    /// A form-mode `elicitation/create` request showing `message` and asking
    /// for `requested_schema`.
    pub fn new_form(message: &str, requested_schema: ElicitationSchema) -> (r: Self)
        ensures
            r.method@ == "elicitation/create"@,
            r.params matches ElicitRequestParams::Form(f) && f.mode is None && f.message@ == message@
                && f.requested_schema == requested_schema,
    {
        ElicitRequest {
            method: owned("elicitation/create"),
            params: ElicitRequestParams::Form(ElicitRequestFormParams::new(message, requested_schema)),
        }
    }

    /// A URL-mode `elicitation/create` request sending the user to `url` with
    /// `message`.
    pub fn new_url(message: &str, url: &str) -> (r: Self)
        ensures
            r.method@ == "elicitation/create"@,
            r.params matches ElicitRequestParams::Url(u) && u.mode == UrlModeMarker::Url && u.message@ == message@
                && u.url@ == url@,
    {
        ElicitRequest {
            method: owned("elicitation/create"),
            params: ElicitRequestParams::Url(ElicitRequestURLParams::new(message, url)),
        }
    }

    /// The same request with `params` as its parameters.
    pub fn with_params(self, params: ElicitRequestParams) -> (r: Self)
        ensures
            r.method == self.method,
            r.params == params,
    {
        ElicitRequest { method: self.method, params }
    }
}

/// A value the user submitted for one field: a string, a number (held by
/// the IEEE-754 bit pattern of its `f64` value), a boolean or a list of
/// strings.
#[derive(Debug, Clone, PartialEq)]
pub enum ElicitResultValue {
    String(String),
    Number(u64),
    Boolean(bool),
    StringArray(Vec<String>),
}

impl From<String> for ElicitResultValue {
    fn from(s: String) -> (r: ElicitResultValue) {
        ElicitResultValue::String(s)
    }
}

impl vstd::std_specs::convert::FromSpecImpl<String> for ElicitResultValue {
    open spec fn obeys_from_spec() -> bool {
        true
    }

    open spec fn from_spec(s: String) -> ElicitResultValue {
        ElicitResultValue::String(s)
    }
}

impl<'a> From<&'a str> for ElicitResultValue {
    fn from(s: &'a str) -> (r: ElicitResultValue)
        ensures
            r matches ElicitResultValue::String(t) && t@ == s@,
    {
        ElicitResultValue::String(owned(s))
    }
}

impl<'a> vstd::std_specs::convert::FromSpecImpl<&'a str> for ElicitResultValue {
    open spec fn obeys_from_spec() -> bool {
        false
    }

    open spec fn from_spec(s: &'a str) -> ElicitResultValue {
        ElicitResultValue::String(arbitrary())
    }
}

impl From<bool> for ElicitResultValue {
    fn from(b: bool) -> (r: ElicitResultValue) {
        ElicitResultValue::Boolean(b)
    }
}

impl vstd::std_specs::convert::FromSpecImpl<bool> for ElicitResultValue {
    open spec fn obeys_from_spec() -> bool {
        true
    }

    open spec fn from_spec(b: bool) -> ElicitResultValue {
        ElicitResultValue::Boolean(b)
    }
}

impl From<Vec<String>> for ElicitResultValue {
    fn from(values: Vec<String>) -> (r: ElicitResultValue) {
        ElicitResultValue::StringArray(values)
    }
}

impl vstd::std_specs::convert::FromSpecImpl<Vec<String>> for ElicitResultValue {
    open spec fn obeys_from_spec() -> bool {
        true
    }

    open spec fn from_spec(values: Vec<String>) -> ElicitResultValue {
        ElicitResultValue::StringArray(values)
    }
}

impl ElicitResultValue {
    /// The text, where the value is a string.
    pub fn as_str(&self) -> (r: Option<&str>)
        ensures
            match *self {
                ElicitResultValue::String(s) => r matches Some(t) && t@ == s@,
                _ => r is None,
            },
    {
        match self {
            ElicitResultValue::String(s) => Some(s.as_str()),
            _ => None,
        }
    }

    /// The truth value, where the value is a boolean.
    pub fn as_bool(&self) -> (r: Option<bool>)
        ensures
            match *self {
                ElicitResultValue::Boolean(b) => r == Some(b),
                _ => r is None,
            },
    {
        match self {
            ElicitResultValue::Boolean(b) => Some(*b),
            _ => None,
        }
    }

    /// The strings, where the value is a list of strings.
    pub fn as_string_array(&self) -> (r: Option<&[String]>)
        ensures
            match *self {
                ElicitResultValue::StringArray(v) => r matches Some(a) && a@ == v@,
                _ => r is None,
            },
    {
        match self {
            ElicitResultValue::StringArray(values) => Some(values.as_slice()),
            _ => None,
        }
    }
}

/// The client's answer to an elicitation: the user's action and, on
/// acceptance of a form, the submitted values by field.
#[derive(Debug, Clone)]
pub struct ElicitResult {
    pub action: ElicitAction,
    pub content: Option<HashMap<String, ElicitResultValue>>,
}

impl ElicitResult {
    /// The user accepted and submitted `content`.
    pub fn accept(content: HashMap<String, ElicitResultValue>) -> (r: Self)
        ensures
            r.action == ElicitAction::Accept,
            r.content == Some(content),
    {
        ElicitResult { action: ElicitAction::Accept, content: Some(content) }
    }

    /// The user declined.
    pub fn decline() -> (r: Self)
        ensures
            r.action == ElicitAction::Decline,
            r.content is None,
    {
        ElicitResult { action: ElicitAction::Decline, content: None }
    }

    /// The user dismissed the request.
    pub fn cancel() -> (r: Self)
        ensures
            r.action == ElicitAction::Cancel,
            r.content is None,
    {
        ElicitResult { action: ElicitAction::Cancel, content: None }
    }
}

/// Whether `req` is a form-mode `elicitation/create` request showing
/// `message` whose form is the single required field `field`, satisfying
/// `schema`.
pub open spec fn asks_for_one_field(
    req: ElicitRequest,
    message: Seq<char>,
    field: Seq<char>,
    schema: spec_fn(PrimitiveSchemaDefinition) -> bool,
) -> bool {
    &&& req.method@ == "elicitation/create"@
    &&& req.params matches ElicitRequestParams::Form(f) && {
        let form = f.requested_schema;
        &&& f.mode is None
        &&& f.message@ == message
        &&& form.schema_dialect is None
        &&& form.schema_type@ == "object"@
        &&& form.properties@.len() == 1
        &&& form.properties@[0].0@ == field
        &&& schema(form.properties@[0].1)
        &&& form.required matches Some(names) && names@.len() == 1 && names@[0]@ == field
    }
}

impl ElicitationBuilder {
    /// A request for one required text field `field_name`, described by
    /// `field_description`.
    pub fn text_input(message: &str, field_name: &str, field_description: &str) -> (r: ElicitRequest)
        ensures
            asks_for_one_field(r, message@, field_name@, |p: PrimitiveSchemaDefinition|
                p matches PrimitiveSchemaDefinition::String(s) && is_string_field(s, Some(field_description@), None)),
    {
        let schema = ElicitationSchema::new()
            .with_property(owned(field_name), PrimitiveSchemaDefinition::string_with_description(field_description))
            .with_required(vec![owned(field_name)]);
        ElicitRequest::new_form(message, schema)
    }

    /// A request for one required number field `field_name`, described by
    /// `field_description`, with the bounds `min` and `max` (bit patterns of
    /// IEEE-754 doubles).
    pub fn number_input(
        message: &str,
        field_name: &str,
        field_description: &str,
        min: Option<u64>,
        max: Option<u64>,
    ) -> (r: ElicitRequest)
        ensures
            asks_for_one_field(r, message@, field_name@, |p: PrimitiveSchemaDefinition|
                p matches PrimitiveSchemaDefinition::Number(s) && s.schema_type@ == "number"@
                    && s.title is None && (s.description matches Some(d) && d@ == field_description@)
                    && s.default is None && s.minimum == min && s.maximum == max),
    {
        let mut number_schema = NumberSchema::new().with_description(field_description);
        number_schema.minimum = min;
        number_schema.maximum = max;
        let schema = ElicitationSchema::new()
            .with_property(owned(field_name), PrimitiveSchemaDefinition::Number(number_schema))
            .with_required(vec![owned(field_name)]);
        ElicitRequest::new_form(message, schema)
    }

    /// A request for one required URL field `field_name`, described by
    /// `field_description`.
    pub fn url_input(message: &str, field_name: &str, field_description: &str) -> (r: ElicitRequest)
        ensures
            asks_for_one_field(r, message@, field_name@, |p: PrimitiveSchemaDefinition|
                p matches PrimitiveSchemaDefinition::String(s)
                    && is_string_field(s, Some(field_description@), Some(StringFormat::Uri))),
    {
        let schema = ElicitationSchema::new()
            .with_property(owned(field_name), PrimitiveSchemaDefinition::url_with_description(field_description))
            .with_required(vec![owned(field_name)]);
        ElicitRequest::new_form(message, schema)
    }

    /// A request for one required boolean field `confirmed`.
    pub fn confirm(message: &str) -> (r: ElicitRequest)
        ensures
            asks_for_one_field(r, message@, "confirmed"@, |p: PrimitiveSchemaDefinition|
                p matches PrimitiveSchemaDefinition::Boolean(s) && is_plain_boolean_field(s)),
    {
        let schema = ElicitationSchema::new()
            .with_property(owned("confirmed"), PrimitiveSchemaDefinition::boolean())
            .with_required(vec![owned("confirmed")]);
        ElicitRequest::new_form(message, schema)
    }
}

} // verus!
