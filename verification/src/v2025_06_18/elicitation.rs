//! Primitive schemas of elicitation forms and the user's action.

use vstd::prelude::*;
use crate::json::{Json, lookup, keys_distinct, insert_entry, inserted, object_insert, clone_members, is_json_string};
use crate::text::owned;

verus! {

/// Formats a string field may be constrained to.
#[derive(Debug, Clone, Copy, PartialEq, Eq)]
pub enum StringFormat {
    Email,
    Uri,
    Date,
    DateTime,
}

/// A string field (`type` is `string`).
#[derive(Debug, Clone)]
pub struct StringSchema {
    pub schema_type: String,
    pub title: Option<String>,
    pub description: Option<String>,
    pub min_length: Option<usize>,
    pub max_length: Option<usize>,
    pub format: Option<StringFormat>,
}

/// A number field (`type` is `number` or `integer`). Its bounds are held by
/// their IEEE-754 bit patterns: no rule of this library computes with them.
#[derive(Debug, Clone)]
pub struct NumberSchema {
    pub schema_type: String,
    pub title: Option<String>,
    pub description: Option<String>,
    pub minimum: Option<u64>,
    pub maximum: Option<u64>,
}

/// A boolean field (`type` is `boolean`).
#[derive(Debug, Clone)]
pub struct BooleanSchema {
    pub schema_type: String,
    pub title: Option<String>,
    pub description: Option<String>,
    pub default: Option<bool>,
}

/// A string field restricted to the listed values, with optional display names.
#[derive(Debug, Clone)]
pub struct EnumSchema {
    pub schema_type: String,
    pub title: Option<String>,
    pub description: Option<String>,
    pub enum_values: Vec<String>,
    pub enum_names: Option<Vec<String>>,
}

/// A field of an elicitation form: one primitive value, never a nested
/// object or array.
#[derive(Debug, Clone)]
pub enum PrimitiveSchemaDefinition {
    String(StringSchema),
    Number(NumberSchema),
    Boolean(BooleanSchema),
    Enum(EnumSchema),
}

/// The form an elicitation asks the user to fill: an object (`type` is
/// `object`) of named primitive fields, some of them required.
#[derive(Debug, Clone)]
pub struct ElicitationSchema {
    pub schema_type: String,
    pub properties: Vec<(String, PrimitiveSchemaDefinition)>,
    pub required: Option<Vec<String>>,
}

/// Parameters of an `elicitation/create` request.
#[derive(Debug)]
pub struct ElicitCreateParams {
    /// The message shown to the user.
    pub message: String,
    /// The form to fill.
    pub requested_schema: ElicitationSchema,
    /// The `_meta` members of the parameters.
    pub meta: Option<Vec<(String, Json)>>,
}

/// An `elicitation/create` request.
#[derive(Debug)]
pub struct ElicitCreateRequest {
    pub method: String,
    pub params: ElicitCreateParams,
}

/// How the user answered an elicitation.
#[derive(Debug, Clone, Copy, PartialEq, Eq)]
pub enum ElicitAction {
    /// Submitted the form or confirmed.
    Accept,
    /// Explicitly declined.
    Decline,
    /// Dismissed without an explicit choice.
    Cancel,
}

/// The client's answer to an elicitation: the user's action and, on
/// acceptance, the submitted values.
#[derive(Debug)]
pub struct ElicitResult {
    pub action: ElicitAction,
    pub content: Option<Vec<(String, Json)>>,
    pub meta: Option<Vec<(String, Json)>>,
}

/// Builder of common elicitation patterns.
pub struct ElicitationBuilder;

impl StringSchema {
    /// A string field with no constraints.
    pub fn new() -> (r: Self)
        ensures
            r.schema_type@ == "string"@,
            r.title is None,
            r.description is None,
            r.min_length is None,
            r.max_length is None,
            r.format is None,
    {
        StringSchema {
            schema_type: owned("string"),
            title: None,
            description: None,
            min_length: None,
            max_length: None,
            format: None,
        }
    }

    /// The same field with `description` set.
    pub fn with_description(self, description: &str) -> (r: Self)
        ensures
            r.schema_type == self.schema_type,
            r.title == self.title,
            r.description matches Some(d) && d@ == description@,
            r.min_length == self.min_length,
            r.max_length == self.max_length,
            r.format == self.format,
    {
        StringSchema { description: Some(owned(description)), ..self }
    }
}

impl Default for StringSchema {
    fn default() -> (r: Self)
        ensures
            r.schema_type@ == "string"@,
            r.title is None,
            r.description is None,
            r.min_length is None,
            r.max_length is None,
            r.format is None,
    {
        StringSchema::new()
    }
}

impl BooleanSchema {
    /// A boolean field with no default.
    pub fn new() -> (r: Self)
        ensures
            r.schema_type@ == "boolean"@,
            r.title is None,
            r.description is None,
            r.default is None,
    {
        BooleanSchema { schema_type: owned("boolean"), title: None, description: None, default: None }
    }

    /// The same field with `description` set.
    pub fn with_description(self, description: &str) -> (r: Self)
        ensures
            r.schema_type == self.schema_type,
            r.title == self.title,
            r.description matches Some(d) && d@ == description@,
            r.default == self.default,
    {
        BooleanSchema { description: Some(owned(description)), ..self }
    }
}

impl Default for BooleanSchema {
    fn default() -> (r: Self)
        ensures
            r.schema_type@ == "boolean"@,
            r.title is None,
            r.description is None,
            r.default is None,
    {
        BooleanSchema::new()
    }
}

impl EnumSchema {
    /// A string field restricted to `enum_values`.
    pub fn new(enum_values: Vec<String>) -> (r: Self)
        ensures
            r.schema_type@ == "string"@,
            r.title is None,
            r.description is None,
            r.enum_values == enum_values,
            r.enum_names is None,
    {
        EnumSchema {
            schema_type: owned("string"),
            title: None,
            description: None,
            enum_values,
            enum_names: None,
        }
    }

    /// The same field with `description` set.
    pub fn with_description(self, description: &str) -> (r: Self)
        ensures
            r.schema_type == self.schema_type,
            r.title == self.title,
            r.description matches Some(d) && d@ == description@,
            r.enum_values == self.enum_values,
            r.enum_names == self.enum_names,
    {
        EnumSchema { description: Some(owned(description)), ..self }
    }

    /// The same field with display names for its values.
    pub fn with_enum_names(self, enum_names: Vec<String>) -> (r: Self)
        ensures
            r.schema_type == self.schema_type,
            r.title == self.title,
            r.description == self.description,
            r.enum_values == self.enum_values,
            r.enum_names == Some(enum_names),
    {
        EnumSchema { enum_names: Some(enum_names), ..self }
    }
}

impl NumberSchema {
    /// A number field with no bounds.
    pub fn new() -> (r: Self)
        ensures
            r.schema_type@ == "number"@,
            r.title is None,
            r.description is None,
            r.minimum is None,
            r.maximum is None,
    {
        NumberSchema { schema_type: owned("number"), title: None, description: None, minimum: None, maximum: None }
    }

    /// An integer field with no bounds.
    pub fn integer() -> (r: Self)
        ensures
            r.schema_type@ == "integer"@,
            r.title is None,
            r.description is None,
            r.minimum is None,
            r.maximum is None,
    {
        NumberSchema { schema_type: owned("integer"), title: None, description: None, minimum: None, maximum: None }
    }

    /// The same field with `description` set.
    pub fn with_description(self, description: &str) -> (r: Self)
        ensures
            r.schema_type == self.schema_type,
            r.title == self.title,
            r.description matches Some(d) && d@ == description@,
            r.minimum == self.minimum,
            r.maximum == self.maximum,
    {
        NumberSchema { description: Some(owned(description)), ..self }
    }
}

impl Default for NumberSchema {
    fn default() -> (r: Self)
        ensures
            r.schema_type@ == "number"@,
            r.title is None,
            r.description is None,
            r.minimum is None,
            r.maximum is None,
    {
        NumberSchema::new()
    }
}

/// Whether `s` is a string field with no constraints whose description is
/// `description`.
pub open spec fn is_string_field(s: StringSchema, description: Option<Seq<char>>) -> bool {
    &&& s.schema_type@ == "string"@
    &&& s.title is None
    &&& match (s.description, description) {
        (Some(d), Some(e)) => d@ == e,
        (None, None) => true,
        _ => false,
    }
    &&& s.min_length is None
    &&& s.max_length is None
    &&& s.format is None
}

/// Whether `s` is a number field of type `schema_type` with the given bounds
/// and no description or title.
pub open spec fn is_number_field(s: NumberSchema, schema_type: Seq<char>, minimum: Option<u64>, maximum: Option<u64>) -> bool {
    &&& s.schema_type@ == schema_type
    &&& s.title is None
    &&& s.description is None
    &&& s.minimum == minimum
    &&& s.maximum == maximum
}

/// Whether `s` is a boolean field with no description, title or default.
pub open spec fn is_boolean_field(s: BooleanSchema) -> bool {
    &&& s.schema_type@ == "boolean"@
    &&& s.title is None
    &&& s.description is None
    &&& s.default is None
}

impl PrimitiveSchemaDefinition {
    /// A string field with no constraints.
    pub fn string() -> (r: Self)
        ensures
            r matches PrimitiveSchemaDefinition::String(s) && is_string_field(s, None),
    {
        PrimitiveSchemaDefinition::String(StringSchema::new())
    }

    /// A string field described by `description`.
    pub fn string_with_description(description: &str) -> (r: Self)
        ensures
            r matches PrimitiveSchemaDefinition::String(s) && is_string_field(s, Some(description@)),
    {
        PrimitiveSchemaDefinition::String(StringSchema::new().with_description(description))
    }

    /// A number field with no bounds.
    pub fn number() -> (r: Self)
        ensures
            r matches PrimitiveSchemaDefinition::Number(s) && is_number_field(s, "number"@, None, None),
    {
        PrimitiveSchemaDefinition::Number(NumberSchema::new())
    }

    /// An integer field with no bounds.
    pub fn integer() -> (r: Self)
        ensures
            r matches PrimitiveSchemaDefinition::Number(s) && is_number_field(s, "integer"@, None, None),
    {
        PrimitiveSchemaDefinition::Number(NumberSchema::integer())
    }

    /// A boolean field.
    pub fn boolean() -> (r: Self)
        ensures
            r matches PrimitiveSchemaDefinition::Boolean(s) && is_boolean_field(s),
    {
        PrimitiveSchemaDefinition::Boolean(BooleanSchema::new())
    }

    /// A string field restricted to `values`.
    pub fn enum_values(values: Vec<String>) -> (r: Self)
        ensures
            r matches PrimitiveSchemaDefinition::Enum(e) && e.schema_type@ == "string"@ && e.title is None
                && e.description is None && e.enum_values == values && e.enum_names is None,
    {
        PrimitiveSchemaDefinition::Enum(EnumSchema::new(values))
    }
}

impl ElicitationSchema {
    /// The field named `name`, where the form has one.
    pub open spec fn property(self, name: Seq<char>) -> Option<PrimitiveSchemaDefinition> {
        lookup(self.properties@, name)
    }

    /// Whether no two fields of the form share a name.
    pub open spec fn wf(self) -> bool {
        keys_distinct(self.properties@)
    }

    /// An empty form.
    pub fn new() -> (r: Self)
        ensures
            r.schema_type@ == "object"@,
            r.properties@ == Seq::<(String, PrimitiveSchemaDefinition)>::empty(),
            r.required is None,
            r.wf(),
    {
        ElicitationSchema { schema_type: owned("object"), properties: Vec::new(), required: None }
    }

    /// The same form with the field `name` set to `schema`: a field of that
    /// name is replaced in place, otherwise the field is added last.
    pub fn with_property(self, name: String, schema: PrimitiveSchemaDefinition) -> (r: Self)
        ensures
            r.schema_type == self.schema_type,
            r.required == self.required,
            r.properties@ == insert_entry(self.properties@, name, schema),
            inserted(self.properties@, r.properties@, name@, schema),
            self.wf() ==> r.wf(),
    {
        let mut properties = self.properties;
        object_insert(&mut properties, name, schema);
        ElicitationSchema { schema_type: self.schema_type, properties, required: self.required }
    }

    /// The same form with `required` as its required fields.
    pub fn with_required(self, required: Vec<String>) -> (r: Self)
        ensures
            r.schema_type == self.schema_type,
            r.properties == self.properties,
            r.required == Some(required),
    {
        ElicitationSchema { required: Some(required), ..self }
    }
}

impl Default for ElicitationSchema {
    fn default() -> (r: Self)
        ensures
            r.schema_type@ == "object"@,
            r.properties@ == Seq::<(String, PrimitiveSchemaDefinition)>::empty(),
            r.required is None,
    {
        ElicitationSchema::new()
    }
}

/// Whether `a` and `b` are both absent or hold the same strings.
pub open spec fn same_strings_opt(a: Option<Vec<String>>, b: Option<Vec<String>>) -> bool {
    match (a, b) {
        (Some(x), Some(y)) => x@ == y@,
        (None, None) => true,
        _ => false,
    }
}

/// Whether two fields are the same field: equal, with lists compared by
/// their strings.
pub open spec fn same_field(a: PrimitiveSchemaDefinition, b: PrimitiveSchemaDefinition) -> bool {
    match (a, b) {
        (PrimitiveSchemaDefinition::Enum(x), PrimitiveSchemaDefinition::Enum(y)) => {
            &&& x.schema_type == y.schema_type
            &&& x.title == y.title
            &&& x.description == y.description
            &&& x.enum_values@ == y.enum_values@
            &&& same_strings_opt(x.enum_names, y.enum_names)
        },
        (PrimitiveSchemaDefinition::Enum(_), _) => false,
        (_, PrimitiveSchemaDefinition::Enum(_)) => false,
        _ => a == b,
    }
}

/// Whether two forms are the same form: the same type, the same fields in
/// the same order, and the same required names.
pub open spec fn same_schema(a: ElicitationSchema, b: ElicitationSchema) -> bool {
    &&& a.schema_type == b.schema_type
    &&& same_strings_opt(a.required, b.required)
    &&& a.properties@.len() == b.properties@.len()
    &&& forall|i: int|
        0 <= i < a.properties@.len() ==> (#[trigger] a.properties@[i]).0 == b.properties@[i].0
            && same_field(a.properties@[i].1, b.properties@[i].1)
}

/// A copy of a list of strings, string for string.
pub fn copy_strings(v: &Vec<String>) -> (r: Vec<String>)
    ensures
        r@ == v@,
{
    let mut out: Vec<String> = Vec::new();
    let mut i: usize = 0;
    while i < v.len()
        invariant
            i <= v.len(),
            out@ == v@.take(i as int),
        decreases v.len() - i,
    {
        out.push(v[i].clone());
        i = i + 1;
        assert(out@ =~= v@.take(i as int));
    }
    assert(out@ =~= v@);
    out
}

/// A copy of an optional list of strings.
fn copy_opt_strings(v: &Option<Vec<String>>) -> (r: Option<Vec<String>>)
    ensures
        same_strings_opt(r, *v),
{
    match v {
        Some(x) => Some(copy_strings(x)),
        None => None,
    }
}

/// A copy of an optional string.
fn copy_opt_string(v: &Option<String>) -> (r: Option<String>)
    ensures
        r == *v,
{
    match v {
        Some(x) => Some(x.clone()),
        None => None,
    }
}

impl PrimitiveSchemaDefinition {
    /// A copy of the field, field for field.
    pub fn copy(&self) -> (r: Self)
        ensures
            same_field(r, *self),
    {
        match self {
            PrimitiveSchemaDefinition::String(s) => PrimitiveSchemaDefinition::String(StringSchema {
                schema_type: s.schema_type.clone(),
                title: copy_opt_string(&s.title),
                description: copy_opt_string(&s.description),
                min_length: s.min_length,
                max_length: s.max_length,
                format: s.format,
            }),
            PrimitiveSchemaDefinition::Number(n) => PrimitiveSchemaDefinition::Number(NumberSchema {
                schema_type: n.schema_type.clone(),
                title: copy_opt_string(&n.title),
                description: copy_opt_string(&n.description),
                minimum: n.minimum,
                maximum: n.maximum,
            }),
            PrimitiveSchemaDefinition::Boolean(b) => PrimitiveSchemaDefinition::Boolean(BooleanSchema {
                schema_type: b.schema_type.clone(),
                title: copy_opt_string(&b.title),
                description: copy_opt_string(&b.description),
                default: b.default,
            }),
            PrimitiveSchemaDefinition::Enum(e) => PrimitiveSchemaDefinition::Enum(EnumSchema {
                schema_type: e.schema_type.clone(),
                title: copy_opt_string(&e.title),
                description: copy_opt_string(&e.description),
                enum_values: copy_strings(&e.enum_values),
                enum_names: copy_opt_strings(&e.enum_names),
            }),
        }
    }
}

impl ElicitationSchema {
    /// A copy of the form, field for field.
    pub fn copy(&self) -> (r: Self)
        ensures
            same_schema(r, *self),
    {
        let mut properties: Vec<(String, PrimitiveSchemaDefinition)> = Vec::new();
        let mut i: usize = 0;
        while i < self.properties.len()
            invariant
                i <= self.properties.len(),
                properties@.len() == i,
                forall|j: int|
                    0 <= j < i ==> (#[trigger] properties@[j]).0 == self.properties@[j].0
                        && same_field(properties@[j].1, self.properties@[j].1),
            decreases self.properties.len() - i,
        {
            let k = self.properties[i].0.clone();
            let v = self.properties[i].1.copy();
            properties.push((k, v));
            i = i + 1;
        }
        ElicitationSchema {
            schema_type: self.schema_type.clone(),
            properties,
            required: copy_opt_strings(&self.required),
        }
    }
}

impl ElicitCreateParams {
    /// Parameters showing `message` and asking for `requested_schema`.
    pub fn new(message: &str, requested_schema: ElicitationSchema) -> (r: Self)
        ensures
            r.message@ == message@,
            r.requested_schema == requested_schema,
            r.meta is None,
    {
        ElicitCreateParams { message: owned(message), requested_schema, meta: None }
    }

    /// The same parameters with `meta` as their `_meta`.
    pub fn with_meta(self, meta: Vec<(String, Json)>) -> (r: Self)
        ensures
            r.message == self.message,
            r.requested_schema == self.requested_schema,
            r.meta == Some(meta),
    {
        ElicitCreateParams { meta: Some(meta), ..self }
    }
}

impl ElicitCreateRequest {
    /// An `elicitation/create` request showing `message` and asking for
    /// `requested_schema`.
    pub fn new(message: &str, requested_schema: ElicitationSchema) -> (r: Self)
        ensures
            r.method@ == "elicitation/create"@,
            r.params.message@ == message@,
            r.params.requested_schema == requested_schema,
            r.params.meta is None,
    {
        ElicitCreateRequest { method: owned("elicitation/create"), params: ElicitCreateParams::new(message, requested_schema) }
    }

    /// The same request with `meta` as the `_meta` of its parameters.
    pub fn with_meta(self, meta: Vec<(String, Json)>) -> (r: Self)
        ensures
            r.method == self.method,
            r.params.message == self.params.message,
            r.params.requested_schema == self.params.requested_schema,
            r.params.meta == Some(meta),
    {
        ElicitCreateRequest { method: self.method, params: self.params.with_meta(meta) }
    }
}

impl ElicitResult {
    /// The user accepted and submitted `content`.
    pub fn accept(content: Vec<(String, Json)>) -> (r: Self)
        ensures
            r.action == ElicitAction::Accept,
            r.content == Some(content),
            r.meta is None,
    {
        ElicitResult { action: ElicitAction::Accept, content: Some(content), meta: None }
    }

    /// The user declined.
    pub fn decline() -> (r: Self)
        ensures
            r.action == ElicitAction::Decline,
            r.content is None,
            r.meta is None,
    {
        ElicitResult { action: ElicitAction::Decline, content: None, meta: None }
    }

    /// The user dismissed the request.
    pub fn cancel() -> (r: Self)
        ensures
            r.action == ElicitAction::Cancel,
            r.content is None,
            r.meta is None,
    {
        ElicitResult { action: ElicitAction::Cancel, content: None, meta: None }
    }

    /// The same answer with `meta` as its `_meta`.
    pub fn with_meta(self, meta: Vec<(String, Json)>) -> (r: Self)
        ensures
            r.action == self.action,
            r.content == self.content,
            r.meta == Some(meta),
    {
        ElicitResult { meta: Some(meta), ..self }
    }
}

/// The wire name of an action: `accept`, `decline` or `cancel`.
pub open spec fn action_text(a: ElicitAction) -> Seq<char> {
    match a {
        ElicitAction::Accept => "accept"@,
        ElicitAction::Decline => "decline"@,
        ElicitAction::Cancel => "cancel"@,
    }
}

impl ElicitAction {
    /// The wire name of the action.
    pub fn as_str(&self) -> (r: &'static str)
        ensures
            r@ == action_text(*self),
    {
        match self {
            ElicitAction::Accept => "accept",
            ElicitAction::Decline => "decline",
            ElicitAction::Cancel => "cancel",
        }
    }
}

impl ElicitResult {
    /// The members of the answer's data: `action` with the action's wire
    /// name, and `content` with the submitted values where there are any.
    pub fn data(&self) -> (r: Vec<(String, Json)>)
        ensures
            r@.len() == (if self.content is Some { 2int } else { 1int }),
            r@[0].0@ == "action"@,
            is_json_string(r@[0].1, action_text(self.action)),
            self.content matches Some(c) ==> {
                &&& r@[1].0@ == "content"@
                &&& r@[1].1 matches Json::Object(o) && o@.len() == c@.len() && forall|i: int|
                    0 <= i < c@.len() ==> (#[trigger] o@[i]).0@ == c@[i].0@ && o@[i].1.same(c@[i].1)
            },
    {
        let mut data: Vec<(String, Json)> = Vec::new();
        data.push((owned("action"), Json::String(owned(self.action.as_str()))));
        match &self.content {
            Some(c) => {
                data.push((owned("content"), Json::Object(clone_members(c))));
            },
            None => {},
        }
        data
    }
}

/// Whether `req` is an `elicitation/create` request showing `message` whose
/// form is the single required field `field`, holding `schema`.
pub open spec fn asks_for_one_field(
    req: ElicitCreateRequest,
    message: Seq<char>,
    field: Seq<char>,
    schema: spec_fn(PrimitiveSchemaDefinition) -> bool,
) -> bool {
    let form = req.params.requested_schema;
    &&& req.method@ == "elicitation/create"@
    &&& req.params.message@ == message
    &&& req.params.meta is None
    &&& form.schema_type@ == "object"@
    &&& form.properties@.len() == 1
    &&& form.properties@[0].0@ == field
    &&& schema(form.properties@[0].1)
    &&& form.required matches Some(names) && names@.len() == 1 && names@[0]@ == field
}

impl ElicitationBuilder {
    /// A request for one required text field `field_name`, described by
    /// `field_description`.
    pub fn text_input(message: &str, field_name: &str, field_description: &str) -> (r: ElicitCreateRequest)
        ensures
            asks_for_one_field(r, message@, field_name@, |p: PrimitiveSchemaDefinition|
                p matches PrimitiveSchemaDefinition::String(s) && is_string_field(s, Some(field_description@))),
    {
        let name = owned(field_name);
        let schema = ElicitationSchema::new()
            .with_property(owned(field_name), PrimitiveSchemaDefinition::string_with_description(field_description))
            .with_required(vec![name]);
        ElicitCreateRequest::new(message, schema)
    }

    /// A request for one required number field `field_name`, described by
    /// `field_description`, with the bounds `min` and `max` (bit patterns of
    /// IEEE-754 doubles).
    pub fn number_input(
        message: &str,
        field_name: &str,
        field_description: &str,
        min: Option<u64>,
        max: Option<u64>,
    ) -> (r: ElicitCreateRequest)
        ensures
            asks_for_one_field(r, message@, field_name@, |p: PrimitiveSchemaDefinition|
                p matches PrimitiveSchemaDefinition::Number(s) && s.schema_type@ == "number"@
                    && s.title is None && (s.description matches Some(d) && d@ == field_description@)
                    && s.minimum == min && s.maximum == max),
    {
        let mut number_schema = NumberSchema::new().with_description(field_description);
        number_schema.minimum = min;
        number_schema.maximum = max;
        let schema = ElicitationSchema::new()
            .with_property(owned(field_name), PrimitiveSchemaDefinition::Number(number_schema))
            .with_required(vec![owned(field_name)]);
        ElicitCreateRequest::new(message, schema)
    }

    /// A request for one required boolean field `confirmed`.
    pub fn confirm(message: &str) -> (r: ElicitCreateRequest)
        ensures
            asks_for_one_field(r, message@, "confirmed"@, |p: PrimitiveSchemaDefinition|
                p matches PrimitiveSchemaDefinition::Boolean(s) && is_boolean_field(s)),
    {
        let schema = ElicitationSchema::new()
            .with_property(owned("confirmed"), PrimitiveSchemaDefinition::boolean())
            .with_required(vec![owned("confirmed")]);
        ElicitCreateRequest::new(message, schema)
    }
}

/// The text and title of an elicitation.
pub trait HasElicitationMetadata {
    /// The message an implementation presents. A verified
    /// implementation states it; the accessor returns it.
    open spec fn message_spec(&self) -> Seq<char> {
        arbitrary()
    }

    /// The message to present to the user.
    fn message(&self) -> (r: &str)
        ensures
            r@ == self.message_spec();

    /// The title of the dialog; none unless an implementation supplies one.
    fn title(&self) -> Option<&str> {
        None
    }
}

/// The form an elicitation asks for.
pub trait HasElicitationSchema {
    /// The form an implementation asks for. A verified
    /// implementation states it; the accessor returns it.
    open spec fn requested_schema_spec(&self) -> ElicitationSchema {
        arbitrary()
    }

    /// The form, restricted to primitive fields.
    fn requested_schema(&self) -> (r: &ElicitationSchema)
        ensures
            *r == self.requested_schema_spec();

    /// Checks that the form holds only primitive fields; every
    /// `ElicitationSchema` does, so the default accepts.
    fn validate_schema(&self) -> Result<(), String> {
        Ok(())
    }
}

/// Checking and processing of submitted values.
pub trait HasElicitationHandling {
    /// Checks submitted values against the form; the default accepts.
    fn validate_content(&self, content: &Vec<(String, Json)>) -> Result<(), String> {
        Ok(())
    }

    /// Transforms accepted values; the default hands them back unchanged.
    fn process_content(&self, content: Vec<(String, Json)>) -> Result<Vec<(String, Json)>, String> {
        Ok(content)
    }
}

/// A complete elicitation definition: its message, its form and its
/// handling. Every type with the three parts has it.
pub trait ElicitationDefinition: HasElicitationMetadata + HasElicitationSchema + HasElicitationHandling {
    /// The `elicitation/create` request the definition describes: its
    /// message and a copy of its form.
    fn to_create_request(&self) -> (r: ElicitCreateRequest)
        ensures
            r.method@ == "elicitation/create"@,
            r.params.message@ == self.message_spec(),
            same_schema(r.params.requested_schema, self.requested_schema_spec()),
            r.params.meta is None,
    {
        ElicitCreateRequest::new(self.message(), self.requested_schema().copy())
    }
}

impl<T: HasElicitationMetadata + HasElicitationSchema + HasElicitationHandling> ElicitationDefinition for T {
}

} // verus!
