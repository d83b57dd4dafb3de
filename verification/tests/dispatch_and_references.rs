use turul_mcp_protocol::json::{Json, JsonNumber};
use turul_mcp_protocol::v2025_06_18::completion as completion_2025_06_18;
use turul_mcp_protocol::v2026_07_28::completion::{
    completion_reference_kind, CompletionReference, CompletionReferenceKind, PromptReference,
    ResourceTemplateReference,
};
use turul_mcp_protocol::v2026_07_28::compliance::fetch::FetchError;
use turul_mcp_protocol::v2026_07_28::elicitation::{primitive_schema_kind, PrimitiveSchemaKind};

fn obj(members: Vec<(&str, Json)>) -> Json {
    Json::Object(members.into_iter().map(|(k, v)| (k.to_string(), v)).collect())
}

fn text(s: &str) -> Json {
    Json::String(s.to_string())
}

#[test]
fn completion_test_resource_template_reference() {
    let ref_obj = ResourceTemplateReference::new("file:///test/{name}.txt");
    assert_eq!(ref_obj.ref_type, "ref/resource");
    assert_eq!(ref_obj.uri, "file:///test/{name}.txt");
}

#[test]
fn completion_test_prompt_reference() {
    let ref_obj = PromptReference::new("test_prompt").with_title("A Test Prompt");
    assert_eq!(ref_obj.ref_type, "ref/prompt");
    assert_eq!(ref_obj.name, "test_prompt");
    assert_eq!(ref_obj.title, Some("A Test Prompt".to_string()));
}

#[test]
fn completion_test_completion_reference_union() {
    match CompletionReference::resource("file:///test.txt") {
        CompletionReference::ResourceTemplate(r) => {
            assert_eq!(r.ref_type, "ref/resource");
            assert_eq!(r.uri, "file:///test.txt");
        }
        CompletionReference::Prompt(_) => panic!("expected ResourceTemplate variant"),
    }
    match CompletionReference::prompt("my_prompt") {
        CompletionReference::Prompt(p) => {
            assert_eq!(p.ref_type, "ref/prompt");
            assert_eq!(p.name, "my_prompt");
        }
        CompletionReference::ResourceTemplate(_) => panic!("expected Prompt variant"),
    }
}

#[test]
fn completion_reference_round_trips_resource_and_prompt() {
    let resource = obj(vec![("type", text("ref/resource")), ("uri", text("file:///a/{id}.txt"))]);
    assert_eq!(completion_reference_kind(&resource), Some(CompletionReferenceKind::ResourceTemplate));
    let prompt = obj(vec![("type", text("ref/prompt")), ("name", text("greet")), ("title", text("Greet"))]);
    assert_eq!(completion_reference_kind(&prompt), Some(CompletionReferenceKind::Prompt));
    let p = PromptReference::new("greet").with_title("Greet");
    assert_eq!(p.ref_type, "ref/prompt");
    assert_eq!(p.name, "greet");
    assert_eq!(p.title, Some("Greet".to_string()));
}

#[test]
fn completion_reference_rejects_unknown_type() {
    let wire = obj(vec![("type", text("ref/bogus")), ("uri", text("x"))]);
    assert_eq!(completion_reference_kind(&wire), None);
}

#[test]
fn completion_reference_rejects_missing_type() {
    let wire = obj(vec![("uri", text("x"))]);
    assert_eq!(completion_reference_kind(&wire), None);
}

#[test]
fn plain_string_schema_still_parses_as_string() {
    let wire = obj(vec![
        ("type", text("string")),
        ("minLength", Json::Number(JsonNumber::PosInt(2))),
        ("maxLength", Json::Number(JsonNumber::PosInt(5))),
    ]);
    assert_eq!(primitive_schema_kind(&wire), Some(PrimitiveSchemaKind::String));
}

#[test]
fn bare_integer_discriminator_selects_number_not_string() {
    let wire = obj(vec![("type", text("integer"))]);
    assert_eq!(primitive_schema_kind(&wire), Some(PrimitiveSchemaKind::Number));
}

#[test]
fn bare_boolean_discriminator_selects_boolean_not_string() {
    let wire = obj(vec![("type", text("boolean")), ("title", text("x"))]);
    assert_eq!(primitive_schema_kind(&wire), Some(PrimitiveSchemaKind::Boolean));
}

#[test]
fn unknown_type_discriminator_is_rejected() {
    let wire = obj(vec![("type", text("banana"))]);
    assert_eq!(primitive_schema_kind(&wire), None);
}

#[test]
fn enum_bearing_and_array_schemas_select_enum() {
    let single = obj(vec![("type", text("string")), ("enum", Json::Array(vec![text("a")]))]);
    assert_eq!(primitive_schema_kind(&single), Some(PrimitiveSchemaKind::Enum));
    let array = obj(vec![("type", text("array"))]);
    assert_eq!(primitive_schema_kind(&array), Some(PrimitiveSchemaKind::Enum));
    let missing = obj(vec![("title", text("x"))]);
    assert_eq!(primitive_schema_kind(&missing), None);
}

#[test]
fn completion_test_resource_template_reference_2025_06_18() {
    let ref_obj = completion_2025_06_18::ResourceTemplateReference::new("file:///test/{name}.txt");
    assert_eq!(ref_obj.ref_type, "ref/resource");
    assert_eq!(ref_obj.uri, "file:///test/{name}.txt");
}

#[test]
fn completion_test_prompt_reference_2025_06_18() {
    let ref_obj = completion_2025_06_18::PromptReference::new("test_prompt").with_description("A test prompt");
    assert_eq!(ref_obj.ref_type, "ref/prompt");
    assert_eq!(ref_obj.name, "test_prompt");
    assert_eq!(ref_obj.description, Some("A test prompt".to_string()));
}

#[test]
fn completion_test_completion_reference_union_2025_06_18() {
    match completion_2025_06_18::CompletionReference::resource("file:///test.txt") {
        completion_2025_06_18::CompletionReference::ResourceTemplate(r) => {
            assert_eq!(r.ref_type, "ref/resource");
            assert_eq!(r.uri, "file:///test.txt");
        }
        _ => panic!("expected ResourceTemplate variant"),
    }
    match completion_2025_06_18::CompletionReference::prompt("my_prompt") {
        completion_2025_06_18::CompletionReference::Prompt(p) => {
            assert_eq!(p.ref_type, "ref/prompt");
            assert_eq!(p.name, "my_prompt");
        }
        _ => panic!("expected Prompt variant"),
    }
}

#[test]
fn cache_poisoned_path_is_shown_as_a_path() {
    assert_eq!(
        FetchError::CachePoisoned("/tmp/it's".to_string()).display_text(),
        "cache appears poisoned (missing \"/tmp/it's\"); delete and retry"
    );
}
