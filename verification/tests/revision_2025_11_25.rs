use turul_mcp_protocol::rpc_error::JsonRpcErrorObject;
use turul_mcp_protocol::v2025_11_25::icons::{Icon, IconTheme};
use turul_mcp_protocol::json::{Json, JsonNumber};
use turul_mcp_protocol::v2025_11_25::json_rpc::{JsonRpcError, JsonRpcRequest, RequestParams, ResultWithMeta};
use turul_mcp_protocol::v2025_11_25::meta::{Cursor, Meta, ProgressToken};
use turul_mcp_protocol::v2025_11_25::tasks::{
    CancelTaskRequest, GetTaskPayloadRequest, GetTaskRequest, ListTasksRequest, ListTasksResult, Task,
    TaskStatus,
};
use turul_mcp_protocol::v2025_11_25::ping::{EmptyResult, PingRequest};
use turul_mcp_protocol::v2025_11_25::meta::{Annotations, PaginatedResponse, ProgressResponse, WithMeta};
use turul_mcp_protocol::v2025_11_25::resources::{
    ListResourceTemplatesRequest, ListResourceTemplatesResult, ListResourcesRequest,
    ListResourcesResult, ReadResourceRequest, ReadResourceResult, Resource, ResourceContent,
    ResourceSubscription, ResourceTemplate, SubscribeRequest, UnsubscribeRequest,
};
use turul_mcp_protocol::v2025_11_25::sampling::{ModelHint, ToolChoice, ToolChoiceMode};
use turul_mcp_protocol::v2025_11_25::tasks::TaskMetadata;
use turul_mcp_protocol::v2025_11_25::McpError;

#[test]
fn test_icon_new() {
    let icon = Icon::new("https://example.com/icon.png");
    assert_eq!(icon.src, "https://example.com/icon.png");
    assert!(icon.mime_type.is_none());
    assert!(icon.sizes.is_none());
    assert!(icon.theme.is_none());
}

#[test]
fn test_icon_data_uri() {
    let icon = Icon::data_uri("image/png", "iVBORw0KGgo=");
    assert_eq!(icon.src, "data:image/png;base64,iVBORw0KGgo=");
    assert_eq!(icon.mime_type, Some("image/png".to_string()));
}

#[test]
fn icon_builders_set_one_field_each() {
    let icon = Icon::new("https://example.com/icon.png")
        .with_mime_type("image/png")
        .with_sizes(vec!["16x16".to_string(), "32x32".to_string()])
        .with_theme(IconTheme::Dark);
    assert_eq!(icon.src, "https://example.com/icon.png");
    assert_eq!(icon.mime_type, Some("image/png".to_string()));
    assert_eq!(icon.sizes, Some(vec!["16x16".to_string(), "32x32".to_string()]));
    assert_eq!(icon.theme, Some(IconTheme::Dark));
}

#[test]
fn meta_test_cursor() {
    let cursor = Cursor::new("page-2");
    assert_eq!(cursor.as_str(), "page-2");

    let from_string: Cursor = "page-3".into();
    assert_eq!(from_string.as_str(), "page-3");
}

#[test]
fn test_tool_choice_any_alias_returns_required() {
    let tc = ToolChoice::any();
    assert_eq!(tc.mode, ToolChoiceMode::Required);
}

#[test]
fn test_tool_choice_specific_uses_required_mode() {
    let tc = ToolChoice::specific("my_tool");
    assert_eq!(tc.mode, ToolChoiceMode::Required);
    assert_eq!(tc.name, Some("my_tool".to_string()));
}

#[test]
fn tool_choice_modes() {
    assert_eq!(ToolChoice::auto().mode, ToolChoiceMode::Auto);
    assert_eq!(ToolChoice::none().mode, ToolChoiceMode::NoTools);
    assert_eq!(ToolChoice::required().mode, ToolChoiceMode::Required);
    assert!(ToolChoice::required().name.is_none());
}

#[test]
fn model_hint_subscription_and_task_metadata() {
    assert_eq!(ModelHint::new("gpt-4o").name, Some("gpt-4o".to_string()));
    assert_eq!(ResourceSubscription::new("file:///a").uri, "file:///a");
    assert_eq!(TaskMetadata::new().ttl, None);
    assert_eq!(TaskMetadata::new().with_ttl(30000).ttl, Some(30000));
}

fn code_of(e: McpError) -> i64 {
    e.to_error_object().code
}

#[test]
fn errors_of_2025_11_25_use_their_own_codes() {
    assert_eq!(code_of(McpError::ToolNotFound("t".into())), -32001);
    assert_eq!(code_of(McpError::ResourceNotFound("r".into())), -32002);
    assert_eq!(code_of(McpError::PromptNotFound("p".into())), -32003);
    assert_eq!(code_of(McpError::ToolExecutionError("x".into())), -32010);
    assert_eq!(code_of(McpError::ResourceAccessDenied("x".into())), -32011);
    assert_eq!(code_of(McpError::ResourceExecutionError("x".into())), -32012);
    assert_eq!(code_of(McpError::PromptExecutionError("x".into())), -32013);
    assert_eq!(code_of(McpError::ValidationError("x".into())), -32020);
    assert_eq!(code_of(McpError::InvalidCapability("x".into())), -32021);
    assert_eq!(
        code_of(McpError::VersionMismatch { expected: "a".into(), actual: "b".into() }),
        -32022
    );
    assert_eq!(code_of(McpError::ConfigurationError("x".into())), -32030);
    assert_eq!(code_of(McpError::SessionError("x".into())), -32031);
    assert_eq!(code_of(McpError::TransportError("x".into())), -32040);
    assert_eq!(code_of(McpError::JsonRpcProtocolError("x".into())), -32041);
    assert_eq!(code_of(McpError::missing_param("p")), -32602);
}

#[test]
fn error_objects_carry_their_messages() {
    let o: JsonRpcErrorObject = McpError::ToolNotFound("calc".into()).to_error_object();
    assert_eq!(o.message, "Tool not found: calc");
    assert!(o.data.is_none());
    let o = McpError::invalid_param_type("n", "integer", "string").to_error_object();
    assert_eq!(o.code, -32602);
    assert_eq!(o.message, "Invalid parameter type for 'n': expected integer, got string");
    let o = McpError::json_rpc_error(-32050, "kept", None).to_error_object();
    assert_eq!(o.code, -32050);
    assert_eq!(o.message, "kept");
    let o = McpError::IoError(std::io::Error::new(std::io::ErrorKind::Other, "disk")).to_error_object();
    assert_eq!(o.code, -32603);
    assert_eq!(o.message, "IO error: disk");
}

#[test]
fn display_text_matches_the_error() {
    assert_eq!(
        McpError::param_out_of_range("n", "9", "< 5").display_text(),
        "Parameter 'n' value 9 is out of range: < 5"
    );
    assert_eq!(McpError::json_rpc_error(-32050, "m", None).display_text(), "JSON-RPC error -32050: m");
    let e: McpError = String::from("boom").into();
    assert_eq!(e.display_text(), "Tool execution failed: boom");
}

fn s(text: &str) -> Json {
    Json::String(text.to_string())
}

fn lookup<'a>(es: &'a [(String, Json)], k: &str) -> Option<&'a Json> {
    es.iter().find(|(key, _)| key == k).map(|(_, v)| v)
}

#[test]
fn test_progress_token() {
    let token = ProgressToken::new("task-123");
    assert_eq!(token.as_str(), "task-123");

    let from_string: ProgressToken = "task-456".into();
    assert_eq!(from_string.as_str(), "task-456");
}

#[test]
fn test_meta_is_empty() {
    let empty_meta = Meta::new();
    assert!(empty_meta.is_empty());

    let non_empty_meta = Meta::new().set_progress_token("test");
    assert!(!non_empty_meta.is_empty());
}

#[test]
fn test_merge_request_extras() {
    let request_meta = vec![
        ("customField".to_string(), s("custom_value")),
        ("userContext".to_string(), s("user_123")),
        ("progressToken".to_string(), s("should_be_ignored")),
        ("cursor".to_string(), s("should_be_ignored")),
    ];

    let meta = Meta::with_pagination(Some("page-1".into()), Some(100), true)
        .merge_request_extras(Some(request_meta));

    assert_eq!(meta.cursor.as_ref().unwrap().as_str(), "page-1");
    assert_eq!(meta.total, Some(100));
    assert_eq!(meta.has_more, Some(true));

    assert_eq!(lookup(&meta.extra, "customField"), Some(&s("custom_value")));
    assert_eq!(lookup(&meta.extra, "userContext"), Some(&s("user_123")));

    assert!(lookup(&meta.extra, "progressToken").is_none());
    assert!(lookup(&meta.extra, "cursor").is_none());
}

#[test]
fn test_merge_request_extras_empty() {
    let meta = Meta::with_cursor("test-cursor").merge_request_extras(None);

    assert_eq!(meta.cursor.as_ref().unwrap().as_str(), "test-cursor");
    assert!(meta.extra.is_empty());
}

#[test]
fn merge_replaces_an_existing_extra_member() {
    let meta = Meta::new()
        .add_extra("k", s("old"))
        .merge_request_extras(Some(vec![("k".to_string(), s("new")), ("total".to_string(), s("x"))]));
    assert_eq!(meta.extra, vec![("k".to_string(), s("new"))]);
    assert_eq!(meta.total, None);
}

#[test]
fn request_params_render_their_typed_meta() {
    let params = RequestParams {
        meta: Some(Meta {
            progress_token: Some(ProgressToken::new("test-token")),
            cursor: Some(Cursor::new("cursor-123")),
            total: Some(100),
            has_more: Some(true),
            progress: Some(0.5f64.to_bits()),
            ..Default::default()
        }),
        other: vec![("custom".to_string(), s("v"))],
    };
    let m = params.meta().unwrap();
    let keys: Vec<&str> = m.iter().map(|(k, _)| k.as_str()).collect();
    assert_eq!(keys, vec!["progressToken", "cursor", "total", "hasMore", "progress"]);
    assert_eq!(lookup(&m, "total"), Some(&Json::Number(JsonNumber::PosInt(100))));
    assert_eq!(lookup(&m, "hasMore"), Some(&Json::Bool(true)));
    assert_eq!(lookup(&m, "progress"), Some(&Json::Number(JsonNumber::FloatBits(0.5f64.to_bits()))));
    assert_eq!(params.progress_token().map(|t| t.as_str()), Some("test-token"));
    assert_eq!(params.data().len(), 1);
    assert!(RequestParams { meta: None, other: vec![] }.meta().is_none());
}

#[test]
fn result_with_meta_from_value() {
    let r = ResultWithMeta::from_value(Json::Object(vec![("a".to_string(), s("b"))]));
    assert_eq!(r.data, vec![("a".to_string(), s("b"))]);
    assert!(ResultWithMeta::from_value(Json::Null).data.is_empty());
    let r = ResultWithMeta::new(vec![]).with_meta(vec![("m".to_string(), Json::Bool(true))]);
    assert!(r.meta.is_some());
}

#[test]
fn json_rpc_envelopes() {
    let req = JsonRpcRequest::new(Json::Number(JsonNumber::PosInt(1)), "ping".to_string());
    assert_eq!(req.jsonrpc, "2.0");
    assert!(req.params.is_none());
    let e = JsonRpcError::method_not_found();
    assert_eq!((e.code, e.message.as_str()), (-32601, "Method not found"));
    assert_eq!(JsonRpcError::parse_error().code, -32700);
    assert_eq!(JsonRpcError::invalid_request().message, "Invalid Request");
    assert_eq!(JsonRpcError::invalid_params().code, -32602);
    assert_eq!(JsonRpcError::internal_error().message, "Internal error");
}

const TIMESTAMP: &str = "2025-01-01T00:00:00Z";

#[test]
fn test_task_creation() {
    let task = Task::new("task-123", TaskStatus::Working, TIMESTAMP, TIMESTAMP)
        .with_status_message("Processing data")
        .with_ttl(30000)
        .with_poll_interval(5000);

    assert_eq!(task.task_id, "task-123");
    assert_eq!(task.status, TaskStatus::Working);
    assert_eq!(task.status_message, Some("Processing data".to_string()));
    assert_eq!(task.ttl, Some(30000));
    assert_eq!(task.poll_interval, Some(5000));
    assert_eq!(task.created_at, TIMESTAMP);
    assert_eq!(task.last_updated_at, TIMESTAMP);
}

#[test]
fn test_get_task_request() {
    let request = GetTaskRequest::new("task-123");

    assert_eq!(request.method, "tasks/get");
    assert_eq!(request.params.task_id, "task-123");
}

#[test]
fn test_cancel_task_request() {
    let request = CancelTaskRequest::new("task-123");

    assert_eq!(request.method, "tasks/cancel");
    assert_eq!(request.params.task_id, "task-123");
}

#[test]
fn test_list_tasks_request() {
    let request = ListTasksRequest::new().with_cursor(Cursor::new("page-2")).with_limit(10);
    assert_eq!(request.method, "tasks/list");
    assert_eq!(request.params.cursor.as_ref().unwrap().as_str(), "page-2");
    assert_eq!(request.params.limit, Some(10));
}

#[test]
fn test_list_tasks_result() {
    let tasks = vec![
        Task::new("task-1", TaskStatus::Working, TIMESTAMP, TIMESTAMP),
        Task::new("task-2", TaskStatus::Completed, TIMESTAMP, TIMESTAMP),
    ];
    let result = ListTasksResult::new(tasks).with_next_cursor(Cursor::new("next-page"));
    assert_eq!(result.tasks.len(), 2);
    assert_eq!(result.next_cursor.as_ref().unwrap().as_str(), "next-page");
}

#[test]
fn test_get_task_payload_request() {
    let request = GetTaskPayloadRequest::new("task-789");
    assert_eq!(request.method, "tasks/result");
    assert_eq!(request.params.task_id, "task-789");
}

#[test]
fn test_resource_creation() {
    let resource = Resource::new("file:///test.txt", "Test File")
        .with_description("A test file")
        .with_mime_type("text/plain");

    assert_eq!(resource.uri, "file:///test.txt");
    assert_eq!(resource.name, "Test File");
    assert!(resource.description.is_some());
    assert!(resource.mime_type.is_some());
}

#[test]
fn test_resource_content() {
    let text_content = ResourceContent::text("file:///test.txt", "Hello, world!");
    let blob_content = ResourceContent::blob("file:///image.png", "base64data", "image/png");

    assert!(matches!(text_content, ResourceContent::Text(_)));
    assert!(matches!(blob_content, ResourceContent::Blob(_)));
}

#[test]
fn test_list_resources_response() {
    let resources = vec![
        Resource::new("file:///test1.txt", "Test 1"),
        Resource::new("file:///test2.txt", "Test 2"),
    ];

    let response = ListResourcesResult::new(resources);
    assert_eq!(response.resources.len(), 2);
    assert!(response.next_cursor.is_none());
}

#[test]
fn test_read_resource_response() {
    let content = ResourceContent::text("file:///test.txt", "File contents");
    let response = ReadResourceResult::single(content);

    assert_eq!(response.contents.len(), 1);
}

#[test]
fn resource_contents_carry_their_mime_types() {
    match ResourceContent::json("mem://a", "{}") {
        ResourceContent::Text(t) => {
            assert_eq!(t.mime_type.as_deref(), Some("application/json"));
            assert_eq!(t.text, "{}");
        }
        _ => panic!("JSON contents are text"),
    }
    match ResourceContent::text("mem://b", "hi") {
        ResourceContent::Text(t) => assert_eq!(t.mime_type.as_deref(), Some("text/plain")),
        _ => panic!("text contents are text"),
    }
    match ResourceContent::blob("mem://c", "AAAA", "image/png") {
        ResourceContent::Blob(b) => {
            assert_eq!(b.blob, "AAAA");
            assert_eq!(b.mime_type.as_deref(), Some("image/png"));
        }
        _ => panic!("blob contents are binary"),
    }
}

#[test]
fn resource_builders_set_one_field_each() {
    let annotations = Annotations::new()
        .with_audience(vec!["user".to_string()])
        .with_last_modified("2025-01-01T00:00:00Z");
    let resource = Resource::new("file:///a", "a")
        .with_title("A")
        .with_size(42)
        .with_annotations(annotations)
        .with_icons(vec![Icon::new("https://example.com/a.png")])
        .with_meta(vec![]);
    assert_eq!(resource.size, Some(42));
    assert_eq!(resource.title.as_deref(), Some("A"));
    let a = resource.annotations.unwrap();
    assert_eq!(a.audience, Some(vec!["user".to_string()]));
    assert_eq!(a.last_modified.as_deref(), Some("2025-01-01T00:00:00Z"));
    assert!(a.priority.is_none());
    assert_eq!(resource.icons.unwrap().len(), 1);

    let template = ResourceTemplate::new("files", "file:///{path}")
        .with_mime_type("text/plain")
        .with_description("Files");
    assert_eq!(template.uri_template, "file:///{path}");
    assert_eq!(template.mime_type.as_deref(), Some("text/plain"));
    let page = ListResourceTemplatesResult::new(vec![template]).with_next_cursor(Cursor::new("p2"));
    assert_eq!(page.next_cursor, Some(Cursor::new("p2")));
}

#[test]
fn resource_requests_carry_their_methods() {
    assert_eq!(ListResourcesRequest::new().method, "resources/list");
    let listed = ListResourcesRequest::new().with_cursor(Cursor::new("c"));
    assert_eq!(listed.params.cursor, Some(Cursor::new("c")));
    assert_eq!(ListResourceTemplatesRequest::new().method, "resources/templates/list");
    let read = ReadResourceRequest::new("file:///x");
    assert_eq!(read.method, "resources/read");
    assert_eq!(read.params.uri, "file:///x");
    let sub = SubscribeRequest::new("file:///y");
    assert_eq!(sub.method, "resources/subscribe");
    assert_eq!(sub.params.uri, "file:///y");
    let unsub = UnsubscribeRequest::new("file:///y").with_meta(vec![]);
    assert_eq!(unsub.method, "resources/unsubscribe");
    assert_eq!(unsub.params.meta, Some(vec![]));
}

#[test]
fn paginated_and_progress_responses_hold_their_meta() {
    let page = PaginatedResponse::with_pagination(7u32, Some(Cursor::new("next-page")), Some(100), true);
    assert_eq!(page.data, 7);
    let m = WithMeta::meta(&page).unwrap();
    assert_eq!(m.cursor, Some(Cursor::new("next-page")));
    assert_eq!(m.total, Some(100));
    assert_eq!(m.has_more, Some(true));
    let mut progress = ProgressResponse::new("data");
    assert!(WithMeta::meta(&progress).is_none());
    progress.set_meta(Some(Meta::with_cursor("c")));
    assert_eq!(WithMeta::meta(&progress).unwrap().cursor, Some(Cursor::new("c")));
}

#[test]
fn test_ping_request() {
    let ping = PingRequest::new();
    assert_eq!(ping.method, "ping");
    assert!(ping.params.is_none());
}

#[test]
fn ping_test_empty_result() {
    let result = EmptyResult::new();
    assert!(result.meta.is_none());

    let meta = || vec![("test".to_string(), Json::String("value".to_string()))];
    let result_with_meta = EmptyResult::new().with_meta(meta());
    assert_eq!(result_with_meta.meta, Some(meta()));
}

use turul_mcp_protocol::v2025_11_25::sampling::{ModelPreferences, SamplingResult};

#[test]
fn model_preferences_keep_their_weights() {
    let prefs = ModelPreferences::new()
        .with_hints(vec![ModelHint::new("gpt-4o")])
        .with_cost_priority(0.25f64.to_bits())
        .with_speed_priority(0.5f64.to_bits())
        .with_intelligence_priority(1.0f64.to_bits());
    assert_eq!(prefs.hints.as_ref().map(|h| h.len()), Some(1));
    assert_eq!(prefs.cost_priority.map(f64::from_bits), Some(0.25));
    assert_eq!(prefs.speed_priority.map(f64::from_bits), Some(0.5));
    assert_eq!(prefs.intelligence_priority.map(f64::from_bits), Some(1.0));
    let result = SamplingResult::new(Json::Bool(true));
    assert_eq!(result.result, Json::Bool(true));
}
