use turul_mcp_protocol::json::{Json, JsonNumber};
use turul_mcp_protocol::rpc_error::JsonRpcErrorObject;
use turul_mcp_protocol::v2026_07_28::caching::CacheScope;
use turul_mcp_protocol::v2026_07_28::completion::{
    CompleteArgument, CompleteRequestParams, CompletionReference, PromptReference,
};
use turul_mcp_protocol::v2026_07_28::compliance::coverage::{cases, check_dirs_strictly_ascending, Kind};
use turul_mcp_protocol::v2026_07_28::compliance::fetch::{
    is_commit_sha, pin, resolve_subpath_head_output, FetchError,
};
use turul_mcp_protocol::v2026_07_28::compliance::roundtrip::{table_matches_upstream, Outcome, Report};
use turul_mcp_protocol::v2026_07_28::discover::{DiscoverRequest, SERVER_DISCOVER_METHOD};
use turul_mcp_protocol::v2026_07_28::elicitation::{
    ElicitRequestURLParams, EnumSchema, LegacyTitledEnumSchema, MultiSelectEnumSchema,
    SingleSelectEnumSchema, StringFormat, StringSchema, TitledEnumOption,
    TitledMultiSelectEnumSchema, TitledSingleSelectEnumSchema, UntitledMultiSelectEnumSchema,
    UrlModeMarker,
};
use turul_mcp_protocol::v2026_07_28::headers::{
    decode_param_value, encode_param_value, scan_x_mcp_headers, ERROR_CODE_HEADER_MISMATCH,
    HTTP_HEADER_METHOD, HTTP_HEADER_NAME, HTTP_HEADER_PARAM_PREFIX, HTTP_HEADER_PROTOCOL_VERSION,
    MCP_PARAM_BASE64_PREFIX, MCP_PARAM_BASE64_SUFFIX, X_MCP_HEADER_SCHEMA_KEY,
};
use turul_mcp_protocol::v2026_07_28::initialize::{ClientCapabilities, Implementation};
use turul_mcp_protocol::v2026_07_28::json_rpc::RequestParams;
use turul_mcp_protocol::v2026_07_28::logging::LoggingLevel;
use turul_mcp_protocol::v2026_07_28::meta::{
    Cursor, ProgressToken, RequestMetaObject, ResultMetaObject, META_KEY_PROTOCOL_VERSION,
    META_KEY_SERVER_INFO,
};
use turul_mcp_protocol::v2026_07_28::McpError;

fn s(text: &str) -> Json {
    Json::String(text.to_string())
}

fn obj(members: Vec<(&str, Json)>) -> Json {
    Json::Object(members.into_iter().map(|(k, v)| (k.to_string(), v)).collect())
}

fn strings(v: &[&str]) -> Vec<String> {
    v.iter().map(|x| x.to_string()).collect()
}

fn fixture_meta() -> RequestMetaObject {
    RequestMetaObject::new(
        "DRAFT-2026-v1",
        Implementation::new("test-client", "1.0.0"),
        ClientCapabilities::default(),
    )
}

#[test]
fn header_names_exact_spelling() {
    assert_eq!(HTTP_HEADER_PROTOCOL_VERSION, "MCP-Protocol-Version");
    assert_eq!(HTTP_HEADER_METHOD, "Mcp-Method");
    assert_eq!(HTTP_HEADER_NAME, "Mcp-Name");
    assert_eq!(HTTP_HEADER_PARAM_PREFIX, "Mcp-Param-");
    assert_eq!(X_MCP_HEADER_SCHEMA_KEY, "x-mcp-header");
}

#[test]
fn base64_sentinel_exact_spelling() {
    assert_eq!(MCP_PARAM_BASE64_PREFIX, "=?base64?");
    assert_eq!(MCP_PARAM_BASE64_SUFFIX, "?=");
}

#[test]
fn header_mismatch_code_matches_schema() {
    assert_eq!(ERROR_CODE_HEADER_MISMATCH, -32020);
    assert!((-32099..=-32000).contains(&ERROR_CODE_HEADER_MISMATCH));
}

#[test]
fn header_mismatch_constant_uses_spec_code() {
    assert_eq!(ERROR_CODE_HEADER_MISMATCH, -32020);
}

#[test]
fn encoding_matches_the_spec_examples() {
    assert_eq!(encode_param_value(&s("us-west1")).unwrap(), "us-west1");
    assert_eq!(
        encode_param_value(&s("Hello, 世界")).unwrap(),
        "=?base64?SGVsbG8sIOS4lueVjA==?="
    );
    assert_eq!(encode_param_value(&s(" padded ")).unwrap(), "=?base64?IHBhZGRlZCA=?=");
    assert_eq!(
        encode_param_value(&s("line1\nline2")).unwrap(),
        "=?base64?bGluZTEKbGluZTI=?="
    );
    assert_eq!(
        encode_param_value(&s("=?base64?literal?=")).unwrap(),
        "=?base64?PT9iYXNlNjQ/bGl0ZXJhbD89?="
    );
}

#[test]
fn integer_and_boolean_conversion() {
    assert_eq!(encode_param_value(&Json::Number(JsonNumber::PosInt(42))).unwrap(), "42");
    assert_eq!(encode_param_value(&Json::Number(JsonNumber::NegInt(-7))).unwrap(), "-7");
    assert_eq!(encode_param_value(&Json::Bool(true)).unwrap(), "true");
    assert_eq!(encode_param_value(&Json::Bool(false)).unwrap(), "false");
    assert!(encode_param_value(&Json::Number(JsonNumber::FloatBits(1.5f64.to_bits()))).is_none());
    assert!(encode_param_value(&Json::Number(JsonNumber::PosInt(9_007_199_254_740_992))).is_none());
}

#[test]
fn decode_round_trips() {
    for v in ["us-west1", "Hello, 世界", " padded ", "line1\nline2"] {
        let encoded = encode_param_value(&s(v)).unwrap();
        assert_eq!(decode_param_value(&encoded).unwrap(), v);
    }
}

#[test]
fn decode_reports_bad_base64_and_passes_plain_text_through() {
    assert!(decode_param_value("=?base64?***?=").unwrap_err().starts_with("invalid Base64 in Mcp-Param value: "));
    assert!(decode_param_value("=?base64?/w==?=").unwrap_err().starts_with("Mcp-Param value is not UTF-8: "));
    assert_eq!(decode_param_value("plain").unwrap(), "plain");
}

#[test]
fn scan_finds_annotations_and_enforces_constraints() {
    let schema = obj(vec![
        ("type", s("object")),
        (
            "properties",
            obj(vec![
                ("query", obj(vec![("type", s("string"))])),
                ("region", obj(vec![("type", s("string")), ("x-mcp-header", s("Region"))])),
            ]),
        ),
    ]);
    let bindings = scan_x_mcp_headers(&schema).unwrap();
    assert_eq!(bindings.len(), 1);
    assert_eq!(bindings[0].header_name, "Region");
    assert_eq!(bindings[0].argument_pointer, "/region");

    let bad = obj(vec![(
        "properties",
        obj(vec![("n", obj(vec![("type", s("number")), ("x-mcp-header", s("N"))]))]),
    )]);
    assert!(scan_x_mcp_headers(&bad).is_err());

    let dup = obj(vec![(
        "properties",
        obj(vec![
            ("a", obj(vec![("type", s("string")), ("x-mcp-header", s("Region"))])),
            ("b", obj(vec![("type", s("string")), ("x-mcp-header", s("region"))])),
        ]),
    )]);
    assert!(scan_x_mcp_headers(&dup).is_err());

    let ctrl = obj(vec![(
        "properties",
        obj(vec![("a", obj(vec![("type", s("string")), ("x-mcp-header", s("Re gion"))]))]),
    )]);
    assert!(scan_x_mcp_headers(&ctrl).is_err());

    let nested = obj(vec![(
        "properties",
        obj(vec![(
            "outer",
            obj(vec![
                (
                    "properties",
                    obj(vec![(
                        "inner",
                        obj(vec![("type", s("boolean")), ("x-mcp-header", s("Inner"))]),
                    )]),
                ),
                ("type", s("object")),
            ]),
        )]),
    )]);
    let bindings = scan_x_mcp_headers(&nested).unwrap();
    assert_eq!(bindings[0].argument_pointer, "/outer/inner");
}

#[test]
fn x_mcp_header_emits_only_statically_reachable_properties() {
    let via_items = obj(vec![(
        "properties",
        obj(vec![(
            "tags",
            obj(vec![
                ("items", obj(vec![("type", s("string")), ("x-mcp-header", s("Tag"))])),
                ("type", s("array")),
            ]),
        )]),
    )]);
    assert!(scan_x_mcp_headers(&via_items).unwrap().is_empty());

    let via_all_of = obj(vec![(
        "properties",
        obj(vec![(
            "region",
            obj(vec![(
                "allOf",
                Json::Array(vec![obj(vec![("type", s("string")), ("x-mcp-header", s("Region"))])]),
            )]),
        )]),
    )]);
    assert!(scan_x_mcp_headers(&via_all_of).unwrap().is_empty());

    let via_any_of = obj(vec![(
        "properties",
        obj(vec![(
            "region",
            obj(vec![(
                "anyOf",
                Json::Array(vec![obj(vec![("type", s("string")), ("x-mcp-header", s("Region"))])]),
            )]),
        )]),
    )]);
    assert!(scan_x_mcp_headers(&via_any_of).unwrap().is_empty());

    let via_ref = obj(vec![
        (
            "$defs",
            obj(vec![("Region", obj(vec![("type", s("string")), ("x-mcp-header", s("Region"))]))]),
        ),
        ("properties", obj(vec![("region", obj(vec![("$ref", s("#/$defs/Region"))]))])),
    ]);
    assert!(scan_x_mcp_headers(&via_ref).unwrap().is_empty());

    let top_level = obj(vec![(
        "properties",
        obj(vec![("region", obj(vec![("type", s("string")), ("x-mcp-header", s("Region"))]))]),
    )]);
    let bindings = scan_x_mcp_headers(&top_level).unwrap();
    assert_eq!(bindings.len(), 1);
    assert_eq!(bindings[0].header_name, "Region");
}

#[test]
fn scan_reports_each_violation_with_its_message() {
    let dup = obj(vec![(
        "properties",
        obj(vec![
            ("a", obj(vec![("type", s("string")), ("x-mcp-header", s("Region"))])),
            ("b", obj(vec![("type", s("integer")), ("x-mcp-header", s("REGION"))])),
        ]),
    )]);
    assert_eq!(
        scan_x_mcp_headers(&dup).unwrap_err(),
        "x-mcp-header 'REGION' is not case-insensitively unique"
    );
    let empty = obj(vec![(
        "properties",
        obj(vec![("a/b~c", obj(vec![("type", s("string")), ("x-mcp-header", s(""))]))]),
    )]);
    assert_eq!(scan_x_mcp_headers(&empty).unwrap_err(), "x-mcp-header on '/a~1b~0c' must not be empty");
    let not_string = obj(vec![(
        "properties",
        obj(vec![("a", obj(vec![("x-mcp-header", Json::Bool(true))]))]),
    )]);
    assert_eq!(scan_x_mcp_headers(&not_string).unwrap_err(), "x-mcp-header on '/a' must be a string");
    let number = obj(vec![(
        "properties",
        obj(vec![("n", obj(vec![("type", s("number")), ("x-mcp-header", s("N"))]))]),
    )]);
    assert_eq!(
        scan_x_mcp_headers(&number).unwrap_err(),
        "x-mcp-header 'N' on '/n' targets type 'number' \u{2014} only string/integer/boolean parameters are permitted"
    );
}

#[test]
fn test_implementation_creation() {
    let impl_info = Implementation::new("test-client", "1.0.0").with_title("Test Client");

    assert_eq!(impl_info.name, "test-client");
    assert_eq!(impl_info.version, "1.0.0");
    assert_eq!(impl_info.title, Some("Test Client".to_string()));
}

#[test]
fn implementation_builders_set_one_field_each() {
    let i = Implementation::new("srv", "0.4.0")
        .with_description("A server")
        .with_website_url("https://example.com");
    assert_eq!(i.description, Some("A server".to_string()));
    assert_eq!(i.website_url, Some("https://example.com".to_string()));
    assert!(i.title.is_none() && i.icons.is_none());
}

#[test]
fn test_logging_level_priority() {
    assert_eq!(LoggingLevel::Debug.priority(), 0);
    assert_eq!(LoggingLevel::Emergency.priority(), 7);

    assert!(LoggingLevel::Error.should_log(LoggingLevel::Warning));
    assert!(!LoggingLevel::Info.should_log(LoggingLevel::Error));
}

#[test]
fn test_cursor() {
    let cursor = Cursor::new("page-2");
    assert_eq!(cursor.as_str(), "page-2");

    let from_string: Cursor = "page-3".into();
    assert_eq!(from_string.as_str(), "page-3");
}

#[test]
fn test_progress_token_string() {
    let token = ProgressToken::new("task-123");
    assert_eq!(token.as_str(), Some("task-123"));
    assert_eq!(token.as_i64(), None);
    assert_eq!(token.as_number().map(|n| *n), None);
    assert!(token.as_number().is_none());

    let from_string: ProgressToken = "task-456".into();
    assert_eq!(from_string.as_str(), Some("task-456"));
}

#[test]
fn integer_progress_tokens_keep_their_sign() {
    let t: ProgressToken = (-5i64).into();
    assert_eq!(t.as_i64(), Some(-5));
    assert_eq!(t.as_number(), Some(&JsonNumber::NegInt(-5)));
    let t: ProgressToken = 7u64.into();
    assert_eq!(t.as_number(), Some(&JsonNumber::PosInt(7)));
    let t: ProgressToken = 3i32.into();
    assert_eq!(t.as_number(), Some(&JsonNumber::PosInt(3)));
    let t: ProgressToken = u64::MAX.into();
    assert_eq!(t.as_i64(), None);
}

#[test]
fn request_meta_object_extra_cannot_shadow_protocol_version() {
    let meta = RequestMetaObject::new(
        "2026-07-28",
        Implementation::new("test-client", "1.0.0"),
        ClientCapabilities::default(),
    )
    .with_extra(META_KEY_PROTOCOL_VERSION, s("attacker-controlled"))
    .with_extra("vendor.example/x", s("kept"));
    let emitted = meta.emitted_extra_positions();
    assert_eq!(emitted, vec![1]);
    assert_eq!(meta.extra[emitted[0]].0, "vendor.example/x");
    assert_eq!(meta.protocol_version, "2026-07-28");
    assert_eq!(meta.wire_len(), 4);
}

#[test]
fn request_meta_object_extra_cannot_shadow_progress_token() {
    let meta = fixture_meta()
        .with_progress_token(ProgressToken::new("real-token"))
        .with_extra("progressToken", s("attacker-controlled"));
    assert!(meta.emitted_extra_positions().is_empty());
    assert_eq!(meta.progress_token.as_ref().and_then(|t| t.as_str()), Some("real-token"));
    assert_eq!(meta.wire_len(), 4);
}

#[test]
fn with_extra_replaces_an_earlier_member() {
    let meta = fixture_meta().with_extra("k", s("1")).with_extra("k", s("2"));
    assert_eq!(meta.extra.len(), 1);
    assert_eq!(meta.extra[0].1, s("2"));
    let meta = meta.without_client_info().with_log_level(LoggingLevel::Info);
    assert!(meta.client_info.is_none());
    assert_eq!(meta.log_level, Some(LoggingLevel::Info));
    assert_eq!(meta.wire_len(), 4);
}

#[test]
fn loose_map_lifts_server_info_into_the_typed_field() {
    let map = vec![
        (META_KEY_SERVER_INFO.to_string(), obj(vec![("name", s("srv")), ("version", s("0.4.0"))])),
        ("vendor.example/trace".to_string(), s("abc")),
    ];
    let carried = ResultMetaObject::from_meta_object(map, Some(Implementation::new("srv", "0.4.0")));
    assert_eq!(carried.server_info.as_ref().map(|i| i.name.as_str()), Some("srv"));
    assert_eq!(carried.extra.len(), 1);
    assert_eq!(carried.extra[0].0, "vendor.example/trace");
    assert!(!carried.is_empty());
}

#[test]
fn malformed_server_info_is_dropped() {
    let map = vec![
        (META_KEY_SERVER_INFO.to_string(), s("not-an-object")),
        ("vendor.example/keep".to_string(), s("kept")),
    ];
    let carried = ResultMetaObject::from_meta_object(map, None);
    assert!(carried.server_info.is_none());
    assert_eq!(carried.extra.len(), 1);
    assert_eq!(carried.emitted_extra_positions(), vec![0]);
}

#[test]
fn result_meta_emptiness() {
    assert!(ResultMetaObject::default().is_empty());
    let only_reserved = ResultMetaObject::default().with_extra(META_KEY_SERVER_INFO, s("x"));
    assert!(only_reserved.is_empty());
    assert!(only_reserved.emitted_extra_positions().is_empty());
    assert!(!ResultMetaObject::default().with_server_info(Implementation::new("a", "1")).is_empty());
}

#[test]
fn discover_request_constant_matches_method() {
    assert_eq!(SERVER_DISCOVER_METHOD, "server/discover");
}

#[test]
fn discover_request_carries_method_and_meta() {
    let r = DiscoverRequest::new(fixture_meta());
    assert_eq!(r.method, "server/discover");
    assert_eq!(r.params.meta.protocol_version, "DRAFT-2026-v1");
    assert!(r.params.other.is_empty());
    let r = r.with_params(RequestParams::new(fixture_meta()).with("cursor", s("c1")));
    assert_eq!(r.params.other.len(), 1);
}

#[test]
fn complete_request_params_builders() {
    let p = CompleteRequestParams::new(
        CompletionReference::prompt("greet"),
        CompleteArgument::new("name", "Al"),
        fixture_meta(),
    );
    assert!(p.context.is_none());
    assert_eq!(p.argument.value, "Al");
    let r = PromptReference::new("p").with_title("P");
    assert_eq!(r.title, Some("P".to_string()));
    assert_eq!(r.ref_type, "ref/prompt");
}

#[test]
fn cache_scope_wire_strings() {
    assert_eq!(CacheScope::Public.as_str(), "public");
    assert_eq!(CacheScope::Private.as_str(), "private");
}

#[test]
fn cases_table_is_sorted_and_unique() {
    let table = cases();
    let names: Vec<&str> = table.iter().map(|c| c.dir).collect();
    let mut sorted = names.clone();
    sorted.sort();
    assert_eq!(names, sorted, "CASES must be sorted lexicographically");

    let set: std::collections::BTreeSet<_> = names.iter().collect();
    assert_eq!(set.len(), names.len(), "CASES must have unique dirs");
    assert!(check_dirs_strictly_ascending(&table));
}

#[test]
fn cases_table_has_86_entries() {
    assert_eq!(cases().len(), 86);
}

#[test]
fn cases_table_binds_eight_types() {
    let table = cases();
    let modeled = table.iter().filter(|c| c.kind != Kind::NotModeled).count();
    assert_eq!(modeled, 8);
}

#[test]
fn table_check_reports_missing_extra_and_size() {
    let table: Vec<String> = cases().iter().map(|c| c.dir.to_string()).collect();
    assert_eq!(table_matches_upstream(&table, &table), Ok(()));
    let mut upstream = table.clone();
    upstream.push("ZNew".to_string());
    assert_eq!(
        table_matches_upstream(&upstream, &table),
        Err("coverage table out of sync with upstream tree: missing=[\"ZNew\"] extra=[]".to_string())
    );
    let small = strings(&["A"]);
    assert_eq!(
        table_matches_upstream(&small, &small),
        Err("coverage table size 1 != expected 86 (upstream has 1)".to_string())
    );
}

#[test]
fn report_tally() {
    let mut r = Report::new();
    assert!(!r.note_case(Kind::NotModeled));
    assert!(r.note_case(Kind::Struct));
    r.note_fixture("Tool", "a.json", Outcome::Pass);
    r.note_fixture("Tool", "b.json", Outcome::Diff("$.x".to_string()));
    assert_eq!((r.modeled, r.not_modeled, r.passed, r.total_files), (1, 1, 1, 2));
    assert!(!r.is_clean());
    assert_eq!(r.failed[0].file, "b.json");
    assert!(Report::new().is_clean());
}

#[test]
fn pinned_revision_and_commit_ids() {
    let p = pin();
    assert_eq!(p.sha, "271ecc9accafdd9b83a3c869fa67c22953b2af80");
    assert_eq!(p.subpath, "schema/2026-07-28/examples");
    assert!(is_commit_sha(p.sha));
    assert!(!is_commit_sha("271ecc9"));
    assert!(!is_commit_sha("271ecc9accafdd9b83a3c869fa67c22953b2af8g"));
    assert_eq!(
        resolve_subpath_head_output("  271ecc9accafdd9b83a3c869fa67c22953b2af80\n", "s", "main").unwrap(),
        "271ecc9accafdd9b83a3c869fa67c22953b2af80"
    );
    match resolve_subpath_head_output("\n", "schema/x", "main") {
        Err(FetchError::GitFailed { status, stderr }) => {
            assert_eq!(status, 0);
            assert_eq!(stderr, "no commit found touching schema/x on main (got \"\")");
        }
        _ => panic!("expected a failure"),
    }
    assert_eq!(
        FetchError::CachePoisoned("/tmp/x".to_string()).display_text(),
        "cache appears poisoned (missing \"/tmp/x\"); delete and retry"
    );
    assert_eq!(
        FetchError::GitFailed { status: -1, stderr: "boom".to_string() }.display_text(),
        "git command failed (status=-1): boom"
    );
}

#[test]
fn enum_schema_shapes_and_allowed_values() {
    let e = EnumSchema::new(strings(&["a", "b"])).with_description("d");
    assert_eq!(e.allowed_values(), strings(&["a", "b"]));
    assert!(!e.is_multi_select());
    match e.with_enum_names(strings(&["A", "B"])) {
        EnumSchema::LegacyTitled(l) => {
            assert_eq!(l.enum_values, strings(&["a", "b"]));
            assert_eq!(l.enum_names, Some(strings(&["A", "B"])));
            assert_eq!(l.description, Some("d".to_string()));
        }
        _ => panic!("expected the legacy shape"),
    }
    let titled = EnumSchema::SingleSelect(SingleSelectEnumSchema::Titled(TitledSingleSelectEnumSchema::new(
        vec![TitledEnumOption::new("x", "X"), TitledEnumOption::new("y", "Y")],
    )));
    assert_eq!(titled.allowed_values(), strings(&["x", "y"]));
    match titled.with_enum_names(strings(&["Q"])) {
        EnumSchema::SingleSelect(SingleSelectEnumSchema::Titled(t)) => assert_eq!(t.one_of.len(), 2),
        _ => panic!("titled shape must be kept"),
    }
    let multi = EnumSchema::MultiSelect(MultiSelectEnumSchema::Untitled(UntitledMultiSelectEnumSchema::new(
        strings(&["m"]),
    )));
    assert!(multi.is_multi_select());
    assert_eq!(multi.allowed_values(), strings(&["m"]));
    let tm = EnumSchema::MultiSelect(MultiSelectEnumSchema::Titled(TitledMultiSelectEnumSchema::new(vec![
        TitledEnumOption::new("k", "K"),
    ])));
    assert_eq!(tm.allowed_values(), strings(&["k"]));
    let legacy = LegacyTitledEnumSchema::new(strings(&["l"])).with_default("l");
    assert_eq!(legacy.default, Some("l".to_string()));
}

#[test]
fn string_schema_and_url_params() {
    let u = StringSchema::url().with_default("https://a");
    assert!(matches!(u.format, Some(StringFormat::Uri)));
    assert_eq!(u.default, Some("https://a".to_string()));
    let p = ElicitRequestURLParams::new("Open this", "https://example.com/auth");
    assert_eq!(p.mode, UrlModeMarker::Url);
    assert_eq!(p.url, "https://example.com/auth");
}

#[test]
fn missing_required_client_capability_uses_spec_code() {
    let err = McpError::MissingRequiredClientCapability { required: obj(vec![]) };
    assert_eq!(err.to_error_object().code, -32021);
}

#[test]
fn unsupported_protocol_version_uses_spec_code() {
    let err = McpError::UnsupportedProtocolVersion {
        supported: vec!["2026-07-28".to_string()],
        requested: "2099-01-01".to_string(),
    };
    assert_eq!(err.to_error_object().code, -32022);
}

const LEGACY_ALLOCATIONS: [i64; 11] = [
    -32000, -32010, -32011, -32012, -32013, -32014, -32015, -32016, -32017, -32018, -32019,
];

fn framework_internal_errors() -> Vec<(McpError, &'static str)> {
    vec![
        (McpError::ToolExecutionError("x".into()), "ToolExecutionError"),
        (McpError::ResourceAccessDenied("x".into()), "ResourceAccessDenied"),
        (McpError::ResourceExecutionError("x".into()), "ResourceExecutionError"),
        (McpError::PromptExecutionError("x".into()), "PromptExecutionError"),
        (McpError::ValidationError("x".into()), "ValidationError"),
        (McpError::InvalidCapability("x".into()), "InvalidCapability"),
        (McpError::VersionMismatch { expected: "a".into(), actual: "b".into() }, "VersionMismatch"),
        (McpError::ConfigurationError("x".into()), "ConfigurationError"),
        (McpError::SessionError("x".into()), "SessionError"),
        (McpError::TransportError("x".into()), "TransportError"),
        (McpError::JsonRpcProtocolError("x".into()), "JsonRpcProtocolError"),
    ]
}

#[test]
fn framework_internal_errors_are_legacy_allocations_or_outside_the_reserved_range() {
    for (err, name) in framework_internal_errors() {
        let code = err.to_error_object().code;
        assert!(
            LEGACY_ALLOCATIONS.contains(&code) || !(-32768..=-32000).contains(&code),
            "{name} emits {code}"
        );
    }
}

#[test]
fn no_two_framework_internal_errors_share_a_code() {
    let codes: Vec<i64> = framework_internal_errors()
        .into_iter()
        .map(|(e, _)| e.to_error_object().code)
        .collect();
    let mut sorted = codes.clone();
    sorted.sort_unstable();
    sorted.dedup();
    assert_eq!(sorted.len(), codes.len(), "duplicate internal error code in {codes:?}");
}

#[test]
fn error_objects_of_2026_07_28() {
    let o: JsonRpcErrorObject = McpError::ToolNotFound("calc".into()).to_error_object();
    assert_eq!(o.code, -32602);
    assert_eq!(o.message, "Unknown tool: calc");
    let o = McpError::UnsupportedProtocolVersion {
        supported: vec!["2026-07-28".to_string()],
        requested: "2099-01-01".to_string(),
    }
    .to_error_object();
    assert_eq!(o.message, "Unsupported protocol version");
    assert_eq!(
        o.data,
        Some(obj(vec![
            ("supported", Json::Array(vec![s("2026-07-28")])),
            ("requested", s("2099-01-01")),
        ]))
    );
    assert_eq!(
        McpError::UnsupportedProtocolVersion { supported: vec!["a".to_string()], requested: "b".to_string() }
            .display_text(),
        "Unsupported protocol version: requested b, supported [\"a\"]"
    );
}

use turul_mcp_protocol::rpc_error::RequestId;
use turul_mcp_protocol::v2026_07_28::notifications::{
    CancelledNotification, LoggingMessageNotification, PromptListChangedNotification,
    ResourceListChangedNotification, ResourceUpdatedNotification, ToolListChangedNotification,
};

#[test]
fn test_resource_list_changed() {
    let notification = ResourceListChangedNotification::new();
    assert_eq!(notification.method, "notifications/resources/list_changed");
}

#[test]
fn test_tool_list_changed() {
    let notification = ToolListChangedNotification::new();
    assert_eq!(notification.method, "notifications/tools/list_changed");
}

#[test]
fn test_prompt_list_changed() {
    let notification = PromptListChangedNotification::new();
    assert_eq!(notification.method, "notifications/prompts/list_changed");
}

#[test]
fn test_resource_updated() {
    let notification = ResourceUpdatedNotification::new("file:///test.txt");
    assert_eq!(notification.method, "notifications/resources/updated");
    assert_eq!(notification.params.uri, "file:///test.txt");
}

#[test]
fn test_cancelled_notification() {
    let notification = CancelledNotification::new(RequestId::Number(123)).with_reason("User cancelled");

    assert_eq!(notification.method, "notifications/cancelled");
    assert_eq!(notification.params.request_id, RequestId::Number(123));
    assert_eq!(notification.params.reason, Some("User cancelled".to_string()));
}

#[test]
fn test_logging_message_notification() {
    let data = obj(vec![("context", s("test")), ("message", s("Test log message"))]);
    let notification = LoggingMessageNotification::new(
        LoggingLevel::Info,
        obj(vec![("context", s("test")), ("message", s("Test log message"))]),
    )
    .with_logger("test-logger");

    assert_eq!(notification.method, "notifications/message");
    assert_eq!(notification.params.level, LoggingLevel::Info);
    assert_eq!(notification.params.logger, Some("test-logger".to_string()));
    assert_eq!(notification.params.data, data);
}

use std::collections::HashMap;
use turul_mcp_protocol::v2026_07_28::elicitation::{
    ElicitAction as Action2026, ElicitRequest, ElicitRequestParams, ElicitResult, ElicitResultValue,
    ElicitationBuilder as Builder2026, ElicitationSchema, PrimitiveSchemaDefinition,
    StringFormat as Format2026,
};

fn form_has_property(request: &ElicitRequest, name: &str) -> bool {
    match &request.params {
        ElicitRequestParams::Form(form) => form.requested_schema.properties.iter().any(|(k, _)| k == name),
        ElicitRequestParams::Url(_) => false,
    }
}

#[test]
fn test_primitive_schema_creation() {
    let string_schema = PrimitiveSchemaDefinition::string_with_description("Enter your name");
    let number_schema = PrimitiveSchemaDefinition::number();
    let boolean_schema = PrimitiveSchemaDefinition::boolean();

    assert!(matches!(string_schema, PrimitiveSchemaDefinition::String { .. }));
    assert!(matches!(number_schema, PrimitiveSchemaDefinition::Number { .. }));
    assert!(matches!(boolean_schema, PrimitiveSchemaDefinition::Boolean { .. }));
}

#[test]
fn test_elicitation_schema() {
    let schema = ElicitationSchema::new()
        .with_property(
            "name".to_string(),
            PrimitiveSchemaDefinition::string_with_description("Your name"),
        )
        .with_property("age".to_string(), PrimitiveSchemaDefinition::integer())
        .with_required(vec!["name".to_string()]);

    assert_eq!(schema.schema_type, "object");
    assert_eq!(schema.properties.len(), 2);
    assert_eq!(schema.required, Some(vec!["name".to_string()]));
    assert!(schema.schema_dialect.is_none());
}

#[test]
fn test_elicit_create_request() {
    let schema = ElicitationSchema::new().with_property(
        "username".to_string(),
        PrimitiveSchemaDefinition::string_with_description("Username"),
    );

    let request = ElicitRequest::new_form("Please enter your username", schema);

    assert_eq!(request.method, "elicitation/create");
    match &request.params {
        ElicitRequestParams::Form(form) => {
            assert_eq!(form.message, "Please enter your username");
        }
        ElicitRequestParams::Url(_) => panic!("expected form variant"),
    }
}

#[test]
fn test_elicit_result() {
    let mut content = HashMap::new();
    content.insert("name".to_string(), ElicitResultValue::from("John"));

    let accept_result = ElicitResult::accept(content);
    let decline_result = ElicitResult::decline();
    let cancel_result = ElicitResult::cancel();

    assert!(matches!(accept_result.action, Action2026::Accept));
    assert!(accept_result.content.is_some());

    assert!(matches!(decline_result.action, Action2026::Decline));
    assert!(decline_result.content.is_none());

    assert!(matches!(cancel_result.action, Action2026::Cancel));
    assert!(cancel_result.content.is_none());
}

#[test]
fn test_elicitation_builder() {
    let text_request = Builder2026::text_input("Enter your name", "name", "Your full name");

    let confirm_request = Builder2026::confirm("Do you agree?");

    assert_eq!(text_request.method, "elicitation/create");
    if let ElicitRequestParams::Form(_) = &text_request.params {
        assert!(form_has_property(&text_request, "name"));
    } else {
        panic!("text builder must produce Form variant");
    }

    assert_eq!(confirm_request.method, "elicitation/create");
    if let ElicitRequestParams::Form(_) = &confirm_request.params {
        assert!(form_has_property(&confirm_request, "confirmed"));
    } else {
        panic!("confirm builder must produce Form variant");
    }
}

#[test]
fn accessor_methods_only_return_some_for_their_own_variant() {
    let s = ElicitResultValue::String("hi".to_string());
    assert_eq!(s.as_str(), Some("hi"));
    assert!(!matches!(s, ElicitResultValue::Number(_)));
    assert_eq!(s.as_bool(), None);
    assert!(s.as_string_array().is_none());

    let n = ElicitResultValue::Number(2.5f64.to_bits());
    assert!(matches!(n, ElicitResultValue::Number(bits) if f64::from_bits(bits) == 2.5));
    assert_eq!(n.as_str(), None);

    let b = ElicitResultValue::Boolean(true);
    assert_eq!(b.as_bool(), Some(true));
    assert_eq!(b.as_str(), None);

    let arr = ElicitResultValue::StringArray(vec!["a".to_string()]);
    assert_eq!(arr.as_string_array(), Some(&["a".to_string()][..]));
    assert_eq!(arr.as_str(), None);
}

#[test]
fn url_requests_and_url_fields() {
    let request = ElicitRequest::new_url("Sign in", "https://example.com/login");
    match &request.params {
        ElicitRequestParams::Url(u) => {
            assert_eq!(u.url, "https://example.com/login");
            assert_eq!(u.message, "Sign in");
        }
        ElicitRequestParams::Form(_) => panic!("expected url variant"),
    }
    let url_request = Builder2026::url_input("Where?", "site", "Your site");
    match &url_request.params {
        ElicitRequestParams::Form(form) => match &form.requested_schema.properties[0].1 {
            PrimitiveSchemaDefinition::String(s) => {
                assert_eq!(s.format, Some(Format2026::Uri));
                assert_eq!(s.description.as_deref(), Some("Your site"));
            }
            _ => panic!("a URL field is a string field"),
        },
        ElicitRequestParams::Url(_) => panic!("the URL field is asked for by a form"),
    }
    let schema = ElicitationSchema::new().with_schema_dialect("https://json-schema.org/draft/2020-12/schema");
    assert_eq!(schema.schema_dialect.as_deref(), Some("https://json-schema.org/draft/2020-12/schema"));
    let replaced = request.with_params(ElicitRequestParams::Form(
        turul_mcp_protocol::v2026_07_28::elicitation::ElicitRequestFormParams::new("m", ElicitationSchema::new()),
    ));
    assert!(matches!(replaced.params, ElicitRequestParams::Form(_)));
    let number = Builder2026::number_input("n?", "n", "a number", None, Some(10.0f64.to_bits()));
    match &number.params {
        ElicitRequestParams::Form(form) => {
            assert_eq!(form.requested_schema.required, Some(vec!["n".to_string()]));
            match &form.requested_schema.properties[0].1 {
                PrimitiveSchemaDefinition::Number(s) => assert_eq!(s.maximum.map(f64::from_bits), Some(10.0)),
                _ => panic!("a number field is a number field"),
            }
        }
        ElicitRequestParams::Url(_) => panic!("expected form variant"),
    }
}

use turul_mcp_protocol::v2026_07_28::caching::CacheableResult;

#[test]
fn helpers_produce_expected_values() {
    let stale = CacheableResult::stale_public();
    assert_eq!(f64::from_bits(stale.ttl_ms), 0.0);
    assert_eq!(stale.cache_scope, CacheScope::Public);

    let p60 = CacheableResult::private_60s();
    assert_eq!(f64::from_bits(p60.ttl_ms), 60_000.0);
    assert_eq!(p60.cache_scope, CacheScope::Private);
}

use turul_mcp_protocol::v2026_07_28::completion::CompletionResult;

#[test]
fn completion_result_new_does_not_truncate() {
    let values: Vec<String> = (0..150).map(|i| format!("v{i}")).collect();
    let result = CompletionResult::new(values);
    assert_eq!(result.values.len(), 150);
    assert_eq!(result.has_more, None);
}

#[test]
fn completion_result_builders_keep_values() {
    let result = CompletionResult::new(vec!["a".to_string()])
        .with_total(150.0f64.to_bits())
        .with_has_more(true);
    assert_eq!(result.values, vec!["a".to_string()]);
    assert_eq!(result.total.map(f64::from_bits), Some(150.0));
    assert_eq!(result.has_more, Some(true));
}

use turul_mcp_protocol::v2026_07_28::input_required::{input_request_kind, InputRequestKind, InputRequestKindError};

fn with_method(method: Option<Json>) -> Json {
    let mut members = vec![("id".to_string(), Json::Number(JsonNumber::PosInt(1)))];
    if let Some(m) = method {
        members.push(("method".to_string(), m));
    }
    Json::Object(members)
}

#[test]
fn input_requests_are_told_apart_by_method() {
    let s = |t: &str| Some(Json::String(t.to_string()));
    assert_eq!(input_request_kind(&with_method(s("sampling/createMessage"))), Ok(InputRequestKind::CreateMessage));
    assert_eq!(input_request_kind(&with_method(s("roots/list"))), Ok(InputRequestKind::ListRoots));
    assert_eq!(input_request_kind(&with_method(s("elicitation/create"))), Ok(InputRequestKind::Elicit));
    assert_eq!(
        input_request_kind(&with_method(s("tools/call"))),
        Err(InputRequestKindError::UnknownMethod("tools/call".to_string()))
    );
    assert_eq!(input_request_kind(&with_method(None)), Err(InputRequestKindError::MissingMethod));
    assert_eq!(
        input_request_kind(&with_method(Some(Json::Bool(true)))),
        Err(InputRequestKindError::MissingMethod)
    );
    assert_eq!(input_request_kind(&Json::Null), Err(InputRequestKindError::MissingMethod));
}

use turul_mcp_protocol::v2026_07_28::notifications::ProgressNotification as Progress2026;

#[test]
fn progress_notifications_carry_token_progress_and_total() {
    let token = ProgressToken::Number(JsonNumber::PosInt(7));
    let n = Progress2026::new(token, 0.42f64.to_bits())
        .with_total(1.0f64.to_bits())
        .with_message("loading...");
    assert_eq!(n.method, "notifications/progress");
    assert!(matches!(n.params.progress_token, ProgressToken::Number(JsonNumber::PosInt(7))));
    assert_eq!(f64::from_bits(n.params.progress), 0.42);
    assert_eq!(n.params.total.map(f64::from_bits), Some(1.0));
    assert_eq!(n.params.message.as_deref(), Some("loading..."));
    assert!(n.params.meta.is_none());
}

use turul_mcp_protocol::v2026_07_28::compliance::cli::{
    after_probe, after_resolve, after_write, parse_command, run_exit_status, Command as CliCommand,
    RefreshAction,
};
use turul_mcp_protocol::v2026_07_28::compliance::fetch::FetchError as CliFetchError;

fn args(list: &[&str]) -> Vec<String> {
    list.iter().map(|s| s.to_string()).collect()
}

#[test]
fn compliance_command_is_read_from_arguments() {
    assert_eq!(parse_command(&args(&[])), CliCommand::Run);
    assert_eq!(parse_command(&args(&["run"])), CliCommand::Run);
    assert_eq!(parse_command(&args(&["--write"])), CliCommand::Run);
    assert_eq!(parse_command(&args(&["refresh"])), CliCommand::Refresh { write: false });
    assert_eq!(parse_command(&args(&["refresh", "--write"])), CliCommand::Refresh { write: true });
    assert_eq!(parse_command(&args(&["refresh", "x", "--write", "y"])), CliCommand::Refresh { write: true });
}

#[test]
fn compliance_exit_statuses_follow_the_steps() {
    let clean = Report::new();
    let mut failing = Report::new();
    failing.note_fixture("tools", "a.json", Outcome::ParseError("bad".to_string()));
    assert_eq!(run_exit_status(&Ok(Report::new())), 0);
    assert_eq!(run_exit_status(&Ok(failing)), 1);
    assert_eq!(run_exit_status(&Err(CliFetchError::CachePoisoned("x".to_string()))), 2);

    assert_eq!(after_resolve("abc", Ok("abc".to_string())), RefreshAction::Exit(0));
    assert_eq!(after_resolve("abc", Ok("def".to_string())), RefreshAction::Probe("def".to_string()));
    assert_eq!(
        after_resolve("abc", Err(CliFetchError::CachePoisoned("x".to_string()))),
        RefreshAction::Exit(2)
    );

    let mut failing = Report::new();
    failing.note_fixture("tools", "a.json", Outcome::ParseError("bad".to_string()));
    assert_eq!(after_probe("def".to_string(), &Ok(failing), true), RefreshAction::Exit(1));
    assert_eq!(after_probe("def".to_string(), &Ok(Report::new()), false), RefreshAction::Exit(0));
    assert_eq!(after_probe("def".to_string(), &Ok(clean), true), RefreshAction::Write("def".to_string()));
    assert_eq!(
        after_probe("def".to_string(), &Err(CliFetchError::CachePoisoned("x".to_string())), true),
        RefreshAction::Exit(2)
    );
    assert_eq!(after_write(&Ok(())), 0);
    assert_eq!(after_write(&Err("disk full".to_string())), 2);
}

use turul_mcp_protocol::v2025_06_18::prompts::Role as AudienceRole;
use turul_mcp_protocol::v2025_11_25::icons::Icon as Icon2026;
use turul_mcp_protocol::v2026_07_28::content::{ContentBlock, ResourceContents, ResourceReference};
use turul_mcp_protocol::v2026_07_28::meta::Annotations as Annotations2026;

#[test]
fn resource_links_keep_annotations_and_meta_on_the_resource() {
    let resource_ref = ResourceReference::new("file:///test/data.json", "test_data")
        .with_title("Test Data")
        .with_description("Sample data for testing")
        .with_mime_type("application/json")
        .with_annotations(Annotations2026::new().with_audience(vec![AudienceRole::User]))
        .with_meta(vec![("version".to_string(), Json::String("1.0".to_string()))]);
    let link = ContentBlock::resource_link(resource_ref);
    match link {
        ContentBlock::ResourceLink { resource } => {
            assert_eq!(resource.uri, "file:///test/data.json");
            assert_eq!(resource.title.as_deref(), Some("Test Data"));
            assert_eq!(resource.annotations.unwrap().audience, Some(vec![AudienceRole::User]));
            assert_eq!(resource.meta, Some(vec![("version".to_string(), Json::String("1.0".to_string()))]));
        }
        _ => panic!("Expected ResourceLink variant"),
    }
}

#[test]
fn content_blocks_take_annotations_and_meta_where_they_can() {
    let text = ContentBlock::text("hi").with_annotations(Annotations2026::new().with_last_modified("2026-01-01"));
    match &text {
        ContentBlock::Text { text, annotations, meta } => {
            assert_eq!(text, "hi");
            assert_eq!(annotations.as_ref().unwrap().last_modified.as_deref(), Some("2026-01-01"));
            assert!(meta.is_none());
        }
        _ => panic!("text stays text"),
    }
    let link = ContentBlock::resource_link(ResourceReference::new("file:///a", "a"))
        .with_annotations(Annotations2026::new())
        .with_meta(vec![]);
    match &link {
        ContentBlock::ResourceLink { resource } => {
            assert!(resource.annotations.is_some());
            assert_eq!(resource.meta, Some(vec![]));
        }
        _ => panic!("a link stays a link"),
    }
    let tool_use = ContentBlock::tool_use(
        "tu-123",
        "search",
        vec![("query".to_string(), Json::String("test search".to_string()))],
    )
    .with_annotations(Annotations2026::new());
    match &tool_use {
        ContentBlock::ToolUse { id, name, input, meta } => {
            assert_eq!(id, "tu-123");
            assert_eq!(name, "search");
            assert_eq!(input.len(), 1);
            assert!(meta.is_none());
        }
        _ => panic!("a tool use stays a tool use"),
    }
    let failed = ContentBlock::tool_result_error("tu-456", vec![ContentBlock::text("Tool failed: not found")])
        .with_meta(vec![("k".to_string(), Json::Null)]);
    match &failed {
        ContentBlock::ToolResult { tool_use_id, content, is_error, structured_content, meta } => {
            assert_eq!(tool_use_id, "tu-456");
            assert_eq!(content.len(), 1);
            assert_eq!(*is_error, Some(true));
            assert!(structured_content.is_none());
            assert!(meta.is_some());
        }
        _ => panic!("a tool result stays a tool result"),
    }
    let ok = ContentBlock::tool_result("tu-1", vec![]);
    assert!(matches!(ok, ContentBlock::ToolResult { is_error: None, .. }));
}

#[test]
fn resource_link_carries_size_and_icons() {
    let resource_ref = ResourceReference::new("file:///big.bin", "big-binary")
        .with_size(1_048_576)
        .with_icons(vec![Icon2026::new("https://example.com/icon.svg")]);
    match ContentBlock::resource_link(resource_ref) {
        ContentBlock::ResourceLink { resource } => {
            assert_eq!(resource.size, Some(1_048_576));
            assert_eq!(resource.icons.as_ref().map(|v| v.len()), Some(1));
        }
        _ => panic!("Expected ResourceLink variant"),
    }
    match ResourceContents::text_with_mime("mem://x", "body", "text/markdown") {
        ResourceContents::Text(t) => assert_eq!(t.mime_type.as_deref(), Some("text/markdown")),
        _ => panic!("text contents are text"),
    }
    assert!(matches!(ContentBlock::image("AAA", "image/png"), ContentBlock::Image { .. }));
    assert!(matches!(ContentBlock::audio("AAA", "audio/wav"), ContentBlock::Audio { .. }));
    assert!(matches!(
        ContentBlock::resource(ResourceContents::blob("mem://y", "AAA", "image/png")),
        ContentBlock::Resource { annotations: None, .. }
    ));
}

use turul_mcp_protocol::v2026_07_28::compliance::fetch::recorded_pin_matches;

#[test]
fn cache_marker_matches_pin_up_to_surrounding_white_space() {
    assert!(recorded_pin_matches("abc123\n", "abc123"));
    assert!(recorded_pin_matches("  abc123 ", "abc123"));
    assert!(!recorded_pin_matches("abc1234", "abc123"));
    assert!(!recorded_pin_matches("", "abc123"));
}

#[test]
fn table_mismatches_are_listed_once_in_sorted_order() {
    let table: Vec<String> = vec!["b".to_string(), "a".to_string()];
    let upstream: Vec<String> = vec!["z".to_string(), "c".to_string(), "z".to_string(), "a".to_string()];
    assert_eq!(
        table_matches_upstream(&upstream, &table),
        Err("coverage table out of sync with upstream tree: missing=[\"c\", \"z\"] extra=[\"b\"]".to_string())
    );
}
