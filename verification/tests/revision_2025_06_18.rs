use std::collections::HashMap;

use turul_mcp_protocol::v2025_06_18::completion::{
    CompleteArgument, CompletionContext, CompletionReference, PromptReference,
    ResourceTemplateReference,
};
use turul_mcp_protocol::v2025_06_18::elicitation::{
    BooleanSchema, ElicitAction, ElicitCreateRequest, ElicitResult, ElicitationBuilder,
    ElicitationSchema, EnumSchema, PrimitiveSchemaDefinition, StringSchema,
};
use turul_mcp_protocol::v2025_06_18::initialize::{Implementation, ResourcesCapabilities};
use turul_mcp_protocol::v2025_06_18::logging::LoggingLevel;
use turul_mcp_protocol::v2025_06_18::prompts::{GetPromptRequest, Prompt, PromptAnnotations, PromptArgument};

#[test]
fn initialize_test_implementation_creation() {
    let impl_info = Implementation::new("test-client", "1.0.0").with_title("Test Client");

    assert_eq!(impl_info.name, "test-client");
    assert_eq!(impl_info.version, "1.0.0");
    assert_eq!(impl_info.title, Some("Test Client".to_string()));
}

#[test]
fn logging_test_logging_level_priority() {
    assert_eq!(LoggingLevel::Debug.priority(), 0);
    assert_eq!(LoggingLevel::Emergency.priority(), 7);

    assert!(LoggingLevel::Error.should_log(LoggingLevel::Warning));
    assert!(!LoggingLevel::Info.should_log(LoggingLevel::Error));
}

#[test]
fn logging_levels_are_totally_ordered_by_priority() {
    let all = [
        LoggingLevel::Debug,
        LoggingLevel::Info,
        LoggingLevel::Notice,
        LoggingLevel::Warning,
        LoggingLevel::Error,
        LoggingLevel::Critical,
        LoggingLevel::Alert,
        LoggingLevel::Emergency,
    ];
    for (i, a) in all.iter().enumerate() {
        assert_eq!(a.priority() as usize, i);
        assert!(a.should_log(*a));
        for b in all.iter() {
            assert!(a.should_log(*b) || b.should_log(*a));
        }
    }
}

#[test]
fn completion_references_carry_their_type_tags() {
    let r = ResourceTemplateReference::new("file:///test/{name}.txt");
    assert_eq!(r.ref_type, "ref/resource");
    assert_eq!(r.uri, "file:///test/{name}.txt");

    let p = PromptReference::new("greet").with_description("Says hello");
    assert_eq!(p.ref_type, "ref/prompt");
    assert_eq!(p.name, "greet");
    assert_eq!(p.description, Some("Says hello".to_string()));

    match CompletionReference::resource("file:///x") {
        CompletionReference::ResourceTemplate(t) => assert_eq!(t.uri, "file:///x"),
        _ => panic!("expected a resource reference"),
    }
    match CompletionReference::prompt("p") {
        CompletionReference::Prompt(t) => {
            assert_eq!(t.name, "p");
            assert!(t.description.is_none());
        }
        _ => panic!("expected a prompt reference"),
    }
}

#[test]
fn completion_argument_and_context() {
    let a = CompleteArgument::new("language", "py");
    assert_eq!(a.name, "language");
    assert_eq!(a.value, "py");

    assert!(CompletionContext::new().arguments.is_none());
    let mut args = HashMap::new();
    args.insert("framework".to_string(), "flask".to_string());
    let c = CompletionContext::new().with_arguments(args.clone());
    assert_eq!(c.arguments, Some(args));
}

#[test]
fn elicitation_schemas_start_bare_and_take_descriptions() {
    let s = StringSchema::new().with_description("Your name");
    assert_eq!(s.schema_type, "string");
    assert_eq!(s.description, Some("Your name".to_string()));
    assert!(s.min_length.is_none() && s.format.is_none());

    let b = BooleanSchema::new().with_description("Agree?");
    assert_eq!(b.schema_type, "boolean");
    assert_eq!(b.description, Some("Agree?".to_string()));

    let e = EnumSchema::new(vec!["a".to_string(), "b".to_string()])
        .with_description("Pick")
        .with_enum_names(vec!["A".to_string(), "B".to_string()]);
    assert_eq!(e.schema_type, "string");
    assert_eq!(e.enum_values, vec!["a".to_string(), "b".to_string()]);
    assert_eq!(e.enum_names, Some(vec!["A".to_string(), "B".to_string()]));
    assert_eq!(e.description, Some("Pick".to_string()));
}

#[test]
fn prompt_arguments_and_annotations() {
    let a = PromptArgument::new("topic")
        .with_title("Topic")
        .with_description("What to write about")
        .required();
    assert_eq!(a.name, "topic");
    assert_eq!(a.title, Some("Topic".to_string()));
    assert_eq!(a.description, Some("What to write about".to_string()));
    assert_eq!(a.required, Some(true));
    assert_eq!(PromptArgument::new("x").optional().required, Some(false));

    assert!(PromptAnnotations::new().title.is_none());
    assert_eq!(PromptAnnotations::new().with_title("T").title, Some("T".to_string()));
}

#[test]
fn capabilities_default_to_unset() {
    let c = ResourcesCapabilities::default();
    assert!(c.subscribe.is_none() && c.list_changed.is_none());
}

use turul_mcp_protocol::json::Json;
use turul_mcp_protocol::rpc_error::RequestId;
use turul_mcp_protocol::v2025_06_18::completion::{
    filter_by_prefix, CompleteRequest, CompleteResult, CompletionResult, HasCompletionHandling,
};
use turul_mcp_protocol::v2025_06_18::logging::{LoggingMessageNotification as LogNotification, SetLevelRequest};
use turul_mcp_protocol::v2025_06_18::notifications::{
    validate_notification_method, CancelledNotification, InitializedNotification,
    LoggingMessageNotification, Notification, NotificationParams, ProgressNotification,
    PromptListChangedNotification, ResourceListChangedNotification, ResourceUpdatedNotification,
    RootsListChangedNotification, ToolListChangedNotification,
};

fn log_data() -> Json {
    Json::Object(vec![
        ("context".to_string(), Json::String("test".to_string())),
        ("message".to_string(), Json::String("Test log message".to_string())),
    ])
}

#[test]
fn notifications_test_resource_list_changed() {
    let notification = ResourceListChangedNotification::new();
    assert_eq!(notification.method, "notifications/resources/list_changed");
}

#[test]
fn notifications_test_tool_list_changed() {
    let notification = ToolListChangedNotification::new();
    assert_eq!(notification.method, "notifications/tools/list_changed");
}

#[test]
fn notifications_test_prompt_list_changed() {
    let notification = PromptListChangedNotification::new();
    assert_eq!(notification.method, "notifications/prompts/list_changed");
}

#[test]
fn test_roots_list_changed() {
    let notification = RootsListChangedNotification::new();
    assert_eq!(notification.method, "notifications/roots/list_changed");
}

#[test]
fn notifications_test_progress_notification() {
    let notification = ProgressNotification::new("token123", 50)
        .with_total(100)
        .with_message("Processing...");

    assert_eq!(notification.method, "notifications/progress");
    assert_eq!(notification.params.progress_token, "token123");
    assert_eq!(notification.params.progress, 50);
    assert_eq!(notification.params.total, Some(100));
    assert_eq!(notification.params.message, Some("Processing...".to_string()));
}

#[test]
fn notifications_test_resource_updated() {
    let notification = ResourceUpdatedNotification::new("file:///test.txt");
    assert_eq!(notification.method, "notifications/resources/updated");
    assert_eq!(notification.params.uri, "file:///test.txt");
}

#[test]
fn notifications_test_cancelled_notification() {
    let notification = CancelledNotification::new(RequestId::Number(123)).with_reason("User cancelled");

    assert_eq!(notification.method, "notifications/cancelled");
    assert_eq!(notification.params.request_id, RequestId::Number(123));
    assert_eq!(notification.params.reason, Some("User cancelled".to_string()));
}

#[test]
fn test_initialized_notification() {
    let notification = InitializedNotification::new();
    assert_eq!(notification.method, "notifications/initialized");
}

#[test]
fn notifications_test_logging_message_notification() {
    let data = log_data();
    let notification = LoggingMessageNotification::new(LoggingLevel::Info, log_data()).with_logger("test-logger");

    assert_eq!(notification.method, "notifications/message");
    assert_eq!(notification.params.level, LoggingLevel::Info);
    assert_eq!(notification.params.logger, Some("test-logger".to_string()));
    assert_eq!(notification.params.data, data);
}

#[test]
fn test_set_level_request() {
    let request = SetLevelRequest::new(LoggingLevel::Warning);

    assert_eq!(request.method, "logging/setLevel");
    assert_eq!(request.params.level, LoggingLevel::Warning);
}

#[test]
fn logging_test_logging_message_notification() {
    let data = log_data();
    let notification = LogNotification::new(LoggingLevel::Info, log_data()).with_logger("test-logger");

    assert_eq!(notification.method, "notifications/message");
    assert_eq!(notification.params.level, LoggingLevel::Info);
    assert_eq!(notification.params.logger, Some("test-logger".to_string()));
    assert_eq!(notification.params.data, data);
}

#[test]
fn notification_params_and_generic_notification() {
    let p = NotificationParams::new()
        .with_param("a", Json::Bool(true))
        .with_param("a", Json::Bool(false));
    assert_eq!(p.other, vec![("a".to_string(), Json::Bool(false))]);
    let n = Notification::new("notifications/custom").with_params(p);
    assert_eq!(n.method, "notifications/custom");
    assert!(n.params.is_some());
    let n = ToolListChangedNotification::new().with_meta(vec![("k".to_string(), Json::Null)]);
    assert_eq!(n.params.unwrap().meta, Some(vec![("k".to_string(), Json::Null)]));
}

#[test]
fn notification_methods_are_validated() {
    assert_eq!(validate_notification_method(""), Err("Notification method cannot be empty".to_string()));
    assert_eq!(
        validate_notification_method("tools/call"),
        Err("Notification method must start with 'notifications/'".to_string())
    );
    assert_eq!(validate_notification_method("notifications/x"), Ok(()));
}

struct DefaultHandling;

impl HasCompletionHandling for DefaultHandling {}

#[test]
fn completion_requests_and_prefix_filtering() {
    let r = CompleteRequest::new(CompletionReference::prompt("p"), CompleteArgument::new("lang", "py"));
    assert_eq!(r.method, "completion/complete");
    assert!(r.params.context.is_none());
    let r = r.with_context(CompletionContext::new());
    assert!(r.params.context.is_some());

    let result = CompleteResult::new(CompletionResult::new(vec!["python".to_string()]).with_total(1).with_has_more(false));
    assert_eq!(result.completion.total, Some(1));
    assert_eq!(result.completion.has_more, Some(false));

    let values = vec!["Python".to_string(), "pytorch".to_string(), "rust".to_string()];
    assert_eq!(filter_by_prefix(values.clone(), "PY"), vec!["Python".to_string(), "pytorch".to_string()]);
    assert_eq!(DefaultHandling.filter_completions(values, "r"), vec!["rust".to_string()]);
    assert_eq!(DefaultHandling.validate_request(&CompleteRequest::new(
        CompletionReference::resource("file:///x"),
        CompleteArgument::new("a", "b"),
    )), Ok(()));
}

fn has_property(schema: &ElicitationSchema, name: &str) -> bool {
    schema.properties.iter().any(|(k, _)| k == name)
}

#[test]
fn elicitation_test_primitive_schema_creation() {
    let string_schema = PrimitiveSchemaDefinition::string_with_description("Enter your name");
    let number_schema = PrimitiveSchemaDefinition::number();
    let boolean_schema = PrimitiveSchemaDefinition::boolean();

    assert!(matches!(string_schema, PrimitiveSchemaDefinition::String { .. }));
    assert!(matches!(number_schema, PrimitiveSchemaDefinition::Number { .. }));
    assert!(matches!(boolean_schema, PrimitiveSchemaDefinition::Boolean { .. }));
}

#[test]
fn elicitation_test_elicitation_schema() {
    let schema = ElicitationSchema::new()
        .with_property(
            "name".to_string(),
            PrimitiveSchemaDefinition::string_with_description("Your name"),
        )
        .with_property("age".to_string(), PrimitiveSchemaDefinition::integer())
        .with_required(vec!["name".to_string()]);

    assert_eq!(schema.schema_type, "object");
    assert_eq!(schema.properties.len(), 2);
    assert_eq!(schema.required, Some(vec!["name".to_string()]));
}

#[test]
fn elicitation_test_elicit_create_request() {
    let schema = ElicitationSchema::new().with_property(
        "username".to_string(),
        PrimitiveSchemaDefinition::string_with_description("Username"),
    );

    let request = ElicitCreateRequest::new("Please enter your username", schema);

    assert_eq!(request.method, "elicitation/create");
    assert_eq!(request.params.message, "Please enter your username");
}

#[test]
fn elicitation_test_elicit_result() {
    let content = vec![("name".to_string(), Json::String("John".to_string()))];

    let accept_result = ElicitResult::accept(content);
    let decline_result = ElicitResult::decline();
    let cancel_result = ElicitResult::cancel();

    assert!(matches!(accept_result.action, ElicitAction::Accept));
    assert!(accept_result.content.is_some());

    assert!(matches!(decline_result.action, ElicitAction::Decline));
    assert!(decline_result.content.is_none());

    assert!(matches!(cancel_result.action, ElicitAction::Cancel));
    assert!(cancel_result.content.is_none());
}

#[test]
fn elicitation_test_elicitation_builder() {
    let text_request = ElicitationBuilder::text_input("Enter your name", "name", "Your full name");

    let confirm_request = ElicitationBuilder::confirm("Do you agree?");

    assert_eq!(text_request.method, "elicitation/create");
    assert!(has_property(&text_request.params.requested_schema, "name"));

    assert_eq!(confirm_request.method, "elicitation/create");
    assert!(has_property(&confirm_request.params.requested_schema, "confirmed"));
}

#[test]
fn elicitation_schema_property_set_twice_keeps_one_field() {
    let schema = ElicitationSchema::new()
        .with_property("age".to_string(), PrimitiveSchemaDefinition::number())
        .with_property("name".to_string(), PrimitiveSchemaDefinition::string())
        .with_property("age".to_string(), PrimitiveSchemaDefinition::integer());

    assert_eq!(schema.properties.len(), 2);
    assert_eq!(schema.properties[0].0, "age");
    assert_eq!(schema.properties[1].0, "name");
    match &schema.properties[0].1 {
        PrimitiveSchemaDefinition::Number(n) => assert_eq!(n.schema_type, "integer"),
        _ => panic!("the age field is no longer a number"),
    }
}

#[test]
fn elicitation_number_input_keeps_bounds_and_requires_its_field() {
    let min = 1.5f64;
    let request = ElicitationBuilder::number_input(
        "How many?",
        "count",
        "A count",
        Some(min.to_bits()),
        None,
    );
    let schema = &request.params.requested_schema;
    assert_eq!(request.params.message, "How many?");
    assert_eq!(schema.required, Some(vec!["count".to_string()]));
    match &schema.properties[0].1 {
        PrimitiveSchemaDefinition::Number(n) => {
            assert_eq!(n.schema_type, "number");
            assert_eq!(n.description.as_deref(), Some("A count"));
            assert_eq!(n.minimum.map(f64::from_bits), Some(1.5));
            assert_eq!(n.maximum, None);
        }
        _ => panic!("the count field is not a number"),
    }
    let confirm = ElicitationBuilder::confirm("Sure?");
    assert_eq!(
        confirm.params.requested_schema.required,
        Some(vec!["confirmed".to_string()])
    );
    let with_meta = ElicitResult::decline().with_meta(vec![("k".to_string(), Json::Null)]);
    assert!(with_meta.meta.is_some());
}

#[test]
fn test_prompt_creation() {
    let arg = PromptArgument::new("topic")
        .with_description("The topic to write about")
        .required();

    let prompt = Prompt::new("write_essay")
        .with_description("Write an essay about a topic")
        .with_arguments(vec![arg]);

    assert_eq!(prompt.name, "write_essay");
    assert!(prompt.description.is_some());
    assert!(prompt.arguments.is_some());
}

#[test]
fn test_get_prompt_request() {
    let mut args = HashMap::new();
    args.insert("topic".to_string(), "AI Safety".to_string());

    let request = GetPromptRequest::new("write_essay").with_arguments(args);

    assert_eq!(request.params.name, "write_essay");
    assert!(request.params.arguments.is_some());

    if let Some(ref arguments) = request.params.arguments {
        assert_eq!(arguments.get("topic"), Some(&"AI Safety".to_string()));
    }
}

#[test]
fn prompt_builders_keep_other_fields() {
    let prompt = Prompt::new("p")
        .with_title("Title")
        .with_meta(vec![("k".to_string(), Json::Bool(true))])
        .with_description("d");
    assert_eq!(prompt.title.as_deref(), Some("Title"));
    assert_eq!(prompt.description.as_deref(), Some("d"));
    assert_eq!(prompt.meta, Some(vec![("k".to_string(), Json::Bool(true))]));
    let request = GetPromptRequest::new("p").with_meta(vec![]);
    assert_eq!(request.method, "prompts/get");
    assert!(request.params.arguments.is_none());
    assert_eq!(request.params.meta, Some(vec![]));
}

use turul_mcp_protocol::v2025_06_18::schema::{JsonSchema, ToJsonSchema};

#[test]
fn json_schema_constructors_and_description() {
    assert!(matches!(String::to_json_schema(), JsonSchema::String { .. }));
    assert!(matches!(i32::to_json_schema(), JsonSchema::Integer { .. }));
    assert!(matches!(bool::to_json_schema(), JsonSchema::Boolean { .. }));
    assert!(matches!(<Vec<i64>>::to_json_schema(), JsonSchema::Array { items: Some(_), .. }));
    assert!(matches!(<Option<&str>>::to_json_schema(), JsonSchema::String { .. }));

    let described = JsonSchema::integer().with_description("count");
    assert_eq!(
        described,
        JsonSchema::Integer { description: Some("count".to_string()), minimum: None, maximum: None }
    );
    let object = JsonSchema::object_with_required(
        vec![("name".to_string(), JsonSchema::string()), ("age".to_string(), JsonSchema::integer())],
        vec!["name".to_string()],
    )
    .with_description("person");
    match object {
        JsonSchema::Object { description, properties, required, additional_properties } => {
            assert_eq!(description.as_deref(), Some("person"));
            assert_eq!(properties.unwrap().len(), 2);
            assert_eq!(required, Some(vec!["name".to_string()]));
            assert_eq!(additional_properties, None);
        }
        _ => panic!("an object schema stays an object schema"),
    }
}

#[test]
fn json_schema_object_setters_leave_other_types_alone() {
    assert_eq!(JsonSchema::boolean().with_required(vec!["x".to_string()]), JsonSchema::boolean());
    assert_eq!(JsonSchema::number().with_properties(vec![]), JsonSchema::number());
    let o = JsonSchema::object()
        .with_properties(vec![("x".to_string(), JsonSchema::boolean())])
        .with_required(vec!["x".to_string()]);
    assert_eq!(
        o,
        JsonSchema::Object {
            description: None,
            properties: Some(vec![("x".to_string(), JsonSchema::boolean())]),
            required: Some(vec!["x".to_string()]),
            additional_properties: None,
        }
    );
    assert_eq!(
        JsonSchema::string_enum(vec!["a".to_string()]),
        JsonSchema::String {
            description: None,
            pattern: None,
            min_length: None,
            max_length: None,
            enum_values: Some(vec!["a".to_string()]),
        }
    );
    assert!(matches!(
        JsonSchema::array_with_description(JsonSchema::string(), "names"),
        JsonSchema::Array { description: Some(_), items: Some(_), .. }
    ));
}

use turul_mcp_protocol::v2025_06_18::sampling::{ModelHint, ModelPreferences};

#[test]
fn model_preferences_start_empty() {
    let prefs = ModelPreferences::default();
    assert!(prefs.hints.is_none() && prefs.cost_priority.is_none());
    let prefs = prefs.with_hints(vec![ModelHint::Gpt4o]).with_speed_priority(0.75f64.to_bits());
    assert_eq!(prefs.hints, Some(vec![ModelHint::Gpt4o]));
    assert_eq!(prefs.speed_priority.map(f64::from_bits), Some(0.75));
    assert!(prefs.intelligence_priority.is_none());
}

#[test]
fn elicit_result_data_names_the_action_and_carries_the_content() {
    let accepted = ElicitResult::accept(vec![
        ("name".to_string(), Json::String("John Doe".to_string())),
        ("age".to_string(), Json::Number(turul_mcp_protocol::json::JsonNumber::PosInt(30))),
    ]);
    let data = accepted.data();
    assert_eq!(data.len(), 2);
    assert_eq!(data[0], ("action".to_string(), Json::String("accept".to_string())));
    assert_eq!(data[1].0, "content");
    assert_eq!(
        data[1].1,
        Json::Object(vec![
            ("name".to_string(), Json::String("John Doe".to_string())),
            ("age".to_string(), Json::Number(turul_mcp_protocol::json::JsonNumber::PosInt(30))),
        ])
    );
    let declined = ElicitResult::decline().data();
    assert_eq!(declined, vec![("action".to_string(), Json::String("decline".to_string()))]);
    assert_eq!(ElicitAction::Cancel.as_str(), "cancel");
}

use turul_mcp_protocol::v2025_06_18::notifications::to_notification;

#[test]
fn definitions_become_notifications() {
    let bare = to_notification("notifications/progress", None);
    assert_eq!(bare.method, "notifications/progress");
    assert!(bare.params.is_none());

    let payload = Json::Object(vec![("count".to_string(), Json::Bool(true))]);
    let with_object = to_notification("notifications/custom", Some(&payload));
    let params = with_object.params.unwrap();
    assert_eq!(params.other, vec![("count".to_string(), Json::Bool(true))]);
    assert!(params.meta.is_none());

    let with_scalar = to_notification("notifications/custom", Some(&Json::Bool(false)));
    assert!(with_scalar.params.unwrap().other.is_empty());
}

use turul_mcp_protocol::v2025_06_18::completion::{
    CompletionDefinition, HasCompletionContext, HasCompletionMetadata,
};

struct LanguageCompletion {
    reference: CompletionReference,
    argument: CompleteArgument,
    context: Option<CompletionContext>,
}

impl HasCompletionMetadata for LanguageCompletion {
    fn method(&self) -> &str {
        "completion/complete"
    }
    fn reference(&self) -> &CompletionReference {
        &self.reference
    }
}

impl HasCompletionContext for LanguageCompletion {
    fn argument(&self) -> &CompleteArgument {
        &self.argument
    }
    fn context(&self) -> Option<&CompletionContext> {
        self.context.as_ref()
    }
}

impl HasCompletionHandling for LanguageCompletion {}

#[test]
fn completion_definitions_become_requests() {
    let def = LanguageCompletion {
        reference: CompletionReference::prompt("code"),
        argument: CompleteArgument::new("lang", "ru"),
        context: None,
    };
    let request = def.to_complete_request();
    assert_eq!(request.method, "completion/complete");
    assert_eq!(request.params.argument.name, "lang");
    assert_eq!(request.params.argument.value, "ru");
    assert!(request.params.context.is_none());

    let with_context = LanguageCompletion { context: Some(CompletionContext::new()), ..def };
    assert!(with_context.to_complete_request().params.context.is_some());
}

use turul_mcp_protocol::v2025_06_18::elicitation::{
    ElicitationDefinition, HasElicitationHandling, HasElicitationMetadata, HasElicitationSchema,
};

struct PreferencesForm {
    schema: ElicitationSchema,
}

impl HasElicitationMetadata for PreferencesForm {
    fn message(&self) -> &str {
        "Please configure your preferences for this project"
    }
}

impl HasElicitationSchema for PreferencesForm {
    fn requested_schema(&self) -> &ElicitationSchema {
        &self.schema
    }
}

impl HasElicitationHandling for PreferencesForm {}

#[test]
fn elicitation_definitions_become_requests() {
    let form = PreferencesForm {
        schema: ElicitationSchema::new()
            .with_property("theme".to_string(), PrimitiveSchemaDefinition::string())
            .with_required(vec!["theme".to_string()]),
    };
    let request = form.to_create_request();
    assert_eq!(request.method, "elicitation/create");
    assert_eq!(request.params.message, "Please configure your preferences for this project");
    assert_eq!(request.params.requested_schema.properties.len(), 1);
    assert_eq!(form.validate_schema(), Ok(()));
    assert_eq!(form.validate_content(&vec![]), Ok(()));
    let content = vec![("theme".to_string(), Json::String("dark".to_string()))];
    assert_eq!(form.process_content(content), Ok(vec![("theme".to_string(), Json::String("dark".to_string()))]));
    assert_eq!(form.title(), None);
}

use turul_mcp_protocol::v2025_06_18::logging::{
    HasLogFormat, HasLogLevel, HasLogTransport, HasLoggingMetadata, LoggerDefinition,
};
use turul_mcp_protocol::v2025_06_18::notifications::{
    HasNotificationMetadata, HasNotificationPayload, HasNotificationRules, NotificationDefinition,
};

struct WarningSource;

impl HasLogLevel for WarningSource {
    fn level(&self) -> LoggingLevel {
        LoggingLevel::Warning
    }
}

#[test]
fn log_sources_pass_messages_at_least_as_severe_as_their_level() {
    assert!(WarningSource.should_log(LoggingLevel::Error));
    assert!(WarningSource.should_log(LoggingLevel::Warning));
    assert!(!WarningSource.should_log(LoggingLevel::Info));
}

struct AuditLogger {
    data: Json,
}

impl HasLoggingMetadata for AuditLogger {
    fn method(&self) -> &str {
        "notifications/message"
    }

    fn logger_name(&self) -> Option<&str> {
        Some("audit")
    }
}

impl HasLogLevel for AuditLogger {
    fn level(&self) -> LoggingLevel {
        LoggingLevel::Error
    }
}

impl HasLogFormat for AuditLogger {
    fn data(&self) -> &Json {
        &self.data
    }
}

impl HasLogTransport for AuditLogger {}

#[test]
fn logger_definitions_build_their_notification_and_level_request() {
    let logger = AuditLogger { data: Json::String("disk full".to_string()) };
    let n = logger.to_message_notification();
    assert_eq!(n.method, "notifications/message");
    assert_eq!(n.params.level, LoggingLevel::Error);
    assert_eq!(n.params.logger, Some("audit".to_string()));
    assert_eq!(n.params.data, Json::String("disk full".to_string()));
    let r = logger.to_set_level_request();
    assert_eq!(r.method, "logging/setLevel");
    assert_eq!(r.params.level, LoggingLevel::Error);
}

struct CustomNotice {
    method: String,
    payload: Option<Json>,
}

impl HasNotificationMetadata for CustomNotice {
    fn method(&self) -> &str {
        &self.method
    }
}

impl HasNotificationPayload for CustomNotice {
    fn payload(&self) -> Option<&Json> {
        self.payload.as_ref()
    }
}

impl HasNotificationRules for CustomNotice {}

#[test]
fn notification_definitions_carry_their_payload_and_check_their_method() {
    let notice = CustomNotice {
        method: "notifications/custom".to_string(),
        payload: Some(Json::Object(vec![("k".to_string(), Json::Bool(true))])),
    };
    let n = notice.to_notification();
    assert_eq!(n.method, "notifications/custom");
    let params = n.params.unwrap();
    assert_eq!(params.other, vec![("k".to_string(), Json::Bool(true))]);
    assert_eq!(notice.validate(), Ok(()));
    let bare = CustomNotice { method: "custom".to_string(), payload: None };
    assert!(bare.to_notification().params.is_none());
    assert_eq!(bare.validate(), Err("Notification method must start with 'notifications/'".to_string()));
    let empty = CustomNotice { method: String::new(), payload: None };
    assert_eq!(empty.validate(), Err("Notification method cannot be empty".to_string()));
}

#[test]
fn initialize_results_take_instructions() {
    let result = turul_mcp_protocol::v2025_06_18::initialize::InitializeResult {
        protocol_version: "2025-06-18".to_string(),
        capabilities: turul_mcp_protocol::v2025_06_18::initialize::ServerCapabilities::default(),
        server_info: turul_mcp_protocol::v2025_06_18::initialize::Implementation::new("srv", "1.0"),
        instructions: None,
    };
    let result = result.with_instructions("Call tools sparingly");
    assert_eq!(result.instructions, Some("Call tools sparingly".to_string()));
    assert_eq!(result.protocol_version, "2025-06-18");
    assert_eq!(result.server_info.name, "srv");
}
