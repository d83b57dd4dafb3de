//! Notifications: generic parameters, the list-changed, progress,
//! resource-update, cancellation, initialized and log message notifications,
//! and what a notification declares of itself and of its delivery.

use vstd::prelude::*;
use crate::json::{Json, inserted, keys_distinct, object_insert, clone_members};
use crate::text::{owned, starts_with};
use crate::v2025_06_18::logging::LoggingLevel;
use crate::rpc_error::RequestId;

verus! {

/// The method and kind of a notification.
pub trait HasNotificationMetadata {
    /// The method name of an implementation. A verified implementation
    /// states it; the accessor returns it.
    open spec fn method_spec(&self) -> Seq<char> {
        arbitrary()
    }

    /// The notification method name.
    fn method(&self) -> (r: &str)
        ensures
            r@ == self.method_spec();

    /// The notification's type or category; none unless supplied.
    fn notification_type(&self) -> Option<&str> {
        None
    }

    /// Whether the notification asks for an acknowledgment; not unless supplied.
    fn requires_ack(&self) -> bool {
        false
    }
}

/// The payload a notification carries.
pub trait HasNotificationPayload {
    /// The payload of an implementation, if it has one. A verified
    /// implementation states it; the accessor returns it.
    open spec fn payload_spec(&self) -> Option<Json> {
        arbitrary()
    }

    /// The payload data, if any.
    fn payload(&self) -> (r: Option<&Json>)
        ensures
            match r {
                Some(p) => self.payload_spec() == Some(*p),
                None => self.payload_spec() is None,
            };
}

/// Delivery rules of a notification.
pub trait HasNotificationRules {
    /// Delivery priority, higher is more important; 0 unless supplied.
    fn priority(&self) -> u32 {
        0
    }

    /// Whether the notification may be batched; yes unless supplied.
    fn can_batch(&self) -> bool {
        true
    }

    /// Maximum delivery attempts after the first; 3 unless supplied.
    fn max_retries(&self) -> u32 {
        3
    }

    /// Whether the notification is delivered; yes unless supplied.
    fn should_deliver(&self) -> bool {
        true
    }
}


/// Parameters of a notification: an optional `_meta` and further members.
#[derive(Debug)]
pub struct NotificationParams {
    pub meta: Option<Vec<(String, Json)>>,
    pub other: Vec<(String, Json)>,
}

impl NotificationParams {
    /// Empty parameters.
    pub fn new() -> (r: Self)
        ensures
            r.meta is None,
            r.other@.len() == 0,
    {
        NotificationParams { meta: None, other: Vec::new() }
    }

    /// The same parameters with `meta`.
    pub fn with_meta(self, meta: Vec<(String, Json)>) -> (r: Self)
        ensures
            r.meta == Some(meta),
            r.other == self.other,
    {
        NotificationParams { meta: Some(meta), ..self }
    }

    /// The same parameters with the member `key` set to `value`.
    pub fn with_param(self, key: &str, value: Json) -> (r: Self)
        ensures
            r.meta == self.meta,
            inserted(self.other@, r.other@, key@, value),
            keys_distinct(self.other@) ==> keys_distinct(r.other@),
    {
        let mut p = self;
        object_insert(&mut p.other, owned(key), value);
        p
    }
}

/// A notification of any method.
#[derive(Debug)]
pub struct Notification {
    pub method: String,
    pub params: Option<NotificationParams>,
}

impl Notification {
    /// A notification of `method`, without parameters.
    pub fn new(method: &str) -> (r: Self)
        ensures
            r.method@ == method@,
            r.params is None,
    {
        Notification { method: owned(method), params: None }
    }

    /// The same notification with `params`.
    pub fn with_params(self, params: NotificationParams) -> (r: Self)
        ensures
            r.method == self.method,
            r.params == Some(params),
    {
        Notification { params: Some(params), ..self }
    }
}

/// A `notifications/resources/list_changed` notification.
#[derive(Debug)]
pub struct ResourceListChangedNotification {
    pub method: String,
    pub params: Option<NotificationParams>,
}

impl ResourceListChangedNotification {
    /// The notification, without parameters.
    pub fn new() -> (r: Self)
        ensures
            r.method@ == "notifications/resources/list_changed"@,
            r.params is None,
    {
        ResourceListChangedNotification { method: owned("notifications/resources/list_changed"), params: None }
    }

    /// The same notification with parameters carrying only `meta`.
    pub fn with_meta(self, meta: Vec<(String, Json)>) -> (r: Self)
        ensures
            r.method == self.method,
            r.params matches Some(p) && p.meta == Some(meta) && p.other@.len() == 0,
    {
        ResourceListChangedNotification { params: Some(NotificationParams::new().with_meta(meta)), ..self }
    }
}

/// A `notifications/tools/list_changed` notification.
#[derive(Debug)]
pub struct ToolListChangedNotification {
    pub method: String,
    pub params: Option<NotificationParams>,
}

impl ToolListChangedNotification {
    /// The notification, without parameters.
    pub fn new() -> (r: Self)
        ensures
            r.method@ == "notifications/tools/list_changed"@,
            r.params is None,
    {
        ToolListChangedNotification { method: owned("notifications/tools/list_changed"), params: None }
    }

    /// The same notification with parameters carrying only `meta`.
    pub fn with_meta(self, meta: Vec<(String, Json)>) -> (r: Self)
        ensures
            r.method == self.method,
            r.params matches Some(p) && p.meta == Some(meta) && p.other@.len() == 0,
    {
        ToolListChangedNotification { params: Some(NotificationParams::new().with_meta(meta)), ..self }
    }
}

/// A `notifications/prompts/list_changed` notification.
#[derive(Debug)]
pub struct PromptListChangedNotification {
    pub method: String,
    pub params: Option<NotificationParams>,
}

impl PromptListChangedNotification {
    /// The notification, without parameters.
    pub fn new() -> (r: Self)
        ensures
            r.method@ == "notifications/prompts/list_changed"@,
            r.params is None,
    {
        PromptListChangedNotification { method: owned("notifications/prompts/list_changed"), params: None }
    }

    /// The same notification with parameters carrying only `meta`.
    pub fn with_meta(self, meta: Vec<(String, Json)>) -> (r: Self)
        ensures
            r.method == self.method,
            r.params matches Some(p) && p.meta == Some(meta) && p.other@.len() == 0,
    {
        PromptListChangedNotification { params: Some(NotificationParams::new().with_meta(meta)), ..self }
    }
}

/// A `notifications/roots/list_changed` notification.
#[derive(Debug)]
pub struct RootsListChangedNotification {
    pub method: String,
    pub params: Option<NotificationParams>,
}

impl RootsListChangedNotification {
    /// The notification, without parameters.
    pub fn new() -> (r: Self)
        ensures
            r.method@ == "notifications/roots/list_changed"@,
            r.params is None,
    {
        RootsListChangedNotification { method: owned("notifications/roots/list_changed"), params: None }
    }

    /// The same notification with parameters carrying only `meta`.
    pub fn with_meta(self, meta: Vec<(String, Json)>) -> (r: Self)
        ensures
            r.method == self.method,
            r.params matches Some(p) && p.meta == Some(meta) && p.other@.len() == 0,
    {
        RootsListChangedNotification { params: Some(NotificationParams::new().with_meta(meta)), ..self }
    }
}

/// A `notifications/initialized` notification.
#[derive(Debug)]
pub struct InitializedNotification {
    pub method: String,
    pub params: Option<NotificationParams>,
}

impl InitializedNotification {
    /// The notification, without parameters.
    pub fn new() -> (r: Self)
        ensures
            r.method@ == "notifications/initialized"@,
            r.params is None,
    {
        InitializedNotification { method: owned("notifications/initialized"), params: None }
    }

    /// The same notification with parameters carrying only `meta`.
    pub fn with_meta(self, meta: Vec<(String, Json)>) -> (r: Self)
        ensures
            r.method == self.method,
            r.params matches Some(p) && p.meta == Some(meta) && p.other@.len() == 0,
    {
        InitializedNotification { params: Some(NotificationParams::new().with_meta(meta)), ..self }
    }
}

/// Parameters of a progress notification.
#[derive(Debug)]
pub struct ProgressNotificationParams {
    pub progress_token: String,
    pub progress: u64,
    pub total: Option<u64>,
    pub message: Option<String>,
    pub meta: Option<Vec<(String, Json)>>,
}

/// A `notifications/progress` notification.
#[derive(Debug)]
pub struct ProgressNotification {
    pub method: String,
    pub params: ProgressNotificationParams,
}

impl ProgressNotification {
    /// Progress `progress` of the operation `progress_token`.
    pub fn new(progress_token: &str, progress: u64) -> (r: Self)
        ensures
            r.method@ == "notifications/progress"@,
            r.params.progress_token@ == progress_token@,
            r.params.progress == progress,
            r.params.total is None && r.params.message is None && r.params.meta is None,
    {
        ProgressNotification {
            method: owned("notifications/progress"),
            params: ProgressNotificationParams {
                progress_token: owned(progress_token),
                progress,
                total: None,
                message: None,
                meta: None,
            },
        }
    }

    /// The same notification with the total.
    pub fn with_total(self, total: u64) -> (r: Self)
        ensures
            r.method == self.method,
            r.params == (ProgressNotificationParams { total: Some(total), ..self.params }),
    {
        ProgressNotification { params: ProgressNotificationParams { total: Some(total), ..self.params }, ..self }
    }

    /// The same notification with a message.
    pub fn with_message(self, message: &str) -> (r: Self)
        ensures
            r.method == self.method,
            r.params == (ProgressNotificationParams { message: r.params.message, ..self.params }),
            r.params.message matches Some(m) && m@ == message@,
    {
        ProgressNotification {
            params: ProgressNotificationParams { message: Some(owned(message)), ..self.params },
            ..self
        }
    }

    /// The same notification with `meta`.
    pub fn with_meta(self, meta: Vec<(String, Json)>) -> (r: Self)
        ensures
            r.method == self.method,
            r.params == (ProgressNotificationParams { meta: Some(meta), ..self.params }),
    {
        ProgressNotification { params: ProgressNotificationParams { meta: Some(meta), ..self.params }, ..self }
    }
}

/// Parameters of a resource update notification.
#[derive(Debug)]
pub struct ResourceUpdatedNotificationParams {
    pub uri: String,
    pub meta: Option<Vec<(String, Json)>>,
}

/// A `notifications/resources/updated` notification.
#[derive(Debug)]
pub struct ResourceUpdatedNotification {
    pub method: String,
    pub params: ResourceUpdatedNotificationParams,
}

impl ResourceUpdatedNotification {
    /// The notification that the resource `uri` changed.
    pub fn new(uri: &str) -> (r: Self)
        ensures
            r.method@ == "notifications/resources/updated"@,
            r.params.uri@ == uri@,
            r.params.meta is None,
    {
        ResourceUpdatedNotification {
            method: owned("notifications/resources/updated"),
            params: ResourceUpdatedNotificationParams { uri: owned(uri), meta: None },
        }
    }

    /// The same notification with `meta`.
    pub fn with_meta(self, meta: Vec<(String, Json)>) -> (r: Self)
        ensures
            r.method == self.method,
            r.params.uri == self.params.uri,
            r.params.meta == Some(meta),
    {
        ResourceUpdatedNotification {
            params: ResourceUpdatedNotificationParams { meta: Some(meta), ..self.params },
            ..self
        }
    }
}

/// Parameters of a cancellation notification.
#[derive(Debug)]
pub struct CancelledNotificationParams {
    pub request_id: RequestId,
    pub reason: Option<String>,
    pub meta: Option<Vec<(String, Json)>>,
}

/// A `notifications/cancelled` notification.
#[derive(Debug)]
pub struct CancelledNotification {
    pub method: String,
    pub params: CancelledNotificationParams,
}

impl CancelledNotification {
    /// The notification that the request `request_id` is cancelled.
    pub fn new(request_id: RequestId) -> (r: Self)
        ensures
            r.method@ == "notifications/cancelled"@,
            r.params.request_id == request_id,
            r.params.reason is None,
            r.params.meta is None,
    {
        CancelledNotification {
            method: owned("notifications/cancelled"),
            params: CancelledNotificationParams { request_id, reason: None, meta: None },
        }
    }

    /// The same notification with the reason.
    pub fn with_reason(self, reason: &str) -> (r: Self)
        ensures
            r.method == self.method,
            r.params.request_id == self.params.request_id,
            r.params.reason matches Some(m) && m@ == reason@,
            r.params.meta == self.params.meta,
    {
        CancelledNotification {
            params: CancelledNotificationParams { reason: Some(owned(reason)), ..self.params },
            ..self
        }
    }

    /// The same notification with `meta`.
    pub fn with_meta(self, meta: Vec<(String, Json)>) -> (r: Self)
        ensures
            r.method == self.method,
            r.params.request_id == self.params.request_id,
            r.params.reason == self.params.reason,
            r.params.meta == Some(meta),
    {
        CancelledNotification {
            params: CancelledNotificationParams { meta: Some(meta), ..self.params },
            ..self
        }
    }
}

/// Parameters of a log message notification.
#[derive(Debug)]
pub struct LoggingMessageNotificationParams {
    pub level: LoggingLevel,
    pub logger: Option<String>,
    pub data: Json,
    pub meta: Option<Vec<(String, Json)>>,
}

/// A `notifications/message` notification.
#[derive(Debug)]
pub struct LoggingMessageNotification {
    pub method: String,
    pub params: LoggingMessageNotificationParams,
}

impl LoggingMessageNotification {
    /// The notification of a message at `level` carrying `data`.
    pub fn new(level: LoggingLevel, data: Json) -> (r: Self)
        ensures
            r.method@ == "notifications/message"@,
            r.params.level == level,
            r.params.logger is None,
            r.params.data == data,
            r.params.meta is None,
    {
        LoggingMessageNotification {
            method: owned("notifications/message"),
            params: LoggingMessageNotificationParams { level, logger: None, data, meta: None },
        }
    }

    /// The same notification from the logger `logger`.
    pub fn with_logger(self, logger: &str) -> (r: Self)
        ensures
            r.method == self.method,
            r.params.level == self.params.level,
            r.params.logger matches Some(l) && l@ == logger@,
            r.params.data == self.params.data,
            r.params.meta == self.params.meta,
    {
        LoggingMessageNotification {
            params: LoggingMessageNotificationParams { logger: Some(owned(logger)), ..self.params },
            ..self
        }
    }

    /// The same notification with `meta`.
    pub fn with_meta(self, meta: Vec<(String, Json)>) -> (r: Self)
        ensures
            r.method == self.method,
            r.params.level == self.params.level,
            r.params.logger == self.params.logger,
            r.params.data == self.params.data,
            r.params.meta == Some(meta),
    {
        LoggingMessageNotification {
            params: LoggingMessageNotificationParams { meta: Some(meta), ..self.params },
            ..self
        }
    }
}

/// The check a notification definition makes of its method: not empty,
/// and under `notifications/`.
pub fn validate_notification_method(method: &str) -> (r: Result<(), String>)
    ensures
        method@.len() == 0 ==> (r matches Err(m) && m@ == "Notification method cannot be empty"@),
        method@.len() > 0 && !starts_with(method@, "notifications/"@) ==> (r matches Err(m) && m@
            == "Notification method must start with 'notifications/'"@),
        method@.len() > 0 && starts_with(method@, "notifications/"@) ==> r is Ok,
{
    let m = crate::text::chars_of(method);
    if m.len() == 0 {
        return Err(owned("Notification method cannot be empty"));
    }
    let p = crate::text::chars_of("notifications/");
    if !crate::text::has_prefix(&m, &p) {
        return Err(owned("Notification method must start with 'notifications/'"));
    }
    Ok(())
}

/// The notification a definition of method `method` and payload `payload`
/// describes: without parameters where there is no payload; otherwise with
/// parameters whose further members are those of the payload where it is an
/// object, and none where it is any other value.
pub fn to_notification(method: &str, payload: Option<&Json>) -> (r: Notification)
    ensures
        r.method@ == method@,
        match payload {
            None => r.params is None,
            Some(p) => r.params matches Some(params) && params.meta is None && match *p {
                Json::Object(es) => params.other@.len() == es@.len() && forall|i: int|
                    0 <= i < es@.len() ==> (#[trigger] params.other@[i]).0@ == es@[i].0@
                        && params.other@[i].1.same(es@[i].1),
                _ => params.other@.len() == 0,
            },
        },
{
    let notification = Notification::new(method);
    match payload {
        None => notification,
        Some(p) => {
            let mut params = NotificationParams::new();
            match p {
                Json::Object(es) => {
                    params.other = clone_members(es);
                },
                _ => {},
            }
            notification.with_params(params)
        },
    }
}

/// A complete notification: metadata, payload and delivery rules. Every
/// type with the three parts is one.
pub trait NotificationDefinition: HasNotificationMetadata + HasNotificationPayload + HasNotificationRules {
    /// The notification this definition describes: its method, and
    /// parameters holding the payload's members where there is a payload.
    fn to_notification(&self) -> (r: Notification)
        ensures
            r.method@ == self.method_spec(),
            match self.payload_spec() {
                None => r.params is None,
                Some(p) => r.params matches Some(params) && params.meta is None && match p {
                    Json::Object(es) => params.other@.len() == es@.len() && forall|i: int|
                        0 <= i < es@.len() ==> (#[trigger] params.other@[i]).0@ == es@[i].0@
                            && params.other@[i].1.same(es@[i].1),
                    _ => params.other@.len() == 0,
                },
            },
    {
        crate::v2025_06_18::notifications::to_notification(self.method(), self.payload())
    }

    /// Checks the method: not empty, and under `notifications/`.
    fn validate(&self) -> (r: Result<(), String>)
        ensures
            self.method_spec().len() == 0 ==> (r matches Err(m) && m@ == "Notification method cannot be empty"@),
            self.method_spec().len() > 0 && !starts_with(self.method_spec(), "notifications/"@) ==> (r matches Err(m)
                && m@ == "Notification method must start with 'notifications/'"@),
            self.method_spec().len() > 0 && starts_with(self.method_spec(), "notifications/"@) ==> r is Ok,
    {
        validate_notification_method(self.method())
    }
}

impl<T: HasNotificationMetadata + HasNotificationPayload + HasNotificationRules> NotificationDefinition for T {}

} // verus!
