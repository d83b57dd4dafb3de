//! Notifications: generic parameters, the list-changed, progress,
//! resource-update, cancellation and log message notifications.

use vstd::prelude::*;
use crate::json::{Json, inserted, keys_distinct, object_insert};
use crate::text::owned;
use crate::v2026_07_28::logging::LoggingLevel;
use crate::rpc_error::RequestId;
use crate::v2026_07_28::meta::ProgressToken;

verus! {

/// Parameters of a notification: an optional `_meta` and further members.
#[derive(Debug)]
pub struct NotificationParams {
    pub meta: Option<Vec<(String, Json)>>,
    pub other: Vec<(String, Json)>,
}

impl NotificationParams {
    /// Empty parameters.
    pub fn new() -> (r: Self)
        ensures
            r.meta is None,
            r.other@.len() == 0,
    {
        NotificationParams { meta: None, other: Vec::new() }
    }

    /// The same parameters with `meta`.
    pub fn with_meta(self, meta: Vec<(String, Json)>) -> (r: Self)
        ensures
            r.meta == Some(meta),
            r.other == self.other,
    {
        NotificationParams { meta: Some(meta), ..self }
    }

    /// The same parameters with the member `key` set to `value`.
    pub fn with_param(self, key: &str, value: Json) -> (r: Self)
        ensures
            r.meta == self.meta,
            inserted(self.other@, r.other@, key@, value),
            keys_distinct(self.other@) ==> keys_distinct(r.other@),
    {
        let mut p = self;
        object_insert(&mut p.other, owned(key), value);
        p
    }
}

/// A notification of any method.
#[derive(Debug)]
pub struct Notification {
    pub method: String,
    pub params: Option<NotificationParams>,
}

impl Notification {
    /// A notification of `method`, without parameters.
    pub fn new(method: &str) -> (r: Self)
        ensures
            r.method@ == method@,
            r.params is None,
    {
        Notification { method: owned(method), params: None }
    }

    /// The same notification with `params`.
    pub fn with_params(self, params: NotificationParams) -> (r: Self)
        ensures
            r.method == self.method,
            r.params == Some(params),
    {
        Notification { params: Some(params), ..self }
    }
}

/// A `notifications/resources/list_changed` notification.
#[derive(Debug)]
pub struct ResourceListChangedNotification {
    pub method: String,
    pub params: Option<NotificationParams>,
}

impl ResourceListChangedNotification {
    /// The notification, without parameters.
    pub fn new() -> (r: Self)
        ensures
            r.method@ == "notifications/resources/list_changed"@,
            r.params is None,
    {
        ResourceListChangedNotification { method: owned("notifications/resources/list_changed"), params: None }
    }

    /// The same notification with parameters carrying only `meta`.
    pub fn with_meta(self, meta: Vec<(String, Json)>) -> (r: Self)
        ensures
            r.method == self.method,
            r.params matches Some(p) && p.meta == Some(meta) && p.other@.len() == 0,
    {
        ResourceListChangedNotification { params: Some(NotificationParams::new().with_meta(meta)), ..self }
    }
}

/// A `notifications/tools/list_changed` notification.
#[derive(Debug)]
pub struct ToolListChangedNotification {
    pub method: String,
    pub params: Option<NotificationParams>,
}

impl ToolListChangedNotification {
    /// The notification, without parameters.
    pub fn new() -> (r: Self)
        ensures
            r.method@ == "notifications/tools/list_changed"@,
            r.params is None,
    {
        ToolListChangedNotification { method: owned("notifications/tools/list_changed"), params: None }
    }

    /// The same notification with parameters carrying only `meta`.
    pub fn with_meta(self, meta: Vec<(String, Json)>) -> (r: Self)
        ensures
            r.method == self.method,
            r.params matches Some(p) && p.meta == Some(meta) && p.other@.len() == 0,
    {
        ToolListChangedNotification { params: Some(NotificationParams::new().with_meta(meta)), ..self }
    }
}

/// A `notifications/prompts/list_changed` notification.
#[derive(Debug)]
pub struct PromptListChangedNotification {
    pub method: String,
    pub params: Option<NotificationParams>,
}

impl PromptListChangedNotification {
    /// The notification, without parameters.
    pub fn new() -> (r: Self)
        ensures
            r.method@ == "notifications/prompts/list_changed"@,
            r.params is None,
    {
        PromptListChangedNotification { method: owned("notifications/prompts/list_changed"), params: None }
    }

    /// The same notification with parameters carrying only `meta`.
    pub fn with_meta(self, meta: Vec<(String, Json)>) -> (r: Self)
        ensures
            r.method == self.method,
            r.params matches Some(p) && p.meta == Some(meta) && p.other@.len() == 0,
    {
        PromptListChangedNotification { params: Some(NotificationParams::new().with_meta(meta)), ..self }
    }
}

/// Parameters of a resource update notification.
#[derive(Debug)]
pub struct ResourceUpdatedNotificationParams {
    pub uri: String,
    pub meta: Option<Vec<(String, Json)>>,
}

/// A `notifications/resources/updated` notification.
#[derive(Debug)]
pub struct ResourceUpdatedNotification {
    pub method: String,
    pub params: ResourceUpdatedNotificationParams,
}

impl ResourceUpdatedNotification {
    /// The notification that the resource `uri` changed.
    pub fn new(uri: &str) -> (r: Self)
        ensures
            r.method@ == "notifications/resources/updated"@,
            r.params.uri@ == uri@,
            r.params.meta is None,
    {
        ResourceUpdatedNotification {
            method: owned("notifications/resources/updated"),
            params: ResourceUpdatedNotificationParams { uri: owned(uri), meta: None },
        }
    }

    /// The same notification with `meta`.
    pub fn with_meta(self, meta: Vec<(String, Json)>) -> (r: Self)
        ensures
            r.method == self.method,
            r.params.uri == self.params.uri,
            r.params.meta == Some(meta),
    {
        ResourceUpdatedNotification {
            params: ResourceUpdatedNotificationParams { meta: Some(meta), ..self.params },
            ..self
        }
    }
}

/// Parameters of a progress notification: the token of the request, the
/// work done and optionally the total (each a number held as the IEEE-754 bit
/// pattern of its `f64` value), a message and `_meta`.
#[derive(Debug)]
pub struct ProgressNotificationParams {
    pub progress_token: ProgressToken,
    pub progress: u64,
    pub total: Option<u64>,
    pub message: Option<String>,
    pub meta: Option<Vec<(String, Json)>>,
}

/// A `notifications/progress` notification.
#[derive(Debug)]
pub struct ProgressNotification {
    pub method: String,
    pub params: ProgressNotificationParams,
}

impl ProgressNotification {
    /// The progress `progress` (a bit pattern) of the request of
    /// `progress_token`.
    pub fn new(progress_token: ProgressToken, progress: u64) -> (r: Self)
        ensures
            r.method@ == "notifications/progress"@,
            r.params.progress_token == progress_token,
            r.params.progress == progress,
            r.params.total is None,
            r.params.message is None,
            r.params.meta is None,
    {
        ProgressNotification {
            method: owned("notifications/progress"),
            params: ProgressNotificationParams { progress_token, progress, total: None, message: None, meta: None },
        }
    }

    /// The same notification with the total whose bit pattern is `total`.
    pub fn with_total(self, total: u64) -> (r: Self)
        ensures
            r.method == self.method,
            r.params == (ProgressNotificationParams { total: Some(total), ..self.params }),
    {
        ProgressNotification { params: ProgressNotificationParams { total: Some(total), ..self.params }, ..self }
    }

    /// The same notification with `message`.
    pub fn with_message(self, message: &str) -> (r: Self)
        ensures
            r.method == self.method,
            r.params == (ProgressNotificationParams { message: r.params.message, ..self.params }),
            r.params.message matches Some(m) && m@ == message@,
    {
        ProgressNotification { params: ProgressNotificationParams { message: Some(owned(message)), ..self.params }, ..self }
    }

    /// The same notification with `meta`.
    pub fn with_meta(self, meta: Vec<(String, Json)>) -> (r: Self)
        ensures
            r.method == self.method,
            r.params == (ProgressNotificationParams { meta: Some(meta), ..self.params }),
    {
        ProgressNotification { params: ProgressNotificationParams { meta: Some(meta), ..self.params }, ..self }
    }
}

/// Parameters of a cancellation notification.
#[derive(Debug)]
pub struct CancelledNotificationParams {
    pub request_id: RequestId,
    pub reason: Option<String>,
    pub meta: Option<Vec<(String, Json)>>,
}

/// A `notifications/cancelled` notification.
#[derive(Debug)]
pub struct CancelledNotification {
    pub method: String,
    pub params: CancelledNotificationParams,
}

impl CancelledNotification {
    /// The notification that the request `request_id` is cancelled.
    pub fn new(request_id: RequestId) -> (r: Self)
        ensures
            r.method@ == "notifications/cancelled"@,
            r.params.request_id == request_id,
            r.params.reason is None,
            r.params.meta is None,
    {
        CancelledNotification {
            method: owned("notifications/cancelled"),
            params: CancelledNotificationParams { request_id, reason: None, meta: None },
        }
    }

    /// The same notification with the reason.
    pub fn with_reason(self, reason: &str) -> (r: Self)
        ensures
            r.method == self.method,
            r.params.request_id == self.params.request_id,
            r.params.reason matches Some(m) && m@ == reason@,
            r.params.meta == self.params.meta,
    {
        CancelledNotification {
            params: CancelledNotificationParams { reason: Some(owned(reason)), ..self.params },
            ..self
        }
    }

    /// The same notification with `meta`.
    pub fn with_meta(self, meta: Vec<(String, Json)>) -> (r: Self)
        ensures
            r.method == self.method,
            r.params.request_id == self.params.request_id,
            r.params.reason == self.params.reason,
            r.params.meta == Some(meta),
    {
        CancelledNotification {
            params: CancelledNotificationParams { meta: Some(meta), ..self.params },
            ..self
        }
    }
}

/// Parameters of a log message notification.
#[derive(Debug)]
pub struct LoggingMessageNotificationParams {
    pub level: LoggingLevel,
    pub logger: Option<String>,
    pub data: Json,
    pub meta: Option<Vec<(String, Json)>>,
}

/// A `notifications/message` notification.
#[derive(Debug)]
pub struct LoggingMessageNotification {
    pub method: String,
    pub params: LoggingMessageNotificationParams,
}

impl LoggingMessageNotification {
    /// The notification of a message at `level` carrying `data`.
    pub fn new(level: LoggingLevel, data: Json) -> (r: Self)
        ensures
            r.method@ == "notifications/message"@,
            r.params.level == level,
            r.params.logger is None,
            r.params.data == data,
            r.params.meta is None,
    {
        LoggingMessageNotification {
            method: owned("notifications/message"),
            params: LoggingMessageNotificationParams { level, logger: None, data, meta: None },
        }
    }

    /// The same notification from the logger `logger`.
    pub fn with_logger(self, logger: &str) -> (r: Self)
        ensures
            r.method == self.method,
            r.params.level == self.params.level,
            r.params.logger matches Some(l) && l@ == logger@,
            r.params.data == self.params.data,
            r.params.meta == self.params.meta,
    {
        LoggingMessageNotification {
            params: LoggingMessageNotificationParams { logger: Some(owned(logger)), ..self.params },
            ..self
        }
    }

    /// The same notification with `meta`.
    pub fn with_meta(self, meta: Vec<(String, Json)>) -> (r: Self)
        ensures
            r.method == self.method,
            r.params.level == self.params.level,
            r.params.logger == self.params.logger,
            r.params.data == self.params.data,
            r.params.meta == Some(meta),
    {
        LoggingMessageNotification {
            params: LoggingMessageNotificationParams { meta: Some(meta), ..self.params },
            ..self
        }
    }
}

} // verus!
