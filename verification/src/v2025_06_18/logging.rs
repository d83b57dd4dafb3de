//! Logging levels (the syslog severities of RFC 5424) and their order.

use vstd::prelude::*;
use crate::json::Json;
use crate::text::owned;

verus! {

/// A logging level, from least to most severe.
#[derive(Debug, Clone, Copy, PartialEq, Eq, Structural)]
pub enum LoggingLevel {
    Debug,
    Info,
    Notice,
    Warning,
    Error,
    Critical,
    Alert,
    Emergency,
}

/// The severity rank of a level: `Debug` is 0, `Emergency` is 7.
pub open spec fn level_rank(l: LoggingLevel) -> int {
    match l {
        LoggingLevel::Debug => 0,
        LoggingLevel::Info => 1,
        LoggingLevel::Notice => 2,
        LoggingLevel::Warning => 3,
        LoggingLevel::Error => 4,
        LoggingLevel::Critical => 5,
        LoggingLevel::Alert => 6,
        LoggingLevel::Emergency => 7,
    }
}

impl LoggingLevel {
    /// The severity rank of the level (0 for `Debug` up to 7 for `Emergency`).
    pub fn priority(&self) -> (r: u8)
        ensures
            r == level_rank(*self),
    {
        match self {
            LoggingLevel::Debug => 0,
            LoggingLevel::Info => 1,
            LoggingLevel::Notice => 2,
            LoggingLevel::Warning => 3,
            LoggingLevel::Error => 4,
            LoggingLevel::Critical => 5,
            LoggingLevel::Alert => 6,
            LoggingLevel::Emergency => 7,
        }
    }

    /// Whether a message at this level passes the `threshold`: it is at
    /// least as severe.
    pub fn should_log(&self, threshold: LoggingLevel) -> (r: bool)
        ensures
            r == (level_rank(*self) >= level_rank(threshold)),
    {
        self.priority() >= threshold.priority()
    }
}

/// Distinct levels have distinct ranks, so the ranks order the levels strictly.
pub proof fn lemma_level_rank_injective(a: LoggingLevel, b: LoggingLevel)
    ensures
        level_rank(a) == level_rank(b) <==> a == b,
        0 <= level_rank(a) <= 7,
{
}

/// The threshold test is a total preorder on levels: every level passes
/// itself, passing is transitive, and of two levels one passes the other;
/// `Debug` passes only `Debug` and everything passes `Debug`.
pub proof fn lemma_should_log_order(a: LoggingLevel, b: LoggingLevel, c: LoggingLevel)
    ensures
        level_rank(a) >= level_rank(a),
        level_rank(a) >= level_rank(b) && level_rank(b) >= level_rank(c) ==> level_rank(a)
            >= level_rank(c),
        level_rank(a) >= level_rank(b) || level_rank(b) >= level_rank(a),
        level_rank(a) >= level_rank(b) && level_rank(b) >= level_rank(a) ==> a == b,
        level_rank(a) >= level_rank(LoggingLevel::Debug),
        level_rank(LoggingLevel::Emergency) >= level_rank(a),
{
}

/// Parameters of a log message notification: its level, the logger's
/// name, the data, and an optional `_meta`.
#[derive(Debug)]
pub struct LoggingMessageParams {
    pub level: LoggingLevel,
    pub logger: Option<String>,
    pub data: Json,
    pub meta: Option<Vec<(String, Json)>>,
}

impl LoggingMessageParams {
    /// A message at `level` carrying `data`, from no named logger.
    pub fn new(level: LoggingLevel, data: Json) -> (r: Self)
        ensures
            r.level == level,
            r.logger is None,
            r.data == data,
            r.meta is None,
    {
        LoggingMessageParams { level, logger: None, data, meta: None }
    }

    /// The same message from the logger `logger`.
    pub fn with_logger(self, logger: &str) -> (r: Self)
        ensures
            r.level == self.level,
            r.logger matches Some(l) && l@ == logger@,
            r.data == self.data,
            r.meta == self.meta,
    {
        LoggingMessageParams { logger: Some(owned(logger)), ..self }
    }

    /// The same message with `meta`.
    pub fn with_meta(self, meta: Vec<(String, Json)>) -> (r: Self)
        ensures
            r.level == self.level,
            r.logger == self.logger,
            r.data == self.data,
            r.meta == Some(meta),
    {
        LoggingMessageParams { meta: Some(meta), ..self }
    }
}

/// A `notifications/message` notification.
#[derive(Debug)]
pub struct LoggingMessageNotification {
    pub method: String,
    pub params: LoggingMessageParams,
}

impl LoggingMessageNotification {
    /// The notification of a message at `level` carrying `data`.
    pub fn new(level: LoggingLevel, data: Json) -> (r: Self)
        ensures
            r.method@ == "notifications/message"@,
            r.params.level == level,
            r.params.logger is None,
            r.params.data == data,
            r.params.meta is None,
    {
        LoggingMessageNotification {
            method: owned("notifications/message"),
            params: LoggingMessageParams::new(level, data),
        }
    }

    /// The same notification from the logger `logger`.
    pub fn with_logger(self, logger: &str) -> (r: Self)
        ensures
            r.method == self.method,
            r.params.level == self.params.level,
            r.params.logger matches Some(l) && l@ == logger@,
            r.params.data == self.params.data,
            r.params.meta == self.params.meta,
    {
        LoggingMessageNotification { params: self.params.with_logger(logger), ..self }
    }

    /// The same notification with `meta` on its parameters.
    pub fn with_meta(self, meta: Vec<(String, Json)>) -> (r: Self)
        ensures
            r.method == self.method,
            r.params.level == self.params.level,
            r.params.logger == self.params.logger,
            r.params.data == self.params.data,
            r.params.meta == Some(meta),
    {
        LoggingMessageNotification { params: self.params.with_meta(meta), ..self }
    }
}

/// Parameters of `logging/setLevel`: the level and an optional `_meta`.
#[derive(Debug)]
pub struct SetLevelParams {
    pub level: LoggingLevel,
    pub meta: Option<Vec<(String, Json)>>,
}

impl SetLevelParams {
    /// Parameters setting `level`.
    pub fn new(level: LoggingLevel) -> (r: Self)
        ensures
            r.level == level,
            r.meta is None,
    {
        SetLevelParams { level, meta: None }
    }

    /// The same parameters with `meta`.
    pub fn with_meta(self, meta: Vec<(String, Json)>) -> (r: Self)
        ensures
            r.level == self.level,
            r.meta == Some(meta),
    {
        SetLevelParams { meta: Some(meta), ..self }
    }
}

/// A `logging/setLevel` request.
#[derive(Debug)]
pub struct SetLevelRequest {
    pub method: String,
    pub params: SetLevelParams,
}

impl SetLevelRequest {
    /// The request setting `level`.
    pub fn new(level: LoggingLevel) -> (r: Self)
        ensures
            r.method@ == "logging/setLevel"@,
            r.params.level == level,
            r.params.meta is None,
    {
        SetLevelRequest { method: owned("logging/setLevel"), params: SetLevelParams::new(level) }
    }

    /// The same request with `meta` on its parameters.
    pub fn with_meta(self, meta: Vec<(String, Json)>) -> (r: Self)
        ensures
            r.method == self.method,
            r.params.level == self.params.level,
            r.params.meta == Some(meta),
    {
        SetLevelRequest { params: self.params.with_meta(meta), ..self }
    }
}

/// The method and logger name of a logging source.
pub trait HasLoggingMetadata {
    /// The logging method name.
    fn method(&self) -> &str;

    /// The logger's name of an implementation, if it has one. A verified
    /// implementation states it; the accessor returns it.
    open spec fn logger_name_spec(&self) -> Option<Seq<char>> {
        arbitrary()
    }

    /// The logger's name, if the source has one.
    fn logger_name(&self) -> (r: Option<&str>)
        ensures
            match r {
                Some(n) => self.logger_name_spec() == Some(n@),
                None => self.logger_name_spec() is None,
            };
}

/// A logging source with a current level.
pub trait HasLogLevel {
    /// The level of an implementation. A verified
    /// implementation states it; the accessor returns it.
    open spec fn level_spec(&self) -> LoggingLevel {
        arbitrary()
    }

    /// The current or target level.
    fn level(&self) -> (r: LoggingLevel)
        ensures
            r == self.level_spec();

    /// Whether a message at `message_level` passes this source's level:
    /// unless an implementation supplies its own rule, whether it is at least
    /// as severe.
    fn should_log(&self, message_level: LoggingLevel) -> (r: bool)
        default_ensures
            r == (level_rank(message_level) >= level_rank(self.level_spec())),
    {
        message_level.should_log(self.level())
    }
}

/// Delivery of log messages.
pub trait HasLogTransport {
    /// Whether a message at the level is delivered; all are unless an
    /// implementation filters.
    fn should_deliver(&self, _level: LoggingLevel) -> bool {
        true
    }

    /// The batch size; none unless an implementation batches.
    fn batch_size(&self) -> Option<usize> {
        None
    }
}

/// The data a logging source carries.
pub trait HasLogFormat {
    /// The data of an implementation. A verified implementation states it;
    /// the accessor returns it.
    open spec fn data_spec(&self) -> Json {
        arbitrary()
    }

    /// The log data.
    fn data(&self) -> (r: &Json)
        ensures
            *r == self.data_spec();
}

/// A complete logging source: metadata, level, data and delivery. Every
/// type with the four parts is one.
pub trait LoggerDefinition: HasLoggingMetadata + HasLogLevel + HasLogFormat + HasLogTransport {
    /// The log message notification of this source: its level, a copy of its
    /// data, and its logger's name where it has one.
    fn to_message_notification(&self) -> (r: LoggingMessageNotification)
        ensures
            r.method@ == "notifications/message"@,
            r.params.level == self.level_spec(),
            r.params.data.same(self.data_spec()),
            match (r.params.logger, self.logger_name_spec()) {
                (Some(l), Some(n)) => l@ == n,
                (None, None) => true,
                _ => false,
            },
            r.params.meta is None,
    {
        let notification = LoggingMessageNotification::new(self.level(), self.data().deep_clone());
        match self.logger_name() {
            Some(logger) => notification.with_logger(logger),
            None => notification,
        }
    }

    /// The request setting this source's level.
    fn to_set_level_request(&self) -> (r: SetLevelRequest)
        ensures
            r.method@ == "logging/setLevel"@,
            r.params.level == self.level_spec(),
            r.params.meta is None,
    {
        SetLevelRequest::new(self.level())
    }
}

impl<T: HasLoggingMetadata + HasLogLevel + HasLogFormat + HasLogTransport> LoggerDefinition for T {}

} // verus!
