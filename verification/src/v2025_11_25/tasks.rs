//! Task status and the metadata that asks for a task.

use vstd::prelude::*;
use crate::json::Json;
use crate::text::owned;
use crate::v2025_11_25::meta::Cursor;

verus! {

/// The state of a task.
#[derive(Debug, Clone, Copy, PartialEq, Eq, Structural)]
pub enum TaskStatus {
    Working,
    InputRequired,
    Completed,
    Failed,
    Cancelled,
}

/// Metadata that asks for an operation to run as a task, with an optional
/// time-to-live in milliseconds.
#[derive(Debug, Clone)]
pub struct TaskMetadata {
    pub ttl: Option<u64>,
}

impl TaskMetadata {
    /// Metadata with no time-to-live.
    pub fn new() -> (r: Self)
        ensures
            r.ttl is None,
    {
        TaskMetadata { ttl: None }
    }

    /// The same metadata with a time-to-live of `ttl` milliseconds.
    pub fn with_ttl(self, ttl: u64) -> (r: Self)
        ensures
            r.ttl == Some(ttl),
    {
        TaskMetadata { ttl: Some(ttl) }
    }
}

impl Default for TaskMetadata {
    fn default() -> (r: Self)
        ensures
            r.ttl is None,
    {
        TaskMetadata::new()
    }
}


/// A task: its id, status, timestamps, and optional message, time-to-live
/// (milliseconds), poll interval (milliseconds) and `_meta`.
#[derive(Debug)]
pub struct Task {
    pub task_id: String,
    pub status: TaskStatus,
    pub created_at: String,
    pub last_updated_at: String,
    pub status_message: Option<String>,
    pub ttl: Option<i64>,
    pub poll_interval: Option<u64>,
    pub meta: Option<Vec<(String, Json)>>,
}

impl Task {
    /// The task `task_id` in `status`, created and last updated at the
    /// given times, with nothing else stated.
    pub fn new(task_id: &str, status: TaskStatus, created_at: &str, last_updated_at: &str) -> (r: Self)
        ensures
            r.task_id@ == task_id@,
            r.status == status,
            r.created_at@ == created_at@,
            r.last_updated_at@ == last_updated_at@,
            r.status_message is None,
            r.ttl is None,
            r.poll_interval is None,
            r.meta is None,
    {
        Task {
            task_id: owned(task_id),
            status,
            created_at: owned(created_at),
            last_updated_at: owned(last_updated_at),
            status_message: None,
            ttl: None,
            poll_interval: None,
            meta: None,
        }
    }

    /// The same task with a status message.
    pub fn with_status_message(self, message: &str) -> (r: Self)
        ensures
            r == (Task { status_message: r.status_message, ..self }),
            r.status_message matches Some(m) && m@ == message@,
    {
        Task { status_message: Some(owned(message)), ..self }
    }

    /// The same task with a time-to-live.
    pub fn with_ttl(self, ttl: i64) -> (r: Self)
        ensures
            r == (Task { ttl: Some(ttl), ..self }),
    {
        Task { ttl: Some(ttl), ..self }
    }

    /// The same task with a poll interval.
    pub fn with_poll_interval(self, interval: u64) -> (r: Self)
        ensures
            r == (Task { poll_interval: Some(interval), ..self }),
    {
        Task { poll_interval: Some(interval), ..self }
    }

    /// The same task with `meta`.
    pub fn with_meta(self, meta: Vec<(String, Json)>) -> (r: Self)
        ensures
            r == (Task { meta: Some(meta), ..self }),
    {
        Task { meta: Some(meta), ..self }
    }
}

/// Parameters naming the task `task_id`, with an optional `_meta`.
#[derive(Debug)]
pub struct GetTaskParams {
    pub task_id: String,
    pub meta: Option<Vec<(String, Json)>>,
}

impl GetTaskParams {
    /// Parameters naming `task_id`, without `_meta`.
    pub fn new(task_id: &str) -> (r: Self)
        ensures
            r.task_id@ == task_id@,
            r.meta is None,
    {
        GetTaskParams { task_id: owned(task_id), meta: None }
    }

    /// The same parameters with `meta`.
    pub fn with_meta(self, meta: Vec<(String, Json)>) -> (r: Self)
        ensures
            r.task_id == self.task_id,
            r.meta == Some(meta),
    {
        GetTaskParams { meta: Some(meta), ..self }
    }
}

/// A `tasks/get` request.
#[derive(Debug)]
pub struct GetTaskRequest {
    pub method: String,
    pub params: GetTaskParams,
}

impl GetTaskRequest {
    /// The `tasks/get` request for `task_id`.
    pub fn new(task_id: &str) -> (r: Self)
        ensures
            r.method@ == "tasks/get"@,
            r.params.task_id@ == task_id@,
            r.params.meta is None,
    {
        GetTaskRequest { method: owned("tasks/get"), params: GetTaskParams::new(task_id) }
    }

    /// The same request with `meta` on its parameters.
    pub fn with_meta(self, meta: Vec<(String, Json)>) -> (r: Self)
        ensures
            r.method == self.method,
            r.params.task_id == self.params.task_id,
            r.params.meta == Some(meta),
    {
        GetTaskRequest { params: self.params.with_meta(meta), ..self }
    }
}

/// Parameters naming the task `task_id`, with an optional `_meta`.
#[derive(Debug)]
pub struct CancelTaskParams {
    pub task_id: String,
    pub meta: Option<Vec<(String, Json)>>,
}

impl CancelTaskParams {
    /// Parameters naming `task_id`, without `_meta`.
    pub fn new(task_id: &str) -> (r: Self)
        ensures
            r.task_id@ == task_id@,
            r.meta is None,
    {
        CancelTaskParams { task_id: owned(task_id), meta: None }
    }

    /// The same parameters with `meta`.
    pub fn with_meta(self, meta: Vec<(String, Json)>) -> (r: Self)
        ensures
            r.task_id == self.task_id,
            r.meta == Some(meta),
    {
        CancelTaskParams { meta: Some(meta), ..self }
    }
}

/// A `tasks/cancel` request.
#[derive(Debug)]
pub struct CancelTaskRequest {
    pub method: String,
    pub params: CancelTaskParams,
}

impl CancelTaskRequest {
    /// The `tasks/cancel` request for `task_id`.
    pub fn new(task_id: &str) -> (r: Self)
        ensures
            r.method@ == "tasks/cancel"@,
            r.params.task_id@ == task_id@,
            r.params.meta is None,
    {
        CancelTaskRequest { method: owned("tasks/cancel"), params: CancelTaskParams::new(task_id) }
    }

    /// The same request with `meta` on its parameters.
    pub fn with_meta(self, meta: Vec<(String, Json)>) -> (r: Self)
        ensures
            r.method == self.method,
            r.params.task_id == self.params.task_id,
            r.params.meta == Some(meta),
    {
        CancelTaskRequest { params: self.params.with_meta(meta), ..self }
    }
}

/// Parameters naming the task `task_id`, with an optional `_meta`.
#[derive(Debug)]
pub struct GetTaskPayloadParams {
    pub task_id: String,
    pub meta: Option<Vec<(String, Json)>>,
}

impl GetTaskPayloadParams {
    /// Parameters naming `task_id`, without `_meta`.
    pub fn new(task_id: &str) -> (r: Self)
        ensures
            r.task_id@ == task_id@,
            r.meta is None,
    {
        GetTaskPayloadParams { task_id: owned(task_id), meta: None }
    }

    /// The same parameters with `meta`.
    pub fn with_meta(self, meta: Vec<(String, Json)>) -> (r: Self)
        ensures
            r.task_id == self.task_id,
            r.meta == Some(meta),
    {
        GetTaskPayloadParams { meta: Some(meta), ..self }
    }
}

/// A `tasks/result` request.
#[derive(Debug)]
pub struct GetTaskPayloadRequest {
    pub method: String,
    pub params: GetTaskPayloadParams,
}

impl GetTaskPayloadRequest {
    /// The `tasks/result` request for `task_id`.
    pub fn new(task_id: &str) -> (r: Self)
        ensures
            r.method@ == "tasks/result"@,
            r.params.task_id@ == task_id@,
            r.params.meta is None,
    {
        GetTaskPayloadRequest { method: owned("tasks/result"), params: GetTaskPayloadParams::new(task_id) }
    }

    /// The same request with `meta` on its parameters.
    pub fn with_meta(self, meta: Vec<(String, Json)>) -> (r: Self)
        ensures
            r.method == self.method,
            r.params.task_id == self.params.task_id,
            r.params.meta == Some(meta),
    {
        GetTaskPayloadRequest { params: self.params.with_meta(meta), ..self }
    }
}

/// The result of `tasks/get`: the task.
#[derive(Debug)]
pub struct GetTaskResult {
    pub task: Task,
}

impl GetTaskResult {
    /// The result carrying `task`.
    pub fn new(task: Task) -> (r: Self)
        ensures
            r.task == task,
    {
        GetTaskResult { task }
    }
}

/// The result of `tasks/cancel`: the task.
#[derive(Debug)]
pub struct CancelTaskResult {
    pub task: Task,
}

impl CancelTaskResult {
    /// The result carrying `task`.
    pub fn new(task: Task) -> (r: Self)
        ensures
            r.task == task,
    {
        CancelTaskResult { task }
    }
}

/// Parameters of `tasks/list`: an optional cursor, limit and `_meta`.
#[derive(Debug)]
pub struct ListTasksParams {
    pub cursor: Option<Cursor>,
    pub limit: Option<u32>,
    pub meta: Option<Vec<(String, Json)>>,
}

impl ListTasksParams {
    /// Parameters with nothing set.
    pub fn new() -> (r: Self)
        ensures
            r.cursor is None && r.limit is None && r.meta is None,
    {
        ListTasksParams { cursor: None, limit: None, meta: None }
    }

    /// The same parameters with `cursor`.
    pub fn with_cursor(self, cursor: Cursor) -> (r: Self)
        ensures
            r == (ListTasksParams { cursor: Some(cursor), ..self }),
    {
        ListTasksParams { cursor: Some(cursor), ..self }
    }

    /// The same parameters with `limit`.
    pub fn with_limit(self, limit: u32) -> (r: Self)
        ensures
            r == (ListTasksParams { limit: Some(limit), ..self }),
    {
        ListTasksParams { limit: Some(limit), ..self }
    }

    /// The same parameters with `meta`.
    pub fn with_meta(self, meta: Vec<(String, Json)>) -> (r: Self)
        ensures
            r == (ListTasksParams { meta: Some(meta), ..self }),
    {
        ListTasksParams { meta: Some(meta), ..self }
    }
}

impl Default for ListTasksParams {
    fn default() -> (r: Self)
        ensures
            r.cursor is None && r.limit is None && r.meta is None,
    {
        ListTasksParams::new()
    }
}

/// A `tasks/list` request.
#[derive(Debug)]
pub struct ListTasksRequest {
    pub method: String,
    pub params: ListTasksParams,
}

impl ListTasksRequest {
    /// The `tasks/list` request with no parameters set.
    pub fn new() -> (r: Self)
        ensures
            r.method@ == "tasks/list"@,
            r.params.cursor is None && r.params.limit is None && r.params.meta is None,
    {
        ListTasksRequest { method: owned("tasks/list"), params: ListTasksParams::new() }
    }

    /// The same request with `cursor`.
    pub fn with_cursor(self, cursor: Cursor) -> (r: Self)
        ensures
            r.method == self.method,
            r.params == (ListTasksParams { cursor: Some(cursor), ..self.params }),
    {
        ListTasksRequest { params: self.params.with_cursor(cursor), ..self }
    }

    /// The same request with `limit`.
    pub fn with_limit(self, limit: u32) -> (r: Self)
        ensures
            r.method == self.method,
            r.params == (ListTasksParams { limit: Some(limit), ..self.params }),
    {
        ListTasksRequest { params: self.params.with_limit(limit), ..self }
    }

    /// The same request with `meta`.
    pub fn with_meta(self, meta: Vec<(String, Json)>) -> (r: Self)
        ensures
            r.method == self.method,
            r.params == (ListTasksParams { meta: Some(meta), ..self.params }),
    {
        ListTasksRequest { params: self.params.with_meta(meta), ..self }
    }
}

impl Default for ListTasksRequest {
    fn default() -> (r: Self)
        ensures
            r.method@ == "tasks/list"@,
            r.params.cursor is None && r.params.limit is None && r.params.meta is None,
    {
        ListTasksRequest::new()
    }
}

/// The result of `tasks/list`: the tasks, an optional next cursor and `_meta`.
#[derive(Debug)]
pub struct ListTasksResult {
    pub tasks: Vec<Task>,
    pub next_cursor: Option<Cursor>,
    pub meta: Option<Vec<(String, Json)>>,
}

impl ListTasksResult {
    /// The result listing `tasks`, the last page.
    pub fn new(tasks: Vec<Task>) -> (r: Self)
        ensures
            r.tasks == tasks,
            r.next_cursor is None,
            r.meta is None,
    {
        ListTasksResult { tasks, next_cursor: None, meta: None }
    }

    /// The same result with the cursor of the next page.
    pub fn with_next_cursor(self, cursor: Cursor) -> (r: Self)
        ensures
            r == (ListTasksResult { next_cursor: Some(cursor), ..self }),
    {
        ListTasksResult { next_cursor: Some(cursor), ..self }
    }

    /// The same result with `meta`.
    pub fn with_meta(self, meta: Vec<(String, Json)>) -> (r: Self)
        ensures
            r == (ListTasksResult { meta: Some(meta), ..self }),
    {
        ListTasksResult { meta: Some(meta), ..self }
    }
}

/// The result of a task-augmented request: the created task and `_meta`.
#[derive(Debug)]
pub struct CreateTaskResult {
    pub task: Task,
    pub meta: Option<Vec<(String, Json)>>,
}

impl CreateTaskResult {
    /// The result carrying `task`.
    pub fn new(task: Task) -> (r: Self)
        ensures
            r.task == task,
            r.meta is None,
    {
        CreateTaskResult { task, meta: None }
    }

    /// The same result with `meta`.
    pub fn with_meta(self, meta: Vec<(String, Json)>) -> (r: Self)
        ensures
            r.task == self.task,
            r.meta == Some(meta),
    {
        CreateTaskResult { meta: Some(meta), ..self }
    }
}

} // verus!
