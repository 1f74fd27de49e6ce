//! DashScope asynchronous tasks: the answers of the task query, list and
//! cancel calls. A task is submitted by adding `X-DashScope-Async: enable` to
//! a service request, which answers with its `task_id`.

use vstd::prelude::*;

verus! {

/// The state of a task.
#[derive(Debug, Clone, Copy, PartialEq, Eq, Structural)]
pub enum TaskStatus {
    Pending,
    Running,
    Succeeded,
    Failed,
    Canceled,
    Unknown,
}

/// One task, as the query call describes it.
///
/// `results` and `task_metrics` hold free-form JSON, kept as JSON text.
#[derive(Debug, Clone)]
pub struct TaskOutput {
    pub task_id: String,
    pub task_status: String,
    pub submit_time: Option<String>,
    pub scheduled_time: Option<String>,
    pub end_time: Option<String>,
    pub code: Option<String>,
    pub message: Option<String>,
    pub results: Option<String>,
    pub task_metrics: Option<String>,
}

/// The answer of the task query call; `usage` is free-form JSON text.
#[derive(Debug, Clone)]
pub struct TaskResponse {
    pub request_id: Option<String>,
    pub output: TaskOutput,
    pub usage: Option<String>,
}

/// One task in the answer of the list call.
#[derive(Debug, Clone)]
pub struct TaskListItem {
    pub task_id: String,
    pub status: String,
    pub model_name: Option<String>,
    pub request_id: Option<String>,
}

/// The answer of the list call.
#[derive(Debug, Clone)]
pub struct TaskListResponse {
    pub request_id: Option<String>,
    pub data: Vec<TaskListItem>,
    pub total: Option<u32>,
    pub page_no: Option<u32>,
    pub page_size: Option<u32>,
    pub code: Option<String>,
    pub message: Option<String>,
}

/// The answer of the cancel call.
#[derive(Debug, Clone)]
pub struct TaskCancelResponse {
    pub request_id: Option<String>,
}

} // verus!
