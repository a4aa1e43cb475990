//! The task templates that each worker declares it can run.

use crate::json::{JsonValue, JsonView};
use crate::time::Timestamp;
use vstd::prelude::*;

verus! {

/// A worker's support of a task template, with its configuration and priority.
pub struct WorkerNamedTask {
    pub id: i32,
    pub worker_id: i32,
    pub named_task_id: i32,
    pub configuration: JsonValue,
    pub priority: Option<i32>,
    pub created_at: Timestamp,
    pub updated_at: Timestamp,
}

/// A support to record; the configuration defaults to an empty object and
/// the priority to 100.
pub struct NewWorkerNamedTask {
    pub worker_id: i32,
    pub named_task_id: i32,
    pub configuration: Option<JsonValue>,
    pub priority: Option<i32>,
}

/// A support with the names of the worker, the task and its namespace.
pub struct WorkerNamedTaskWithDetails {
    pub id: i32,
    pub worker_id: i32,
    pub named_task_id: i32,
    pub configuration: JsonValue,
    pub priority: i32,
    pub worker_name: String,
    pub task_name: String,
    pub task_version: String,
    pub namespace_name: String,
    pub created_at: Timestamp,
    pub updated_at: Timestamp,
}

/// How many workers support a task template, and which.
pub struct TaskCoverageStats {
    pub named_task_id: i32,
    pub task_name: String,
    pub task_version: String,
    pub namespace_name: String,
    pub worker_count: Option<i64>,
    pub worker_names: Option<Vec<String>>,
}

/// The priority of a worker's support when none is given.
pub const DEFAULT_PRIORITY: i32 = 100;

impl NewWorkerNamedTask {
    /// The configuration to store: the given value, or an empty object.
    pub fn effective_configuration(&self) -> (r: JsonValue)
        ensures
            r@ == match self.configuration { Some(c) => c@, None => JsonView::Object(Seq::empty()) },
    {
        match &self.configuration {
            Some(c) => c.copy(),
            None => JsonValue::empty_object(),
        }
    }

    /// The priority to store: the given one, or 100.
    pub fn effective_priority(&self) -> (r: i32)
        ensures
            r == match self.priority { Some(p) => p, None => DEFAULT_PRIORITY },
    {
        match self.priority {
            Some(p) => p,
            None => DEFAULT_PRIORITY,
        }
    }
}

} // verus!
