//! The steps of each task template, with their per-task settings.

use crate::time::Timestamp;
use vstd::prelude::*;

verus! {

/// A step of a task template, with whether it may be skipped and how it is retried.
pub struct NamedTasksNamedStep {
    pub id: i32,
    pub named_task_id: i32,
    pub named_step_id: i32,
    pub skippable: bool,
    pub default_retryable: bool,
    pub default_retry_limit: i32,
    pub created_at: Timestamp,
    pub updated_at: Timestamp,
}

/// A step to add to a task template; unset settings take their defaults:
/// not skippable, retryable, at most 3 retries.
pub struct NewNamedTasksNamedStep {
    pub named_task_id: i32,
    pub named_step_id: i32,
    pub skippable: Option<bool>,
    pub default_retryable: Option<bool>,
    pub default_retry_limit: Option<i32>,
}

/// A task template's step with the names of the task, the step and its system.
pub struct NamedTasksNamedStepWithDetails {
    pub id: i32,
    pub named_task_id: i32,
    pub named_step_id: i32,
    pub skippable: bool,
    pub default_retryable: bool,
    pub default_retry_limit: i32,
    pub task_name: String,
    pub step_name: String,
    pub step_system_name: String,
    pub created_at: Timestamp,
    pub updated_at: Timestamp,
}

/// The retry limit of a step whose template sets none.
pub const DEFAULT_RETRY_LIMIT: i32 = 3;

impl NewNamedTasksNamedStep {
    /// Whether the step may be skipped: as given, or not.
    pub fn effective_skippable(&self) -> (r: bool)
        ensures
            r == match self.skippable { Some(s) => s, None => false },
    {
        match self.skippable {
            Some(s) => s,
            None => false,
        }
    }

    /// Whether the step is retried by default: as given, or yes.
    pub fn effective_default_retryable(&self) -> (r: bool)
        ensures
            r == match self.default_retryable { Some(s) => s, None => true },
    {
        match self.default_retryable {
            Some(s) => s,
            None => true,
        }
    }

    /// The step's retry limit: as given, or 3.
    pub fn effective_default_retry_limit(&self) -> (r: i32)
        ensures
            r == match self.default_retry_limit { Some(l) => l, None => DEFAULT_RETRY_LIMIT },
    {
        match self.default_retry_limit {
            Some(l) => l,
            None => DEFAULT_RETRY_LIMIT,
        }
    }
}

} // verus!
