//! The slowest steps, and how each is doing.

use crate::text::str_eq;
use crate::time::Timestamp;
use vstd::prelude::*;

verus! {

/// A step among the slowest, with its status.
pub struct SlowestSteps {
    pub workflow_step_id: i64,
    pub task_id: i64,
    pub step_name: String,
    pub task_name: String,
    pub namespace_name: String,
    pub version: String,
    /// The duration in seconds, in its decimal text form.
    pub duration_seconds: String,
    pub attempts: i32,
    pub created_at: Timestamp,
    pub completed_at: Option<Timestamp>,
    pub retryable: bool,
    pub step_status: String,
}

/// Filters for the slowest-steps analysis.
pub struct SlowestStepsFilter {
    pub since_timestamp: Option<Timestamp>,
    pub limit_count: Option<i32>,
    pub namespace_filter: Option<String>,
    pub task_name_filter: Option<String>,
    pub version_filter: Option<String>,
}

/// Number of steps reported when no limit is given.
pub const DEFAULT_LIMIT: i32 = 10i32;

impl Default for SlowestStepsFilter {
    /// No filters and a limit of 10.
    fn default() -> (r: Self)
        ensures
            r.since_timestamp is None,
            r.limit_count == Some(DEFAULT_LIMIT),
            r.namespace_filter is None,
            r.task_name_filter is None,
            r.version_filter is None,
    {
        SlowestStepsFilter {
            since_timestamp: None,
            limit_count: Some(DEFAULT_LIMIT),
            namespace_filter: None,
            task_name_filter: None,
            version_filter: None,
        }
    }
}

impl SlowestStepsFilter {
    /// The number of steps to report: the filter's limit, or 10.
    pub fn effective_limit(&self) -> (r: i32)
        ensures
            r == match self.limit_count { Some(l) => l, None => DEFAULT_LIMIT },
    {
        match self.limit_count {
            Some(l) => l,
            None => DEFAULT_LIMIT,
        }
    }
}

impl SlowestSteps {
    /// Whether the step took more than one attempt.
    pub fn was_retried(&self) -> (r: bool)
        ensures
            r == (self.attempts > 1),
    {
        self.attempts > 1
    }

    /// Whether the step is still in progress.
    pub fn is_running(&self) -> (r: bool)
        ensures
            r == (self.completed_at is None && self.step_status@ == "in_progress"@),
    {
        self.completed_at.is_none() && str_eq(self.step_status.as_str(), "in_progress")
    }

    /// Whether the step completed.
    pub fn completed_successfully(&self) -> (r: bool)
        ensures
            r == (self.step_status@ == "complete"@),
    {
        str_eq(self.step_status.as_str(), "complete")
    }

    /// Whether the step failed.
    pub fn failed(&self) -> (r: bool)
        ensures
            r == (self.step_status@ == "error"@),
    {
        str_eq(self.step_status.as_str(), "error")
    }
}

} // verus!
