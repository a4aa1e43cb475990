//! The slowest tasks, and how each is doing.

use crate::text::{i64_to_decimal, int_decimal};
use crate::time::Timestamp;
use vstd::prelude::*;

verus! {

/// A task among the slowest, with its progress.
pub struct SlowestTasks {
    pub task_id: i64,
    pub task_name: String,
    pub namespace_name: String,
    pub version: String,
    /// The duration in seconds, in its decimal text form.
    pub duration_seconds: String,
    pub step_count: i64,
    pub completed_steps: i64,
    pub error_steps: i64,
    pub created_at: Timestamp,
    pub completed_at: Option<Timestamp>,
    pub initiator: Option<String>,
    pub source_system: Option<String>,
}

/// Filters for the slowest-tasks analysis.
pub struct SlowestTasksFilter {
    pub since_timestamp: Option<Timestamp>,
    pub limit_count: Option<i32>,
    pub namespace_filter: Option<String>,
    pub task_name_filter: Option<String>,
    pub version_filter: Option<String>,
}

/// Number of tasks reported when no limit is given.
pub const DEFAULT_LIMIT: i32 = 10i32;

pub open spec fn completed_successfully_spec(t: SlowestTasks) -> bool {
    t.completed_at is Some && t.completed_steps == t.step_count && t.error_steps == 0
}

impl Default for SlowestTasksFilter {
    /// No filters and a limit of 10.
    fn default() -> (r: Self)
        ensures
            r.since_timestamp is None,
            r.limit_count == Some(DEFAULT_LIMIT),
            r.namespace_filter is None,
            r.task_name_filter is None,
            r.version_filter is None,
    {
        SlowestTasksFilter {
            since_timestamp: None,
            limit_count: Some(DEFAULT_LIMIT),
            namespace_filter: None,
            task_name_filter: None,
            version_filter: None,
        }
    }
}

impl SlowestTasksFilter {
    /// The number of tasks to report: the filter's limit, or 10.
    pub fn effective_limit(&self) -> (r: i32)
        ensures
            r == match self.limit_count { Some(l) => l, None => DEFAULT_LIMIT },
    {
        match self.limit_count {
            Some(l) => l,
            None => DEFAULT_LIMIT,
        }
    }
}

impl SlowestTasks {
    /// Whether the task has not completed yet.
    pub fn is_running(&self) -> (r: bool)
        ensures
            r == self.completed_at is None,
    {
        self.completed_at.is_none()
    }

    /// Whether the task completed with every step complete and none in error.
    pub fn completed_successfully(&self) -> (r: bool)
        ensures
            r == completed_successfully_spec(*self),
    {
        self.completed_at.is_some() && self.completed_steps == self.step_count && self.error_steps == 0
    }

    /// Whether some steps are in error.
    pub fn has_errors(&self) -> (r: bool)
        ensures
            r == (self.error_steps > 0),
    {
        self.error_steps > 0
    }

    /// Steps neither complete nor in error.
    pub fn pending_steps(&self) -> (r: i64)
        requires
            i64::MIN <= self.step_count - self.completed_steps <= i64::MAX,
            i64::MIN <= self.step_count - self.completed_steps - self.error_steps <= i64::MAX,
        ensures
            r == self.step_count - self.completed_steps - self.error_steps,
    {
        self.step_count - self.completed_steps - self.error_steps
    }

    /// The task's one-line status: completed, the number of failed steps,
    /// running with the given completion percentage (one decimal, as text),
    /// or unknown.
    pub fn status_summary(&self, completion_percent: &str) -> (r: String)
        ensures
            r@ == status_summary_text(*self, completion_percent@),
    {
        if self.completed_successfully() {
            String::from_str("Completed")
        } else if self.has_errors() {
            String::from_str("Errors (").concat(i64_to_decimal(self.error_steps).as_str()).concat(" failed)")
        } else if self.is_running() {
            String::from_str("Running (").concat(completion_percent).concat("%)")
        } else {
            String::from_str("Unknown")
        }
    }
}

/// The one-line status of a task, given its completion percentage as text
/// (used only while it runs).
pub open spec fn status_summary_text(t: SlowestTasks, percent: Seq<char>) -> Seq<char> {
    if completed_successfully_spec(t) {
        "Completed"@
    } else if t.error_steps > 0 {
        "Errors ("@ + int_decimal(t.error_steps as int) + " failed)"@
    } else if t.completed_at is None {
        "Running ("@ + percent + "%)"@
    } else {
        "Unknown"@
    }
}

/// A task that completed successfully has no errors and is not running.
pub proof fn lemma_success_excludes_errors(t: SlowestTasks)
    requires
        completed_successfully_spec(t),
    ensures
        !(t.error_steps > 0),
        t.completed_at is Some,
        t.step_count - t.completed_steps - t.error_steps == 0,
{
}

} // verus!
