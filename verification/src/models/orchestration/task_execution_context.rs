//! Task execution context: the computed progress and status of a task.

use vstd::prelude::*;

verus! {

/// Execution statistics of one task, as computed by the database.
pub struct TaskExecutionContext {
    pub task_id: i64,
    pub named_task_id: i32,
    pub status: String,
    pub total_steps: i64,
    pub pending_steps: i64,
    pub in_progress_steps: i64,
    pub completed_steps: i64,
    pub failed_steps: i64,
    pub ready_steps: i64,
    pub execution_status: String,
    pub recommended_action: Option<String>,
    /// The completion percentage in its decimal text form.
    pub completion_percentage: String,
    pub health_status: String,
}

pub open spec fn complete_spec(c: TaskExecutionContext) -> bool {
    c.total_steps > 0 && c.completed_steps == c.total_steps
}

/// The human-readable status summary of a context.
pub open spec fn summary_spec(c: TaskExecutionContext) -> Seq<char> {
    if complete_spec(c) {
        "Complete"@
    } else if c.failed_steps > 0 && c.ready_steps == 0 {
        "Blocked"@
    } else if c.in_progress_steps > 0 {
        "Processing"@
    } else if c.ready_steps > 0 {
        "Ready"@
    } else {
        "Waiting"@
    }
}

impl TaskExecutionContext {
    /// Whether some steps are ready to execute.
    pub fn has_ready_steps(&self) -> (r: bool)
        ensures
            r == (self.ready_steps > 0),
    {
        self.ready_steps > 0
    }

    /// Whether some steps are in progress.
    pub fn is_processing(&self) -> (r: bool)
        ensures
            r == (self.in_progress_steps > 0),
    {
        self.in_progress_steps > 0
    }

    /// Whether the task has steps and all of them completed.
    pub fn is_complete(&self) -> (r: bool)
        ensures
            r == complete_spec(*self),
    {
        self.total_steps > 0 && self.completed_steps == self.total_steps
    }

    /// Whether some steps failed.
    pub fn has_failures(&self) -> (r: bool)
        ensures
            r == (self.failed_steps > 0),
    {
        self.failed_steps > 0
    }

    /// "Complete", "Blocked" (failures and nothing ready), "Processing",
    /// "Ready" or "Waiting", the first that applies.
    pub fn status_summary(&self) -> (r: String)
        ensures
            r@ == summary_spec(*self),
    {
        if self.is_complete() {
            String::from_str("Complete")
        } else if self.has_failures() && self.ready_steps == 0 {
            String::from_str("Blocked")
        } else if self.is_processing() {
            String::from_str("Processing")
        } else if self.has_ready_steps() {
            String::from_str("Ready")
        } else {
            String::from_str("Waiting")
        }
    }
}

/// A complete task is summarized as complete, whatever else its counts say.
pub proof fn lemma_complete_summary(c: TaskExecutionContext)
    requires
        complete_spec(c),
    ensures
        summary_spec(c) == "Complete"@,
{
}

/// A task with failures and nothing ready is blocked unless it is complete.
pub proof fn lemma_blocked_summary(c: TaskExecutionContext)
    requires
        !complete_spec(c),
        c.failed_steps > 0,
        c.ready_steps == 0,
    ensures
        summary_spec(c) == "Blocked"@,
{
}

} // verus!
