//! Workflow steps: one step instance of a task, its retry limits and
//! backoff, and the flags its execution moves through.

use crate::json::JsonValue;
use crate::models::orchestration::task_execution_context::{complete_spec, TaskExecutionContext};
use crate::text::str_eq;
use crate::time::{current_time, nanos_in_range, nanos_since_epoch, total_nanos, Timestamp, MAX_MICROS};
use vstd::prelude::*;

verus! {

/// An individual step instance within a workflow task.
pub struct WorkflowStep {
    pub workflow_step_id: i64,
    pub task_id: i64,
    pub named_step_id: i32,
    pub retryable: bool,
    pub retry_limit: Option<i32>,
    pub in_process: bool,
    pub processed: bool,
    pub processed_at: Option<Timestamp>,
    pub attempts: Option<i32>,
    pub last_attempted_at: Option<Timestamp>,
    pub backoff_request_seconds: Option<i32>,
    pub inputs: Option<JsonValue>,
    pub results: Option<JsonValue>,
    pub skippable: bool,
    pub created_at: Timestamp,
    pub updated_at: Timestamp,
}

/// A workflow step to create. Unset options default to retryable, a retry
/// limit of 3 and not skippable.
pub struct NewWorkflowStep {
    pub task_id: i64,
    pub named_step_id: i32,
    pub retryable: Option<bool>,
    pub retry_limit: Option<i32>,
    pub inputs: Option<JsonValue>,
    pub skippable: Option<bool>,
}

/// Step counts of a task and when its last step completed.
#[derive(Debug, Clone, Copy, PartialEq, Eq, Structural)]
pub struct TaskCompletionStats {
    pub total_steps: i64,
    pub completed_steps: i64,
    pub failed_steps: i64,
    pub pending_steps: i64,
    pub latest_completion_time: Option<Timestamp>,
    pub all_complete: bool,
}

/// State-machine view of one workflow step, kept in the transition table.
#[derive(Debug, Clone, Copy, PartialEq, Eq, Structural)]
pub struct StepStateMachine {
    pub workflow_step_id: i64,
}

// ---------------------------------------------------------------------------
// Specification
// ---------------------------------------------------------------------------

/// Whether a current state (from the transition history) equals `name`.
pub open spec fn state_is(state: Option<&str>, name: Seq<char>) -> bool {
    match state {
        Some(s) => s@ == name,
        None => false,
    }
}

/// The attempts have reached the retry limit (both must be set).
pub open spec fn exceeded_retry_limit(s: WorkflowStep) -> bool {
    match (s.attempts, s.retry_limit) {
        (Some(a), Some(l)) => a >= l,
        _ => false,
    }
}

/// The time at which a requested backoff ends, in nanoseconds since the epoch.
pub open spec fn backoff_end(s: WorkflowStep) -> int {
    total_nanos(s.last_attempted_at.unwrap()) + s.backoff_request_seconds.unwrap() * 1000000000
}

/// Adding the requested backoff to the last attempt stays within the representable times.
pub open spec fn backoff_representable(s: WorkflowStep) -> bool {
    (s.last_attempted_at is Some && s.backoff_request_seconds is Some) ==> nanos_in_range(backoff_end(s))
}

/// At time `now` the step is still inside a requested backoff period.
pub open spec fn waiting_at(s: WorkflowStep, now: Timestamp) -> bool {
    s.last_attempted_at is Some && s.backoff_request_seconds is Some && total_nanos(now) < backoff_end(s)
}

/// At time `now` the step's own flags allow it to be picked up.
pub open spec fn eligible_at(s: WorkflowStep, now: Timestamp) -> bool {
    !s.processed && !s.in_process && !waiting_at(s, now)
}

/// A retry is allowed: the step is retryable, below its limit and in error.
pub open spec fn retry_allowed(s: WorkflowStep, state: Option<&str>) -> bool {
    s.retryable && !exceeded_retry_limit(s) && state_is(state, "error"@)
}

/// At time `now` a retry may start: retry allowed and no backoff pending.
pub open spec fn retry_now_at(s: WorkflowStep, state: Option<&str>, now: Timestamp) -> bool {
    retry_allowed(s, state) && !waiting_at(s, now)
}

/// The step after it was marked in process at `now`.
pub open spec fn after_in_process(s: WorkflowStep, now: Timestamp) -> WorkflowStep {
    WorkflowStep {
        in_process: true,
        last_attempted_at: Some(now),
        attempts: Some((match s.attempts { Some(a) => a as int, None => 0 } + 1) as i32),
        ..s
    }
}

/// The step after it was marked processed at `now` with `results`.
pub open spec fn after_processed(s: WorkflowStep, now: Timestamp, results: Option<JsonValue>) -> WorkflowStep {
    WorkflowStep { processed: true, in_process: false, processed_at: Some(now), results, ..s }
}

/// The step after a backoff of `seconds` was requested.
pub open spec fn after_backoff(s: WorkflowStep, seconds: i32) -> WorkflowStep {
    WorkflowStep { backoff_request_seconds: Some(seconds), in_process: false, ..s }
}

/// The step after it was reset for a retry.
pub open spec fn after_reset(s: WorkflowStep) -> WorkflowStep {
    WorkflowStep {
        in_process: false,
        processed: false,
        processed_at: None,
        results: None,
        backoff_request_seconds: None,
        ..s
    }
}

/// The states of the step state machine.
pub open spec fn valid_step_state(name: Seq<char>) -> bool {
    name == "pending"@ || name == "wait_for_dependencies"@ || name == "in_progress"@ || name == "complete"@
        || name == "error"@ || name == "failed"@ || name == "resolved_manually"@
}

// ---------------------------------------------------------------------------
// Implementation
// ---------------------------------------------------------------------------

fn state_equals(state: Option<&str>, name: &str) -> (r: bool)
    ensures
        r == state_is(state, name@),
{
    match state {
        Some(s) => str_eq(s, name),
        None => false,
    }
}

impl NewWorkflowStep {
    /// The retryable flag, retry limit and skippable flag to store,
    /// with the defaults applied.
    pub fn effective_settings(&self) -> (r: (bool, i32, bool))
        ensures
            r.0 == match self.retryable { Some(b) => b, None => true },
            r.1 == match self.retry_limit { Some(l) => l, None => 3 },
            r.2 == match self.skippable { Some(b) => b, None => false },
    {
        (
            match self.retryable { Some(b) => b, None => true },
            match self.retry_limit { Some(l) => l, None => 3 },
            match self.skippable { Some(b) => b, None => false },
        )
    }
}

impl WorkflowStep {
    /// The completion statistics of a task from its execution context and the
    /// time its latest processed step completed: the context's step counts
    /// and completeness, or all zero, no time and not complete when the task
    /// has no context.
    pub fn completion_stats(context: Option<&TaskExecutionContext>, latest_completion_time: Option<Timestamp>) -> (r: TaskCompletionStats)
        ensures
            match context {
                None => r == (TaskCompletionStats {
                    total_steps: 0,
                    completed_steps: 0,
                    failed_steps: 0,
                    pending_steps: 0,
                    latest_completion_time: None,
                    all_complete: false,
                }),
                Some(c) => r == (TaskCompletionStats {
                    total_steps: c.total_steps,
                    completed_steps: c.completed_steps,
                    failed_steps: c.failed_steps,
                    pending_steps: c.pending_steps,
                    latest_completion_time,
                    all_complete: complete_spec(*c),
                }),
            },
    {
        match context {
            Some(c) => TaskCompletionStats {
                total_steps: c.total_steps,
                completed_steps: c.completed_steps,
                failed_steps: c.failed_steps,
                pending_steps: c.pending_steps,
                latest_completion_time,
                all_complete: c.is_complete(),
            },
            None => TaskCompletionStats {
                total_steps: 0,
                completed_steps: 0,
                failed_steps: 0,
                pending_steps: 0,
                latest_completion_time: None,
                all_complete: false,
            },
        }
    }

    /// Whether the attempts have reached the retry limit.
    pub fn has_exceeded_retry_limit(&self) -> (r: bool)
        ensures
            r == exceeded_retry_limit(*self),
    {
        match (self.attempts, self.retry_limit) {
            (Some(attempts), Some(limit)) => attempts >= limit,
            _ => false,
        }
    }

    /// Whether the step is inside a requested backoff period at `now`.
    pub fn waiting_for_backoff_at(&self, now: Timestamp) -> (r: bool)
        requires
            backoff_representable(*self),
        ensures
            r == waiting_at(*self, now),
    {
        match (self.last_attempted_at, self.backoff_request_seconds) {
            (Some(last_attempt), Some(backoff_seconds)) => {
                let retry_available_at = nanos_since_epoch(last_attempt) + (backoff_seconds as i128) * 1000000000;
                nanos_since_epoch(now) < retry_available_at
            },
            _ => false,
        }
    }

    /// Whether the step is inside a requested backoff period now.
    pub fn waiting_for_backoff(&self) -> (r: bool)
        requires
            backoff_representable(*self),
        ensures
            exists|now: Timestamp| 0 <= now.micros <= MAX_MICROS && now.extra_nanos < 1000 && r == waiting_at(*self, now),
    {
        let now = current_time();
        self.waiting_for_backoff_at(now)
    }

    /// Whether the step's own state allows processing at `now`: not processed,
    /// not in process and not waiting for a backoff.
    pub fn is_processing_eligible_at(&self, now: Timestamp) -> (r: bool)
        requires
            backoff_representable(*self),
        ensures
            r == eligible_at(*self, now),
    {
        !self.processed && !self.in_process && !self.waiting_for_backoff_at(now)
    }

    /// Whether the step's own state allows processing now.
    pub fn is_processing_eligible(&self) -> (r: bool)
        requires
            backoff_representable(*self),
        ensures
            exists|now: Timestamp| 0 <= now.micros <= MAX_MICROS && now.extra_nanos < 1000 && r == eligible_at(*self, now),
    {
        let now = current_time();
        self.is_processing_eligible_at(now)
    }

    /// Former name of `is_processing_eligible`.
    pub fn is_ready_for_processing(&self) -> (r: bool)
        requires
            backoff_representable(*self),
        ensures
            exists|now: Timestamp| 0 <= now.micros <= MAX_MICROS && now.extra_nanos < 1000 && r == eligible_at(*self, now),
    {
        self.is_processing_eligible()
    }

    /// Whether the step has been attempted at least once.
    pub fn has_retry_attempts(&self) -> (r: bool)
        ensures
            r == (match self.attempts { Some(a) => a, None => 0 } > 0),
    {
        match self.attempts {
            Some(a) => a > 0,
            None => false,
        }
    }

    /// Whether the retry limit is exhausted.
    pub fn retry_exhausted(&self) -> (r: bool)
        ensures
            r == exceeded_retry_limit(*self),
    {
        self.has_exceeded_retry_limit()
    }

    /// The step's status given its current state; "pending" when it has none.
    pub fn status(&self, current_state: Option<&str>) -> (r: String)
        ensures
            r@ == match current_state { Some(s) => s@, None => "pending"@ },
    {
        match current_state {
            Some(s) => String::from_str(s),
            None => String::from_str("pending"),
        }
    }

    /// Whether the state is complete or resolved manually.
    pub fn complete(&self, current_state: Option<&str>) -> (r: bool)
        ensures
            r == (state_is(current_state, "complete"@) || state_is(current_state, "resolved_manually"@)),
    {
        state_equals(current_state, "complete") || state_equals(current_state, "resolved_manually")
    }

    /// Whether the state is in progress.
    pub fn in_progress(&self, current_state: Option<&str>) -> (r: bool)
        ensures
            r == state_is(current_state, "in_progress"@),
    {
        state_equals(current_state, "in_progress")
    }

    /// Whether the step is pending: no state yet, or the pending state.
    pub fn is_pending(&self, current_state: Option<&str>) -> (r: bool)
        ensures
            r == (state_is(current_state, "pending"@) || current_state is None),
    {
        state_equals(current_state, "pending") || current_state.is_none()
    }

    /// Whether the state is error.
    pub fn in_error(&self, current_state: Option<&str>) -> (r: bool)
        ensures
            r == state_is(current_state, "error"@),
    {
        state_equals(current_state, "error")
    }

    /// Whether the state is cancelled.
    pub fn cancelled(&self, current_state: Option<&str>) -> (r: bool)
        ensures
            r == state_is(current_state, "cancelled"@),
    {
        state_equals(current_state, "cancelled")
    }

    /// Whether the step could still run: its state (pending when none) is not
    /// error, cancelled or skipped.
    pub fn ready_status(&self, current_state: Option<&str>) -> (r: bool)
        ensures
            r == !(state_is(current_state, "error"@) || state_is(current_state, "cancelled"@)
                || state_is(current_state, "skipped"@)),
    {
        !(state_equals(current_state, "error") || state_equals(current_state, "cancelled")
            || state_equals(current_state, "skipped"))
    }

    /// Whether the step is not in progress (no state counts as not in progress).
    pub fn not_in_progress(&self, current_state: Option<&str>) -> (r: bool)
        ensures
            r == !state_is(current_state, "in_progress"@),
    {
        !state_equals(current_state, "in_progress")
    }

    /// Whether the step can be retried: it must be in the error state.
    pub fn can_be_retried(&self, current_state: Option<&str>) -> (r: bool)
        ensures
            r == state_is(current_state, "error"@),
    {
        state_equals(current_state, "error")
    }

    /// Whether the step is retry eligible: retryable, below its retry limit
    /// and in the error state.
    pub fn retry_eligible(&self, current_state: Option<&str>) -> (r: bool)
        ensures
            r == retry_allowed(*self, current_state),
    {
        if !self.retryable {
            return false;
        }
        if self.has_exceeded_retry_limit() {
            return false;
        }
        if !self.in_error(current_state) {
            return false;
        }
        true
    }

    /// Whether the step can be retried at `now`: in error, retry eligible and
    /// not waiting for a backoff.
    pub fn can_retry_now_at(&self, current_state: Option<&str>, now: Timestamp) -> (r: bool)
        requires
            backoff_representable(*self),
        ensures
            r == retry_now_at(*self, current_state, now),
    {
        if !self.in_error(current_state) {
            return false;
        }
        if !self.retry_eligible(current_state) {
            return false;
        }
        if self.waiting_for_backoff_at(now) {
            return false;
        }
        true
    }

    /// Whether the step can be retried now.
    pub fn can_retry_now(&self, current_state: Option<&str>) -> (r: bool)
        requires
            backoff_representable(*self),
        ensures
            exists|now: Timestamp| 0 <= now.micros <= MAX_MICROS && now.extra_nanos < 1000 && r == retry_now_at(*self, current_state, now),
    {
        let now = current_time();
        let r = self.can_retry_now_at(current_state, now);
        assert(r == retry_now_at(*self, current_state, now));
        r
    }

    /// The state machine of this step.
    pub fn state_machine(&self) -> (r: StepStateMachine)
        ensures
            r.workflow_step_id == self.workflow_step_id,
    {
        StepStateMachine::new(self.workflow_step_id)
    }

    /// Records that the step was marked in process at `now`: in process,
    /// attempted at `now`, one more attempt.
    pub fn record_in_process(&mut self, now: Timestamp)
        requires
            match old(self).attempts { Some(a) => a < i32::MAX, None => true },
        ensures
            *final(self) == after_in_process(*old(self), now),
    {
        self.in_process = true;
        self.last_attempted_at = Some(now);
        let previous = match self.attempts {
            Some(a) => a,
            None => 0,
        };
        self.attempts = Some(previous + 1);
    }

    /// Records that the step was marked processed at `now` with `results`.
    pub fn record_processed(&mut self, now: Timestamp, results: Option<JsonValue>)
        ensures
            *final(self) == after_processed(*old(self), now, results),
    {
        self.processed = true;
        self.in_process = false;
        self.processed_at = Some(now);
        self.results = results;
    }

    /// Records a requested backoff of `seconds`; the step is no longer in process.
    pub fn record_backoff(&mut self, seconds: i32)
        ensures
            *final(self) == after_backoff(*old(self), seconds),
    {
        self.backoff_request_seconds = Some(seconds);
        self.in_process = false;
    }

    /// Records a reset for retry: not in process, not processed, no results,
    /// no processing time and no backoff.
    pub fn record_reset_for_retry(&mut self)
        ensures
            *final(self) == after_reset(*old(self)),
    {
        self.in_process = false;
        self.processed = false;
        self.processed_at = None;
        self.results = None;
        self.backoff_request_seconds = None;
    }

    /// Records new inputs.
    pub fn record_inputs(&mut self, inputs: JsonValue)
        ensures
            *final(self) == (WorkflowStep { inputs: Some(inputs), ..*old(self) }),
    {
        self.inputs = Some(inputs);
    }
}

impl StepStateMachine {
    /// A state machine for step `workflow_step_id`.
    pub fn new(workflow_step_id: i64) -> (r: Self)
        ensures
            r.workflow_step_id == workflow_step_id,
    {
        StepStateMachine { workflow_step_id }
    }

    /// The step's current state given the target state of its most recent
    /// transition: that state, or "pending" before any transition.
    pub fn current_state_from(&self, most_recent_to_state: Option<String>) -> (r: String)
        ensures
            r@ == match most_recent_to_state { Some(s) => s@, None => "pending"@ },
    {
        match most_recent_to_state {
            Some(s) => s,
            None => String::from_str("pending"),
        }
    }

    /// Whether `to_state` is a state of the step state machine.
    pub fn can_transition_to(&self, to_state: &str) -> (r: bool)
        ensures
            r == valid_step_state(to_state@),
    {
        str_eq(to_state, "pending") || str_eq(to_state, "wait_for_dependencies") || str_eq(to_state, "in_progress")
            || str_eq(to_state, "complete") || str_eq(to_state, "error") || str_eq(to_state, "failed")
            || str_eq(to_state, "resolved_manually")
    }
}

// ---------------------------------------------------------------------------
// Laws
// ---------------------------------------------------------------------------

/// A step reset for retry is eligible for processing at any time.
pub proof fn lemma_reset_makes_eligible(s: WorkflowStep, now: Timestamp)
    ensures
        eligible_at(after_reset(s), now),
{
}

/// A step marked in process cannot be picked up again.
pub proof fn lemma_in_process_not_eligible(s: WorkflowStep, started: Timestamp, now: Timestamp)
    ensures
        !eligible_at(after_in_process(s, started), now),
{
}

/// A processed step is not picked up again.
pub proof fn lemma_processed_not_eligible(s: WorkflowStep, at: Timestamp, results: Option<JsonValue>, now: Timestamp)
    ensures
        !eligible_at(after_processed(s, at, results), now),
{
}

/// Marking a step in process counts exactly one more attempt.
pub proof fn lemma_in_process_counts_attempt(s: WorkflowStep, now: Timestamp)
    requires
        match s.attempts { Some(a) => a < i32::MAX, None => true },
    ensures
        after_in_process(s, now).attempts == Some((match s.attempts { Some(a) => a as int, None => 0 } + 1) as i32),
{
}

/// A step whose retries are exhausted is not retry eligible.
pub proof fn lemma_exhausted_not_retryable(s: WorkflowStep, state: Option<&str>)
    requires
        exceeded_retry_limit(s),
    ensures
        !retry_allowed(s, state),
{
}

/// A backoff ends: from its end time on, the step is no longer waiting.
pub proof fn lemma_backoff_expires(s: WorkflowStep, now: Timestamp)
    requires
        s.last_attempted_at is Some && s.backoff_request_seconds is Some,
        total_nanos(now) >= backoff_end(s),
    ensures
        !waiting_at(s, now),
{
}

/// A reset keeps the attempt count, so the retry limit still applies.
pub proof fn lemma_reset_keeps_attempts(s: WorkflowStep)
    ensures
        after_reset(s).attempts == s.attempts,
        exceeded_retry_limit(after_reset(s)) == exceeded_retry_limit(s),
{
}

} // verus!
