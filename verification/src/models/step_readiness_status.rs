//! The stored readiness of workflow steps: one row per step, kept as a cache
//! of the readiness the database computes, and updated in place.

use crate::json::JsonValue;
use crate::time::{current_time, Timestamp, MAX_MICROS};
use vstd::prelude::*;

verus! {

/// One stored readiness row.
pub struct StepReadinessStatus {
    pub step_readiness_status_id: i64,
    pub workflow_step_id: i64,
    pub dependencies_satisfied: bool,
    pub retry_eligible: bool,
    pub ready_for_execution: bool,
    pub last_readiness_check_at: Option<Timestamp>,
    pub next_readiness_check_at: Option<Timestamp>,
    pub total_parents: i32,
    pub completed_parents: i32,
    pub backoff_request_seconds: Option<i32>,
    pub last_attempted_at: Option<Timestamp>,
    pub metadata: JsonValue,
    pub created_at: Timestamp,
    pub updated_at: Timestamp,
}

/// A readiness row to store.
pub struct NewStepReadinessStatus {
    pub workflow_step_id: i64,
    pub dependencies_satisfied: bool,
    pub retry_eligible: bool,
    pub ready_for_execution: bool,
    pub last_readiness_check_at: Option<Timestamp>,
    pub next_readiness_check_at: Option<Timestamp>,
    pub total_parents: i32,
    pub completed_parents: i32,
    pub backoff_request_seconds: Option<i32>,
    pub last_attempted_at: Option<Timestamp>,
    pub metadata: Option<JsonValue>,
}

/// One row of the readiness the database computes for a task's steps; every
/// column may be missing.
pub struct StepReadinessResult {
    pub workflow_step_id: Option<i64>,
    pub task_id: Option<i64>,
    pub named_step_id: Option<i32>,
    pub name: Option<String>,
    pub current_state: Option<String>,
    pub dependencies_satisfied: Option<bool>,
    pub retry_eligible: Option<bool>,
    pub ready_for_execution: Option<bool>,
    pub last_failure_at: Option<Timestamp>,
    pub next_retry_at: Option<Timestamp>,
    pub total_parents: Option<i32>,
    pub completed_parents: Option<i32>,
    pub attempts: Option<i32>,
    pub retry_limit: Option<i32>,
    pub backoff_request_seconds: Option<i32>,
    pub last_attempted_at: Option<Timestamp>,
}

/// The given value, or `current` when none is given.
pub open spec fn given_or<T>(given: Option<T>, current: T) -> T {
    match given {
        Some(v) => v,
        None => current,
    }
}

/// The stored row after a readiness update checked at `now`: each value that
/// is given replaces the stored one, the next check and the backoff keep
/// theirs when none is given, and the last check becomes `now`.
pub open spec fn readiness_updated(
    s: StepReadinessStatus,
    dependencies_satisfied: Option<bool>,
    retry_eligible: Option<bool>,
    ready_for_execution: Option<bool>,
    next_readiness_check_at: Option<Timestamp>,
    backoff_request_seconds: Option<i32>,
    now: Timestamp,
) -> StepReadinessStatus {
    StepReadinessStatus {
        dependencies_satisfied: given_or(dependencies_satisfied, s.dependencies_satisfied),
        retry_eligible: given_or(retry_eligible, s.retry_eligible),
        ready_for_execution: given_or(ready_for_execution, s.ready_for_execution),
        next_readiness_check_at: match next_readiness_check_at {
            Some(t) => Some(t),
            None => s.next_readiness_check_at,
        },
        backoff_request_seconds: match backoff_request_seconds {
            Some(b) => Some(b),
            None => s.backoff_request_seconds,
        },
        last_readiness_check_at: Some(now),
        ..s
    }
}

impl StepReadinessStatus {
    /// Applies a readiness update checked at `now`.
    pub fn update_readiness_at(
        &mut self,
        dependencies_satisfied: Option<bool>,
        retry_eligible: Option<bool>,
        ready_for_execution: Option<bool>,
        next_readiness_check_at: Option<Timestamp>,
        backoff_request_seconds: Option<i32>,
        now: Timestamp,
    )
        ensures
            *final(self) == readiness_updated(
                *old(self),
                dependencies_satisfied,
                retry_eligible,
                ready_for_execution,
                next_readiness_check_at,
                backoff_request_seconds,
                now,
            ),
    {
        if let Some(deps) = dependencies_satisfied {
            self.dependencies_satisfied = deps;
        }
        if let Some(retry) = retry_eligible {
            self.retry_eligible = retry;
        }
        if let Some(ready) = ready_for_execution {
            self.ready_for_execution = ready;
        }
        if let Some(next) = next_readiness_check_at {
            self.next_readiness_check_at = Some(next);
        }
        if let Some(backoff) = backoff_request_seconds {
            self.backoff_request_seconds = Some(backoff);
        }
        self.last_readiness_check_at = Some(now);
    }

    /// Applies a readiness update checked now.
    pub fn update_readiness(
        &mut self,
        dependencies_satisfied: Option<bool>,
        retry_eligible: Option<bool>,
        ready_for_execution: Option<bool>,
        next_readiness_check_at: Option<Timestamp>,
        backoff_request_seconds: Option<i32>,
    )
        ensures
            exists|now: Timestamp|
                0 <= now.micros <= MAX_MICROS && now.extra_nanos < 1000 && *final(self) == readiness_updated(
                    *old(self),
                    dependencies_satisfied,
                    retry_eligible,
                    ready_for_execution,
                    next_readiness_check_at,
                    backoff_request_seconds,
                    now,
                ),
    {
        let now = current_time();
        self.update_readiness_at(
            dependencies_satisfied,
            retry_eligible,
            ready_for_execution,
            next_readiness_check_at,
            backoff_request_seconds,
            now,
        );
    }
}

impl NewStepReadinessStatus {
    /// The row to store for a computed readiness row checked at `checked_at`:
    /// a missing step id becomes 0, missing flags false and missing parent
    /// counts 0; the next check is the next retry time, and no metadata.
    pub fn from_result(result: &StepReadinessResult, checked_at: Timestamp) -> (r: NewStepReadinessStatus)
        ensures
            r.workflow_step_id == given_or(result.workflow_step_id, 0i64),
            r.dependencies_satisfied == given_or(result.dependencies_satisfied, false),
            r.retry_eligible == given_or(result.retry_eligible, false),
            r.ready_for_execution == given_or(result.ready_for_execution, false),
            r.last_readiness_check_at == Some(checked_at),
            r.next_readiness_check_at == result.next_retry_at,
            r.total_parents == given_or(result.total_parents, 0i32),
            r.completed_parents == given_or(result.completed_parents, 0i32),
            r.backoff_request_seconds == result.backoff_request_seconds,
            r.last_attempted_at == result.last_attempted_at,
            r.metadata is None,
    {
        NewStepReadinessStatus {
            workflow_step_id: match result.workflow_step_id { Some(v) => v, None => 0 },
            dependencies_satisfied: match result.dependencies_satisfied { Some(v) => v, None => false },
            retry_eligible: match result.retry_eligible { Some(v) => v, None => false },
            ready_for_execution: match result.ready_for_execution { Some(v) => v, None => false },
            last_readiness_check_at: Some(checked_at),
            next_readiness_check_at: result.next_retry_at,
            total_parents: match result.total_parents { Some(v) => v, None => 0 },
            completed_parents: match result.completed_parents { Some(v) => v, None => 0 },
            backoff_request_seconds: result.backoff_request_seconds,
            last_attempted_at: result.last_attempted_at,
            metadata: None,
        }
    }
}

} // verus!
