//! Step readiness: whether each step of a task can run, is blocked by its
//! dependencies, can be retried, and summaries over a task's steps.

use crate::text::str_eq;
use crate::time::Timestamp;
use vstd::prelude::*;

verus! {

/// Readiness of one workflow step, as computed by the database.
pub struct StepReadinessStatus {
    pub workflow_step_id: i64,
    pub task_id: i64,
    pub named_step_id: i32,
    pub name: String,
    pub current_state: String,
    pub dependencies_satisfied: bool,
    pub retry_eligible: bool,
    pub ready_for_execution: bool,
    pub last_failure_at: Option<Timestamp>,
    pub next_retry_at: Option<Timestamp>,
    pub total_parents: i32,
    pub completed_parents: i32,
    pub attempts: i32,
    pub retry_limit: i32,
    pub backoff_request_seconds: Option<i32>,
    pub last_attempted_at: Option<Timestamp>,
}

/// Readiness counts over a task's steps.
#[derive(Debug, Clone, Copy, PartialEq, Eq)]
pub struct StepReadinessResult {
    pub total_steps: usize,
    pub ready_steps: usize,
    pub blocked_steps: usize,
    pub failed_steps: usize,
    pub processing_steps: usize,
}

/// Which steps a selection keeps.
#[derive(Debug, Clone, Copy, PartialEq, Eq, Structural)]
pub enum ReadinessSelection {
    Ready,
    BlockedByDependencies,
    RetryEligible,
}

pub open spec fn is_ready_spec(s: StepReadinessStatus) -> bool {
    s.ready_for_execution
}

pub open spec fn is_blocked_spec(s: StepReadinessStatus) -> bool {
    !s.dependencies_satisfied
}

pub open spec fn is_failed_spec(s: StepReadinessStatus) -> bool {
    s.current_state@ == "error"@
}

pub open spec fn is_processing_spec(s: StepReadinessStatus) -> bool {
    s.current_state@ == "in_progress"@
}

pub open spec fn is_complete_spec(s: StepReadinessStatus) -> bool {
    s.current_state@ == "complete"@
}

/// Whether a selection keeps a step.
pub open spec fn selected(sel: ReadinessSelection, s: StepReadinessStatus) -> bool {
    match sel {
        ReadinessSelection::Ready => s.ready_for_execution,
        ReadinessSelection::BlockedByDependencies => !s.dependencies_satisfied,
        ReadinessSelection::RetryEligible => s.retry_eligible,
    }
}

/// The readiness counts of a task's steps.
pub open spec fn summary_of(statuses: Seq<StepReadinessStatus>) -> StepReadinessResult {
    StepReadinessResult {
        total_steps: statuses.len() as usize,
        ready_steps: statuses.filter(|s: StepReadinessStatus| is_ready_spec(s)).len() as usize,
        blocked_steps: statuses.filter(|s: StepReadinessStatus| is_blocked_spec(s)).len() as usize,
        failed_steps: statuses.filter(|s: StepReadinessStatus| is_failed_spec(s)).len() as usize,
        processing_steps: statuses.filter(|s: StepReadinessStatus| is_processing_spec(s)).len() as usize,
    }
}

impl StepReadinessStatus {
    /// Whether the step is ready to execute.
    pub fn is_ready(&self) -> (r: bool)
        ensures
            r == is_ready_spec(*self),
    {
        self.ready_for_execution
    }

    /// Whether unfinished dependencies block the step.
    pub fn is_blocked(&self) -> (r: bool)
        ensures
            r == is_blocked_spec(*self),
    {
        !self.dependencies_satisfied
    }

    /// Whether the step may be retried.
    pub fn can_retry(&self) -> (r: bool)
        ensures
            r == self.retry_eligible,
    {
        self.retry_eligible
    }

    /// Whether the step is in progress.
    pub fn is_processing(&self) -> (r: bool)
        ensures
            r == is_processing_spec(*self),
    {
        str_eq(self.current_state.as_str(), "in_progress")
    }

    /// Whether the step is complete.
    pub fn is_complete(&self) -> (r: bool)
        ensures
            r == is_complete_spec(*self),
    {
        str_eq(self.current_state.as_str(), "complete")
    }

    /// Whether the step has failed.
    pub fn has_failed(&self) -> (r: bool)
        ensures
            r == is_failed_spec(*self),
    {
        str_eq(self.current_state.as_str(), "error")
    }

    /// The steps a selection keeps, in their order.
    pub fn select(statuses: Vec<StepReadinessStatus>, selection: ReadinessSelection) -> (r: Vec<StepReadinessStatus>)
        ensures
            r@ == statuses@.filter(|x: StepReadinessStatus| selected(selection, x)),
    {
        let ghost orig = statuses@;
        let mut rest = statuses;
        let mut kept: Vec<StepReadinessStatus> = Vec::new();
        let ghost mut taken: int = 0;
        while rest.len() > 0
            invariant
                0 <= taken <= orig.len(),
                rest@ == orig.skip(taken),
                kept@ == orig.take(taken).filter(|x: StepReadinessStatus| selected(selection, x)),
            decreases rest.len(),
        {
            let st = rest.remove(0);
            proof {
                assert(st == orig[taken]);
                assert(orig.take(taken + 1) =~= orig.take(taken).push(orig[taken]));
                orig.take(taken).lemma_filter_push(orig[taken], |x: StepReadinessStatus| selected(selection, x));
            }
            let keep = match selection {
                ReadinessSelection::Ready => st.ready_for_execution,
                ReadinessSelection::BlockedByDependencies => !st.dependencies_satisfied,
                ReadinessSelection::RetryEligible => st.retry_eligible,
            };
            if keep {
                kept.push(st);
            }
            proof {
                assert(rest@ =~= orig.skip(taken + 1));
                taken = taken + 1;
            }
        }
        assert(orig.take(taken) =~= orig);
        kept
    }

    /// Whether a task's steps are all complete; false for a task without steps.
    pub fn all_complete(statuses: &Vec<StepReadinessStatus>) -> (r: bool)
        ensures
            r == (statuses@.len() > 0 && forall|i: int| 0 <= i < statuses@.len() ==> is_complete_spec(#[trigger] statuses@[i])),
    {
        if statuses.len() == 0 {
            return false;
        }
        let mut i: usize = 0;
        while i < statuses.len()
            invariant
                i <= statuses.len(),
                forall|j: int| 0 <= j < i ==> is_complete_spec(#[trigger] statuses@[j]),
            decreases statuses.len() - i,
        {
            if !statuses[i].is_complete() {
                return false;
            }
            i = i + 1;
        }
        true
    }

    /// Readiness counts: all steps, ready, blocked by dependencies, failed and in progress.
    pub fn summarize(statuses: &Vec<StepReadinessStatus>) -> (r: StepReadinessResult)
        ensures
            r == summary_of(statuses@),
    {
        let ghost s = statuses@;
        let mut ready: usize = 0;
        let mut blocked: usize = 0;
        let mut failed: usize = 0;
        let mut processing: usize = 0;
        let mut i: usize = 0;
        while i < statuses.len()
            invariant
                i <= statuses.len(),
                s == statuses@,
                ready == s.take(i as int).filter(|x: StepReadinessStatus| is_ready_spec(x)).len(),
                blocked == s.take(i as int).filter(|x: StepReadinessStatus| is_blocked_spec(x)).len(),
                failed == s.take(i as int).filter(|x: StepReadinessStatus| is_failed_spec(x)).len(),
                processing == s.take(i as int).filter(|x: StepReadinessStatus| is_processing_spec(x)).len(),
            decreases statuses.len() - i,
        {
            let st = &statuses[i];
            proof {
                assert(s.take(i + 1) =~= s.take(i as int).push(s[i as int]));
                s.take(i as int).lemma_filter_push(s[i as int], |x: StepReadinessStatus| is_ready_spec(x));
                s.take(i as int).lemma_filter_push(s[i as int], |x: StepReadinessStatus| is_blocked_spec(x));
                s.take(i as int).lemma_filter_push(s[i as int], |x: StepReadinessStatus| is_failed_spec(x));
                s.take(i as int).lemma_filter_push(s[i as int], |x: StepReadinessStatus| is_processing_spec(x));
                s.take(i + 1).lemma_filter_len(|x: StepReadinessStatus| is_ready_spec(x));
                s.take(i + 1).lemma_filter_len(|x: StepReadinessStatus| is_blocked_spec(x));
                s.take(i + 1).lemma_filter_len(|x: StepReadinessStatus| is_failed_spec(x));
                s.take(i + 1).lemma_filter_len(|x: StepReadinessStatus| is_processing_spec(x));
            }
            if st.is_ready() {
                ready = ready + 1;
            }
            if st.is_blocked() {
                blocked = blocked + 1;
            }
            if st.has_failed() {
                failed = failed + 1;
            }
            if st.is_processing() {
                processing = processing + 1;
            }
            i = i + 1;
        }
        assert(s.take(s.len() as int) =~= s);
        StepReadinessResult {
            total_steps: statuses.len(),
            ready_steps: ready,
            blocked_steps: blocked,
            failed_steps: failed,
            processing_steps: processing,
        }
    }
}

/// A summary never counts more steps of a kind than the task has.
pub proof fn lemma_summary_bounded(statuses: Seq<StepReadinessStatus>)
    ensures
        statuses.filter(|s: StepReadinessStatus| is_ready_spec(s)).len() <= statuses.len(),
        statuses.filter(|s: StepReadinessStatus| is_blocked_spec(s)).len() <= statuses.len(),
        statuses.filter(|s: StepReadinessStatus| is_failed_spec(s)).len() <= statuses.len(),
        statuses.filter(|s: StepReadinessStatus| is_processing_spec(s)).len() <= statuses.len(),
{
    statuses.lemma_filter_len(|s: StepReadinessStatus| is_ready_spec(s));
    statuses.lemma_filter_len(|s: StepReadinessStatus| is_blocked_spec(s));
    statuses.lemma_filter_len(|s: StepReadinessStatus| is_failed_spec(s));
    statuses.lemma_filter_len(|s: StepReadinessStatus| is_processing_spec(s));
}

/// The summary's ready and blocked counts are the sizes of the Ready and
/// BlockedByDependencies selections.
pub proof fn lemma_summary_matches_selections(statuses: Seq<StepReadinessStatus>)
    ensures
        summary_of(statuses).ready_steps
            == statuses.filter(|x: StepReadinessStatus| selected(ReadinessSelection::Ready, x)).len() as usize,
        summary_of(statuses).blocked_steps
            == statuses.filter(|x: StepReadinessStatus| selected(ReadinessSelection::BlockedByDependencies, x)).len() as usize,
{
    assert((|x: StepReadinessStatus| is_ready_spec(x)) =~= (|x: StepReadinessStatus| selected(ReadinessSelection::Ready, x)));
    assert((|x: StepReadinessStatus| is_blocked_spec(x))
        =~= (|x: StepReadinessStatus| selected(ReadinessSelection::BlockedByDependencies, x)));
}

/// A step counts as failed exactly when its current state is "error",
/// whatever its retry eligibility, readiness or dependencies; so the
/// summary's failed count is the number of steps in the "error" state, and
/// its in-progress count the number in "in_progress".
pub proof fn lemma_failed_means_error_state(statuses: Seq<StepReadinessStatus>, s: StepReadinessStatus)
    ensures
        is_failed_spec(s) <==> s.current_state@ == "error"@,
        is_processing_spec(s) <==> s.current_state@ == "in_progress"@,
        is_complete_spec(s) <==> s.current_state@ == "complete"@,
        summary_of(statuses).failed_steps
            == statuses.filter(|x: StepReadinessStatus| x.current_state@ == "error"@).len() as usize,
        summary_of(statuses).processing_steps
            == statuses.filter(|x: StepReadinessStatus| x.current_state@ == "in_progress"@).len() as usize,
        summary_of(statuses).total_steps == statuses.len() as usize,
{
    assert((|x: StepReadinessStatus| is_failed_spec(x)) =~= (|x: StepReadinessStatus| x.current_state@ == "error"@));
    assert((|x: StepReadinessStatus| is_processing_spec(x)) =~= (|x: StepReadinessStatus| x.current_state@ == "in_progress"@));
}

/// Whether a step counts as failed does not depend on whether it may be
/// retried: an error step whose retries are exhausted is still failed.
pub proof fn lemma_failed_ignores_retry_eligibility(s: StepReadinessStatus, retry_eligible: bool)
    ensures
        is_failed_spec(s) == is_failed_spec(StepReadinessStatus { retry_eligible, ..s }),
{
}

} // verus!
