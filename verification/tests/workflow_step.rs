use tasker_core::json::JsonValue;
use tasker_core::models::entities::workflow_step::{NewWorkflowStep, StepStateMachine, TaskCompletionStats, WorkflowStep};
use tasker_core::models::orchestration::task_execution_context::TaskExecutionContext;
use tasker_core::time::Timestamp;

const SECOND: i64 = 1_000_000;

fn at(seconds: i64) -> Timestamp {
    Timestamp { micros: seconds * SECOND, extra_nanos: 0 }
}

fn step() -> WorkflowStep {
    WorkflowStep {
        workflow_step_id: 11,
        task_id: 3,
        named_step_id: 4,
        retryable: true,
        retry_limit: Some(3),
        in_process: false,
        processed: false,
        processed_at: None,
        attempts: None,
        last_attempted_at: None,
        backoff_request_seconds: None,
        inputs: None,
        results: None,
        skippable: false,
        created_at: at(1_000),
        updated_at: at(1_000),
    }
}

#[test]
fn new_step_settings_take_defaults() {
    let fresh = NewWorkflowStep { task_id: 1, named_step_id: 2, retryable: None, retry_limit: None, inputs: None, skippable: None };
    assert_eq!(fresh.effective_settings(), (true, 3, false));
    let given = NewWorkflowStep { task_id: 1, named_step_id: 2, retryable: Some(false), retry_limit: Some(7), inputs: None, skippable: Some(true) };
    assert_eq!(given.effective_settings(), (false, 7, true));
}

#[test]
fn retry_limit_counts_attempts() {
    let mut s = step();
    assert!(!s.has_exceeded_retry_limit());
    assert!(!s.has_retry_attempts());
    s.attempts = Some(2);
    assert!(!s.retry_exhausted());
    assert!(s.has_retry_attempts());
    s.attempts = Some(3);
    assert!(s.has_exceeded_retry_limit());
    assert!(s.retry_exhausted());
    s.retry_limit = None;
    assert!(!s.has_exceeded_retry_limit());
}

#[test]
fn backoff_ends_at_last_attempt_plus_request() {
    let mut s = step();
    s.last_attempted_at = Some(at(100));
    s.backoff_request_seconds = Some(30);
    assert!(s.waiting_for_backoff_at(at(129)));
    assert!(s.waiting_for_backoff_at(Timestamp { micros: 130 * SECOND - 1, extra_nanos: 0 }));
    assert!(!s.waiting_for_backoff_at(at(130)));
    assert!(!s.waiting_for_backoff_at(at(500)));
    assert!(!s.is_processing_eligible_at(at(110)));
    assert!(s.is_processing_eligible_at(at(130)));
    s.backoff_request_seconds = None;
    assert!(!s.waiting_for_backoff_at(at(101)));
    // The clock is far past these times.
    let mut recent = step();
    recent.last_attempted_at = Some(at(100));
    recent.backoff_request_seconds = Some(30);
    assert!(!recent.waiting_for_backoff());
    assert!(recent.is_processing_eligible());
    assert!(recent.is_ready_for_processing());
}

#[test]
fn state_predicates() {
    let s = step();
    assert_eq!(s.status(None), "pending");
    assert_eq!(s.status(Some("in_progress")), "in_progress");
    assert!(s.complete(Some("complete")));
    assert!(s.complete(Some("resolved_manually")));
    assert!(!s.complete(None));
    assert!(s.in_progress(Some("in_progress")));
    assert!(s.is_pending(None));
    assert!(s.is_pending(Some("pending")));
    assert!(!s.is_pending(Some("error")));
    assert!(s.in_error(Some("error")));
    assert!(s.cancelled(Some("cancelled")));
    assert!(s.ready_status(None));
    assert!(!s.ready_status(Some("skipped")));
    assert!(!s.ready_status(Some("error")));
    assert!(s.not_in_progress(None));
    assert!(!s.not_in_progress(Some("in_progress")));
    assert!(s.can_be_retried(Some("error")));
    assert!(!s.can_be_retried(Some("failed")));
}

#[test]
fn retries_need_error_limit_and_elapsed_backoff() {
    let mut s = step();
    s.attempts = Some(1);
    assert!(s.retry_eligible(Some("error")));
    assert!(!s.retry_eligible(Some("complete")));
    assert!(s.can_retry_now_at(Some("error"), at(0)));
    s.last_attempted_at = Some(at(100));
    s.backoff_request_seconds = Some(10);
    assert!(!s.can_retry_now_at(Some("error"), at(105)));
    assert!(s.can_retry_now_at(Some("error"), at(110)));
    assert!(s.can_retry_now(Some("error")));
    s.retryable = false;
    assert!(!s.retry_eligible(Some("error")));
    s.retryable = true;
    s.attempts = Some(3);
    assert!(!s.retry_eligible(Some("error")));
    assert!(!s.can_retry_now_at(Some("error"), at(1_000)));
}

#[test]
fn execution_flags_move_through_a_retry() {
    let mut s = step();
    s.record_in_process(at(200));
    assert!(s.in_process);
    assert_eq!(s.attempts, Some(1));
    assert_eq!(s.last_attempted_at, Some(at(200)));
    assert!(!s.is_processing_eligible_at(at(300)));

    s.record_backoff(60);
    assert!(!s.in_process);
    assert_eq!(s.backoff_request_seconds, Some(60));
    assert!(!s.is_processing_eligible_at(at(259)));
    assert!(s.is_processing_eligible_at(at(260)));

    s.record_in_process(at(300));
    assert_eq!(s.attempts, Some(2));
    s.record_processed(at(310), Some(JsonValue::Bool(true)));
    assert!(s.processed && !s.in_process);
    assert_eq!(s.processed_at, Some(at(310)));
    assert_eq!(s.results, Some(JsonValue::Bool(true)));
    assert!(!s.is_processing_eligible_at(at(10_000)));

    s.record_reset_for_retry();
    assert!(!s.processed && !s.in_process);
    assert_eq!(s.processed_at, None);
    assert_eq!(s.results, None);
    assert_eq!(s.backoff_request_seconds, None);
    assert_eq!(s.attempts, Some(2));
    assert!(s.is_processing_eligible_at(at(0)));

    s.record_inputs(JsonValue::Null);
    assert_eq!(s.inputs, Some(JsonValue::Null));
}

#[test]
fn step_state_machine_states() {
    let m = step().state_machine();
    assert_eq!(m, StepStateMachine::new(11));
    for state in ["pending", "wait_for_dependencies", "in_progress", "complete", "error", "failed", "resolved_manually"] {
        assert!(m.can_transition_to(state));
    }
    assert!(!m.can_transition_to("cancelled"));
    assert!(!m.can_transition_to("Complete"));
}

#[test]
fn backoff_end_keeps_nanoseconds() {
    let mut s = step();
    s.last_attempted_at = Some(Timestamp { micros: 100 * SECOND, extra_nanos: 500 });
    s.backoff_request_seconds = Some(30);
    assert!(s.waiting_for_backoff_at(Timestamp { micros: 130 * SECOND, extra_nanos: 499 }));
    assert!(!s.waiting_for_backoff_at(Timestamp { micros: 130 * SECOND, extra_nanos: 500 }));
}

fn context(total: i64, completed: i64) -> TaskExecutionContext {
    TaskExecutionContext {
        task_id: 7,
        named_task_id: 1,
        status: "in_progress".to_string(),
        total_steps: total,
        pending_steps: 1,
        in_progress_steps: 0,
        completed_steps: completed,
        failed_steps: 2,
        ready_steps: 0,
        execution_status: "processing".to_string(),
        recommended_action: None,
        completion_percentage: "50.0".to_string(),
        health_status: "healthy".to_string(),
    }
}

#[test]
fn completion_stats_from_context() {
    let none = WorkflowStep::completion_stats(None, Some(at(5)));
    assert_eq!(
        none,
        TaskCompletionStats {
            total_steps: 0,
            completed_steps: 0,
            failed_steps: 0,
            pending_steps: 0,
            latest_completion_time: None,
            all_complete: false,
        }
    );
    let c = context(4, 2);
    let stats = WorkflowStep::completion_stats(Some(&c), Some(at(5)));
    assert_eq!(
        stats,
        TaskCompletionStats {
            total_steps: 4,
            completed_steps: 2,
            failed_steps: 2,
            pending_steps: 1,
            latest_completion_time: Some(at(5)),
            all_complete: false,
        }
    );
    assert!(WorkflowStep::completion_stats(Some(&context(3, 3)), None).all_complete);
    assert!(!WorkflowStep::completion_stats(Some(&context(0, 0)), None).all_complete);
}

#[test]
fn step_current_state_defaults_to_pending() {
    let machine = StepStateMachine::new(4);
    assert_eq!(machine.current_state_from(None), "pending");
    assert_eq!(machine.current_state_from(Some("complete".to_string())), "complete");
}
