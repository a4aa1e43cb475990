use tasker_core::json::{JsonNumber, JsonValue};
use tasker_core::models::orchestration::step_dag_relationship::StepDagRelationship as DagRow;
use tasker_core::models::orchestration::step_readiness_status::{ReadinessSelection, StepReadinessResult, StepReadinessStatus};
use tasker_core::models::orchestration::task_execution_context::TaskExecutionContext;
use tasker_core::models::step_dag_relationship::StepDagRelationship;

fn status(id: i64, state: &str, deps: bool, retry: bool, ready: bool) -> StepReadinessStatus {
    StepReadinessStatus {
        workflow_step_id: id,
        task_id: 1,
        named_step_id: 1,
        name: format!("step_{id}"),
        current_state: state.to_string(),
        dependencies_satisfied: deps,
        retry_eligible: retry,
        ready_for_execution: ready,
        last_failure_at: None,
        next_retry_at: None,
        total_parents: 0,
        completed_parents: 0,
        attempts: 0,
        retry_limit: 3,
        backoff_request_seconds: None,
        last_attempted_at: None,
    }
}

fn sample() -> Vec<StepReadinessStatus> {
    vec![
        status(1, "complete", true, false, false),
        status(2, "in_progress", true, false, false),
        status(3, "pending", true, false, true),
        status(4, "pending", false, false, false),
        status(5, "error", true, true, false),
        status(6, "pending", false, false, false),
    ]
}

fn ids(v: &[StepReadinessStatus]) -> Vec<i64> {
    v.iter().map(|s| s.workflow_step_id).collect()
}

#[test]
fn readiness_predicates() {
    let s = sample();
    assert!(s[0].is_complete() && !s[0].is_ready());
    assert!(s[1].is_processing());
    assert!(s[2].is_ready());
    assert!(s[3].is_blocked());
    assert!(s[4].has_failed() && s[4].can_retry());
}

#[test]
fn readiness_selections_keep_order() {
    assert_eq!(ids(&StepReadinessStatus::select(sample(), ReadinessSelection::Ready)), vec![3]);
    assert_eq!(ids(&StepReadinessStatus::select(sample(), ReadinessSelection::BlockedByDependencies)), vec![4, 6]);
    assert_eq!(ids(&StepReadinessStatus::select(sample(), ReadinessSelection::RetryEligible)), vec![5]);
    assert!(StepReadinessStatus::select(vec![], ReadinessSelection::Ready).is_empty());
}

#[test]
fn readiness_summary_counts() {
    assert_eq!(
        StepReadinessStatus::summarize(&sample()),
        StepReadinessResult { total_steps: 6, ready_steps: 1, blocked_steps: 2, failed_steps: 1, processing_steps: 1 }
    );
    assert_eq!(
        StepReadinessStatus::summarize(&vec![]),
        StepReadinessResult { total_steps: 0, ready_steps: 0, blocked_steps: 0, failed_steps: 0, processing_steps: 0 }
    );
}

#[test]
fn all_complete_needs_steps() {
    assert!(!StepReadinessStatus::all_complete(&vec![]));
    assert!(!StepReadinessStatus::all_complete(&sample()));
    let done = vec![status(1, "complete", true, false, false), status(2, "complete", true, false, false)];
    assert!(StepReadinessStatus::all_complete(&done));
}

fn context(total: i64, in_progress: i64, completed: i64, failed: i64, ready: i64) -> TaskExecutionContext {
    TaskExecutionContext {
        task_id: 1,
        named_task_id: 1,
        status: "in_progress".to_string(),
        total_steps: total,
        pending_steps: total - in_progress - completed - failed,
        in_progress_steps: in_progress,
        completed_steps: completed,
        failed_steps: failed,
        ready_steps: ready,
        execution_status: "processing".to_string(),
        recommended_action: None,
        completion_percentage: "0".to_string(),
        health_status: "healthy".to_string(),
    }
}

#[test]
fn execution_context_summaries() {
    assert_eq!(context(4, 0, 4, 0, 0).status_summary(), "Complete");
    assert_eq!(context(4, 1, 1, 1, 0).status_summary(), "Blocked");
    assert_eq!(context(4, 1, 1, 1, 1).status_summary(), "Processing");
    assert_eq!(context(4, 0, 1, 0, 2).status_summary(), "Ready");
    assert_eq!(context(4, 0, 1, 0, 0).status_summary(), "Waiting");
    assert_eq!(context(0, 0, 0, 0, 0).status_summary(), "Waiting");
    let c = context(4, 1, 1, 1, 1);
    assert!(c.has_ready_steps() && c.is_processing() && c.has_failures() && !c.is_complete());
    assert!(!context(0, 0, 0, 0, 0).is_complete());
}

fn json_int(n: i64) -> JsonValue {
    if n >= 0 {
        JsonValue::Number(JsonNumber::PosInt(n as u64))
    } else {
        JsonValue::Number(JsonNumber::NegInt(n))
    }
}

#[test]
fn orchestration_dag_rows_skip_non_integers() {
    let row = DagRow {
        workflow_step_id: 5,
        task_id: 1,
        named_step_id: 2,
        parent_step_ids: JsonValue::Array(vec![json_int(1), JsonValue::String("x".to_string()), json_int(3)]),
        child_step_ids: JsonValue::Null,
        parent_count: 2,
        child_count: 0,
        is_root_step: false,
        is_leaf_step: true,
        min_depth_from_root: Some(2),
    };
    assert_eq!(row.parent_ids(), vec![1, 3]);
    assert!(row.child_ids().is_empty());
    assert!(!row.can_execute_immediately());
    assert!(row.is_workflow_exit());
    assert_eq!(row.execution_level(), Some(2));
    assert!(!row.is_orphaned());
}

#[test]
fn dag_rows_need_every_id_to_be_an_integer() {
    let mut row = StepDagRelationship {
        workflow_step_id: Some(5),
        task_id: Some(1),
        named_step_id: Some(2),
        parent_step_ids: Some(JsonValue::Array(vec![json_int(1), json_int(-3)])),
        child_step_ids: Some(JsonValue::Array(vec![json_int(7), JsonValue::Bool(true)])),
        parent_count: Some(2),
        child_count: None,
        is_root_step: None,
        is_leaf_step: Some(true),
        min_depth_from_root: None,
    };
    assert_eq!(row.parent_step_ids_array(), vec![1, -3]);
    assert!(row.child_step_ids_array().is_empty());
    assert!(row.has_parents());
    assert!(!row.has_children());
    assert!(!row.is_root_step());
    assert!(row.is_leaf_step());
    row.parent_step_ids = None;
    assert!(row.parent_step_ids_array().is_empty());
    row.child_step_ids = Some(JsonValue::Number(JsonNumber::Float("1.5".to_string())));
    assert!(row.child_step_ids_array().is_empty());
}
