use tasker_core::json::{JsonNumber, JsonValue};
use tasker_core::models::annotation_type::AnnotationType;
use tasker_core::models::dependent_system_object_map::{DependentSystemObjectMap, NewDependentSystemObjectMap};
use tasker_core::models::entities::finalization_attempt::FinalizationAttempt;
use tasker_core::models::entities::named_task::{NamedTask as CoreNamedTask, NewNamedTask as CoreNewNamedTask};
use tasker_core::models::insights::slowest_steps::{SlowestSteps, SlowestStepsFilter};
use tasker_core::models::insights::slowest_tasks::{SlowestTasks, SlowestTasksFilter};
use tasker_core::models::named_task::{no_conflicts, NamedTask, NewNamedTask};
use tasker_core::models::named_tasks_named_step::NewNamedTasksNamedStep;
use tasker_core::models::step_readiness_status::{NewStepReadinessStatus as NewReadiness, StepReadinessResult as ReadinessResult, StepReadinessStatus as StoredReadiness};
use tasker_core::models::task::Task;
use tasker_core::models::task_execution_context::TaskExecutionContext as StoredContext;
use tasker_core::time::Timestamp;

fn t0() -> Timestamp {
    Timestamp { micros: 0, extra_nanos: 0 }
}

#[test]
fn test_failed_claim_structure() {
    let attempt = FinalizationAttempt {
        finalization_attempt_uuid: uuid::Uuid::new_v4().as_u128(),
        task_uuid: uuid::Uuid::new_v4().as_u128(),
        processor_id: "test_processor_456".to_string(),
        claimed: false,
        already_claimed_by: Some("other_processor_789".to_string()),
        task_state: Some("processing".to_string()),
        message: Some("Task already claimed for finalization".to_string()),
        attempted_at: Timestamp { micros: 1_700_000_000_000_000, extra_nanos: 0 },
    };

    // Verify failed claim structure
    assert!(!attempt.claimed);
    assert!(attempt.already_claimed_by.is_some());
    assert_ne!(attempt.processor_id, attempt.already_claimed_by.unwrap());
}

#[test]
fn named_task_identifiers_and_versions() {
    let task = NamedTask {
        named_task_id: 1,
        name: "order_processing".to_string(),
        version: 3,
        description: None,
        task_namespace_id: 1,
        created_at: t0(),
        updated_at: t0(),
    };
    assert_eq!(task.get_task_identifier(), "order_processing:v3");
    assert_eq!(NamedTask::version_after(None), 1);
    assert_eq!(NamedTask::version_after(Some(3)), 4);
    assert_eq!(NewNamedTask { name: "a".to_string(), version: None, description: None, task_namespace_id: 1 }.effective_version(), 1);
    assert_eq!(NewNamedTask { name: "a".to_string(), version: Some(9), description: None, task_namespace_id: 1 }.effective_version(), 9);
    assert!(no_conflicts(None));
    assert!(no_conflicts(Some(0)));
    assert!(!no_conflicts(Some(2)));

    let core = CoreNamedTask {
        named_task_id: 1,
        name: "fulfillment".to_string(),
        version: "1.2.0".to_string(),
        description: None,
        task_namespace_id: 4,
        configuration: None,
        created_at: t0(),
        updated_at: t0(),
    };
    assert_eq!(core.get_task_identifier(), "fulfillment:1.2.0");
    let fresh = CoreNewNamedTask { name: "x".to_string(), version: None, description: None, task_namespace_id: 1, configuration: None };
    assert_eq!(fresh.effective_version(), "0.1.0");
    assert_eq!(fresh.effective_configuration(), JsonValue::Object(vec![]));
}

#[test]
fn annotation_type_partial_update() {
    let mut kind = AnnotationType {
        annotation_type_id: 2,
        name: "bug_report".to_string(),
        description: Some("Bug report annotations".to_string()),
        created_at: t0(),
        updated_at: t0(),
    };
    kind.record_update(Some("updated_bug_report"), Some("Updated description"));
    assert_eq!(kind.name, "updated_bug_report");
    assert_eq!(kind.description.as_deref(), Some("Updated description"));
    kind.record_update(None, None);
    assert_eq!(kind.name, "updated_bug_report");
    assert_eq!(kind.description.as_deref(), Some("Updated description"));
    assert_eq!(kind.annotation_type_id, 2);
}

#[test]
fn object_map_defaults_and_updates() {
    let fresh = NewDependentSystemObjectMap::bidirectional(1, 2, 12345, 67890);
    assert_eq!(fresh.mapping_type.as_deref(), Some("bidirectional"));
    assert!(fresh.metadata.is_none());
    assert_eq!(fresh.effective_mapping_type(), "bidirectional");
    assert_eq!(fresh.effective_metadata(), JsonValue::Object(vec![]));
    let unset = NewDependentSystemObjectMap { mapping_type: None, ..fresh };
    assert_eq!(unset.effective_mapping_type(), "bidirectional");
    let sync = NewDependentSystemObjectMap { mapping_type: Some("sync".to_string()), metadata: Some(JsonValue::Bool(true)), ..unset };
    assert_eq!(sync.effective_mapping_type(), "sync");
    assert_eq!(sync.effective_metadata(), JsonValue::Bool(true));

    let mut mapping = DependentSystemObjectMap {
        dependent_system_object_map_id: 10,
        dependent_system_one_id: 1,
        dependent_system_two_id: 2,
        object_one_id: 12345,
        object_two_id: 67890,
        mapping_type: "sync".to_string(),
        metadata: JsonValue::Object(vec![]),
        created_at: t0(),
        updated_at: t0(),
    };
    assert_eq!(mapping.find_reverse_mapping(), Some((2, 67890)));
    mapping.record_update(Some("full_sync"), None);
    assert_eq!(mapping.mapping_type, "full_sync");
    assert_eq!(mapping.metadata, JsonValue::Object(vec![]));
    mapping.record_update(None, Some(JsonValue::Null));
    assert_eq!(mapping.mapping_type, "full_sync");
    assert_eq!(mapping.metadata, JsonValue::Null);
}

#[test]
fn named_task_step_settings_default() {
    let defaults = NewNamedTasksNamedStep { named_task_id: 1, named_step_id: 2, skippable: None, default_retryable: None, default_retry_limit: None };
    assert!(!defaults.effective_skippable());
    assert!(defaults.effective_default_retryable());
    assert_eq!(defaults.effective_default_retry_limit(), 3);
    let given = NewNamedTasksNamedStep { named_task_id: 1, named_step_id: 2, skippable: Some(true), default_retryable: Some(false), default_retry_limit: Some(5) };
    assert!(given.effective_skippable());
    assert!(!given.effective_default_retryable());
    assert_eq!(given.effective_default_retry_limit(), 5);
}

fn task(id: i64) -> Task {
    Task {
        task_id: id,
        named_task_id: 1,
        complete: false,
        requested_at: t0(),
        initiator: None,
        source_system: None,
        reason: None,
        bypass_steps: None,
        tags: None,
        context: None,
        identity_hash: "abc".to_string(),
        created_at: t0(),
        updated_at: t0(),
    }
}

#[test]
fn task_descriptions() {
    assert_eq!(task(42).state_machine(), "TaskStateMachine(task_id: 42)");
    assert_eq!(task(-7).runtime_analyzer(), "RuntimeGraphAnalyzer(task_id: -7)");
    assert_eq!(task(1).status(None), "pending");
    assert_eq!(task(1).status(Some("complete")), "complete");
    assert!(Task::steps_complete_from_counts(Some(3), Some(3)));
    assert!(!Task::steps_complete_from_counts(Some(3), Some(2)));
    assert!(!Task::steps_complete_from_counts(None, None));
    assert!(!Task::steps_complete_from_counts(Some(0), Some(0)));
}

#[test]
fn task_placeholder_documents() {
    let options = Task::get_request_options(JsonValue::Null);
    assert_eq!(
        options,
        JsonValue::Object(vec![
            ("default_options".to_string(), JsonValue::Bool(true)),
            ("extracted_from".to_string(), JsonValue::String("task_request".to_string())),
        ])
    );
    let graph = task(5).dependency_graph();
    assert_eq!(
        graph,
        JsonValue::Object(vec![
            ("analysis".to_string(), JsonValue::String("placeholder".to_string())),
            ("edges".to_string(), JsonValue::Array(vec![])),
            ("nodes".to_string(), JsonValue::Array(vec![])),
            ("task_id".to_string(), JsonValue::Number(JsonNumber::PosInt(5))),
        ])
    );
    assert_eq!(graph.get("task_id").and_then(|v| v.as_i64()), Some(5));
    assert_eq!(task(-5).dependency_graph().get("task_id").and_then(|v| v.as_i64()), Some(-5));
}

fn slow_task(completed_at: Option<Timestamp>, steps: i64, done: i64, errors: i64) -> SlowestTasks {
    SlowestTasks {
        task_id: 1,
        task_name: "test_task".to_string(),
        namespace_name: "test_namespace".to_string(),
        version: "1.0.0".to_string(),
        duration_seconds: "150".to_string(),
        step_count: steps,
        completed_steps: done,
        error_steps: errors,
        created_at: t0(),
        completed_at,
        initiator: Some("test_user".to_string()),
        source_system: Some("test_system".to_string()),
    }
}

#[test]
fn test_helper_methods() {
    // The ratios, the duration in seconds and their display texts are
    // floating point and are computed outside the library; the completion
    // text they give for 7 of 10 steps is "70.0".
    let task = slow_task(None, 10, 7, 1);
    assert_eq!(task.duration_seconds, "150");
    assert!(task.is_running());
    assert!(!task.completed_successfully());
    assert!(task.has_errors());
    assert_eq!(task.pending_steps(), 2);
    assert!(task.status_summary("70.0").contains("Errors"));
}

#[test]
fn slowest_task_progress() {
    let running = slow_task(None, 10, 7, 1);
    assert!(running.is_running());
    assert!(!running.completed_successfully());
    assert!(running.has_errors());
    assert_eq!(running.pending_steps(), 2);
    assert_eq!(running.status_summary("70.0"), "Errors (1 failed)");

    assert_eq!(slow_task(None, 10, 7, 0).status_summary("70.0"), "Running (70.0%)");
    let finished = slow_task(Some(t0()), 4, 4, 0);
    assert!(finished.completed_successfully());
    assert_eq!(finished.status_summary("100.0"), "Completed");
    assert_eq!(slow_task(Some(t0()), 4, 3, 0).status_summary("75.0"), "Unknown");

    assert_eq!(SlowestTasksFilter::default().effective_limit(), 10);
    let f = SlowestTasksFilter { limit_count: Some(3), ..SlowestTasksFilter::default() };
    assert_eq!(f.effective_limit(), 3);
    let f = SlowestTasksFilter { limit_count: None, ..SlowestTasksFilter::default() };
    assert_eq!(f.effective_limit(), 10);
}

#[test]
fn slowest_step_status() {
    let step = SlowestSteps {
        workflow_step_id: 1,
        task_id: 1,
        step_name: "s".to_string(),
        task_name: "t".to_string(),
        namespace_name: "n".to_string(),
        version: "1".to_string(),
        duration_seconds: "12.5".to_string(),
        attempts: 2,
        created_at: t0(),
        completed_at: None,
        retryable: true,
        step_status: "in_progress".to_string(),
    };
    assert!(step.was_retried());
    assert!(step.is_running());
    assert!(!step.completed_successfully());
    assert!(!step.failed());
    let done = SlowestSteps { completed_at: Some(t0()), step_status: "complete".to_string(), attempts: 1, ..step };
    assert!(!done.was_retried() && !done.is_running() && done.completed_successfully());
    assert_eq!(SlowestStepsFilter::default().effective_limit(), 10);
}

#[test]
fn object_members_stay_in_key_order() {
    let mut doc = JsonValue::empty_object();
    doc.insert("zeta".to_string(), JsonValue::Bool(true));
    doc.insert("alpha".to_string(), JsonValue::Null);
    doc.insert("al".to_string(), JsonValue::Bool(false));
    doc.insert("Zed".to_string(), JsonValue::Null);
    doc.insert("é".to_string(), JsonValue::Null);
    doc.insert("alpha".to_string(), JsonValue::Bool(true));
    assert_eq!(
        doc,
        JsonValue::Object(vec![
            ("Zed".to_string(), JsonValue::Null),
            ("al".to_string(), JsonValue::Bool(false)),
            ("alpha".to_string(), JsonValue::Bool(true)),
            ("zeta".to_string(), JsonValue::Bool(true)),
            ("é".to_string(), JsonValue::Null),
        ])
    );
    assert_eq!(doc.get("alpha"), Some(&JsonValue::Bool(true)));
    assert_eq!(doc.get("missing"), None);
}

fn stored_context() -> StoredContext {
    StoredContext {
        task_execution_context_id: 3,
        task_id: 9,
        execution_status: "pending".to_string(),
        recommended_action: None,
        completion_percentage: "0.0".to_string(),
        health_status: "healthy".to_string(),
        metadata: JsonValue::empty_object(),
        created_at: t0(),
        updated_at: t0(),
    }
}

#[test]
fn context_update_replaces_only_given_values() {
    let mut c = stored_context();
    c.update(Some("in_progress"), None, Some("42.5".to_string()), None, None);
    assert_eq!(c.execution_status, "in_progress");
    assert_eq!(c.recommended_action, None);
    assert_eq!(c.completion_percentage, "42.5");
    assert_eq!(c.health_status, "healthy");
    assert_eq!(c.metadata, JsonValue::empty_object());

    c.update(None, Some("wait"), None, Some("degraded"), Some(JsonValue::Bool(true)));
    assert_eq!(c.execution_status, "in_progress");
    assert_eq!(c.recommended_action, Some("wait".to_string()));
    assert_eq!(c.completion_percentage, "42.5");
    assert_eq!(c.health_status, "degraded");
    assert_eq!(c.metadata, JsonValue::Bool(true));
    assert_eq!((c.task_execution_context_id, c.task_id), (3, 9));
    assert_eq!(c.updated_at, t0());
}

fn stored_readiness() -> StoredReadiness {
    StoredReadiness {
        step_readiness_status_id: 1,
        workflow_step_id: 2,
        dependencies_satisfied: false,
        retry_eligible: true,
        ready_for_execution: false,
        last_readiness_check_at: None,
        next_readiness_check_at: Some(Timestamp { micros: 50, extra_nanos: 0 }),
        total_parents: 2,
        completed_parents: 1,
        backoff_request_seconds: Some(4),
        last_attempted_at: None,
        metadata: JsonValue::empty_object(),
        created_at: t0(),
        updated_at: t0(),
    }
}

#[test]
fn readiness_update_keeps_what_is_not_given() {
    let now = Timestamp { micros: 900, extra_nanos: 7 };
    let mut r = stored_readiness();
    r.update_readiness_at(Some(true), None, Some(true), None, None, now);
    assert!(r.dependencies_satisfied && r.retry_eligible && r.ready_for_execution);
    assert_eq!(r.next_readiness_check_at, Some(Timestamp { micros: 50, extra_nanos: 0 }));
    assert_eq!(r.backoff_request_seconds, Some(4));
    assert_eq!(r.last_readiness_check_at, Some(now));

    r.update_readiness_at(None, Some(false), None, Some(now), Some(9), t0());
    assert!(!r.retry_eligible);
    assert_eq!(r.next_readiness_check_at, Some(now));
    assert_eq!(r.backoff_request_seconds, Some(9));
    assert_eq!(r.last_readiness_check_at, Some(t0()));

    r.update_readiness(None, None, None, None, None);
    assert!(r.last_readiness_check_at.unwrap().micros > 1_600_000_000_000_000);
}

#[test]
fn readiness_row_from_computed_result() {
    let result = ReadinessResult {
        workflow_step_id: None,
        task_id: Some(3),
        named_step_id: None,
        name: None,
        current_state: None,
        dependencies_satisfied: Some(true),
        retry_eligible: None,
        ready_for_execution: Some(true),
        last_failure_at: None,
        next_retry_at: Some(Timestamp { micros: 70, extra_nanos: 0 }),
        total_parents: Some(3),
        completed_parents: None,
        attempts: None,
        retry_limit: None,
        backoff_request_seconds: Some(2),
        last_attempted_at: None,
    };
    let row = NewReadiness::from_result(&result, t0());
    assert_eq!(row.workflow_step_id, 0);
    assert!(row.dependencies_satisfied && !row.retry_eligible && row.ready_for_execution);
    assert_eq!(row.last_readiness_check_at, Some(t0()));
    assert_eq!(row.next_readiness_check_at, Some(Timestamp { micros: 70, extra_nanos: 0 }));
    assert_eq!((row.total_parents, row.completed_parents), (3, 0));
    assert_eq!(row.backoff_request_seconds, Some(2));
    assert_eq!(row.metadata, None);
}

#[test]
fn like_pattern_for_a_fragment() {
    assert_eq!(tasker_core::text::containing_pattern("ord"), "%ord%");
    assert_eq!(tasker_core::text::containing_pattern(""), "%%");
}
