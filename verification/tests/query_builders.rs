use tasker_core::models::entities::finalization_attempt::FinalizationAttempt;
use tasker_core::models::entities::task_transition::{next_sort_key, task_transition_query_sql};
use tasker_core::models::step_dag_relationship::StepDagRelationshipQuery;
use tasker_core::models::task_transition::TaskTransitionQuery;

#[test]
fn step_dag_relationship_test_query_builder() {
    let query = StepDagRelationshipQuery::new()
        .task_id(1)
        .root_steps_only()
        .limit(10)
        .offset(0);

    assert_eq!(query.task_id, Some(1));
    assert_eq!(query.is_root_step, Some(true));
    assert_eq!(query.limit, Some(10));
    assert_eq!(query.offset, Some(0));
}

#[test]
fn task_transition_test_query_builder() {
    let query = TaskTransitionQuery::new()
        .task_id(1)
        .state("completed")
        .most_recent_only()
        .limit(10)
        .offset(0);

    assert_eq!(query.task_id, Some(1));
    assert_eq!(query.state, Some("completed".to_string()));
    assert!(query.most_recent_only);
    assert_eq!(query.limit, Some(10));
    assert_eq!(query.offset, Some(0));
}

const TRANSITION_BASE: &str = "SELECT id, to_state, from_state, metadata, sort_key, most_recent, \n                    task_id, created_at, updated_at\n             FROM tasker_task_transitions WHERE 1=1";

#[test]
fn task_transition_query_numbers_its_placeholders() {
    let query = TaskTransitionQuery::new()
        .task_id(7)
        .state("completed")
        .most_recent_only()
        .limit(10)
        .offset(20);
    let (sql, params) = query.sql();
    assert_eq!(
        sql,
        format!(
            "{TRANSITION_BASE} AND task_id = $1 AND to_state = $2 AND most_recent = true ORDER BY task_id, sort_key DESC LIMIT $3 OFFSET $4"
        )
    );
    assert_eq!(params, vec!["7", "completed", "10", "20"]);
}

#[test]
fn task_transition_query_skips_absent_filters() {
    let (sql, params) = task_transition_query_sql(None, &Some("error".to_string()), false, None, Some(5));
    assert_eq!(sql, format!("{TRANSITION_BASE} AND to_state = $1 ORDER BY task_id, sort_key DESC OFFSET $2"));
    assert_eq!(params, vec!["error", "5"]);

    let (sql, params) = TaskTransitionQuery::new().sql();
    assert_eq!(sql, format!("{TRANSITION_BASE} ORDER BY task_id, sort_key DESC"));
    assert!(params.is_empty());
    assert_eq!(TaskTransitionQuery::new().target_task_id(), 0);
    assert_eq!(TaskTransitionQuery::new().task_id(-3).target_task_id(), -3);
}

#[test]
fn step_dag_query_clauses() {
    let query = StepDagRelationshipQuery::new()
        .task_id(42)
        .workflow_step_id(-9)
        .leaf_steps_only()
        .with_parents_only()
        .with_children_only()
        .limit(25)
        .offset(50);
    let (clause, params) = query.where_clause();
    assert_eq!(
        clause,
        "WHERE task_id = $1 AND workflow_step_id = $2 AND is_leaf_step = true AND parent_count > 0 AND child_count > 0"
    );
    assert_eq!(params, vec!["42", "-9"]);
    assert_eq!(query.limit_clause(), " LIMIT 25");
    assert_eq!(query.offset_clause(), " OFFSET 50");
    assert_eq!(query.order_clause(), "ORDER BY task_id, min_depth_from_root, workflow_step_id");

    let (clause, params) = StepDagRelationshipQuery::new().where_clause();
    assert_eq!(clause, "");
    assert!(params.is_empty());
    assert_eq!(StepDagRelationshipQuery::new().limit_clause(), "");

    let (clause, params) = StepDagRelationshipQuery::new().workflow_step_id(3).root_steps_only().where_clause();
    assert_eq!(clause, "WHERE workflow_step_id = $1 AND is_root_step = true");
    assert_eq!(params, vec!["3"]);
}

#[test]
fn next_sort_key_follows_the_largest() {
    assert_eq!(next_sort_key(None), 1);
    assert_eq!(next_sort_key(Some(0)), 1);
    assert_eq!(next_sort_key(Some(41)), 42);
}

const ATTEMPT_COLUMNS: &str = "\n            SELECT\n                finalization_attempt_uuid,\n                task_uuid,\n                processor_id,\n                claimed,\n                already_claimed_by,\n                task_state,\n                message,\n                attempted_at\n            FROM tasker_finalization_attempts\n";

#[test]
fn finalization_attempt_queries() {
    assert_eq!(
        FinalizationAttempt::find_by_processor_sql(Some(25)),
        format!("{ATTEMPT_COLUMNS}            WHERE processor_id = $1\n            ORDER BY attempted_at DESC\n            LIMIT 25\n            ")
    );
    assert_eq!(
        FinalizationAttempt::find_by_processor_sql(None),
        format!("{ATTEMPT_COLUMNS}            WHERE processor_id = $1\n            ORDER BY attempted_at DESC\n            \n            ")
    );
    assert_eq!(
        FinalizationAttempt::find_successful_claims_by_processor_sql(Some(-1)),
        format!("{ATTEMPT_COLUMNS}            WHERE processor_id = $1 AND claimed = true\n            ORDER BY attempted_at DESC\n            LIMIT -1\n            ")
    );
    let with_since = FinalizationAttempt::claim_statistics_sql(true);
    let without = FinalizationAttempt::claim_statistics_sql(false);
    assert!(with_since.contains("FROM tasker_finalization_attempts\n            WHERE attempted_at >= $1\n            "));
    assert!(!without.contains("WHERE"));
    assert_eq!(with_since.replace("WHERE attempted_at >= $1", ""), without);
    assert!(without.contains("message LIKE '%race condition%'"));
}
