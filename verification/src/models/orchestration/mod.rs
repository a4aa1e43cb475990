//! Orchestration models: computed views of task execution, step readiness
//! and DAG relationships.

pub mod step_dag_relationship;
pub mod step_readiness_status;
pub mod task_execution_context;
