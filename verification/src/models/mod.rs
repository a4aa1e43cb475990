//! Data models of the workflow orchestration system.

pub mod entities;
pub mod annotation_type;
pub mod task_diagram;
pub mod task_transition;
pub mod step_dag_relationship;
pub mod orchestration;
pub mod task;
pub mod task_execution_context;
pub mod step_readiness_status;
pub mod insights;
pub mod named_task;
pub mod dependent_system_object_map;
pub mod named_tasks_named_step;
pub mod task_annotation;
