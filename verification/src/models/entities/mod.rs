//! Core table-based models.

pub mod step_execution_batch_transition;
pub mod workflow_step;
pub mod worker_registration;
pub mod worker_command_audit;
pub mod worker_transport_availability;
pub mod task_transition;
pub mod named_task;
pub mod step_execution_batch;
pub mod dependent_system;
pub mod task_namespace;
pub mod named_step;
pub mod finalization_attempt;
pub mod worker;
pub mod worker_named_task;
pub mod step_execution_batch_received_result;
pub mod step_execution_batch_step;
