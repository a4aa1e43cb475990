//! The steps of an execution batch: which workflow step is in which batch,
//! in what order, and which handler is expected to run it.

use crate::json::JsonValue;
use crate::time::Timestamp;
use vstd::prelude::*;

verus! {

/// One step of a batch.
pub struct StepExecutionBatchStep {
    pub id: i64,
    pub batch_id: i64,
    pub workflow_step_id: i64,
    pub sequence_order: i32,
    pub expected_handler_class: String,
    pub metadata: Option<JsonValue>,
    pub created_at: Timestamp,
    pub updated_at: Timestamp,
}

/// A step of a batch to create.
pub struct NewStepExecutionBatchStep {
    pub batch_id: i64,
    pub workflow_step_id: i64,
    pub sequence_order: i32,
    pub expected_handler_class: String,
    pub metadata: Option<JsonValue>,
}

} // verus!
