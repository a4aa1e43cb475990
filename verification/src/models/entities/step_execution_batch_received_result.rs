//! The append-only ledger of messages received about step execution batches.

use crate::json::JsonValue;
use crate::time::Timestamp;
use vstd::prelude::*;

verus! {

/// One message received about a batch step: a partial result or a batch completion.
pub struct StepExecutionBatchReceivedResult {
    pub id: i64,
    pub batch_step_id: i64,
    pub message_type: String,
    pub worker_id: Option<String>,
    pub sequence_number: Option<i32>,
    pub status: Option<String>,
    pub execution_time_ms: Option<i64>,
    pub raw_message_json: JsonValue,
    pub processed_at: Option<Timestamp>,
    pub processing_errors: Option<JsonValue>,
    pub created_at: Timestamp,
    pub updated_at: Timestamp,
}

/// A received message to record.
pub struct NewStepExecutionBatchReceivedResult {
    pub batch_step_id: i64,
    pub message_type: String,
    pub worker_id: Option<String>,
    pub sequence_number: Option<i32>,
    pub status: Option<String>,
    pub execution_time_ms: Option<i64>,
    pub raw_message_json: JsonValue,
    pub processed_at: Option<Timestamp>,
    pub processing_errors: Option<JsonValue>,
}

/// How many messages of one type were received.
pub struct MessageTypeCount {
    pub message_type: String,
    pub count: Option<i64>,
}

/// A step whose partial result and batch completion disagree.
pub struct ReconciliationDiscrepancy {
    pub workflow_step_id: i64,
    pub partial_status: Option<String>,
    pub partial_execution_time: Option<i64>,
    pub completion_status: Option<String>,
    pub completion_execution_time: Option<i64>,
}

} // verus!
