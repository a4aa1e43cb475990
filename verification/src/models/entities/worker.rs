//! Workers: the processes that execute tasks.

use crate::json::{JsonValue, JsonView};
use crate::time::Timestamp;
use vstd::prelude::*;

verus! {

/// A worker instance.
pub struct Worker {
    pub worker_id: i32,
    pub worker_name: String,
    pub metadata: JsonValue,
    pub created_at: Timestamp,
    pub updated_at: Timestamp,
}

/// A worker to create; the metadata defaults to an empty object.
pub struct NewWorker {
    pub worker_name: String,
    pub metadata: Option<JsonValue>,
}

/// What a worker supports and how recently it was heard from.
pub struct WorkerStatistics {
    pub worker_id: i32,
    pub worker_name: String,
    pub supported_tasks_count: Option<i64>,
    pub active_registrations_count: Option<i64>,
    pub last_heartbeat_at: Option<Timestamp>,
    pub last_registered_at: Option<Timestamp>,
}

impl NewWorker {
    /// The metadata to store: the given value, or an empty object.
    pub fn effective_metadata(&self) -> (r: JsonValue)
        ensures
            r@ == match self.metadata { Some(m) => m@, None => JsonView::Object(Seq::empty()) },
    {
        match &self.metadata {
            Some(m) => m.copy(),
            None => JsonValue::empty_object(),
        }
    }
}

} // verus!
