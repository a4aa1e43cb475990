//! The stored execution context of a task: its status, recommended action,
//! progress, health and metadata, kept in one row per task.

use crate::json::JsonValue;
use crate::time::Timestamp;
use vstd::prelude::*;

verus! {

/// One stored execution context row.
pub struct TaskExecutionContext {
    pub task_execution_context_id: i64,
    pub task_id: i64,
    pub execution_status: String,
    pub recommended_action: Option<String>,
    /// The completion percentage in its decimal text form.
    pub completion_percentage: String,
    pub health_status: String,
    pub metadata: JsonValue,
    pub created_at: Timestamp,
    pub updated_at: Timestamp,
}

impl TaskExecutionContext {
    /// Applies an update to this context: each value that is given replaces
    /// the stored one, and each one left out keeps it. The identifiers and
    /// the timestamps stay as they are.
    pub fn update(
        &mut self,
        execution_status: Option<&str>,
        recommended_action: Option<&str>,
        completion_percentage: Option<String>,
        health_status: Option<&str>,
        metadata: Option<JsonValue>,
    )
        ensures
            final(self).task_execution_context_id == old(self).task_execution_context_id,
            final(self).task_id == old(self).task_id,
            final(self).created_at == old(self).created_at,
            final(self).updated_at == old(self).updated_at,
            final(self).execution_status@ == match execution_status {
                Some(s) => s@,
                None => old(self).execution_status@,
            },
            match recommended_action {
                Some(a) => final(self).recommended_action is Some && final(self).recommended_action->0@ == a@,
                None => final(self).recommended_action == old(self).recommended_action,
            },
            final(self).completion_percentage == match completion_percentage {
                Some(p) => p,
                None => old(self).completion_percentage,
            },
            final(self).health_status@ == match health_status {
                Some(h) => h@,
                None => old(self).health_status@,
            },
            final(self).metadata == match metadata {
                Some(m) => m,
                None => old(self).metadata,
            },
    {
        if let Some(status) = execution_status {
            self.execution_status = String::from_str(status);
        }
        if let Some(action) = recommended_action {
            self.recommended_action = Some(String::from_str(action));
        }
        if let Some(percentage) = completion_percentage {
            self.completion_percentage = percentage;
        }
        if let Some(health) = health_status {
            self.health_status = String::from_str(health);
        }
        if let Some(meta) = metadata {
            self.metadata = meta;
        }
    }
}

} // verus!
