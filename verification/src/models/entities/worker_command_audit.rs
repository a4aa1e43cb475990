//! Worker command audit: the trail of commands sent to and received from
//! workers, and how their outcomes are classified.

use crate::json::{JsonValue, JsonView};
use crate::text::str_eq;
use crate::time::Timestamp;
use vstd::prelude::*;

verus! {

/// Whether a command was sent to a worker or received from one.
#[derive(Debug, Clone, Copy, PartialEq, Eq, Structural)]
pub enum CommandDirection {
    Sent,
    Received,
}

/// One audited worker command.
pub struct WorkerCommandAudit {
    pub id: i64,
    pub worker_id: i32,
    pub command_type: String,
    /// The direction name, as stored.
    pub command_direction: String,
    pub correlation_id: Option<String>,
    pub batch_id: Option<i64>,
    pub task_id: Option<i64>,
    pub step_count: Option<i32>,
    pub execution_time_ms: Option<i64>,
    pub response_status: Option<String>,
    pub error_message: Option<String>,
    pub metadata: JsonValue,
    pub created_at: Timestamp,
}

/// A command to record; the metadata defaults to an empty object.
pub struct NewWorkerCommandAudit {
    pub worker_id: i32,
    pub command_type: String,
    pub command_direction: CommandDirection,
    pub correlation_id: Option<String>,
    pub batch_id: Option<i64>,
    pub task_id: Option<i64>,
    pub step_count: Option<i32>,
    pub execution_time_ms: Option<i64>,
    pub response_status: Option<String>,
    pub error_message: Option<String>,
    pub metadata: Option<JsonValue>,
}

impl NewWorkerCommandAudit {
    /// The metadata to store: the given value, or an empty object.
    pub fn effective_metadata(&self) -> (r: JsonValue)
        ensures
            r@ == match self.metadata { Some(m) => m@, None => JsonView::Object(Seq::empty()) },
    {
        match &self.metadata {
            Some(m) => m.copy(),
            None => JsonValue::empty_object(),
        }
    }
}

/// Number of audit records listed when no limit is given.
pub const DEFAULT_LIST_LIMIT: i64 = 100i64;

pub open spec fn direction_name(d: CommandDirection) -> Seq<char> {
    match d {
        CommandDirection::Sent => "sent"@,
        CommandDirection::Received => "received"@,
    }
}

pub open spec fn direction_from_name(name: Seq<char>) -> Option<CommandDirection> {
    if name == "sent"@ {
        Some(CommandDirection::Sent)
    } else if name == "received"@ {
        Some(CommandDirection::Received)
    } else {
        None
    }
}

/// Response statuses that count as success.
pub open spec fn success_status(s: Seq<char>) -> bool {
    s == "success"@ || s == "completed"@ || s == "acknowledged"@
}

/// Response statuses that count as failure.
pub open spec fn failure_status(s: Seq<char>) -> bool {
    s == "error"@ || s == "failed"@ || s == "timeout"@
}

impl CommandDirection {
    /// The direction name.
    pub fn as_str(&self) -> (r: &'static str)
        ensures
            r@ == direction_name(*self),
    {
        match self {
            CommandDirection::Sent => "sent",
            CommandDirection::Received => "received",
        }
    }

    /// The direction name, as an owned string (what `Display` writes).
    pub fn to_string(&self) -> (r: String)
        ensures
            r@ == direction_name(*self),
    {
        String::from_str(self.as_str())
    }
}

/// The number of records to list: the given limit or 100.
pub fn effective_limit(limit: Option<i64>) -> (r: i64)
    ensures
        r == match limit { Some(l) => l, None => DEFAULT_LIST_LIMIT },
{
    match limit {
        Some(l) => l,
        None => DEFAULT_LIST_LIMIT,
    }
}

impl WorkerCommandAudit {
    /// The stored direction as a `CommandDirection`, or an error naming it.
    pub fn parse_command_direction(&self) -> (r: Result<CommandDirection, String>)
        ensures
            match direction_from_name(self.command_direction@) {
                Some(d) => r == Ok::<CommandDirection, String>(d),
                None => r is Err && r->Err_0@ == "Unknown command direction: "@ + self.command_direction@,
            },
    {
        if str_eq(self.command_direction.as_str(), "sent") {
            Ok(CommandDirection::Sent)
        } else if str_eq(self.command_direction.as_str(), "received") {
            Ok(CommandDirection::Received)
        } else {
            Err(String::from_str("Unknown command direction: ").concat(self.command_direction.as_str()))
        }
    }

    /// Whether the response status reports success.
    pub fn is_successful(&self) -> (r: bool)
        ensures
            r == match self.response_status { Some(s) => success_status(s@), None => false },
    {
        match &self.response_status {
            Some(status) => str_eq(status.as_str(), "success") || str_eq(status.as_str(), "completed")
                || str_eq(status.as_str(), "acknowledged"),
            None => false,
        }
    }

    /// Whether the response status reports failure.
    pub fn is_failed(&self) -> (r: bool)
        ensures
            r == match self.response_status { Some(s) => failure_status(s@), None => false },
    {
        match &self.response_status {
            Some(status) => str_eq(status.as_str(), "error") || str_eq(status.as_str(), "failed")
                || str_eq(status.as_str(), "timeout"),
            None => false,
        }
    }

    /// The execution time in milliseconds as an unsigned count, when recorded
    /// (a negative time wraps, as a cast to `u64` does).
    pub fn execution_duration_millis(&self) -> (r: Option<u64>)
        ensures
            r == match self.execution_time_ms { Some(ms) => Some(ms as u64), None => None },
    {
        match self.execution_time_ms {
            Some(ms) => Some(ms as u64),
            None => None,
        }
    }
}

/// No command counts both as successful and as failed.
pub proof fn lemma_success_excludes_failure(s: Seq<char>)
    requires
        success_status(s),
    ensures
        !failure_status(s),
{
    reveal_strlit("success");
    reveal_strlit("completed");
    reveal_strlit("acknowledged");
    reveal_strlit("error");
    reveal_strlit("failed");
    reveal_strlit("timeout");
    assert("success"@[0] == 's');
    assert("completed"@[0] == 'c');
    assert("acknowledged"@[0] == 'a');
    assert("error"@[0] == 'e');
    assert("failed"@[0] == 'f');
    assert("timeout"@[0] == 't');
}

/// Parsing a direction name gives back the direction.
pub proof fn lemma_direction_round_trip(d: CommandDirection)
    ensures
        direction_from_name(direction_name(d)) == Some(d),
{
    reveal_strlit("sent");
    reveal_strlit("received");
    assert("sent"@[0] == 's');
    assert("received"@[0] == 'r');
}

} // verus!
