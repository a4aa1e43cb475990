//! Step execution batches: groups of steps dispatched to workers together,
//! correlated by a random identifier.

use crate::json::JsonValue;
use crate::time::Timestamp;
use vstd::prelude::*;

verus! {

/// A batch of steps dispatched together.
pub struct StepExecutionBatch {
    pub batch_id: i64,
    pub task_id: i64,
    pub handler_class: String,
    pub batch_uuid: String,
    pub initiated_by: Option<String>,
    pub batch_size: i32,
    pub timeout_seconds: i32,
    pub metadata: Option<JsonValue>,
    pub created_at: Timestamp,
    pub updated_at: Timestamp,
}

/// A batch to create.
pub struct NewStepExecutionBatch {
    pub task_id: i64,
    pub handler_class: String,
    pub batch_uuid: String,
    pub initiated_by: Option<String>,
    pub batch_size: i32,
    pub timeout_seconds: i32,
    pub metadata: Option<JsonValue>,
}

/// A lowercase hexadecimal digit.
pub open spec fn is_lower_hex(c: char) -> bool {
    ('0' <= c && c <= '9') || ('a' <= c && c <= 'f')
}

/// The text of a random (version 4, RFC 4122 variant) UUID in its
/// hyphenated lowercase form, such as `67e55044-10b1-426f-9247-bb680e5fe0c8`.
pub open spec fn is_v4_uuid_text(s: Seq<char>) -> bool {
    &&& s.len() == 36
    &&& s[8] == '-' && s[13] == '-' && s[18] == '-' && s[23] == '-'
    &&& forall|i: int| 0 <= i < 36 && i != 8 && i != 13 && i != 18 && i != 23 ==> is_lower_hex(#[trigger] s[i])
    &&& s[14] == '4'
    &&& (s[19] == '8' || s[19] == '9' || s[19] == 'a' || s[19] == 'b')
}

/// A new random UUID in text form.
///
/// Calls `uuid::Uuid::new_v4` and renders the result with its `Display`
/// implementation. `new_v4` masks random bits to version 4 and the RFC 4122
/// variant; `Display` writes the lowercase hyphenated form. The random bits
/// themselves are not stated.
#[verifier::external_body]
fn new_uuid_v4_text() -> (r: String)
    ensures
        is_v4_uuid_text(r@),
{
    uuid::Uuid::new_v4().to_string()
}

impl StepExecutionBatch {
    /// A new batch correlation id: a random UUID in lowercase hyphenated text.
    pub fn generate_batch_uuid() -> (r: String)
        ensures
            is_v4_uuid_text(r@),
    {
        new_uuid_v4_text()
    }

    /// Records new metadata and the update time the database returned.
    pub fn record_metadata(&mut self, metadata: JsonValue, updated_at: Timestamp)
        ensures
            *final(self) == (StepExecutionBatch { metadata: Some(metadata), updated_at, ..*old(self) }),
    {
        self.metadata = Some(metadata);
        self.updated_at = updated_at;
    }
}

} // verus!
