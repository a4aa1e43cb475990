//! Named tasks: versioned task templates within a namespace.

use crate::text::{i64_to_decimal, int_decimal};
use crate::time::Timestamp;
use vstd::prelude::*;

verus! {

/// A task template; versions count up from 1.
pub struct NamedTask {
    pub named_task_id: i32,
    pub name: String,
    pub version: i32,
    pub description: Option<String>,
    pub task_namespace_id: i32,
    pub created_at: Timestamp,
    pub updated_at: Timestamp,
}

/// A task template to create; without a version it is version 1.
pub struct NewNamedTask {
    pub name: String,
    pub version: Option<i32>,
    pub description: Option<String>,
    pub task_namespace_id: i32,
}

/// A task template with the names of its steps.
pub struct NamedTaskWithSteps {
    pub named_task: NamedTask,
    pub step_names: Vec<String>,
}

impl NewNamedTask {
    /// The version to store: the given one, or 1.
    pub fn effective_version(&self) -> (r: i32)
        ensures
            r == match self.version { Some(v) => v, None => 1 },
    {
        match self.version {
            Some(v) => v,
            None => 1,
        }
    }
}

impl NamedTask {
    /// The identifier under which the task is delegated: `name:v<version>`.
    pub fn get_task_identifier(&self) -> (r: String)
        ensures
            r@ == self.name@ + ":v"@ + int_decimal(self.version as int),
    {
        self.name.clone().concat(":v").concat(i64_to_decimal(self.version as i64).as_str())
    }

    /// The version after the highest existing one, 1 for the first.
    pub fn version_after(max_version: Option<i32>) -> (r: i32)
        requires
            match max_version { Some(m) => m < i32::MAX, None => true },
        ensures
            r == match max_version { Some(m) => m + 1, None => 1 },
    {
        match max_version {
            Some(m) => m + 1,
            None => 1,
        }
    }
}

/// Whether a uniqueness check passes: no conflicting row was counted
/// (a missing count reads as zero).
pub fn no_conflicts(count: Option<i64>) -> (r: bool)
    ensures
        r == (match count { Some(c) => c, None => 0 } == 0),
{
    match count {
        Some(c) => c == 0,
        None => true,
    }
}

} // verus!
