//! Task namespaces: the organisational hierarchy of tasks.

use crate::time::Timestamp;
use vstd::prelude::*;

verus! {

/// A namespace of tasks, keyed by a time-ordered UUID (its 128 bits).
pub struct TaskNamespace {
    pub task_namespace_uuid: u128,
    pub name: String,
    pub description: Option<String>,
    pub created_at: Timestamp,
    pub updated_at: Timestamp,
}

/// A namespace to create.
pub struct NewTaskNamespace {
    pub name: String,
    pub description: Option<String>,
}

/// The description of a namespace created on first use.
pub open spec fn auto_namespace_description(name: Seq<char>) -> Seq<char> {
    "Auto-created namespace: "@ + name
}

impl NewTaskNamespace {
    /// The namespace created when a task names one that does not exist yet.
    pub fn auto_created(name: &str) -> (r: NewTaskNamespace)
        ensures
            r.name@ == name@,
            r.description is Some,
            r.description->0@ == auto_namespace_description(name@),
    {
        let description = String::from_str("Auto-created namespace: ").concat(name);
        NewTaskNamespace { name: String::from_str(name), description: Some(description) }
    }
}

} // verus!
