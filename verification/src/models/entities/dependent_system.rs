//! Dependent systems: the outside systems that workflow steps depend on.

use crate::models::annotation_type::{optional_text_updated, text_updated};
use crate::text::str_eq;
use crate::time::Timestamp;
use vstd::prelude::*;

verus! {

/// An outside system that steps depend on.
pub struct DependentSystem {
    pub dependent_system_id: i32,
    pub name: String,
    pub description: Option<String>,
    pub created_at: Timestamp,
    pub updated_at: Timestamp,
}

/// A dependent system to create.
pub struct NewDependentSystem {
    pub name: String,
    pub description: Option<String>,
}

/// How much refers to a dependent system.
pub struct DependentSystemStats {
    pub named_steps_count: i64,
    pub object_maps_count: i64,
}

/// The database error code of a unique-constraint violation.
pub open spec fn unique_violation_code() -> Seq<char> {
    "23505"@
}

/// Whether a failed insert lost a race against a concurrent insert of the
/// same name (a unique-constraint violation), so that the row can be looked
/// up again instead of failing.
pub fn is_unique_violation(code: Option<&str>) -> (r: bool)
    ensures
        r == (code is Some && code->0@ == unique_violation_code()),
{
    match code {
        Some(c) => str_eq(c, "23505"),
        None => false,
    }
}

/// The description of a dependent system created on demand for the steps
/// that name it.
pub open spec fn steps_system_description(name: Seq<char>) -> Seq<char> {
    "Auto-created system for steps: "@ + name
}

impl NewDependentSystem {
    /// A system with the given name and no description.
    pub fn named(name: &str) -> (r: NewDependentSystem)
        ensures
            r.name@ == name@,
            r.description is None,
    {
        NewDependentSystem { name: String::from_str(name), description: None }
    }

    /// A system created on demand for the steps that name it.
    pub fn for_steps(name: &str) -> (r: NewDependentSystem)
        ensures
            r.name@ == name@,
            r.description is Some,
            r.description->0@ == steps_system_description(name@),
    {
        let description = String::from_str("Auto-created system for steps: ").concat(name);
        NewDependentSystem { name: String::from_str(name), description: Some(description) }
    }
}

impl DependentSystem {
    /// Applies a partial update: each field that is given replaces the
    /// stored one, the rest stay.
    pub fn record_update(&mut self, name: Option<&str>, description: Option<&str>)
        ensures
            final(self).dependent_system_id == old(self).dependent_system_id,
            text_updated(final(self).name@, old(self).name@, name),
            optional_text_updated(final(self).description, old(self).description, description),
            final(self).created_at == old(self).created_at,
            final(self).updated_at == old(self).updated_at,
    {
        if let Some(n) = name {
            self.name = String::from_str(n);
        }
        if let Some(d) = description {
            self.description = Some(String::from_str(d));
        }
    }
}

} // verus!
