//! Named steps: step definitions, each belonging to a dependent system.

use crate::time::Timestamp;
use vstd::prelude::*;

verus! {

/// A step definition, keyed by a time-ordered UUID (its 128 bits).
pub struct NamedStep {
    pub named_step_uuid: u128,
    pub dependent_system_uuid: u128,
    pub name: String,
    pub description: Option<String>,
    pub created_at: Timestamp,
    pub updated_at: Timestamp,
}

/// A step definition to create.
pub struct NewNamedStep {
    pub dependent_system_uuid: u128,
    pub name: String,
    pub description: Option<String>,
}

/// The description of a step created on first use.
pub open spec fn auto_step_description(name: Seq<char>) -> Seq<char> {
    "Auto-created step: "@ + name
}

/// The dependent system under which steps named without one are created.
pub open spec fn default_step_system() -> Seq<char> {
    "shared_testing_factory"@
}

/// The name of the dependent system under which steps named without one are created.
pub fn default_step_system_name() -> (r: &'static str)
    ensures
        r@ == default_step_system(),
{
    "shared_testing_factory"
}

impl NewNamedStep {
    /// The step created when a workflow names one that does not exist yet
    /// under the given system.
    pub fn auto_created(dependent_system_uuid: u128, name: &str) -> (r: NewNamedStep)
        ensures
            r.dependent_system_uuid == dependent_system_uuid,
            r.name@ == name@,
            r.description is Some,
            r.description->0@ == auto_step_description(name@),
    {
        let description = String::from_str("Auto-created step: ").concat(name);
        NewNamedStep { dependent_system_uuid, name: String::from_str(name), description: Some(description) }
    }
}

} // verus!
