//! Named tasks: task templates with a version string and configuration.

use crate::json::{JsonValue, JsonView};
use crate::time::Timestamp;
use vstd::prelude::*;

verus! {

/// A task template.
pub struct NamedTask {
    pub named_task_id: i32,
    pub name: String,
    pub version: String,
    pub description: Option<String>,
    pub task_namespace_id: i64,
    pub configuration: Option<JsonValue>,
    pub created_at: Timestamp,
    pub updated_at: Timestamp,
}

/// A task template to create; the version defaults to "0.1.0" and the
/// configuration to an empty object.
pub struct NewNamedTask {
    pub name: String,
    pub version: Option<String>,
    pub description: Option<String>,
    pub task_namespace_id: i64,
    pub configuration: Option<JsonValue>,
}

impl NewNamedTask {
    /// The version to store: the given one, or "0.1.0".
    pub fn effective_version(&self) -> (r: String)
        ensures
            r@ == match self.version { Some(v) => v@, None => "0.1.0"@ },
    {
        match &self.version {
            Some(v) => v.clone(),
            None => String::from_str("0.1.0"),
        }
    }

    /// The configuration to store: the given one, or an empty object.
    pub fn effective_configuration(&self) -> (r: JsonValue)
        ensures
            r@ == match self.configuration { Some(c) => c@, None => JsonView::Object(Seq::empty()) },
    {
        match &self.configuration {
            Some(c) => c.copy(),
            None => JsonValue::empty_object(),
        }
    }
}

impl NamedTask {
    /// The identifier under which the task is delegated: `name:version`.
    pub fn get_task_identifier(&self) -> (r: String)
        ensures
            r@ == self.name@ + ":"@ + self.version@,
    {
        self.name.clone().concat(":").concat(self.version.as_str())
    }
}

} // verus!
