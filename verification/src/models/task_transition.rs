//! Task transitions in the models module: the transition record and a query
//! builder with the same filters as the entity model's.

use crate::json::JsonValue;
use crate::models::entities::task_transition::{opt_string_view, query_params, query_text, string_views, task_transition_query_sql};
use crate::time::Timestamp;
use vstd::prelude::*;

verus! {

/// One state transition of a task.
pub struct TaskTransition {
    pub id: i64,
    pub to_state: String,
    pub from_state: Option<String>,
    pub metadata: Option<JsonValue>,
    pub sort_key: i32,
    pub most_recent: bool,
    pub task_id: i64,
    pub created_at: Timestamp,
    pub updated_at: Timestamp,
}

/// A task transition to create.
pub struct NewTaskTransition {
    pub task_id: i64,
    pub to_state: String,
    pub from_state: Option<String>,
    pub metadata: Option<JsonValue>,
}

/// Filters for listing task transitions.
pub struct TaskTransitionQuery {
    pub task_id: Option<i64>,
    pub state: Option<String>,
    pub most_recent_only: bool,
    pub limit: Option<i64>,
    pub offset: Option<i64>,
}

impl Default for TaskTransitionQuery {
    /// No filters.
    fn default() -> (r: Self)
        ensures
            r.task_id is None,
            r.state is None,
            !r.most_recent_only,
            r.limit is None,
            r.offset is None,
    {
        TaskTransitionQuery { task_id: None, state: None, most_recent_only: false, limit: None, offset: None }
    }
}

impl TaskTransitionQuery {
    /// A query with no filters.
    pub fn new() -> (r: Self)
        ensures
            r.task_id is None,
            r.state is None,
            !r.most_recent_only,
            r.limit is None,
            r.offset is None,
    {
        TaskTransitionQuery { task_id: None, state: None, most_recent_only: false, limit: None, offset: None }
    }

    /// Restricts to one task.
    pub fn task_id(self, id: i64) -> (r: Self)
        ensures
            r == (TaskTransitionQuery { task_id: Some(id), ..self }),
    {
        TaskTransitionQuery { task_id: Some(id), ..self }
    }

    /// Restricts to transitions into `state`.
    pub fn state(self, state: &str) -> (r: Self)
        ensures
            r.state is Some && r.state.unwrap()@ == state@,
            r.task_id == self.task_id,
            r.most_recent_only == self.most_recent_only,
            r.limit == self.limit,
            r.offset == self.offset,
    {
        TaskTransitionQuery { state: Some(String::from_str(state)), ..self }
    }

    /// Restricts to each task's most recent transition.
    pub fn most_recent_only(self) -> (r: Self)
        ensures
            r == (TaskTransitionQuery { most_recent_only: true, ..self }),
    {
        TaskTransitionQuery { most_recent_only: true, ..self }
    }

    /// Returns at most `limit` rows.
    pub fn limit(self, limit: i64) -> (r: Self)
        ensures
            r == (TaskTransitionQuery { limit: Some(limit), ..self }),
    {
        TaskTransitionQuery { limit: Some(limit), ..self }
    }

    /// Skips the first `offset` rows.
    pub fn offset(self, offset: i64) -> (r: Self)
        ensures
            r == (TaskTransitionQuery { offset: Some(offset), ..self }),
    {
        TaskTransitionQuery { offset: Some(offset), ..self }
    }

    /// The SQL text and parameter values of the query.
    pub fn sql(&self) -> (r: (String, Vec<String>))
        ensures
            r.0@ == query_text(self.task_id, opt_string_view(self.state), self.most_recent_only, self.limit, self.offset),
            string_views(r.1@) == query_params(self.task_id, opt_string_view(self.state), self.limit, self.offset),
    {
        task_transition_query_sql(self.task_id, &self.state, self.most_recent_only, self.limit, self.offset)
    }

    /// The task whose transitions are listed when the query runs: the chosen
    /// task, or task 0 when none is chosen.
    pub fn target_task_id(&self) -> (r: i64)
        ensures
            r == match self.task_id { Some(id) => id, None => 0 },
    {
        match self.task_id {
            Some(id) => id,
            None => 0,
        }
    }
}

} // verus!
