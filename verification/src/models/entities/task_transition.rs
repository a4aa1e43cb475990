//! Task transitions: the audit trail of a task's state changes, their
//! classification, their metadata, and the query over them.

use crate::json::{member_insert, view_get, JsonNumber, JsonValue, JsonView, NumberView};
use crate::text::{i64_to_decimal, int_decimal, str_eq, u64_to_decimal, nat_decimal};
use crate::time::{format_time, formatted_time, iso_micros_pattern, seconds_between, total_nanos, valid_time, whole_seconds_between, Timestamp};
use vstd::prelude::*;

verus! {

/// One state transition of a task.
pub struct TaskTransition {
    pub id: i64,
    pub to_state: String,
    pub from_state: Option<String>,
    pub metadata: Option<JsonValue>,
    pub sort_key: i32,
    pub most_recent: bool,
    pub task_id: i64,
    pub created_at: Timestamp,
    pub updated_at: Timestamp,
}

/// A task transition to create.
pub struct NewTaskTransition {
    pub task_id: i64,
    pub to_state: String,
    pub from_state: Option<String>,
    pub metadata: Option<JsonValue>,
}

/// Filters for listing task transitions.
pub struct TaskTransitionQuery {
    pub task_id: Option<i64>,
    pub state: Option<String>,
    pub most_recent_only: bool,
    pub limit: Option<i64>,
    pub offset: Option<i64>,
}

// ---------------------------------------------------------------------------
// Specification
// ---------------------------------------------------------------------------

/// The human-readable description of a transition into `to_state`.
pub open spec fn describe(to_state: Seq<char>) -> Seq<char> {
    if to_state == "pending"@ {
        "Task initialized and ready for processing"@
    } else if to_state == "in_progress"@ {
        "Task execution started"@
    } else if to_state == "complete"@ {
        "Task completed successfully"@
    } else if to_state == "error"@ {
        "Task encountered an error"@
    } else if to_state == "cancelled"@ {
        "Task was cancelled"@
    } else if to_state == "resolved_manually"@ {
        "Task was manually resolved"@
    } else {
        "Task transitioned to "@ + to_state
    }
}

/// The view of optional metadata.
pub open spec fn metadata_view(md: Option<JsonValue>) -> Option<JsonView> {
    match md {
        Some(m) => Some(m@),
        None => None,
    }
}

/// The metadata value under `key`: none without metadata, for a missing key or a non-object.
pub open spec fn metadata_lookup(md: Option<JsonView>, key: Seq<char>) -> Option<JsonView> {
    match md {
        Some(m) => view_get(m, key),
        None => None,
    }
}

/// Metadata after setting `key` to `value`: missing metadata becomes a one-member
/// object, an object gets the member set, any other value stays as it is.
pub open spec fn metadata_after_set(md: Option<JsonView>, key: Seq<char>, value: JsonView) -> JsonView {
    match md {
        None => JsonView::Object(member_insert(Seq::empty(), key, value)),
        Some(JsonView::Object(members)) => JsonView::Object(member_insert(members, key, value)),
        Some(other) => other,
    }
}

/// A whole number of seconds as the floating-point JSON number it becomes.
pub open spec fn seconds_number(secs: int) -> JsonView {
    JsonView::Number(NumberView::Float(int_decimal(secs) + ".0"@))
}

/// The metadata of a transition with its computed fields: the seconds since
/// the previous transition (where there is one), its description and its
/// time. Missing metadata counts as an empty object; metadata that is not an
/// object is returned as it is.
pub open spec fn formatted_metadata_view(
    md: Option<JsonView>,
    seconds_since_previous: Option<int>,
    description: Seq<char>,
    stamp: Seq<char>,
) -> JsonView {
    let base = match md {
        Some(m) => m,
        None => JsonView::Object(Seq::empty()),
    };
    match base {
        JsonView::Object(members) => {
            let with_duration = match seconds_since_previous {
                Some(secs) => member_insert(members, "duration_since_previous"@, seconds_number(secs)),
                None => members,
            };
            let with_description = member_insert(with_duration, "transition_description"@, JsonView::String(description));
            JsonView::Object(member_insert(with_description, "transition_timestamp"@, JsonView::String(stamp)))
        },
        other => other,
    }
}

/// Whether a task whose current state is `current` (none before its first
/// transition) may leave `from_state`.
pub open spec fn may_leave(current: Option<Seq<char>>, from_state: Seq<char>) -> bool {
    match current {
        Some(s) => s == from_state,
        None => from_state == "draft"@ || from_state == "planned"@,
    }
}

/// The base of the task transition listing query.
pub open spec fn query_base() -> Seq<char> {
    "SELECT id, to_state, from_state, metadata, sort_key, most_recent, \n                    task_id, created_at, updated_at\n             FROM tasker_task_transitions WHERE 1=1"@
}

pub open spec fn present<T>(o: Option<T>) -> int {
    if o is Some { 1 } else { 0 }
}

/// The SQL text of a task transition listing with positional parameters.
pub open spec fn query_text(
    task_id: Option<i64>,
    state: Option<Seq<char>>,
    most_recent_only: bool,
    limit: Option<i64>,
    offset: Option<i64>,
) -> Seq<char> {
    let n_task = present(task_id);
    let n_state = present(state);
    let n_limit = present(limit);
    query_base()
        + (if task_id is Some { " AND task_id = $"@ + nat_decimal(1) } else { Seq::empty() })
        + (if state is Some { " AND to_state = $"@ + nat_decimal((n_task + 1) as nat) } else { Seq::empty() })
        + (if most_recent_only { " AND most_recent = true"@ } else { Seq::empty() })
        + " ORDER BY task_id, sort_key DESC"@
        + (if limit is Some { " LIMIT $"@ + nat_decimal((n_task + n_state + 1) as nat) } else { Seq::empty() })
        + (if offset is Some { " OFFSET $"@ + nat_decimal((n_task + n_state + n_limit + 1) as nat) } else { Seq::empty() })
}

pub open spec fn opt_param(o: Option<Seq<char>>) -> Seq<Seq<char>> {
    match o {
        Some(p) => seq![p],
        None => Seq::empty(),
    }
}

pub open spec fn int_param(o: Option<i64>) -> Option<Seq<char>> {
    match o {
        Some(n) => Some(int_decimal(n as int)),
        None => None,
    }
}

/// The parameter values of a task transition listing, in placeholder order.
pub open spec fn query_params(
    task_id: Option<i64>,
    state: Option<Seq<char>>,
    limit: Option<i64>,
    offset: Option<i64>,
) -> Seq<Seq<char>> {
    opt_param(int_param(task_id)) + opt_param(state) + opt_param(int_param(limit)) + opt_param(int_param(offset))
}

pub open spec fn string_views(v: Seq<String>) -> Seq<Seq<char>> {
    v.map_values(|s: String| s@)
}

pub open spec fn opt_string_view(o: Option<String>) -> Option<Seq<char>> {
    match o {
        Some(s) => Some(s@),
        None => None,
    }
}

// ---------------------------------------------------------------------------
// Implementation
// ---------------------------------------------------------------------------

impl TaskTransition {
    /// Whether this is a transition into the error state.
    pub fn error_transition(&self) -> (r: bool)
        ensures
            r == (self.to_state@ == "error"@),
    {
        str_eq(self.to_state.as_str(), "error")
    }

    /// Whether this transition completes the task (complete or resolved manually).
    pub fn completion_transition(&self) -> (r: bool)
        ensures
            r == (self.to_state@ == "complete"@ || self.to_state@ == "resolved_manually"@),
    {
        str_eq(self.to_state.as_str(), "complete") || str_eq(self.to_state.as_str(), "resolved_manually")
    }

    /// Whether this is a transition into the cancelled state.
    pub fn cancellation_transition(&self) -> (r: bool)
        ensures
            r == (self.to_state@ == "cancelled"@),
    {
        str_eq(self.to_state.as_str(), "cancelled")
    }

    /// A human-readable description of the transition.
    pub fn description(&self) -> (r: String)
        ensures
            r@ == describe(self.to_state@),
    {
        let s = self.to_state.as_str();
        if str_eq(s, "pending") {
            String::from_str("Task initialized and ready for processing")
        } else if str_eq(s, "in_progress") {
            String::from_str("Task execution started")
        } else if str_eq(s, "complete") {
            String::from_str("Task completed successfully")
        } else if str_eq(s, "error") {
            String::from_str("Task encountered an error")
        } else if str_eq(s, "cancelled") {
            String::from_str("Task was cancelled")
        } else if str_eq(s, "resolved_manually") {
            String::from_str("Task was manually resolved")
        } else {
            String::from_str("Task transitioned to ").concat(s)
        }
    }

    /// Whole seconds from `previous_created_at` to this transition's time,
    /// truncated toward zero.
    pub fn seconds_since(&self, previous_created_at: Timestamp) -> (r: i64)
        requires
            valid_time(self.created_at),
            valid_time(previous_created_at),
        ensures
            r == whole_seconds_between(total_nanos(self.created_at), total_nanos(previous_created_at)),
    {
        seconds_between(self.created_at, previous_created_at)
    }

    /// The metadata with its computed fields added: the seconds since the
    /// previous transition of the task (given its time, where there is one),
    /// the transition's description and its time as
    /// `YYYY-MM-DDTHH:MM:SS.ffffffZ`.
    pub fn formatted_metadata(&self, previous_created_at: Option<Timestamp>) -> (r: JsonValue)
        requires
            valid_time(self.created_at),
            match previous_created_at { Some(p) => valid_time(p), None => true },
        ensures
            r@ == formatted_metadata_view(
                metadata_view(self.metadata),
                match previous_created_at {
                    Some(p) => Some(whole_seconds_between(total_nanos(self.created_at), total_nanos(p))),
                    None => None,
                },
                describe(self.to_state@),
                formatted_time(self.created_at.micros as int, iso_micros_pattern()),
            ),
            match self.metadata { Some(m) => crate::json::json_well_formed(m@), None => true } ==> crate::json::json_well_formed(r@),
    {
        let mut metadata = match &self.metadata {
            Some(m) => m.copy(),
            None => JsonValue::empty_object(),
        };
        if let JsonValue::Object(_) = &metadata {
            if let Some(previous) = previous_created_at {
                let secs = self.seconds_since(previous);
                let text = i64_to_decimal(secs).concat(".0");
                metadata.insert(String::from_str("duration_since_previous"), JsonValue::Number(JsonNumber::Float(text)));
            }
            metadata.insert(String::from_str("transition_description"), JsonValue::String(self.description()));
            let stamp = format_time(self.created_at.micros, "%Y-%m-%dT%H:%M:%S%.6fZ");
            metadata.insert(String::from_str("transition_timestamp"), JsonValue::String(stamp));
        }
        metadata
    }

    /// Whether the metadata has a member named `key`.
    pub fn has_metadata(&self, key: &str) -> (r: bool)
        ensures
            r == metadata_lookup(metadata_view(self.metadata), key@) is Some,
    {
        match &self.metadata {
            Some(metadata) => metadata.get(key).is_some(),
            None => false,
        }
    }

    /// The metadata member named `key`, or `default` when there is none.
    pub fn get_metadata(&self, key: &str, default: JsonValue) -> (r: JsonValue)
        ensures
            r@ == match metadata_lookup(metadata_view(self.metadata), key@) {
                Some(v) => v,
                None => default@,
            },
    {
        match &self.metadata {
            Some(metadata) => match metadata.get(key) {
                Some(v) => v.copy(),
                None => default,
            },
            None => default,
        }
    }

    /// Sets the metadata member `key` to `value` and returns `value`. Missing
    /// metadata becomes an object first; metadata that is not an object is kept as it is.
    pub fn set_metadata(&mut self, key: &str, value: JsonValue) -> (r: JsonValue)
        ensures
            r@ == value@,
            final(self).metadata is Some,
            final(self).metadata.unwrap()@ == metadata_after_set(metadata_view(old(self).metadata), key@, value@),
            match old(self).metadata { Some(m) => crate::json::json_well_formed(m@), None => true }
                && crate::json::json_well_formed(value@) ==> crate::json::json_well_formed(final(self).metadata.unwrap()@),
            final(self).id == old(self).id,
            final(self).to_state == old(self).to_state,
            final(self).from_state == old(self).from_state,
            final(self).sort_key == old(self).sort_key,
            final(self).most_recent == old(self).most_recent,
            final(self).task_id == old(self).task_id,
            final(self).created_at == old(self).created_at,
            final(self).updated_at == old(self).updated_at,
    {
        let mut metadata = match self.metadata.take() {
            Some(m) => m,
            None => JsonValue::empty_object(),
        };
        metadata.insert(String::from_str(key), value.copy());
        self.metadata = Some(metadata);
        value
    }
}

/// Whether a task whose current state is `current_state` (none before its
/// first transition) may transition out of `from_state`: it must be in that
/// state, or, with no transition yet, `from_state` must be draft or planned.
pub fn can_transition_from(current_state: Option<&str>, from_state: &str) -> (r: bool)
    ensures
        r == may_leave(match current_state { Some(s) => Some(s@), None => None }, from_state@),
{
    match current_state {
        Some(s) => str_eq(s, from_state),
        None => str_eq(from_state, "draft") || str_eq(from_state, "planned"),
    }
}

/// The sort key of a new transition: one past the largest so far, 1 for the first.
pub fn next_sort_key(max_sort_key: Option<i32>) -> (r: i32)
    requires
        match max_sort_key { Some(m) => m < i32::MAX, None => true },
    ensures
        r == match max_sort_key { Some(m) => m + 1, None => 1 },
{
    match max_sort_key {
        Some(m) => m + 1,
        None => 1,
    }
}

/// SQL text and parameter values for listing task transitions with the given filters.
#[verifier::spinoff_prover]
#[verifier::rlimit(40)]
pub fn task_transition_query_sql(
    task_id: Option<i64>,
    state: &Option<String>,
    most_recent_only: bool,
    limit: Option<i64>,
    offset: Option<i64>,
) -> (r: (String, Vec<String>))
    ensures
        r.0@ == query_text(task_id, opt_string_view(*state), most_recent_only, limit, offset),
        string_views(r.1@) == query_params(task_id, opt_string_view(*state), limit, offset),
{
    let mut query = String::from_str(
        "SELECT id, to_state, from_state, metadata, sort_key, most_recent, \n                    task_id, created_at, updated_at\n             FROM tasker_task_transitions WHERE 1=1",
    );
    let mut params: Vec<String> = Vec::new();
    let mut param_count: u64 = 0;
    let ghost st = opt_string_view(*state);
    if let Some(id) = task_id {
        param_count = param_count + 1;
        query.append(" AND task_id = $");
        query.append(u64_to_decimal(param_count).as_str());
        params.push(i64_to_decimal(id));
    }
    let ghost q1 = query@;
    let ghost p1 = string_views(params@);
    assert(p1 =~= opt_param(int_param(task_id)));
    if let Some(s) = state {
        param_count = param_count + 1;
        query.append(" AND to_state = $");
        query.append(u64_to_decimal(param_count).as_str());
        params.push(s.clone());
    }
    let ghost p2 = string_views(params@);
    assert(p2 =~= opt_param(int_param(task_id)) + opt_param(st));
    if most_recent_only {
        query.append(" AND most_recent = true");
    }
    query.append(" ORDER BY task_id, sort_key DESC");
    if let Some(l) = limit {
        param_count = param_count + 1;
        query.append(" LIMIT $");
        query.append(u64_to_decimal(param_count).as_str());
        params.push(i64_to_decimal(l));
    }
    let ghost p3 = string_views(params@);
    assert(p3 =~= opt_param(int_param(task_id)) + opt_param(st) + opt_param(int_param(limit)));
    if let Some(o) = offset {
        param_count = param_count + 1;
        query.append(" OFFSET $");
        query.append(u64_to_decimal(param_count).as_str());
        params.push(i64_to_decimal(o));
    }
    assert(string_views(params@) =~= query_params(task_id, st, limit, offset));
    assert(query@ =~= query_text(task_id, st, most_recent_only, limit, offset));
    (query, params)
}

impl Default for TaskTransitionQuery {
    /// No filters.
    fn default() -> (r: Self)
        ensures
            r.task_id is None,
            r.state is None,
            !r.most_recent_only,
            r.limit is None,
            r.offset is None,
    {
        TaskTransitionQuery { task_id: None, state: None, most_recent_only: false, limit: None, offset: None }
    }
}

impl TaskTransitionQuery {
    /// A query with no filters.
    pub fn new() -> (r: Self)
        ensures
            r.task_id is None,
            r.state is None,
            !r.most_recent_only,
            r.limit is None,
            r.offset is None,
    {
        TaskTransitionQuery { task_id: None, state: None, most_recent_only: false, limit: None, offset: None }
    }

    /// Restricts to one task.
    pub fn task_id(self, id: i64) -> (r: Self)
        ensures
            r == (TaskTransitionQuery { task_id: Some(id), ..self }),
    {
        TaskTransitionQuery { task_id: Some(id), ..self }
    }

    /// Restricts to transitions into `state`.
    pub fn state(self, state: &str) -> (r: Self)
        ensures
            r.state is Some && r.state.unwrap()@ == state@,
            r.task_id == self.task_id,
            r.most_recent_only == self.most_recent_only,
            r.limit == self.limit,
            r.offset == self.offset,
    {
        TaskTransitionQuery { state: Some(String::from_str(state)), ..self }
    }

    /// Restricts to each task's most recent transition.
    pub fn most_recent_only(self) -> (r: Self)
        ensures
            r == (TaskTransitionQuery { most_recent_only: true, ..self }),
    {
        TaskTransitionQuery { most_recent_only: true, ..self }
    }

    /// Returns at most `limit` rows.
    pub fn limit(self, limit: i64) -> (r: Self)
        ensures
            r == (TaskTransitionQuery { limit: Some(limit), ..self }),
    {
        TaskTransitionQuery { limit: Some(limit), ..self }
    }

    /// Skips the first `offset` rows.
    pub fn offset(self, offset: i64) -> (r: Self)
        ensures
            r == (TaskTransitionQuery { offset: Some(offset), ..self }),
    {
        TaskTransitionQuery { offset: Some(offset), ..self }
    }

    /// The SQL text and parameter values of the query.
    pub fn sql(&self) -> (r: (String, Vec<String>))
        ensures
            r.0@ == query_text(self.task_id, opt_string_view(self.state), self.most_recent_only, self.limit, self.offset),
            string_views(r.1@) == query_params(self.task_id, opt_string_view(self.state), self.limit, self.offset),
    {
        task_transition_query_sql(self.task_id, &self.state, self.most_recent_only, self.limit, self.offset)
    }

    /// The task whose transitions are listed when the query runs: the chosen
    /// task, or task 0 when none is chosen.
    pub fn target_task_id(&self) -> (r: i64)
        ensures
            r == match self.task_id { Some(id) => id, None => 0 },
    {
        match self.task_id {
            Some(id) => id,
            None => 0,
        }
    }
}

// ---------------------------------------------------------------------------
// Laws
// ---------------------------------------------------------------------------

/// Reading back a metadata key just set gives the value set, when the metadata
/// was missing or an object.
pub proof fn lemma_metadata_read_after_write(md: Option<JsonView>, key: Seq<char>, value: JsonView)
    requires
        md is None || md.unwrap() is Object,
    ensures
        metadata_lookup(Some(metadata_after_set(md, key, value)), key) == Some(value),
{
    match md {
        None => crate::json::lemma_member_insert_lookup(Seq::empty(), key, value),
        Some(JsonView::Object(members)) => crate::json::lemma_member_insert_lookup(members, key, value),
        Some(_) => {},
    }
}

/// Setting one metadata key leaves every other key as it was.
pub proof fn lemma_metadata_write_other(md: Option<JsonView>, key: Seq<char>, value: JsonView, other: Seq<char>)
    requires
        other != key,
    ensures
        metadata_lookup(Some(metadata_after_set(md, key, value)), other) == metadata_lookup(md, other),
{
    match md {
        None => crate::json::lemma_member_insert_other(Seq::empty(), key, value, other),
        Some(JsonView::Object(members)) => crate::json::lemma_member_insert_other(members, key, value, other),
        Some(_) => {},
    }
}

/// A completing transition is neither an error nor a cancellation.
pub proof fn lemma_completion_excludes_error(to_state: Seq<char>)
    requires
        to_state == "complete"@ || to_state == "resolved_manually"@,
    ensures
        to_state != "error"@,
        to_state != "cancelled"@,
{
    reveal_strlit("complete");
    reveal_strlit("resolved_manually");
    reveal_strlit("error");
    reveal_strlit("cancelled");
    assert("complete"@[0] == 'c' && "complete"@.len() == 8);
    assert("resolved_manually"@[0] == 'r');
    assert("error"@[0] == 'e');
    assert("cancelled"@.len() == 9);
}

/// Formatting keeps every stored metadata member other than the three
/// computed ones, and the computed description and time can be read back.
pub proof fn lemma_formatted_metadata_keeps_members(
    md: Option<JsonView>,
    seconds_since_previous: Option<int>,
    description: Seq<char>,
    stamp: Seq<char>,
    key: Seq<char>,
)
    requires
        md is None || md->0 is Object,
    ensures
        key != "duration_since_previous"@ && key != "transition_description"@ && key != "transition_timestamp"@
            ==> view_get(formatted_metadata_view(md, seconds_since_previous, description, stamp), key) == metadata_lookup(md, key),
        view_get(formatted_metadata_view(md, seconds_since_previous, description, stamp), "transition_timestamp"@)
            == Some(JsonView::String(stamp)),
        view_get(formatted_metadata_view(md, seconds_since_previous, description, stamp), "transition_description"@)
            == Some(JsonView::String(description)),
{
    reveal_strlit("transition_description");
    reveal_strlit("transition_timestamp");
    reveal_strlit("duration_since_previous");
    let members: Seq<(Seq<char>, JsonView)> = match md {
        Some(JsonView::Object(m)) => m,
        _ => Seq::empty(),
    };
    let with_duration = match seconds_since_previous {
        Some(secs) => member_insert(members, "duration_since_previous"@, seconds_number(secs)),
        None => members,
    };
    let with_description = member_insert(with_duration, "transition_description"@, JsonView::String(description));
    assert("transition_description"@ != "transition_timestamp"@) by {
        assert("transition_description"@[11] != "transition_timestamp"@[11]);
    }
    crate::json::lemma_member_insert_lookup(with_description, "transition_timestamp"@, JsonView::String(stamp));
    crate::json::lemma_member_insert_lookup(with_duration, "transition_description"@, JsonView::String(description));
    crate::json::lemma_member_insert_other(with_description, "transition_timestamp"@, JsonView::String(stamp), "transition_description"@);
    if key != "duration_since_previous"@ && key != "transition_description"@ && key != "transition_timestamp"@ {
        crate::json::lemma_member_insert_other(with_description, "transition_timestamp"@, JsonView::String(stamp), key);
        crate::json::lemma_member_insert_other(with_duration, "transition_description"@, JsonView::String(description), key);
        if let Some(secs) = seconds_since_previous {
            crate::json::lemma_member_insert_other(members, "duration_since_previous"@, seconds_number(secs), key);
        }
    }
}

/// Whenever the previous transition's time is given, the formatted metadata
/// (of missing or object metadata) holds the whole seconds since it under
/// "duration_since_previous", as a number written with ".0", for every
/// number of seconds, zero and negative ones included; without a previous
/// time that member is whatever the stored metadata had.
pub proof fn lemma_formatted_metadata_duration(
    md: Option<JsonView>,
    seconds_since_previous: Option<int>,
    description: Seq<char>,
    stamp: Seq<char>,
)
    requires
        md is None || md->0 is Object,
    ensures
        seconds_since_previous matches Some(secs) ==>
            view_get(formatted_metadata_view(md, seconds_since_previous, description, stamp), "duration_since_previous"@)
                == Some(JsonView::Number(NumberView::Float(int_decimal(secs) + ".0"@))),
        seconds_since_previous is None ==>
            view_get(formatted_metadata_view(md, seconds_since_previous, description, stamp), "duration_since_previous"@)
                == metadata_lookup(md, "duration_since_previous"@),
{
    reveal_strlit("transition_description");
    reveal_strlit("transition_timestamp");
    reveal_strlit("duration_since_previous");
    let members: Seq<(Seq<char>, JsonView)> = match md {
        Some(JsonView::Object(m)) => m,
        _ => Seq::empty(),
    };
    let with_duration = match seconds_since_previous {
        Some(secs) => member_insert(members, "duration_since_previous"@, seconds_number(secs)),
        None => members,
    };
    let with_description = member_insert(with_duration, "transition_description"@, JsonView::String(description));
    assert("duration_since_previous"@ != "transition_description"@) by {
        assert("duration_since_previous"@[0] != "transition_description"@[0]);
    }
    assert("duration_since_previous"@ != "transition_timestamp"@) by {
        assert("duration_since_previous"@[0] != "transition_timestamp"@[0]);
    }
    crate::json::lemma_member_insert_other(with_description, "transition_timestamp"@, JsonView::String(stamp), "duration_since_previous"@);
    crate::json::lemma_member_insert_other(with_duration, "transition_description"@, JsonView::String(description), "duration_since_previous"@);
    if let Some(secs) = seconds_since_previous {
        crate::json::lemma_member_insert_lookup(members, "duration_since_previous"@, seconds_number(secs));
    }
}

/// The seconds that `formatted_metadata` records are the whole seconds
/// between the two transitions, truncated toward zero: zero for transitions
/// less than a second apart, and one more for each further whole second.
pub proof fn lemma_duration_is_whole_seconds(later: int, earlier: int)
    ensures
        0 <= later - earlier < 1000000000 ==> whole_seconds_between(later, earlier) == 0,
        later - earlier >= 0 ==> whole_seconds_between(later + 1000000000, earlier) == whole_seconds_between(later, earlier) + 1,
        whole_seconds_between(later, earlier) == -whole_seconds_between(earlier, later),
{
}

} // verus!
