//! DAG relationships of workflow steps: each step's parents and children,
//! root and leaf flags and depth, and a query builder over them.

use crate::json::{items_view, lemma_items_view, view_as_i64, JsonValue, JsonView};
use crate::text::{i64_to_decimal, int_decimal, join, join_strings, nat_decimal, u64_to_decimal};
use vstd::prelude::*;

verus! {

/// A row of the step DAG relationship view; every column may be null.
pub struct StepDagRelationship {
    pub workflow_step_id: Option<i64>,
    pub task_id: Option<i64>,
    pub named_step_id: Option<i32>,
    /// Array of parent step ids.
    pub parent_step_ids: Option<JsonValue>,
    /// Array of child step ids.
    pub child_step_ids: Option<JsonValue>,
    pub parent_count: Option<i64>,
    pub child_count: Option<i64>,
    pub is_root_step: Option<bool>,
    pub is_leaf_step: Option<bool>,
    pub min_depth_from_root: Option<i32>,
}

/// Filters for listing step DAG relationships.
pub struct StepDagRelationshipQuery {
    pub task_id: Option<i64>,
    pub workflow_step_id: Option<i64>,
    pub is_root_step: Option<bool>,
    pub is_leaf_step: Option<bool>,
    pub has_parents: Option<bool>,
    pub has_children: Option<bool>,
    pub limit: Option<i64>,
    pub offset: Option<i64>,
}

/// The integers of an id array, when every element is an integer that fits
/// an `i64`; `None` when some element is not.
pub open spec fn all_ids(items: Seq<JsonView>) -> Option<Seq<i64>>
    decreases items.len(),
{
    if items.len() == 0 {
        Some(Seq::empty())
    } else {
        match (all_ids(items.drop_last()), view_as_i64(items.last())) {
            (Some(ids), Some(id)) => Some(ids.push(id)),
            _ => None,
        }
    }
}

/// The ids that an optional JSON value lists: the elements of an array of
/// integers, and no ids for anything else (no value, a non-array, or an
/// array holding a non-integer).
pub open spec fn listed_ids(v: Option<JsonView>) -> Seq<i64> {
    match v {
        Some(JsonView::Array(items)) => match all_ids(items) {
            Some(ids) => ids,
            None => Seq::empty(),
        },
        _ => Seq::empty(),
    }
}

pub open spec fn opt_view(v: Option<JsonValue>) -> Option<JsonView> {
    match v {
        Some(j) => Some(j@),
        None => None,
    }
}

/// Reads the ids of an optional id array (see `listed_ids`).
pub fn id_list(v: &Option<JsonValue>) -> (r: Vec<i64>)
    ensures
        r@ == listed_ids(opt_view(*v)),
{
    let empty: Vec<i64> = Vec::new();
    match v {
        Some(value) => match value.as_array() {
            Some(items) => {
                proof {
                    lemma_items_view(items@);
                }
                let ghost iv = items_view(items@);
                let mut ids: Vec<i64> = Vec::new();
                let mut i: usize = 0;
                while i < items.len()
                    invariant
                        i <= items.len(),
                        iv == items_view(items@),
                        opt_view(*v) == Some(JsonView::Array(iv)),
                        iv.len() == items@.len(),
                        forall|j: int| 0 <= j < items@.len() ==> #[trigger] iv[j] == items@[j]@,
                        all_ids(iv.take(i as int)) == Some(ids@),
                    decreases items.len() - i,
                {
                    proof {
                        assert(iv.take(i + 1).drop_last() =~= iv.take(i as int));
                        assert(iv.take(i + 1).last() == iv[i as int]);
                    }
                    match items[i].as_i64() {
                        Some(id) => ids.push(id),
                        None => {
                            proof {
                                assert(iv[i as int] == items@[i as int]@);
                                assert(all_ids(iv.take(i + 1)) is None);
                                lemma_all_ids_prefix_none(iv, i as int + 1);
                                assert(iv.take(iv.len() as int) =~= iv);
                            }
                            return Vec::new();
                        },
                    }
                    i = i + 1;
                }
                assert(iv.take(iv.len() as int) =~= iv);
                ids
            },
            None => empty,
        },
        None => empty,
    }
}

/// Once a prefix holds a non-integer, so does every longer prefix.
proof fn lemma_all_ids_prefix_none(items: Seq<JsonView>, k: int)
    requires
        0 <= k <= items.len(),
        all_ids(items.take(k)) is None,
    ensures
        all_ids(items.take(items.len() as int)) is None,
    decreases items.len() - k,
{
    if k < items.len() {
        assert(items.take(k + 1).drop_last() =~= items.take(k));
        lemma_all_ids_prefix_none(items, k + 1);
    }
}

impl StepDagRelationship {
    /// Whether the step is a root (no parents); false when unknown.
    pub fn is_root_step(&self) -> (r: bool)
        ensures
            r == match self.is_root_step { Some(b) => b, None => false },
    {
        match self.is_root_step {
            Some(b) => b,
            None => false,
        }
    }

    /// Whether the step is a leaf (no children); false when unknown.
    pub fn is_leaf_step(&self) -> (r: bool)
        ensures
            r == match self.is_leaf_step { Some(b) => b, None => false },
    {
        match self.is_leaf_step {
            Some(b) => b,
            None => false,
        }
    }

    /// Whether the step has parents; false when unknown.
    pub fn has_parents(&self) -> (r: bool)
        ensures
            r == (match self.parent_count { Some(c) => c, None => 0 } > 0),
    {
        match self.parent_count {
            Some(c) => c > 0,
            None => false,
        }
    }

    /// Whether the step has children; false when unknown.
    pub fn has_children(&self) -> (r: bool)
        ensures
            r == (match self.child_count { Some(c) => c, None => 0 } > 0),
    {
        match self.child_count {
            Some(c) => c > 0,
            None => false,
        }
    }

    /// The parent step ids; empty unless the column is an array of integers.
    pub fn parent_step_ids_array(&self) -> (r: Vec<i64>)
        ensures
            r@ == listed_ids(opt_view(self.parent_step_ids)),
    {
        id_list(&self.parent_step_ids)
    }

    /// The child step ids; empty unless the column is an array of integers.
    pub fn child_step_ids_array(&self) -> (r: Vec<i64>)
        ensures
            r@ == listed_ids(opt_view(self.child_step_ids)),
    {
        id_list(&self.child_step_ids)
    }
}

// ---------------------------------------------------------------------------
// The query
// ---------------------------------------------------------------------------

pub open spec fn opt_cond(b: bool, c: Seq<char>) -> Seq<Seq<char>> {
    if b { seq![c] } else { Seq::empty() }
}

/// The filter conditions of a query, in order, with numbered placeholders.
pub open spec fn dag_conditions(q: StepDagRelationshipQuery) -> Seq<Seq<char>> {
    let n_task: int = if q.task_id is Some { 1 } else { 0 };
    opt_cond(q.task_id is Some, "task_id = $"@ + nat_decimal(1))
        + opt_cond(q.workflow_step_id is Some, "workflow_step_id = $"@ + nat_decimal((n_task + 1) as nat))
        + opt_cond(q.is_root_step == Some(true), "is_root_step = true"@)
        + opt_cond(q.is_leaf_step == Some(true), "is_leaf_step = true"@)
        + opt_cond(q.has_parents == Some(true), "parent_count > 0"@)
        + opt_cond(q.has_children == Some(true), "child_count > 0"@)
}

/// The WHERE clause of a query: empty without conditions.
pub open spec fn dag_where_clause(q: StepDagRelationshipQuery) -> Seq<char> {
    let c = dag_conditions(q);
    if c.len() == 0 { Seq::empty() } else { "WHERE "@ + join(c, " AND "@) }
}

/// The parameter values of a query's placeholders.
pub open spec fn dag_params(q: StepDagRelationshipQuery) -> Seq<Seq<char>> {
    (if q.task_id is Some { seq![int_decimal(q.task_id.unwrap() as int)] } else { Seq::empty() })
        + (if q.workflow_step_id is Some { seq![int_decimal(q.workflow_step_id.unwrap() as int)] } else { Seq::empty() })
}

/// The LIMIT clause of a query.
pub open spec fn dag_limit_clause(q: StepDagRelationshipQuery) -> Seq<char> {
    match q.limit {
        Some(l) => " LIMIT "@ + int_decimal(l as int),
        None => Seq::empty(),
    }
}

/// The OFFSET clause of a query.
pub open spec fn dag_offset_clause(q: StepDagRelationshipQuery) -> Seq<char> {
    match q.offset {
        Some(o) => " OFFSET "@ + int_decimal(o as int),
        None => Seq::empty(),
    }
}

/// The ordering of listed relationships.
pub open spec fn dag_order_clause() -> Seq<char> {
    "ORDER BY task_id, min_depth_from_root, workflow_step_id"@
}

fn push_condition(conditions: &mut Vec<String>, c: &str)
    ensures
        final(conditions)@.map_values(|p: String| p@) == old(conditions)@.map_values(|p: String| p@).push(c@),
{
    conditions.push(String::from_str(c));
    assert(conditions@.map_values(|p: String| p@) =~= old(conditions)@.map_values(|p: String| p@).push(c@));
}

impl Default for StepDagRelationshipQuery {
    /// No filters.
    fn default() -> (r: Self)
        ensures
            r == (StepDagRelationshipQuery {
                task_id: None,
                workflow_step_id: None,
                is_root_step: None,
                is_leaf_step: None,
                has_parents: None,
                has_children: None,
                limit: None,
                offset: None,
            }),
    {
        StepDagRelationshipQuery {
            task_id: None,
            workflow_step_id: None,
            is_root_step: None,
            is_leaf_step: None,
            has_parents: None,
            has_children: None,
            limit: None,
            offset: None,
        }
    }
}

impl StepDagRelationshipQuery {
    /// A query with no filters.
    pub fn new() -> (r: Self)
        ensures
            r == (StepDagRelationshipQuery {
                task_id: None,
                workflow_step_id: None,
                is_root_step: None,
                is_leaf_step: None,
                has_parents: None,
                has_children: None,
                limit: None,
                offset: None,
            }),
    {
        StepDagRelationshipQuery::default()
    }

    /// Restricts to one task.
    pub fn task_id(self, task_id: i64) -> (r: Self)
        ensures
            r == (StepDagRelationshipQuery { task_id: Some(task_id), ..self }),
    {
        StepDagRelationshipQuery { task_id: Some(task_id), ..self }
    }

    /// Restricts to one step.
    pub fn workflow_step_id(self, workflow_step_id: i64) -> (r: Self)
        ensures
            r == (StepDagRelationshipQuery { workflow_step_id: Some(workflow_step_id), ..self }),
    {
        StepDagRelationshipQuery { workflow_step_id: Some(workflow_step_id), ..self }
    }

    /// Restricts to root steps.
    pub fn root_steps_only(self) -> (r: Self)
        ensures
            r == (StepDagRelationshipQuery { is_root_step: Some(true), ..self }),
    {
        StepDagRelationshipQuery { is_root_step: Some(true), ..self }
    }

    /// Restricts to leaf steps.
    pub fn leaf_steps_only(self) -> (r: Self)
        ensures
            r == (StepDagRelationshipQuery { is_leaf_step: Some(true), ..self }),
    {
        StepDagRelationshipQuery { is_leaf_step: Some(true), ..self }
    }

    /// Restricts to steps with parents.
    pub fn with_parents_only(self) -> (r: Self)
        ensures
            r == (StepDagRelationshipQuery { has_parents: Some(true), ..self }),
    {
        StepDagRelationshipQuery { has_parents: Some(true), ..self }
    }

    /// Restricts to steps with children.
    pub fn with_children_only(self) -> (r: Self)
        ensures
            r == (StepDagRelationshipQuery { has_children: Some(true), ..self }),
    {
        StepDagRelationshipQuery { has_children: Some(true), ..self }
    }

    /// Returns at most `limit` rows.
    pub fn limit(self, limit: i64) -> (r: Self)
        ensures
            r == (StepDagRelationshipQuery { limit: Some(limit), ..self }),
    {
        StepDagRelationshipQuery { limit: Some(limit), ..self }
    }

    /// Skips the first `offset` rows.
    pub fn offset(self, offset: i64) -> (r: Self)
        ensures
            r == (StepDagRelationshipQuery { offset: Some(offset), ..self }),
    {
        StepDagRelationshipQuery { offset: Some(offset), ..self }
    }

    /// The WHERE clause with its parameter values.
    pub fn where_clause(&self) -> (r: (String, Vec<String>))
        ensures
            r.0@ == dag_where_clause(*self),
            r.1@.map_values(|p: String| p@) == dag_params(*self),
    {
        let mut conditions: Vec<String> = Vec::new();
        let mut params: Vec<String> = Vec::new();
        let mut param_count: u64 = 0;
        let ghost q = *self;
        if let Some(task_id) = self.task_id {
            param_count = param_count + 1;
            let c = String::from_str("task_id = $").concat(u64_to_decimal(param_count).as_str());
            push_condition(&mut conditions, c.as_str());
            params.push(i64_to_decimal(task_id));
        }
        if let Some(workflow_step_id) = self.workflow_step_id {
            param_count = param_count + 1;
            let c = String::from_str("workflow_step_id = $").concat(u64_to_decimal(param_count).as_str());
            push_condition(&mut conditions, c.as_str());
            params.push(i64_to_decimal(workflow_step_id));
        }
        if let Some(true) = self.is_root_step {
            push_condition(&mut conditions, "is_root_step = true");
        }
        if let Some(true) = self.is_leaf_step {
            push_condition(&mut conditions, "is_leaf_step = true");
        }
        if let Some(true) = self.has_parents {
            push_condition(&mut conditions, "parent_count > 0");
        }
        if let Some(true) = self.has_children {
            push_condition(&mut conditions, "child_count > 0");
        }
        assert(conditions@.map_values(|p: String| p@) =~= dag_conditions(q));
        assert(params@.map_values(|p: String| p@) =~= dag_params(q));
        let where_clause = if conditions.len() == 0 {
            String::new()
        } else {
            String::from_str("WHERE ").concat(join_strings(&conditions, " AND ").as_str())
        };
        (where_clause, params)
    }

    /// The LIMIT clause: empty without a limit.
    pub fn limit_clause(&self) -> (r: String)
        ensures
            r@ == dag_limit_clause(*self),
    {
        match self.limit {
            Some(l) => String::from_str(" LIMIT ").concat(i64_to_decimal(l).as_str()),
            None => String::new(),
        }
    }

    /// The OFFSET clause: empty without an offset.
    pub fn offset_clause(&self) -> (r: String)
        ensures
            r@ == dag_offset_clause(*self),
    {
        match self.offset {
            Some(o) => String::from_str(" OFFSET ").concat(i64_to_decimal(o).as_str()),
            None => String::new(),
        }
    }

    /// The ordering clause.
    pub fn order_clause(&self) -> (r: &'static str)
        ensures
            r@ == dag_order_clause(),
    {
        "ORDER BY task_id, min_depth_from_root, workflow_step_id"
    }
}

} // verus!
