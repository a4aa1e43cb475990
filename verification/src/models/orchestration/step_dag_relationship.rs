//! DAG relationships of workflow steps as computed for orchestration.

use crate::json::{items_view, lemma_items_view, view_as_i64, JsonValue, JsonView};
use vstd::prelude::*;

verus! {

/// A step's place in its task's DAG.
pub struct StepDagRelationship {
    pub workflow_step_id: i64,
    pub task_id: i64,
    pub named_step_id: i32,
    /// Array of parent step ids.
    pub parent_step_ids: JsonValue,
    /// Array of child step ids.
    pub child_step_ids: JsonValue,
    pub parent_count: i64,
    pub child_count: i64,
    /// No parents: a workflow entry point.
    pub is_root_step: bool,
    /// No children: a workflow exit point.
    pub is_leaf_step: bool,
    /// Minimum depth from a root; none for an orphaned step.
    pub min_depth_from_root: Option<i32>,
}

/// Filters for DAG relationship lookups.
pub struct StepDagRelationshipQuery {
    pub task_id: Option<i64>,
    pub workflow_step_id: Option<i64>,
    pub min_depth: Option<i32>,
    pub max_depth: Option<i32>,
    pub is_root_step: Option<bool>,
    pub is_leaf_step: Option<bool>,
}

/// The integer elements of an array, skipping elements that are not
/// integers fitting an `i64`.
pub open spec fn integer_elements(items: Seq<JsonView>) -> Seq<i64>
    decreases items.len(),
{
    if items.len() == 0 {
        Seq::empty()
    } else {
        let rest = integer_elements(items.drop_last());
        match view_as_i64(items.last()) {
            Some(id) => rest.push(id),
            None => rest,
        }
    }
}

/// The ids listed by a JSON value: the integer elements of an array, and
/// none for a non-array.
pub open spec fn listed_integers(v: JsonView) -> Seq<i64> {
    match v {
        JsonView::Array(items) => integer_elements(items),
        _ => Seq::empty(),
    }
}

/// The integer elements of an array value (none for a non-array).
pub fn integers_of(v: &JsonValue) -> (r: Vec<i64>)
    ensures
        r@ == listed_integers(v@),
{
    match v.as_array() {
        Some(items) => {
            proof {
                lemma_items_view(items@);
            }
            let ghost iv = items_view(items@);
            let mut ids: Vec<i64> = Vec::new();
            let mut i: usize = 0;
            while i < items.len()
                invariant
                    i <= items.len(),
                    iv == items_view(items@),
                    v@ == JsonView::Array(iv),
                    iv.len() == items@.len(),
                    forall|j: int| 0 <= j < items@.len() ==> #[trigger] iv[j] == items@[j]@,
                    ids@ == integer_elements(iv.take(i as int)),
                decreases items.len() - i,
            {
                proof {
                    assert(iv.take(i + 1).drop_last() =~= iv.take(i as int));
                    assert(iv.take(i + 1).last() == iv[i as int]);
                    assert(iv[i as int] == items@[i as int]@);
                }
                if let Some(id) = items[i].as_i64() {
                    ids.push(id);
                }
                i = i + 1;
            }
            assert(iv.take(iv.len() as int) =~= iv);
            ids
        },
        None => Vec::new(),
    }
}

impl StepDagRelationship {
    /// The parent step ids.
    pub fn parent_ids(&self) -> (r: Vec<i64>)
        ensures
            r@ == listed_integers(self.parent_step_ids@),
    {
        integers_of(&self.parent_step_ids)
    }

    /// The child step ids.
    pub fn child_ids(&self) -> (r: Vec<i64>)
        ensures
            r@ == listed_integers(self.child_step_ids@),
    {
        integers_of(&self.child_step_ids)
    }

    /// A root step can run as soon as the task starts.
    pub fn can_execute_immediately(&self) -> (r: bool)
        ensures
            r == self.is_root_step,
    {
        self.is_root_step
    }

    /// A leaf step is a final operation of the workflow.
    pub fn is_workflow_exit(&self) -> (r: bool)
        ensures
            r == self.is_leaf_step,
    {
        self.is_leaf_step
    }

    /// The step's execution level: its minimum depth from a root.
    pub fn execution_level(&self) -> (r: Option<i32>)
        ensures
            r == self.min_depth_from_root,
    {
        self.min_depth_from_root
    }

    /// A step no root reaches has no depth.
    pub fn is_orphaned(&self) -> (r: bool)
        ensures
            r == self.min_depth_from_root is None,
    {
        self.min_depth_from_root.is_none()
    }
}

} // verus!
