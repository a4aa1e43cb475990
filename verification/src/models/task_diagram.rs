//! Task workflow diagrams: nodes, dependency edges, Mermaid rendering and
//! depth analysis of the step DAG.

use crate::json::{JsonValue, JsonView};
use crate::text::{i64_to_decimal, int_decimal, str_eq};
use vstd::prelude::*;

verus! {

/// A node of a workflow diagram: one workflow step and its current state.
pub struct DiagramNode {
    pub workflow_step_id: i64,
    pub named_step_id: i32,
    pub name: String,
    pub current_state: String,
    pub metadata: JsonValue,
}

/// An edge of a workflow diagram: `to_step_id` depends on `from_step_id`.
pub struct DiagramEdge {
    pub from_step_id: i64,
    pub to_step_id: i64,
    pub edge_name: String,
    pub edge_type: String,
}

/// Rendering options of a flowchart.
pub struct Flowchart {
    /// Layout direction, such as `TD` or `LR`.
    pub direction: String,
    pub theme: String,
    pub show_states: bool,
    pub show_dependencies: bool,
}

impl Default for Flowchart {
    /// Top-down layout, default theme, states and dependencies shown.
    fn default() -> (r: Self)
        ensures
            r.direction@ == "TD"@,
            r.theme@ == "default"@,
            r.show_states,
            r.show_dependencies,
    {
        Flowchart {
            direction: String::from_str("TD"),
            theme: String::from_str("default"),
            show_states: true,
            show_dependencies: true,
        }
    }
}

/// A workflow diagram of one task.
pub struct TaskDiagram {
    pub task_id: i64,
    pub nodes: Vec<DiagramNode>,
    pub edges: Vec<DiagramEdge>,
    pub metadata: JsonValue,
}

/// Kept for the uniform model interface; a diagram is computed, never stored.
pub struct NewTaskDiagram {}

/// Kept for the uniform model interface; a diagram is computed, never stored.
pub struct TaskDiagramWithTask {}

/// A workflow step of a task as read for its diagram.
pub struct DiagramStepRow {
    pub workflow_step_id: i64,
    pub named_step_id: i32,
    pub step_name: String,
    /// The step's most recent state; none before its first transition.
    pub current_state: Option<String>,
}

/// A dependency edge between two steps of a task, as read for its diagram.
pub struct DiagramEdgeRow {
    pub from_step_id: i64,
    pub to_step_id: i64,
    pub edge_name: String,
}

/// The node drawn for a step: its ids and name, its state ("pending" before
/// any transition) and empty metadata.
pub open spec fn node_of(row: DiagramStepRow) -> (i64, i32, Seq<char>, Seq<char>, JsonView) {
    (
        row.workflow_step_id,
        row.named_step_id,
        row.step_name@,
        match row.current_state { Some(s) => s@, None => "pending"@ },
        JsonView::Object(Seq::empty()),
    )
}

pub open spec fn node_fields(n: DiagramNode) -> (i64, i32, Seq<char>, Seq<char>, JsonView) {
    (n.workflow_step_id, n.named_step_id, n.name@, n.current_state@, n.metadata@)
}

/// The diagram metadata: when it was generated and the format version.
pub open spec fn diagram_metadata(generated_at: Seq<char>) -> JsonView {
    JsonView::Object(seq![
        ("generated_at"@, JsonView::String(generated_at)),
        ("version"@, JsonView::String("1.0"@)),
    ])
}

// ---------------------------------------------------------------------------
// The step graph
// ---------------------------------------------------------------------------

/// Some edge leads from `u` to `v`.
pub open spec fn has_edge(edges: Seq<DiagramEdge>, u: i64, v: i64) -> bool {
    exists|k: int| 0 <= k < edges.len() && edges[k].from_step_id == u && edges[k].to_step_id == v
}

/// Some edge leads into `v`.
pub open spec fn has_incoming(edges: Seq<DiagramEdge>, v: i64) -> bool {
    exists|k: int| 0 <= k < edges.len() && edges[k].to_step_id == v
}

/// `v` is the step id of some node.
pub open spec fn is_node(nodes: Seq<DiagramNode>, v: i64) -> bool {
    exists|i: int| 0 <= i < nodes.len() && nodes[i].workflow_step_id == v
}

/// A root is a node that no edge leads into.
pub open spec fn is_root(nodes: Seq<DiagramNode>, edges: Seq<DiagramEdge>, v: i64) -> bool {
    is_node(nodes, v) && !has_incoming(edges, v)
}

/// `p` is a path along edges that starts at a root.
pub open spec fn is_root_path(nodes: Seq<DiagramNode>, edges: Seq<DiagramEdge>, p: Seq<i64>) -> bool {
    &&& p.len() >= 1
    &&& is_root(nodes, edges, p[0])
    &&& forall|i: int| 0 <= i < p.len() - 1 ==> #[trigger] has_edge(edges, p[i], p[i + 1])
}

/// No path from a root visits a step twice: the part of the graph reachable
/// from the roots is acyclic.
pub open spec fn root_paths_are_simple(nodes: Seq<DiagramNode>, edges: Seq<DiagramEdge>) -> bool {
    forall|p: Seq<i64>| is_root_path(nodes, edges, p) ==> p.no_duplicates()
}

/// `d` is the length (in edges) of the longest path from a root, or 0 when there is no root.
pub open spec fn is_max_root_depth(nodes: Seq<DiagramNode>, edges: Seq<DiagramEdge>, d: int) -> bool {
    &&& d >= 0
    &&& forall|p: Seq<i64>| is_root_path(nodes, edges, p) ==> p.len() - 1 <= d
    &&& (d == 0 || exists|p: Seq<i64>| is_root_path(nodes, edges, p) && p.len() - 1 == d)
}

/// Number of nodes whose current state is "complete".
pub open spec fn completed_count(nodes: Seq<DiagramNode>) -> nat
    decreases nodes.len(),
{
    if nodes.len() == 0 {
        0
    } else {
        completed_count(nodes.drop_last()) + if nodes.last().current_state@ == "complete"@ { 1nat } else { 0nat }
    }
}

// ---------------------------------------------------------------------------
// Depth computation: relaxation over a vertex table
// ---------------------------------------------------------------------------

/// Every node id and every edge endpoint occurs in `verts`.
spec fn covers(nodes: Seq<DiagramNode>, edges: Seq<DiagramEdge>, verts: Seq<i64>) -> bool {
    &&& forall|i: int| 0 <= i < nodes.len() ==> verts.contains(#[trigger] nodes[i].workflow_step_id)
    &&& forall|k: int| 0 <= k < edges.len() ==> verts.contains(#[trigger] edges[k].from_step_id)
    &&& forall|k: int| 0 <= k < edges.len() ==> verts.contains(#[trigger] edges[k].to_step_id)
}

/// Every recorded depth is the length of some root path ending at that vertex.
spec fn depths_sound(nodes: Seq<DiagramNode>, edges: Seq<DiagramEdge>, verts: Seq<i64>, d: Seq<i32>) -> bool {
    &&& d.len() == verts.len()
    &&& forall|v: int| 0 <= v < d.len() ==> d[v] >= -1
    &&& forall|v: int|
        0 <= v < d.len() && d[v] >= 0 ==> exists|p: Seq<i64>|
            is_root_path(nodes, edges, p) && p.last() == verts[v] && p.len() == d[v] + 1
}

/// Every root has a recorded depth.
spec fn roots_recorded(nodes: Seq<DiagramNode>, edges: Seq<DiagramEdge>, verts: Seq<i64>, d: Seq<i32>) -> bool {
    forall|v: int| 0 <= v < d.len() && is_root(nodes, edges, verts[v]) ==> d[v] >= 0
}

/// `m` is the largest recorded depth, or 0.
spec fn max_recorded(d: Seq<i32>, m: i32) -> bool {
    &&& m >= 0
    &&& forall|v: int| 0 <= v < d.len() ==> d[v] <= m
    &&& (m == 0 || exists|v: int| 0 <= v < d.len() && d[v] == m)
}

/// Edge `k` (by vertex indices) is relaxed: its target's depth exceeds its source's.
spec fn relaxed(d: Seq<i32>, ef: Seq<usize>, et: Seq<usize>, k: int) -> bool {
    d[ef[k] as int] >= 0 ==> d[et[k] as int] >= d[ef[k] as int] + 1
}

/// `ef` and `et` give the vertex indices of each edge's endpoints.
spec fn edge_indices(edges: Seq<DiagramEdge>, verts: Seq<i64>, ef: Seq<usize>, et: Seq<usize>) -> bool {
    &&& ef.len() == edges.len()
    &&& et.len() == edges.len()
    &&& forall|k: int| 0 <= k < edges.len() ==> (#[trigger] ef[k]) < verts.len() && verts[ef[k] as int] == edges[k].from_step_id
    &&& forall|k: int| 0 <= k < edges.len() ==> (#[trigger] et[k]) < verts.len() && verts[et[k] as int] == edges[k].to_step_id
}

/// Sum over all vertices of `n - d[v]`; it shrinks whenever a depth grows.
spec fn potential(d: Seq<i32>, n: int) -> int
    decreases d.len(),
{
    if d.len() == 0 {
        0
    } else {
        potential(d.drop_last(), n) + (n - d.last())
    }
}

proof fn lemma_potential_update(d: Seq<i32>, n: int, i: int, x: i32)
    requires
        0 <= i < d.len(),
    ensures
        potential(d.update(i, x), n) == potential(d, n) - x + d[i],
    decreases d.len(),
{
    if i == d.len() - 1 {
        assert(d.update(i, x).drop_last() =~= d.drop_last());
    } else {
        lemma_potential_update(d.drop_last(), n, i, x);
        assert(d.update(i, x).drop_last() =~= d.drop_last().update(i, x));
    }
}

proof fn lemma_potential_nonneg(d: Seq<i32>, n: int)
    requires
        forall|v: int| 0 <= v < d.len() ==> d[v] <= n,
    ensures
        potential(d, n) >= 0,
    decreases d.len(),
{
    if d.len() > 0 {
        lemma_potential_nonneg(d.drop_last(), n);
    }
}

/// Every step of a root path is a vertex.
proof fn lemma_root_path_in_verts(nodes: Seq<DiagramNode>, edges: Seq<DiagramEdge>, verts: Seq<i64>, p: Seq<i64>)
    requires
        covers(nodes, edges, verts),
        is_root_path(nodes, edges, p),
    ensures
        forall|i: int| 0 <= i < p.len() ==> verts.contains(#[trigger] p[i]),
{
    assert forall|i: int| 0 <= i < p.len() implies verts.contains(#[trigger] p[i]) by {
        if i == 0 {
            let j = choose|j: int| 0 <= j < nodes.len() && nodes[j].workflow_step_id == p[0];
            assert(verts.contains(nodes[j].workflow_step_id));
        } else {
            let j = i - 1;
            assert(has_edge(edges, p[j], p[j + 1]));
            let k = choose|k: int| 0 <= k < edges.len() && edges[k].from_step_id == p[j] && edges[k].to_step_id == p[j + 1];
            assert(verts.contains(edges[k].to_step_id));
        }
    }
}

/// A simple root path is no longer than the vertex table.
proof fn lemma_root_path_len(nodes: Seq<DiagramNode>, edges: Seq<DiagramEdge>, verts: Seq<i64>, p: Seq<i64>)
    requires
        covers(nodes, edges, verts),
        root_paths_are_simple(nodes, edges),
        is_root_path(nodes, edges, p),
    ensures
        p.len() <= verts.len(),
{
    lemma_root_path_in_verts(nodes, edges, verts, p);
    p.unique_seq_to_set();
    verts.lemma_cardinality_of_set();
    assert(p.to_set().subset_of(verts.to_set())) by {
        assert forall|x: i64| p.to_set().contains(x) implies verts.to_set().contains(x) by {
            let i = choose|i: int| 0 <= i < p.len() && p[i] == x;
            assert(verts.contains(p[i]));
        }
    }
    vstd::set_lib::lemma_len_subset(p.to_set(), verts.to_set());
}

/// Every recorded depth is below `n`.
spec fn depths_below(d: Seq<i32>, n: int) -> bool {
    forall|v: int| 0 <= v < d.len() ==> d[v] < n
}

/// A root path longer than the vertex table repeats a step.
proof fn lemma_long_root_path(
    nodes: Seq<DiagramNode>,
    edges: Seq<DiagramEdge>,
    verts: Seq<i64>,
    d: Seq<i32>,
    ef: Seq<usize>,
    et: Seq<usize>,
    k: int,
)
    requires
        covers(nodes, edges, verts),
        depths_sound(nodes, edges, verts, d),
        edge_indices(edges, verts, ef, et),
        0 <= k < edges.len(),
        d[ef[k] as int] >= 0,
        d[ef[k] as int] + 1 >= verts.len(),
    ensures
        !root_paths_are_simple(nodes, edges),
{
    let f = ef[k] as int;
    let t = et[k] as int;
    let p = choose|p: Seq<i64>| is_root_path(nodes, edges, p) && p.last() == verts[f] && p.len() == d[f] + 1;
    let q = p.push(verts[t]);
    assert(has_edge(edges, p.last(), verts[t]));
    assert(is_root_path(nodes, edges, q)) by {
        assert forall|i: int| 0 <= i < q.len() - 1 implies #[trigger] has_edge(edges, q[i], q[i + 1]) by {
            if i < p.len() - 1 {
                assert(has_edge(edges, p[i], p[i + 1]));
            }
        }
    }
    if root_paths_are_simple(nodes, edges) {
        lemma_root_path_len(nodes, edges, verts, q);
    }
}

/// The root path `p` up to position `j`, followed by `k` turns of the cycle
/// `p[i+1..=j]`, which returns to `p[j] == p[i]`.
spec fn pumped(p: Seq<i64>, i: int, j: int, k: nat) -> Seq<i64>
    decreases k,
{
    if k == 0 {
        p.take(j + 1)
    } else {
        pumped(p, i, j, (k - 1) as nat) + p.subrange(i + 1, j + 1)
    }
}

proof fn lemma_pumped(nodes: Seq<DiagramNode>, edges: Seq<DiagramEdge>, p: Seq<i64>, i: int, j: int, k: nat)
    requires
        is_root_path(nodes, edges, p),
        0 <= i < j < p.len(),
        p[i] == p[j],
    ensures
        is_root_path(nodes, edges, pumped(p, i, j, k)),
        pumped(p, i, j, k).last() == p[j],
        pumped(p, i, j, k).len() == j + 1 + k * (j - i),
    decreases k,
{
    if k == 0 {
        let q = p.take(j + 1);
        assert forall|x: int| 0 <= x < q.len() - 1 implies #[trigger] has_edge(edges, q[x], q[x + 1]) by {
            assert(has_edge(edges, p[x], p[x + 1]));
        }
    } else {
        lemma_pumped(nodes, edges, p, i, j, (k - 1) as nat);
        let q = pumped(p, i, j, (k - 1) as nat);
        let c = p.subrange(i + 1, j + 1);
        let r = q + c;
        assert(r == pumped(p, i, j, k));
        assert forall|x: int| 0 <= x < r.len() - 1 implies #[trigger] has_edge(edges, r[x], r[x + 1]) by {
            if x < q.len() - 1 {
                assert(has_edge(edges, q[x], q[x + 1]));
            } else if x == q.len() - 1 {
                assert(has_edge(edges, p[i], p[i + 1]));
            } else {
                let y = i + 1 + (x - q.len());
                assert(r[x] == p[y] && r[x + 1] == p[y + 1]);
                assert(has_edge(edges, p[y], p[y + 1]));
            }
        }
        assert((k - 1) * (j - i) + (j - i) == k * (j - i)) by (nonlinear_arith);
    }
}

/// Where a root path repeats a step, root paths are arbitrarily long, so no
/// depth is the maximum.
pub proof fn lemma_cycle_unbounded(nodes: Seq<DiagramNode>, edges: Seq<DiagramEdge>, m: int)
    requires
        !root_paths_are_simple(nodes, edges),
    ensures
        !is_max_root_depth(nodes, edges, m),
{
    let p = choose|p: Seq<i64>| is_root_path(nodes, edges, p) && !p.no_duplicates();
    let (a, b) = choose|a: int, b: int| 0 <= a < p.len() && 0 <= b < p.len() && a != b && p[a] == p[b];
    let i = if a < b { a } else { b };
    let j = if a < b { b } else { a };
    if m >= 0 {
        let k = (m + 1) as nat;
        lemma_pumped(nodes, edges, p, i, j, k);
        assert(k * (j - i) >= k) by (nonlinear_arith)
            requires
                j - i >= 1,
        ;
        assert(pumped(p, i, j, k).len() - 1 > m);
    }
}

/// At a fixpoint, every root path's end has at least the path's length recorded.
proof fn lemma_fixpoint_complete(
    nodes: Seq<DiagramNode>,
    edges: Seq<DiagramEdge>,
    verts: Seq<i64>,
    d: Seq<i32>,
    ef: Seq<usize>,
    et: Seq<usize>,
    p: Seq<i64>,
)
    requires
        verts.no_duplicates(),
        d.len() == verts.len(),
        edge_indices(edges, verts, ef, et),
        roots_recorded(nodes, edges, verts, d),
        forall|k: int| 0 <= k < edges.len() ==> relaxed(d, ef, et, k),
        is_root_path(nodes, edges, p),
    ensures
        forall|v: int| 0 <= v < verts.len() && verts[v] == p.last() ==> d[v] >= p.len() - 1,
    decreases p.len(),
{
    if p.len() == 1 {
    } else {
        let q = p.drop_last();
        assert(is_root_path(nodes, edges, q)) by {
            assert forall|i: int| 0 <= i < q.len() - 1 implies #[trigger] has_edge(edges, q[i], q[i + 1]) by {
                assert(has_edge(edges, p[i], p[i + 1]));
            }
        }
        lemma_fixpoint_complete(nodes, edges, verts, d, ef, et, q);
        let j = p.len() - 2;
        assert(has_edge(edges, p[j], p[j + 1]));
        let k = choose|k: int| 0 <= k < edges.len() && edges[k].from_step_id == p[j] && edges[k].to_step_id == p[j + 1];
        assert(ef[k] < verts.len() && et[k] < verts.len());
        assert(relaxed(d, ef, et, k));
        assert forall|v: int| 0 <= v < verts.len() && verts[v] == p.last() implies d[v] >= p.len() - 1 by {
            assert(verts[et[k] as int] == verts[v]);
            assert(et[k] as int == v);
            assert(verts[ef[k] as int] == q.last());
        }
    }
}

/// Raising the target of a relaxable edge to its source's depth plus one keeps depths sound.
proof fn lemma_relax_sound(
    nodes: Seq<DiagramNode>,
    edges: Seq<DiagramEdge>,
    verts: Seq<i64>,
    d: Seq<i32>,
    ef: Seq<usize>,
    et: Seq<usize>,
    k: int,
)
    requires
        depths_sound(nodes, edges, verts, d),
        edge_indices(edges, verts, ef, et),
        0 <= k < edges.len(),
        d[ef[k] as int] >= 0,
        d[ef[k] as int] + 1 > d[et[k] as int],
        d[ef[k] as int] + 1 <= i32::MAX,
    ensures
        depths_sound(nodes, edges, verts, d.update(et[k] as int, (d[ef[k] as int] + 1) as i32)),
{
    let f = ef[k] as int;
    let t = et[k] as int;
    let nd = (d[f] + 1) as i32;
    let d2 = d.update(t, nd);
    let p = choose|p: Seq<i64>| is_root_path(nodes, edges, p) && p.last() == verts[f] && p.len() == d[f] + 1;
    let q = p.push(verts[t]);
    assert(has_edge(edges, p.last(), verts[t]));
    assert(is_root_path(nodes, edges, q)) by {
        assert forall|i: int| 0 <= i < q.len() - 1 implies #[trigger] has_edge(edges, q[i], q[i + 1]) by {
            if i < p.len() - 1 {
                assert(has_edge(edges, p[i], p[i + 1]));
            }
        }
    }
    assert forall|u: int| 0 <= u < d2.len() && d2[u] >= 0 implies exists|r: Seq<i64>|
        is_root_path(nodes, edges, r) && r.last() == verts[u] && r.len() == d2[u] + 1 by {
        if u == t {
            assert(is_root_path(nodes, edges, q) && q.last() == verts[u] && q.len() == d2[u] + 1);
        } else {
            assert(d2[u] == d[u]);
        }
    }
}

/// Keeping the running maximum when one recorded depth grows.
proof fn lemma_relax_max(d: Seq<i32>, m: i32, t: int, nd: i32)
    requires
        max_recorded(d, m),
        0 <= t < d.len(),
        nd > d[t],
    ensures
        max_recorded(d.update(t, nd), if nd > m { nd } else { m }),
{
    let d2 = d.update(t, nd);
    let m2 = if nd > m { nd } else { m };
    if m2 != 0 {
        if nd > m {
            assert(d2[t] == m2);
        } else {
            let w = choose|w: int| 0 <= w < d.len() && d[w] == m;
            if w == t {
                assert(d2[t] == nd && nd == m);
            } else {
                assert(d2[w] == m2);
            }
        }
    }
}

/// At the fixpoint, the running maximum is the longest root path length.
proof fn lemma_fixpoint_is_longest(
    nodes: Seq<DiagramNode>,
    edges: Seq<DiagramEdge>,
    verts: Seq<i64>,
    d: Seq<i32>,
    ef: Seq<usize>,
    et: Seq<usize>,
    m: i32,
)
    requires
        covers(nodes, edges, verts),
        verts.no_duplicates(),
        edge_indices(edges, verts, ef, et),
        depths_sound(nodes, edges, verts, d),
        roots_recorded(nodes, edges, verts, d),
        max_recorded(d, m),
        forall|j: int| 0 <= j < edges.len() ==> relaxed(d, ef, et, j),
    ensures
        is_max_root_depth(nodes, edges, m as int),
{
    assert forall|p: Seq<i64>| is_root_path(nodes, edges, p) implies p.len() - 1 <= m by {
        lemma_fixpoint_complete(nodes, edges, verts, d, ef, et, p);
        lemma_root_path_in_verts(nodes, edges, verts, p);
        assert(verts.contains(p[p.len() - 1]));
        let w = choose|w: int| 0 <= w < verts.len() && verts[w] == p.last();
        assert(d[w] <= m);
    }
    if m != 0 {
        let w = choose|w: int| 0 <= w < d.len() && d[w] == m;
        let p = choose|p: Seq<i64>| is_root_path(nodes, edges, p) && p.last() == verts[w] && p.len() == d[w] + 1;
        assert(is_root_path(nodes, edges, p) && p.len() - 1 == m);
    }
}

/// Position of `id` in `verts`, if present.
fn index_of(verts: &Vec<i64>, id: i64) -> (r: Option<usize>)
    ensures
        match r {
            Some(i) => i < verts.len() && verts@[i as int] == id,
            None => !verts@.contains(id),
        },
{
    let mut i: usize = 0;
    while i < verts.len()
        invariant
            i <= verts.len(),
            forall|j: int| 0 <= j < i ==> verts@[j] != id,
        decreases verts.len() - i,
    {
        if verts[i] == id {
            return Some(i);
        }
        i = i + 1;
    }
    None
}

/// Appends `id` to `verts` unless it is already there.
fn add_vertex(verts: &mut Vec<i64>, id: i64)
    requires
        old(verts)@.no_duplicates(),
    ensures
        final(verts)@.no_duplicates(),
        final(verts)@.contains(id),
        forall|x: i64| old(verts)@.contains(x) ==> final(verts)@.contains(x),
        final(verts)@.len() <= old(verts)@.len() + 1,
{
    match index_of(verts, id) {
        Some(_) => {},
        None => {
            let ghost before = verts@;
            verts.push(id);
            assert(verts@[before.len() as int] == id);
            assert forall|x: i64| before.contains(x) implies verts@.contains(x) by {
                let j = choose|j: int| 0 <= j < before.len() && before[j] == x;
                assert(verts@[j] == x);
            }
        },
    }
}

/// The distinct step ids of the nodes and edge endpoints.
fn vertex_table(nodes: &Vec<DiagramNode>, edges: &Vec<DiagramEdge>) -> (verts: Vec<i64>)
    ensures
        verts@.no_duplicates(),
        covers(nodes@, edges@, verts@),
        verts.len() <= nodes.len() + 2 * edges.len(),
{
    let mut verts: Vec<i64> = Vec::new();
    let mut i: usize = 0;
    while i < nodes.len()
        invariant
            i <= nodes.len(),
            verts@.no_duplicates(),
            verts.len() <= i,
            forall|j: int| 0 <= j < i ==> verts@.contains(#[trigger] nodes@[j].workflow_step_id),
        decreases nodes.len() - i,
    {
        add_vertex(&mut verts, nodes[i].workflow_step_id);
        i = i + 1;
    }
    let mut k: usize = 0;
    while k < edges.len()
        invariant
            k <= edges.len(),
            verts@.no_duplicates(),
            verts.len() <= nodes.len() + 2 * k,
            forall|j: int| 0 <= j < nodes.len() ==> verts@.contains(#[trigger] nodes@[j].workflow_step_id),
            forall|j: int| 0 <= j < k ==> verts@.contains(#[trigger] edges@[j].from_step_id),
            forall|j: int| 0 <= j < k ==> verts@.contains(#[trigger] edges@[j].to_step_id),
        decreases edges.len() - k,
    {
        add_vertex(&mut verts, edges[k].from_step_id);
        add_vertex(&mut verts, edges[k].to_step_id);
        k = k + 1;
    }
    verts
}

// ---------------------------------------------------------------------------
// Mermaid and HTML rendering
// ---------------------------------------------------------------------------

/// Style class of a node in a given state.
pub open spec fn style_class(state: Seq<char>) -> Seq<char> {
    if state == "complete"@ {
        "success"@
    } else if state == "error"@ {
        "error"@
    } else if state == "in_progress"@ {
        "active"@
    } else {
        "default"@
    }
}

/// The two Mermaid lines of one node: its label and its style class.
pub open spec fn node_line(n: DiagramNode) -> Seq<char> {
    "    "@ + int_decimal(n.workflow_step_id as int) + "[\""@ + n.name@ + "\"]\n    "@
        + int_decimal(n.workflow_step_id as int) + ":::"@ + style_class(n.current_state@) + "\n"@
}

/// The Mermaid line of one dependency edge.
pub open spec fn edge_line(e: DiagramEdge) -> Seq<char> {
    "    "@ + int_decimal(e.from_step_id as int) + " --> "@ + int_decimal(e.to_step_id as int) + "\n"@
}

pub open spec fn node_lines(nodes: Seq<DiagramNode>) -> Seq<char>
    decreases nodes.len(),
{
    if nodes.len() == 0 {
        Seq::empty()
    } else {
        node_lines(nodes.drop_last()) + node_line(nodes.last())
    }
}

pub open spec fn edge_lines(edges: Seq<DiagramEdge>) -> Seq<char>
    decreases edges.len(),
{
    if edges.len() == 0 {
        Seq::empty()
    } else {
        edge_lines(edges.drop_last()) + edge_line(edges.last())
    }
}

/// The style class definitions that close every flowchart.
pub open spec fn class_defs() -> Seq<char> {
    "\n    classDef success fill:#d4edda,stroke:#155724,stroke-width:2px\n"@
        + "    classDef error fill:#f8d7da,stroke:#721c24,stroke-width:2px\n"@
        + "    classDef active fill:#d1ecf1,stroke:#0c5460,stroke-width:2px\n"@
        + "    classDef default fill:#e2e3e5,stroke:#383d41,stroke-width:1px\n"@
}

/// A Mermaid flowchart of the diagram in the given direction; edges only when shown.
pub open spec fn mermaid_text(
    nodes: Seq<DiagramNode>,
    edges: Seq<DiagramEdge>,
    direction: Seq<char>,
    show_dependencies: bool,
) -> Seq<char> {
    "flowchart "@ + direction + "\n"@ + node_lines(nodes) + (if show_dependencies {
        edge_lines(edges)
    } else {
        Seq::empty()
    }) + class_defs()
}

/// An HTML page that embeds a Mermaid diagram under a title.
pub open spec fn html_text(title: Seq<char>, mermaid: Seq<char>) -> Seq<char> {
    "<!DOCTYPE html>\n<html>\n<head>\n    <title>"@ + title + "</title>\n    <script src=\"https://cdn.jsdelivr.net/npm/mermaid@10.6.1/dist/mermaid.min.js\"></script>\n    <script>mermaid.initialize({startOnLoad: true});</script>\n</head>\n<body>\n    <h1>"@
        + title + "</h1>\n    <div class=\"mermaid\">\n"@ + mermaid + "\n    </div>\n</body>\n</html>"@
}

/// The default page title of a task's diagram.
pub open spec fn default_title(task_id: i64) -> Seq<char> {
    "Task "@ + int_decimal(task_id as int) + " Workflow"@
}

fn style_class_of(state: &String) -> (r: &'static str)
    ensures
        r@ == style_class(state@),
{
    if str_eq(state.as_str(), "complete") {
        "success"
    } else if str_eq(state.as_str(), "error") {
        "error"
    } else if str_eq(state.as_str(), "in_progress") {
        "active"
    } else {
        "default"
    }
}

fn append_node_line(s: &mut String, node: &DiagramNode)
    ensures
        final(s)@ == old(s)@ + node_line(*node),
{
    let id = i64_to_decimal(node.workflow_step_id);
    s.append("    ");
    s.append(id.as_str());
    s.append("[\"");
    s.append(node.name.as_str());
    s.append("\"]\n    ");
    s.append(id.as_str());
    s.append(":::");
    s.append(style_class_of(&node.current_state));
    s.append("\n");
    assert(s@ =~= old(s)@ + node_line(*node));
}

fn append_edge_line(s: &mut String, edge: &DiagramEdge)
    ensures
        final(s)@ == old(s)@ + edge_line(*edge),
{
    let from = i64_to_decimal(edge.from_step_id);
    let to = i64_to_decimal(edge.to_step_id);
    s.append("    ");
    s.append(from.as_str());
    s.append(" --> ");
    s.append(to.as_str());
    s.append("\n");
    assert(s@ =~= old(s)@ + edge_line(*edge));
}

impl TaskDiagram {
    /// The diagram of a task from its steps and their dependency edges, in
    /// the order given: each step a node, each edge a dependency.
    pub fn assemble(task_id: i64, steps: Vec<DiagramStepRow>, edges: Vec<DiagramEdgeRow>, generated_at: String) -> (r: TaskDiagram)
        ensures
            r.task_id == task_id,
            r.nodes@.len() == steps@.len(),
            forall|i: int| 0 <= i < steps@.len() ==> #[trigger] node_fields(r.nodes@[i]) == node_of(steps@[i]),
            r.edges@.len() == edges@.len(),
            forall|k: int| 0 <= k < edges@.len() ==> {
                &&& (#[trigger] r.edges@[k]).from_step_id == edges@[k].from_step_id
                &&& r.edges@[k].to_step_id == edges@[k].to_step_id
                &&& r.edges@[k].edge_name@ == edges@[k].edge_name@
                &&& r.edges@[k].edge_type@ == "dependency"@
            },
            r.metadata@ == diagram_metadata(generated_at@),
            crate::json::json_well_formed(r.metadata@),
    {
        let mut nodes: Vec<DiagramNode> = Vec::new();
        let mut rest = steps;
        let ghost all = rest@;
        let ghost mut taken: int = 0;
        while rest.len() > 0
            invariant
                0 <= taken <= all.len(),
                rest@ == all.skip(taken),
                nodes@.len() == taken,
                forall|i: int| 0 <= i < taken ==> #[trigger] node_fields(nodes@[i]) == node_of(all[i]),
            decreases rest.len(),
        {
            let row = rest.remove(0);
            assert(row == all[taken]);
            let state = match row.current_state {
                Some(s) => s,
                None => String::from_str("pending"),
            };
            let metadata = JsonValue::empty_object();
            nodes.push(DiagramNode {
                workflow_step_id: row.workflow_step_id,
                named_step_id: row.named_step_id,
                name: row.step_name,
                current_state: state,
                metadata,
            });
            proof {
                assert(rest@ =~= all.skip(taken + 1));
                taken = taken + 1;
            }
        }
        let mut diagram_edges: Vec<DiagramEdge> = Vec::new();
        let mut rest_edges = edges;
        let ghost all_edges = rest_edges@;
        let ghost mut done: int = 0;
        while rest_edges.len() > 0
            invariant
                0 <= done <= all_edges.len(),
                rest_edges@ == all_edges.skip(done),
                diagram_edges@.len() == done,
                forall|k: int| 0 <= k < done ==> {
                    &&& (#[trigger] diagram_edges@[k]).from_step_id == all_edges[k].from_step_id
                    &&& diagram_edges@[k].to_step_id == all_edges[k].to_step_id
                    &&& diagram_edges@[k].edge_name@ == all_edges[k].edge_name@
                    &&& diagram_edges@[k].edge_type@ == "dependency"@
                },
            decreases rest_edges.len(),
        {
            let row = rest_edges.remove(0);
            assert(row == all_edges[done]);
            diagram_edges.push(DiagramEdge {
                from_step_id: row.from_step_id,
                to_step_id: row.to_step_id,
                edge_name: row.edge_name,
                edge_type: String::from_str("dependency"),
            });
            proof {
                assert(rest_edges@ =~= all_edges.skip(done + 1));
                done = done + 1;
            }
        }
        let members: Vec<(String, JsonValue)> = vec![
            (String::from_str("generated_at"), JsonValue::String(generated_at)),
            (String::from_str("version"), JsonValue::String(String::from_str("1.0"))),
        ];
        proof {
            crate::json::lemma_members_view(members@);
            assert(crate::json::members_view(members@) =~= seq![
                ("generated_at"@, JsonView::String(members@[0].1->String_0@)),
                ("version"@, JsonView::String("1.0"@)),
            ]);
            reveal_strlit("generated_at");
            reveal_strlit("version");
            let mv = crate::json::members_view(members@);
            assert(crate::json::text_lt("generated_at"@, "version"@));
            assert(crate::json::keys_sorted(mv));
            crate::json::lemma_object_well_formed(mv);
        }
        TaskDiagram { task_id, nodes, edges: diagram_edges, metadata: JsonValue::Object(members) }
    }

    /// Mermaid flowchart source of the diagram. Without a configuration the
    /// chart is laid out top-down and shows its dependency edges.
    pub fn to_mermaid(&self, config: Option<Flowchart>) -> (r: String)
        ensures
            r@ == match config {
                Some(c) => mermaid_text(self.nodes@, self.edges@, c.direction@, c.show_dependencies),
                None => mermaid_text(self.nodes@, self.edges@, "TD"@, true),
            },
    {
        let flowchart = match config {
            Some(c) => c,
            None => Flowchart::default(),
        };
        let mut mermaid = String::from_str("flowchart ");
        mermaid.append(flowchart.direction.as_str());
        mermaid.append("\n");
        let ghost head = mermaid@;
        let mut i: usize = 0;
        while i < self.nodes.len()
            invariant
                i <= self.nodes.len(),
                mermaid@ == head + node_lines(self.nodes@.take(i as int)),
            decreases self.nodes.len() - i,
        {
            append_node_line(&mut mermaid, &self.nodes[i]);
            proof {
                assert(self.nodes@.take(i + 1).drop_last() =~= self.nodes@.take(i as int));
                assert(mermaid@ =~= head + node_lines(self.nodes@.take(i + 1)));
            }
            i = i + 1;
        }
        assert(self.nodes@.take(self.nodes.len() as int) =~= self.nodes@);
        let ghost with_nodes = mermaid@;
        if flowchart.show_dependencies {
            let mut k: usize = 0;
            while k < self.edges.len()
                invariant
                    k <= self.edges.len(),
                    mermaid@ == with_nodes + edge_lines(self.edges@.take(k as int)),
                decreases self.edges.len() - k,
            {
                append_edge_line(&mut mermaid, &self.edges[k]);
                proof {
                    assert(self.edges@.take(k + 1).drop_last() =~= self.edges@.take(k as int));
                    assert(mermaid@ =~= with_nodes + edge_lines(self.edges@.take(k + 1)));
                }
                k = k + 1;
            }
            assert(self.edges@.take(self.edges.len() as int) =~= self.edges@);
        } else {
            assert(mermaid@ =~= with_nodes + Seq::<char>::empty());
        }
        mermaid.append("\n    classDef success fill:#d4edda,stroke:#155724,stroke-width:2px\n");
        mermaid.append("    classDef error fill:#f8d7da,stroke:#721c24,stroke-width:2px\n");
        mermaid.append("    classDef active fill:#d1ecf1,stroke:#0c5460,stroke-width:2px\n");
        mermaid.append("    classDef default fill:#e2e3e5,stroke:#383d41,stroke-width:1px\n");
        assert(mermaid@ =~= match config {
            Some(c) => mermaid_text(self.nodes@, self.edges@, c.direction@, c.show_dependencies),
            None => mermaid_text(self.nodes@, self.edges@, "TD"@, true),
        });
        mermaid
    }

    /// A standalone HTML page embedding the default Mermaid flowchart, under
    /// the given title or "Task <id> Workflow".
    pub fn to_html(&self, title: Option<&str>) -> (r: String)
        ensures
            r@ == html_text(
                match title {
                    Some(t) => t@,
                    None => default_title(self.task_id),
                },
                mermaid_text(self.nodes@, self.edges@, "TD"@, true),
            ),
    {
        let mermaid = self.to_mermaid(None);
        let id = i64_to_decimal(self.task_id);
        let default_title = String::from_str("Task ").concat(id.as_str()).concat(" Workflow");
        let page_title: &str = match title {
            Some(t) => t,
            None => default_title.as_str(),
        };
        let mut html = String::from_str("<!DOCTYPE html>\n<html>\n<head>\n    <title>");
        html.append(page_title);
        html.append("</title>\n    <script src=\"https://cdn.jsdelivr.net/npm/mermaid@10.6.1/dist/mermaid.min.js\"></script>\n    <script>mermaid.initialize({startOnLoad: true});</script>\n</head>\n<body>\n    <h1>");
        html.append(page_title);
        html.append("</h1>\n    <div class=\"mermaid\">\n");
        html.append(mermaid.as_str());
        html.append("\n    </div>\n</body>\n</html>");
        html
    }

    /// Whether some edge leads into step `id`.
    fn has_incoming_edge(&self, id: i64) -> (r: bool)
        ensures
            r == has_incoming(self.edges@, id),
    {
        let mut k: usize = 0;
        while k < self.edges.len()
            invariant
                k <= self.edges.len(),
                forall|j: int| 0 <= j < k ==> self.edges@[j].to_step_id != id,
            decreases self.edges.len() - k,
        {
            if self.edges[k].to_step_id == id {
                return true;
            }
            k = k + 1;
        }
        false
    }

    /// Vertex indices of each edge's endpoints.
    fn edge_index_table(&self, verts: &Vec<i64>) -> (r: (Vec<usize>, Vec<usize>))
        requires
            covers(self.nodes@, self.edges@, verts@),
        ensures
            edge_indices(self.edges@, verts@, r.0@, r.1@),
    {
        let ghost nodes = self.nodes@;
        let ghost edges = self.edges@;
        let mut ef: Vec<usize> = Vec::new();
        let mut et: Vec<usize> = Vec::new();
        let mut k: usize = 0;
        while k < self.edges.len()
            invariant
                k <= self.edges.len(),
                ef.len() == k,
                et.len() == k,
                covers(nodes, edges, verts@),
                nodes == self.nodes@,
                edges == self.edges@,
                forall|j: int| 0 <= j < k ==> (#[trigger] ef@[j]) < verts.len() && verts@[ef@[j] as int] == edges[j].from_step_id,
                forall|j: int| 0 <= j < k ==> (#[trigger] et@[j]) < verts.len() && verts@[et@[j] as int] == edges[j].to_step_id,
            decreases self.edges.len() - k,
        {
            assert(verts@.contains(edges[k as int].from_step_id));
            assert(verts@.contains(edges[k as int].to_step_id));
            let f = index_of(verts, self.edges[k].from_step_id);
            let t = index_of(verts, self.edges[k].to_step_id);
            ef.push(f.unwrap());
            et.push(t.unwrap());
            k = k + 1;
        }
        (ef, et)
    }

    /// Depth 0 for every root, no depth for any other vertex.
    fn root_depths(&self, verts: &Vec<i64>) -> (depth: Vec<i32>)
        requires
            covers(self.nodes@, self.edges@, verts@),
            verts@.no_duplicates(),
        ensures
            depths_sound(self.nodes@, self.edges@, verts@, depth@),
            depths_below(depth@, verts.len() as int),
            roots_recorded(self.nodes@, self.edges@, verts@, depth@),
            max_recorded(depth@, 0),
    {
        let ghost nodes = self.nodes@;
        let ghost edges = self.edges@;
        let nv = verts.len();
        let mut depth: Vec<i32> = Vec::new();
        let mut v: usize = 0;
        while v < nv
            invariant
                v <= nv,
                nv == verts.len(),
                depth.len() == v,
                forall|j: int| 0 <= j < v ==> depth@[j] == -1,
            decreases nv - v,
        {
            depth.push(-1);
            v = v + 1;
        }
        let mut i: usize = 0;
        while i < self.nodes.len()
            invariant
                i <= self.nodes.len(),
                nodes == self.nodes@,
                edges == self.edges@,
                covers(nodes, edges, verts@),
                verts@.no_duplicates(),
                depths_sound(nodes, edges, verts@, depth@),
                forall|w: int| 0 <= w < depth.len() ==> depth@[w] <= 0,
                forall|w: int|
                    0 <= w < depth.len() && !has_incoming(edges, verts@[w])
                        && (exists|j: int| 0 <= j < i && nodes[j].workflow_step_id == verts@[w])
                        ==> depth@[w] >= 0,
            decreases self.nodes.len() - i,
        {
            let id = self.nodes[i].workflow_step_id;
            if !self.has_incoming_edge(id) {
                assert(verts@.contains(nodes[i as int].workflow_step_id));
                let w = index_of(verts, id).unwrap();
                let ghost before = depth@;
                depth.set(w, 0);
                proof {
                    let p = seq![id];
                    assert(is_root(nodes, edges, id));
                    assert(is_root_path(nodes, edges, p));
                    assert forall|u: int| 0 <= u < depth.len() && depth@[u] >= 0 implies exists|r: Seq<i64>|
                        is_root_path(nodes, edges, r) && r.last() == verts@[u] && r.len() == depth@[u] + 1 by {
                        if u == w as int {
                            assert(is_root_path(nodes, edges, p) && p.last() == verts@[u] && p.len() == depth@[u] + 1);
                        } else {
                            assert(depth@[u] == before[u]);
                        }
                    }
                }
            }
            proof {
                assert forall|w: int|
                    0 <= w < depth.len() && !has_incoming(edges, verts@[w])
                        && (exists|j: int| 0 <= j < i + 1 && nodes[j].workflow_step_id == verts@[w])
                        implies depth@[w] >= 0 by {
                    let j = choose|j: int| 0 <= j < i + 1 && nodes[j].workflow_step_id == verts@[w];
                    if j == i as int {
                        assert(verts@.contains(id));
                    }
                }
            }
            i = i + 1;
        }
        depth
    }

    /// One pass over all edges, raising each edge's target to its source's
    /// depth plus one where that is larger. Returns whether any depth grew,
    /// or `None` when a depth would reach the number of vertices, which only
    /// a root path that repeats a step can produce.
    fn relax_round(
        &self,
        verts: &Vec<i64>,
        ef: &Vec<usize>,
        et: &Vec<usize>,
        depth: &mut Vec<i32>,
        max_depth: &mut i32,
    ) -> (changed: Option<bool>)
        requires
            self.nodes.len() + 2 * self.edges.len() < i32::MAX,
            verts.len() <= self.nodes.len() + 2 * self.edges.len(),
            covers(self.nodes@, self.edges@, verts@),
            edge_indices(self.edges@, verts@, ef@, et@),
            depths_sound(self.nodes@, self.edges@, verts@, old(depth)@),
            depths_below(old(depth)@, verts.len() as int),
            roots_recorded(self.nodes@, self.edges@, verts@, old(depth)@),
            max_recorded(old(depth)@, *old(max_depth)),
        ensures
            changed is None ==> !root_paths_are_simple(self.nodes@, self.edges@),
            changed is Some ==> {
                &&& depths_sound(self.nodes@, self.edges@, verts@, final(depth)@)
                &&& depths_below(final(depth)@, verts.len() as int)
                &&& roots_recorded(self.nodes@, self.edges@, verts@, final(depth)@)
                &&& max_recorded(final(depth)@, *final(max_depth))
            },
            changed == Some(true) ==> potential(final(depth)@, verts.len() as int) < potential(old(depth)@, verts.len() as int),
            changed == Some(false) ==> final(depth)@ == old(depth)@,
            changed == Some(false) ==> forall|j: int| 0 <= j < self.edges.len() ==> relaxed(final(depth)@, ef@, et@, j),
    {
        let ghost nodes = self.nodes@;
        let ghost edges = self.edges@;
        let ghost start = depth@;
        let ghost nv = verts.len() as int;
        let mut changed = false;
        let mut k: usize = 0;
        while k < self.edges.len()
            invariant
                nodes == self.nodes@,
                edges == self.edges@,
                nv == verts.len(),
                nv <= nodes.len() + 2 * edges.len(),
                nodes.len() + 2 * edges.len() < i32::MAX,
                k <= edges.len(),
                covers(nodes, edges, verts@),
                edge_indices(edges, verts@, ef@, et@),
                depths_sound(nodes, edges, verts@, depth@),
                depths_below(depth@, nv),
                start.len() == depth.len(),
                forall|w: int| 0 <= w < depth.len() ==> depth@[w] >= start[w],
                roots_recorded(nodes, edges, verts@, depth@),
                max_recorded(depth@, *max_depth),
                potential(depth@, nv) <= potential(start, nv),
                changed ==> potential(depth@, nv) < potential(start, nv),
                !changed ==> depth@ == start,
                !changed ==> forall|j: int| 0 <= j < k ==> relaxed(depth@, ef@, et@, j),
            decreases edges.len() - k,
        {
            let f = ef[k];
            let t = et[k];
            let from_depth = depth[f];
            if from_depth >= 0 {
                let new_depth = from_depth + 1;
                if new_depth as usize >= verts.len() {
                    proof {
                        lemma_long_root_path(nodes, edges, verts@, depth@, ef@, et@, k as int);
                    }
                    return None;
                }
                let current_depth = depth[t];
                if new_depth > current_depth {
                    proof {
                        lemma_relax_sound(nodes, edges, verts@, depth@, ef@, et@, k as int);
                        lemma_potential_update(depth@, nv, t as int, new_depth);
                        lemma_relax_max(depth@, *max_depth, t as int, new_depth);
                    }
                    depth.set(t, new_depth);
                    if new_depth > *max_depth {
                        *max_depth = new_depth;
                    }
                    changed = true;
                }
            }
            k = k + 1;
        }
        Some(changed)
    }

    /// Length of the longest dependency chain from a root step (a node with
    /// no incoming edge), found by relaxing edges until no depth grows; `None`
    /// when a chain from a root runs into a cycle, where relaxing would never end.
    pub fn checked_max_depth(&self) -> (r: Option<i32>)
        requires
            self.nodes.len() + 2 * self.edges.len() < i32::MAX,
        ensures
            r matches Some(d) ==> is_max_root_depth(self.nodes@, self.edges@, d as int),
            r is None <==> !root_paths_are_simple(self.nodes@, self.edges@),
    {
        let ghost nodes = self.nodes@;
        let ghost edges = self.edges@;
        let verts = vertex_table(&self.nodes, &self.edges);
        let (ef, et) = self.edge_index_table(&verts);
        let mut depth = self.root_depths(&verts);
        let mut max_depth: i32 = 0;
        let mut changed = true;
        proof {
            lemma_potential_nonneg(depth@, verts.len() as int);
        }
        while changed
            invariant
                nodes == self.nodes@,
                edges == self.edges@,
                verts.len() <= nodes.len() + 2 * edges.len(),
                nodes.len() + 2 * edges.len() < i32::MAX,
                covers(nodes, edges, verts@),
                verts@.no_duplicates(),
                edge_indices(edges, verts@, ef@, et@),
                depths_sound(nodes, edges, verts@, depth@),
                depths_below(depth@, verts.len() as int),
                roots_recorded(nodes, edges, verts@, depth@),
                max_recorded(depth@, max_depth),
                potential(depth@, verts.len() as int) >= 0,
                !changed ==> forall|j: int| 0 <= j < edges.len() ==> relaxed(depth@, ef@, et@, j),
            decreases potential(depth@, verts.len() as int) + (if changed { 1int } else { 0int }),
        {
            match self.relax_round(&verts, &ef, &et, &mut depth, &mut max_depth) {
                Some(c) => {
                    changed = c;
                },
                None => {
                    return None;
                },
            }
            proof {
                lemma_potential_nonneg(depth@, verts.len() as int);
            }
        }
        proof {
            lemma_fixpoint_is_longest(nodes, edges, verts@, depth@, ef@, et@, max_depth);
            if !root_paths_are_simple(nodes, edges) {
                lemma_cycle_unbounded(nodes, edges, max_depth as int);
            }
        }
        Some(max_depth)
    }

    /// Length of the longest dependency chain from a root step (a node with
    /// no incoming edge), for a graph in which no chain from a root repeats a step.
    pub fn calculate_max_depth(&self) -> (d: i32)
        requires
            root_paths_are_simple(self.nodes@, self.edges@),
            self.nodes.len() + 2 * self.edges.len() < i32::MAX,
        ensures
            is_max_root_depth(self.nodes@, self.edges@, d as int),
    {
        match self.checked_max_depth() {
            Some(d) => d,
            None => {
                proof {
                    assert(false);
                }
                0
            },
        }
    }

    /// Number of nodes whose current state is "complete".
    pub fn completed_node_count(&self) -> (r: usize)
        ensures
            r == completed_count(self.nodes@),
    {
        let mut count: usize = 0;
        let mut i: usize = 0;
        while i < self.nodes.len()
            invariant
                i <= self.nodes.len(),
                count == completed_count(self.nodes@.take(i as int)),
                count <= i,
            decreases self.nodes.len() - i,
        {
            assert(self.nodes@.take(i + 1).drop_last() =~= self.nodes@.take(i as int));
            if str_eq(self.nodes[i].current_state.as_str(), "complete") {
                count = count + 1;
            }
            i = i + 1;
        }
        assert(self.nodes@.take(self.nodes.len() as int) =~= self.nodes@);
        count
    }
}

/// A node's line labels the node with the decimal text of its workflow step
/// id, which is the id its edges use: an edge from that step starts with the
/// same text as the node's line, and an edge to that step ends its arrow
/// with the very text that labels the node.
pub proof fn lemma_node_label_is_edge_id(n: DiagramNode, e: DiagramEdge)
    ensures
        node_line(n).take(int_decimal(n.workflow_step_id as int).len() as int + 6)
            == "    "@ + int_decimal(n.workflow_step_id as int) + "[\""@,
        e.from_step_id == n.workflow_step_id ==>
            edge_line(e).take(int_decimal(n.workflow_step_id as int).len() as int + 4)
                == node_line(n).take(int_decimal(n.workflow_step_id as int).len() as int + 4),
        e.to_step_id == n.workflow_step_id ==> ({
            let a = int_decimal(e.from_step_id as int).len() as int + 9;
            let d = int_decimal(n.workflow_step_id as int).len() as int;
            edge_line(e).subrange(a, a + d) == node_line(n).subrange(4, 4 + d)
        }),
{
    reveal_strlit("    ");
    reveal_strlit("[\"");
    reveal_strlit(" --> ");
    let id = int_decimal(n.workflow_step_id as int);
    let label = "    "@ + id + "[\""@;
    assert(node_line(n).take(id.len() as int + 6) =~= label);
    if e.from_step_id == n.workflow_step_id {
        assert(edge_line(e).take(id.len() as int + 4) =~= "    "@ + id);
        assert(node_line(n).take(id.len() as int + 4) =~= "    "@ + id);
    }
    if e.to_step_id == n.workflow_step_id {
        let a = int_decimal(e.from_step_id as int).len() as int + 9;
        assert(edge_line(e).subrange(a, a + id.len() as int) =~= id);
        assert(node_line(n).subrange(4, 4 + id.len() as int) =~= id);
    }
}

/// Each node's line appears, whole, in the node lines of the diagram.
pub proof fn lemma_node_lines_contain(nodes: Seq<DiagramNode>, i: int)
    requires
        0 <= i < nodes.len(),
    ensures
        exists|k: int| 0 <= k && k + node_line(nodes[i]).len() <= node_lines(nodes).len()
            && #[trigger] node_lines(nodes).subrange(k, k + node_line(nodes[i]).len()) == node_line(nodes[i]),
    decreases nodes.len(),
{
    let rest = nodes.drop_last();
    let whole = node_lines(nodes);
    assert(whole == node_lines(rest) + node_line(nodes.last()));
    if i == nodes.len() - 1 {
        let k = node_lines(rest).len() as int;
        assert(whole.subrange(k, k + node_line(nodes[i]).len()) =~= node_line(nodes[i]));
    } else {
        assert(rest[i] == nodes[i]);
        lemma_node_lines_contain(rest, i);
        let k = choose|k: int| 0 <= k && k + node_line(rest[i]).len() <= node_lines(rest).len()
            && #[trigger] node_lines(rest).subrange(k, k + node_line(rest[i]).len()) == node_line(rest[i]);
        assert(whole.subrange(k, k + node_line(nodes[i]).len()) =~= node_lines(rest).subrange(k, k + node_line(rest[i]).len()));
    }
}

/// Each node of the diagram gets its line in the Mermaid text: the line
/// labelled by its workflow step id.
pub proof fn lemma_mermaid_shows_every_node(
    nodes: Seq<DiagramNode>,
    edges: Seq<DiagramEdge>,
    direction: Seq<char>,
    show_dependencies: bool,
    i: int,
)
    requires
        0 <= i < nodes.len(),
    ensures
        exists|k: int| 0 <= k && k + node_line(nodes[i]).len() <= mermaid_text(nodes, edges, direction, show_dependencies).len()
            && #[trigger] mermaid_text(nodes, edges, direction, show_dependencies).subrange(k, k + node_line(nodes[i]).len())
                == node_line(nodes[i]),
{
    lemma_node_lines_contain(nodes, i);
    let k = choose|k: int| 0 <= k && k + node_line(nodes[i]).len() <= node_lines(nodes).len()
        && #[trigger] node_lines(nodes).subrange(k, k + node_line(nodes[i]).len()) == node_line(nodes[i]);
    let head = "flowchart "@ + direction + "\n"@;
    let tail = (if show_dependencies { edge_lines(edges) } else { Seq::empty() }) + class_defs();
    let text = mermaid_text(nodes, edges, direction, show_dependencies);
    assert(text =~= head + node_lines(nodes) + tail);
    let off = head.len() + k;
    assert(text.subrange(off, off + node_line(nodes[i]).len()) =~= node_lines(nodes).subrange(k, k + node_line(nodes[i]).len()));
}

} // verus!
