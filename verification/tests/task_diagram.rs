use tasker_core::json::JsonValue;
use tasker_core::models::task_diagram::{DiagramEdge, DiagramNode, Flowchart, TaskDiagram};

fn node(id: i64, name: &str, state: &str) -> DiagramNode {
    DiagramNode {
        workflow_step_id: id,
        named_step_id: id as i32,
        name: name.to_string(),
        current_state: state.to_string(),
        metadata: JsonValue::Object(vec![]),
    }
}

fn edge(from: i64, to: i64) -> DiagramEdge {
    DiagramEdge {
        from_step_id: from,
        to_step_id: to,
        edge_name: "depends_on".to_string(),
        edge_type: "dependency".to_string(),
    }
}

fn diagram(nodes: Vec<DiagramNode>, edges: Vec<DiagramEdge>) -> TaskDiagram {
    TaskDiagram { task_id: 1, nodes, edges, metadata: JsonValue::Object(vec![]) }
}

#[test]
fn test_diagram_to_mermaid() {
    let diagram = TaskDiagram {
        task_id: 1,
        nodes: vec![
            DiagramNode {
                workflow_step_id: 1,
                named_step_id: 1,
                name: "Step 1".to_string(),
                current_state: "complete".to_string(),
                metadata: JsonValue::Object(vec![]),
            },
            DiagramNode {
                workflow_step_id: 2,
                named_step_id: 2,
                name: "Step 2".to_string(),
                current_state: "pending".to_string(),
                metadata: JsonValue::Object(vec![]),
            },
        ],
        edges: vec![DiagramEdge {
            from_step_id: 1,
            to_step_id: 2,
            edge_name: "depends_on".to_string(),
            edge_type: "dependency".to_string(),
        }],
        metadata: JsonValue::Object(vec![]),
    };

    let mermaid = diagram.to_mermaid(None);
    assert!(mermaid.contains("flowchart TD"));
    assert!(mermaid.contains("Step 1"));
    assert!(mermaid.contains("Step 2"));
    assert!(mermaid.contains("1 --> 2"));
}

const CLASS_DEFS: &str = "\n    classDef success fill:#d4edda,stroke:#155724,stroke-width:2px\n    classDef error fill:#f8d7da,stroke:#721c24,stroke-width:2px\n    classDef active fill:#d1ecf1,stroke:#0c5460,stroke-width:2px\n    classDef default fill:#e2e3e5,stroke:#383d41,stroke-width:1px\n";

#[test]
fn mermaid_text_is_exact() {
    let d = diagram(
        vec![node(1, "Fetch", "complete"), node(2, "Parse", "error"), node(3, "Load", "in_progress"), node(4, "Ship", "pending")],
        vec![edge(1, 2), edge(2, 3)],
    );
    let expected = format!(
        "flowchart TD\n    1[\"Fetch\"]\n    1:::success\n    2[\"Parse\"]\n    2:::error\n    3[\"Load\"]\n    3:::active\n    4[\"Ship\"]\n    4:::default\n    1 --> 2\n    2 --> 3\n{CLASS_DEFS}"
    );
    assert_eq!(d.to_mermaid(None), expected);
    assert_eq!(d.to_mermaid(Some(Flowchart::default())), expected);

    let sideways = Flowchart {
        direction: "LR".to_string(),
        theme: "dark".to_string(),
        show_states: true,
        show_dependencies: false,
    };
    let expected_lr = format!(
        "flowchart LR\n    1[\"Fetch\"]\n    1:::success\n    2[\"Parse\"]\n    2:::error\n    3[\"Load\"]\n    3:::active\n    4[\"Ship\"]\n    4:::default\n{CLASS_DEFS}"
    );
    assert_eq!(d.to_mermaid(Some(sideways)), expected_lr);
}

#[test]
fn mermaid_of_an_empty_diagram() {
    let d = diagram(vec![], vec![]);
    assert_eq!(d.to_mermaid(None), format!("flowchart TD\n{CLASS_DEFS}"));
}

#[test]
fn html_page_embeds_the_flowchart() {
    let mut d = diagram(vec![node(-5, "Only", "complete")], vec![]);
    d.task_id = 5;
    let mermaid = d.to_mermaid(None);
    let page = d.to_html(None);
    assert!(page.starts_with("<!DOCTYPE html>\n<html>\n<head>\n    <title>Task 5 Workflow</title>"));
    assert!(page.contains("<h1>Task 5 Workflow</h1>"));
    assert!(page.contains(&format!("<div class=\"mermaid\">\n{mermaid}\n    </div>")));
    assert!(page.ends_with("</body>\n</html>"));
    assert!(mermaid.contains("    -5[\"Only\"]\n    -5:::success\n"));

    let titled = d.to_html(Some("Orders"));
    assert!(titled.contains("<title>Orders</title>"));
    assert!(titled.contains("<h1>Orders</h1>"));
}

#[test]
fn max_depth_of_chains_and_diamonds() {
    let chain = diagram(vec![node(1, "a", "pending"), node(2, "b", "pending"), node(3, "c", "pending")], vec![edge(1, 2), edge(2, 3)]);
    assert_eq!(chain.calculate_max_depth(), 2);
    assert_eq!(chain.checked_max_depth(), Some(2));

    let diamond = diagram(
        vec![node(1, "a", "pending"), node(2, "b", "pending"), node(3, "c", "pending"), node(4, "d", "pending")],
        vec![edge(1, 2), edge(1, 3), edge(2, 4), edge(3, 4), edge(1, 4)],
    );
    assert_eq!(diamond.calculate_max_depth(), 2);

    // The longest chain counts, whatever order the edges come in.
    let reversed = diagram(
        vec![node(1, "a", "pending"), node(2, "b", "pending"), node(3, "c", "pending"), node(4, "d", "pending")],
        vec![edge(3, 4), edge(2, 3), edge(1, 2)],
    );
    assert_eq!(reversed.calculate_max_depth(), 3);

    let single = diagram(vec![node(9, "x", "complete")], vec![]);
    assert_eq!(single.calculate_max_depth(), 0);
    assert_eq!(diagram(vec![], vec![]).calculate_max_depth(), 0);

    // Two separate components: the deeper one decides.
    let two = diagram(
        vec![node(1, "a", "pending"), node(2, "b", "pending"), node(10, "c", "pending"), node(11, "d", "pending"), node(12, "e", "pending")],
        vec![edge(1, 2), edge(10, 11), edge(11, 12)],
    );
    assert_eq!(two.calculate_max_depth(), 2);
}

#[test]
fn max_depth_detects_cycles_reachable_from_a_root() {
    let looping = diagram(
        vec![node(1, "a", "pending"), node(2, "b", "pending"), node(3, "c", "pending")],
        vec![edge(3, 1), edge(1, 2), edge(2, 1)],
    );
    assert_eq!(looping.checked_max_depth(), None);

    let self_loop = diagram(vec![node(1, "a", "pending"), node(2, "b", "pending")], vec![edge(1, 2), edge(2, 2)]);
    assert_eq!(self_loop.checked_max_depth(), None);

    // A cycle that no root reaches leaves every root path simple.
    let unreachable = diagram(vec![node(1, "a", "pending"), node(2, "b", "pending")], vec![edge(1, 2), edge(2, 1)]);
    assert_eq!(unreachable.checked_max_depth(), Some(0));
}

#[test]
fn completed_nodes_are_counted() {
    let d = diagram(
        vec![node(1, "a", "complete"), node(2, "b", "pending"), node(3, "c", "complete"), node(4, "d", "Complete")],
        vec![],
    );
    assert_eq!(d.completed_node_count(), 2);
    assert_eq!(diagram(vec![], vec![]).completed_node_count(), 0);
}
