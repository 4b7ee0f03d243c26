use graph::Graph;

#[test]
fn empty_graph_has_nothing() {
    let graph: Graph<&str, u32, u32> = Graph::new();
    assert!(graph.nodes().is_empty());
    assert!(graph.nodes_data().is_empty());
    assert_eq!(graph.node_data("A"), None);
    assert_eq!(graph.edge_data("A", "B"), None);
}

#[test]
fn second_add_node_wins() {
    let mut graph: Graph<u64, u32, u32> = Graph::new();
    graph.add_node(4, 100);
    graph.add_node(4, 200);
    assert_eq!(graph.node_data(4), Some(&200));
    assert_eq!(graph.nodes(), vec![4]);
}

#[test]
fn never_added_is_absent() {
    let mut graph: Graph<u64, u32, u32> = Graph::new();
    graph.add_node(1, 1);
    graph.add_edge(2, 3, 9);
    assert_eq!(graph.node_data(2), None);
    assert_eq!(graph.node_data(3), None);
    assert_eq!(graph.node_data(5), None);
}

#[test]
fn edge_is_mirrored() {
    let mut graph: Graph<u64, u32, u32> = Graph::new();
    graph.add_edge(1, 2, 7);
    assert_eq!(graph.edge_data(1, 2), Some(&7));
    assert_eq!(graph.edge_data(2, 1), Some(&7));
    assert_eq!(graph.edge_data(1, 3), None);
}

#[test]
fn repeated_edge_overwrites() {
    let mut graph: Graph<u64, u32, u32> = Graph::new();
    graph.add_edge(1, 2, 7);
    graph.add_edge(1, 2, 8);
    assert_eq!(graph.edge_data(1, 2), Some(&8));
    assert_eq!(graph.edge_data(2, 1), Some(&8));
    graph.add_edge(2, 1, 9);
    assert_eq!(graph.edge_data(1, 2), Some(&9));
    assert_eq!(graph.edge_data(2, 1), Some(&9));
}

#[test]
fn self_loop_has_one_entry() {
    let mut graph: Graph<u64, u32, u32> = Graph::new();
    graph.add_node(1, 0);
    graph.add_edge(1, 1, 6);
    assert_eq!(graph.edge_data(1, 1), Some(&6));
    assert_eq!(graph.nodes(), vec![1]);
}

#[test]
fn two_nodes_and_an_edge() {
    let mut graph: Graph<&str, u32, u32> = Graph::new();
    graph.add_node("A", 1);
    graph.add_node("B", 2);
    graph.add_edge("A", "B", 10);
    assert_eq!(graph.node_data("A"), Some(&1));
    assert_eq!(graph.node_data("B"), Some(&2));
    assert_eq!(graph.edge_data("A", "B"), Some(&10));
    assert_eq!(graph.edge_data("B", "A"), Some(&10));
}

#[test]
fn relabel_and_enumerate() {
    let mut graph: Graph<&str, u32, u32> = Graph::new();
    graph.add_node("A", 1);
    graph.add_node("A", 2);
    graph.add_node("C", 3);
    assert_eq!(graph.node_data("A"), Some(&2));
    assert_eq!(graph.node_data("C"), Some(&3));
    let mut nodes = graph.nodes();
    nodes.sort();
    assert_eq!(nodes, vec!["A", "C"]);
    let mut pairs = graph.nodes_data();
    pairs.sort();
    assert_eq!(pairs, vec![(&"A", &2), (&"C", &3)]);
}

#[test]
fn edge_without_nodes_leaves_them_absent() {
    let mut graph: Graph<&str, u32, u32> = Graph::new();
    graph.add_edge("X", "Y", 5);
    assert_eq!(graph.node_data("X"), None);
    assert_eq!(graph.node_data("Y"), None);
    assert_eq!(graph.edge_data("X", "Y"), Some(&5));
    assert_eq!(graph.edge_data("Y", "X"), Some(&5));
    assert!(graph.nodes().is_empty());
}

#[test]
fn relabel_keeps_edges() {
    let mut graph: Graph<&str, u32, u32> = Graph::new();
    graph.add_node("A", 1);
    graph.add_edge("A", "B", 4);
    graph.add_node("A", 2);
    graph.add_node("B", 3);
    assert_eq!(graph.edge_data("A", "B"), Some(&4));
    assert_eq!(graph.edge_data("B", "A"), Some(&4));
    assert_eq!(graph.node_data("B"), Some(&3));
}
