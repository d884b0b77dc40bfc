use automaton::{Edge, Graph, Node};

#[test]
fn move_states_test() {
    let states = Node::spawn(5);
    let edges = vec![
        Edge { head: states[0], tail: states[1], epsilon: false, label: "a".to_string() },
        Edge { head: states[1], tail: states[2], epsilon: false, label: "a".to_string() },
        Edge { head: states[1], tail: states[4], epsilon: false, label: "a".to_string() },
        Edge { head: states[2], tail: states[3], epsilon: false, label: "b".to_string() },
        Edge { head: states[3], tail: states[4], epsilon: false, label: "a".to_string() },
    ];
    let g = Graph::make(&states, &edges);
    let ret = g.move_states(&vec![states[1]], "a");
    assert_eq!(ret.len(), 2);
    assert!(ret.contains(&states[2]));
    assert!(ret.contains(&states[4]));
}

#[test]
fn epsilon_nearest_closure_test() {
    let states = Node::spawn(2);
    let edges = vec![Edge {
        head: states[0],
        tail: states[1],
        epsilon: true,
        label: String::from("epsilon"),
    }];
    let g = Graph::make(&states, &edges);
    let iter = g.epsilon_nearest_closure(Node { v: 0 });
    assert_eq!(iter[0], Node { v: 1 });
}

#[test]
fn epsilon_nearest_closure_nothing_test() {
    let states = Node::spawn(2);
    let edges = vec![Edge {
        head: states[0],
        tail: states[1],
        epsilon: false,
        label: String::from("epsilon"),
    }];
    let g = Graph::make(&states, &edges);
    let iter = g.epsilon_nearest_closure(Node { v: 0 });
    assert!(iter.is_empty());
}

#[test]
fn graph_make_test() {
    let states = Node::spawn(1);
    let edges =
        vec![Edge { head: states[0], tail: states[0], epsilon: false, label: String::from("a") }];
    assert!(Graph::make(&states, &edges).edges.len() == 1);
}

#[test]
fn spawn_nodes_test() {
    let n = 2;
    Node::spawn(n).iter().for_each(|node| assert_eq!(*node, Node { v: node.v }));
}

#[test]
fn node_equality() {
    // eq
    assert_eq!(Node { v: 0 }, Node { v: 0 });
    // not eq
    assert_ne!(Node { v: 0 }, Node { v: 1 });
}

#[test]
fn edge_is_loop() {
    let n = Node { v: 0 };
    let edge = Edge { head: n, tail: n, epsilon: false, label: String::from("loop") };
    assert!(edge.is_loop());
}

#[test]
fn edge_is_not_loop() {
    let n = Node { v: 0 };
    let n2 = Node { v: 1 };
    let edge = Edge { head: n, tail: n2, epsilon: false, label: String::from("no loop") };
    assert!(!edge.is_loop());
}

#[test]
fn spawn_loop_test() {
    let node = Node { v: 0 };
    let edge = Edge::spawn_loop(node, "hoge");

    assert!(edge.head == Node { v: 0 } && edge.tail == Node { v: 0 });
}

#[test]
fn edge_spawn_test() {
    let n1 = Node { v: 0 };
    let n2 = Node { v: 1 };
    let edge = Edge::spawn(n1, n2, "fuga");
    assert!(edge.head == n1 && edge.tail == n2);
}

#[test]
fn edge_spawn_sort_test() {
    let n1 = Node { v: 1 };
    let n2 = Node { v: 0 };
    let edge = Edge::spawn(n1, n2, "fuga");
    assert!(edge.head == n2 && edge.tail == n1);
}
