use deltav_calc::MenuTree::{EndNode, MiddleNode};
use deltav_calc::{DeltavMap, DeserializeError, MenuTree, QueryError, STOCK_EDGES, STOCK_VERTICES};

fn get_test_tree() -> MenuTree {
    MiddleNode {
        name: "Category1".to_owned(),
        children: vec![
            MiddleNode {
                name: "Category2".to_owned(),
                children: vec![
                    EndNode {
                        name: String::from("Node1"),
                        index: 0,
                    },
                    EndNode {
                        name: String::from("Node2"),
                        index: 1,
                    },
                ],
            },
            EndNode {
                name: String::from("Node3"),
                index: 2,
            },
            EndNode {
                name: String::from("Node4"),
                index: 3,
            },
        ],
    }
}

fn names(list: &[&str]) -> Vec<String> {
    list.iter().map(|s| s.to_string()).collect()
}

fn get_test_map() -> DeltavMap {
    DeltavMap::from_description(
        get_test_tree(),
        names(&["Node1", "Node2", "Node3", "Node4"]),
        vec![(0, 1, 900), (1, 2, 80), (2, 3, 50)],
    )
    .unwrap()
}

fn get_disconnected_map() -> DeltavMap {
    let tree = MiddleNode {
        name: "Category1".to_owned(),
        children: vec![
            get_test_tree(),
            EndNode {
                name: String::from("Node5"),
                index: 4,
            },
        ],
    };
    DeltavMap::from_description(
        tree,
        names(&["Node1", "Node2", "Node3", "Node4", "Node5"]),
        vec![(0, 1, 900), (1, 2, 80), (2, 3, 50)],
    )
    .unwrap()
}

#[test]
fn test_stock() {
    let _ = DeltavMap::new_stock();
}

#[test]
fn calculate_cost() {
    let test_map = get_test_map();
    let cost = test_map
        .calculate_delta_v("Node1", "Node4")
        .unwrap()
        .unwrap();

    assert_eq!(cost, 1030);
}

#[test]
fn cost_to_itself_is_zero() {
    let test_map = get_test_map();
    for name in ["Node1", "Node2", "Node3", "Node4"] {
        assert_eq!(test_map.calculate_delta_v(name, name).unwrap(), Some(0));
    }
}

#[test]
fn cost_is_symmetric() {
    let test_map = get_test_map();
    let all = ["Node1", "Node2", "Node3", "Node4"];
    for a in all {
        for b in all {
            assert_eq!(
                test_map.calculate_delta_v(a, b).unwrap(),
                test_map.calculate_delta_v(b, a).unwrap()
            );
        }
    }
    assert_eq!(test_map.calculate_delta_v("Node4", "Node2").unwrap(), Some(130));
}

#[test]
fn cost_takes_the_cheaper_of_parallel_routes() {
    let map = DeltavMap::from_description(
        get_test_tree(),
        names(&["Node1", "Node2", "Node3", "Node4"]),
        vec![(0, 1, 900), (1, 2, 80), (2, 3, 50), (0, 3, 1000), (3, 0, 2000)],
    )
    .unwrap();
    assert_eq!(map.calculate_delta_v("Node1", "Node4").unwrap(), Some(1000));
    assert_eq!(map.calculate_delta_v("Node2", "Node4").unwrap(), Some(130));
    assert_eq!(map.calculate_delta_v("Node1", "Node3").unwrap(), Some(980));
}

#[test]
fn disconnected_location_has_no_cost() {
    let map = get_disconnected_map();
    assert_eq!(map.calculate_delta_v("Node1", "Node5").unwrap(), None);
    assert_eq!(map.calculate_delta_v("Node5", "Node1").unwrap(), None);
    assert_eq!(map.calculate_delta_v("Node5", "Node5").unwrap(), Some(0));
    assert_eq!(map.calculate_delta_v("Node1", "Node4").unwrap(), Some(1030));
}

#[test]
fn unknown_start_is_reported() {
    let test_map = get_test_map();
    match test_map.calculate_delta_v("Nonexistent", "Node1") {
        Err(QueryError::NoSuchNode(e)) => assert_eq!(e.cause_name(), "Nonexistent"),
        other => panic!("unexpected result {:?}", other),
    }
}

#[test]
fn unknown_end_is_reported() {
    let test_map = get_test_map();
    match test_map.calculate_delta_v("Node1", "Nowhere") {
        Err(QueryError::NoSuchNode(e)) => assert_eq!(e.cause_name(), "Nowhere"),
        other => panic!("unexpected result {:?}", other),
    }
    match test_map.calculate_delta_v("Elsewhere", "Nowhere") {
        Err(QueryError::NoSuchNode(e)) => assert_eq!(e.cause_name(), "Elsewhere"),
        other => panic!("unexpected result {:?}", other),
    }
}

#[test]
fn category_is_not_a_location() {
    let test_map = get_test_map();
    match test_map.calculate_delta_v("Category2", "Node1") {
        Err(QueryError::NotALocation(name)) => assert_eq!(name, "Category2"),
        other => panic!("unexpected result {:?}", other),
    }
    match test_map.calculate_delta_v("Node1", "Category1") {
        Err(QueryError::NotALocation(name)) => assert_eq!(name, "Category1"),
        other => panic!("unexpected result {:?}", other),
    }
}

#[test]
fn built_graph_holds_the_description() {
    let map = get_test_map();
    let graph = map.get_graph();
    assert_eq!(graph.node_count(), 4);
    assert_eq!(graph.edge_count(), 3);
    let weights: Vec<String> = graph.node_weights().cloned().collect();
    assert_eq!(weights, names(&["Node1", "Node2", "Node3", "Node4"]));
    let edges: Vec<(usize, usize, i32)> = graph
        .raw_edges()
        .iter()
        .map(|e| (e.source().index(), e.target().index(), e.weight))
        .collect();
    assert_eq!(edges, vec![(0, 1, 900), (1, 2, 80), (2, 3, 50)]);
    assert_eq!(map.menu_tree().name(), "Category1");
    assert_eq!(map.get_menu_tree().search("Node3").unwrap().get_index(), 2);
}

#[test]
fn description_round_trip() {
    let map = get_disconnected_map();
    let graph = map.get_graph();
    let nodes: Vec<String> = graph.node_weights().cloned().collect();
    let edges: Vec<(usize, usize, i32)> = graph
        .raw_edges()
        .iter()
        .map(|e| (e.source().index(), e.target().index(), e.weight))
        .collect();
    let tree = format!("{:?}", map.menu_tree());
    let rebuilt = DeltavMap::from_description(
        copy_tree(map.menu_tree()),
        nodes.clone(),
        edges.clone(),
    )
    .unwrap();
    assert_eq!(format!("{:?}", rebuilt.menu_tree()), tree);
    let again: Vec<String> = rebuilt.get_graph().node_weights().cloned().collect();
    assert_eq!(again, nodes);
    let again_edges: Vec<(usize, usize, i32)> = rebuilt
        .get_graph()
        .raw_edges()
        .iter()
        .map(|e| (e.source().index(), e.target().index(), e.weight))
        .collect();
    assert_eq!(again_edges, edges);
}

fn copy_tree(tree: &MenuTree) -> MenuTree {
    match tree {
        MiddleNode { name, children } => MiddleNode {
            name: name.clone(),
            children: children.iter().map(copy_tree).collect(),
        },
        EndNode { name, index } => EndNode {
            name: name.clone(),
            index: *index,
        },
    }
}

#[test]
fn dangling_handle_is_refused() {
    let r = DeltavMap::from_description(
        get_test_tree(),
        names(&["Node1", "Node2", "Node3"]),
        vec![(0, 1, 900), (1, 2, 80)],
    );
    assert_eq!(r.err(), Some(DeserializeError::DanglingHandle));
}

#[test]
fn dangling_edge_is_refused() {
    let r = DeltavMap::from_description(
        get_test_tree(),
        names(&["Node1", "Node2", "Node3", "Node4"]),
        vec![(0, 1, 900), (1, 4, 80)],
    );
    assert_eq!(r.err(), Some(DeserializeError::DanglingEdge));
}

#[test]
fn negative_weight_is_refused() {
    let r = DeltavMap::from_description(
        get_test_tree(),
        names(&["Node1", "Node2", "Node3", "Node4"]),
        vec![(0, 1, 900), (1, 2, -80)],
    );
    assert_eq!(r.err(), Some(DeserializeError::NegativeWeight));
}

#[test]
fn oversized_weights_are_refused() {
    let r = DeltavMap::from_description(
        get_test_tree(),
        names(&["Node1", "Node2", "Node3", "Node4"]),
        vec![(0, 1, 600_000_000), (1, 2, 600_000_000)],
    );
    assert_eq!(r.err(), Some(DeserializeError::WeightsTooLarge));
    let r = DeltavMap::from_description(
        get_test_tree(),
        names(&["Node1", "Node2", "Node3", "Node4"]),
        vec![(0, 1, 500_000_000), (1, 2, 500_000_000), (2, 3, 73_741_823)],
    );
    assert!(r.is_ok());
    assert_eq!(
        r.unwrap().calculate_delta_v("Node1", "Node4").unwrap(),
        Some(1_073_741_823)
    );
}

#[test]
fn first_refusal_in_order_wins() {
    let r = DeltavMap::from_description(
        get_test_tree(),
        names(&["Node1"]),
        vec![(0, 9, -1)],
    );
    assert_eq!(r.err(), Some(DeserializeError::DanglingHandle));
}

#[test]
fn stock_map_has_every_location() {
    let map = DeltavMap::new_stock();
    assert_eq!(map.get_graph().node_count(), STOCK_VERTICES);
    assert_eq!(map.get_graph().edge_count(), STOCK_EDGES);
    assert_eq!(map.menu_tree().name(), "Kerbol System");
    assert_eq!(
        map.menu_tree().search("Kerbin Surface").unwrap().get_index(),
        0
    );
    assert_eq!(
        map.menu_tree().search("Kerbol Surface").unwrap().get_index(),
        54
    );
}

#[test]
fn stock_map_costs() {
    let map = DeltavMap::new_stock();
    let cost = |a: &str, b: &str| map.calculate_delta_v(a, b).unwrap().unwrap();
    assert_eq!(cost("Kerbin Surface", "Low Kerbin Orbit (80km)"), 3400);
    assert_eq!(cost("Kerbin Surface", "Mun Surface"), 5120);
    assert_eq!(cost("Mun Surface", "Kerbin Surface"), 5120);
    assert_eq!(cost("Low Kerbin Orbit (80km)", "Duna Surface"), 3140);
    assert_eq!(cost("Kerbin Surface", "Kerbin Surface"), 0);
    assert_eq!(cost("Eve Surface", "Gilly Surface"), 9850);
}

#[test]
fn stock_vertices_are_bound_to_their_locations() {
    let map = DeltavMap::new_stock();
    let graph = map.get_graph();
    for (i, name) in graph.node_weights().enumerate() {
        let node = map.menu_tree().search(name).unwrap();
        assert_eq!(node.get_index(), i, "{name}");
        assert_eq!(node.name(), name.as_str());
    }
}

#[test]
fn stock_map_round_trip() {
    let map = DeltavMap::new_stock();
    let graph = map.get_graph();
    let nodes: Vec<String> = graph.node_weights().cloned().collect();
    let edges: Vec<(usize, usize, i32)> = graph
        .raw_edges()
        .iter()
        .map(|e| (e.source().index(), e.target().index(), e.weight))
        .collect();
    let rebuilt =
        DeltavMap::from_description(copy_tree(map.menu_tree()), nodes.clone(), edges.clone())
            .unwrap();
    assert_eq!(
        format!("{:?}", rebuilt.menu_tree()),
        format!("{:?}", map.menu_tree())
    );
    assert_eq!(
        rebuilt.calculate_delta_v("Kerbin Surface", "Duna Surface").unwrap(),
        Some(6540)
    );
    assert_eq!(edges.len(), STOCK_EDGES);
    assert_eq!(edges[0], (0, 1, 3400));
    assert_eq!(edges[STOCK_EDGES - 1], (53, 54, 67000));
    assert_eq!(edges.iter().map(|e| e.2 as i64).sum::<i64>(), 148935);
}

#[test]
fn stock_map_is_connected() {
    let map = DeltavMap::new_stock();
    let names: Vec<String> = map.get_graph().node_weights().cloned().collect();
    for a in &names {
        assert!(map.calculate_delta_v("Kerbin Surface", a).unwrap().is_some(), "{a}");
    }
}
