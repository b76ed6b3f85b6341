use deltav_calc::MenuTree;
use deltav_calc::MenuTree::{EndNode, MiddleNode};

fn get_test_tree() -> MenuTree {
    MiddleNode {
        name: String::from("Category1"),
        children: vec![
            MiddleNode {
                name: String::from("Category2"),
                children: vec![
                    EndNode {
                        name: String::from("Node1"),
                        index: 0,
                    },
                    EndNode {
                        name: String::from("Node2"),
                        index: 1,
                    },
                ],
            },
            EndNode {
                name: String::from("Node3"),
                index: 2,
            },
            EndNode {
                name: String::from("Node4"),
                index: 3,
            },
        ],
    }
}

#[test]
fn menutree_test_search() {
    let test_tree = get_test_tree();

    let result = test_tree.search("Category2");
    match result {
        Err(e) => {
            panic!("{}", e.message())
        }
        Ok(result) => {
            assert_eq!(result.name(), "Category2");
        }
    }

    let result = test_tree.search("Node1");
    match result {
        Err(e) => {
            panic!("{}", e.message())
        }
        Ok(result) => {
            assert_eq!(result.name(), "Node1");
            assert_eq!(result.get_index(), 0);
        }
    }
}

#[test]
fn menutree_test_index() {
    let test_tree = get_test_tree();

    let result = test_tree.node("Category2");
    assert_eq!(result.get_name(), "Category2");

    let result = test_tree.node("Node1");
    assert_eq!(result.get_name(), "Node1");
    assert_eq!(result.get_index(), 0);
}

#[test]
fn search_unknown_name_keeps_the_name() {
    let test_tree = get_test_tree();
    match test_tree.search("test") {
        Ok(_) => panic!("no node is named \"test\""),
        Err(e) => {
            assert_eq!(e.cause_name(), "test");
            assert_eq!(
                e.message(),
                "There is no node with the name \"test\" in the tree"
            );
        }
    }
}

#[test]
fn search_is_case_sensitive() {
    assert!(get_test_tree().search("node1").is_err());
    assert!(get_test_tree().search("Node1").is_ok());
}

#[test]
fn search_finds_the_root_and_deep_leaves() {
    let test_tree = get_test_tree();
    assert_eq!(test_tree.search("Category1").unwrap().name(), "Category1");
    assert_eq!(test_tree.search("Node2").unwrap().get_index(), 1);
    assert_eq!(test_tree.search("Node4").unwrap().get_index(), 3);
}

#[test]
fn search_takes_the_first_match_in_pre_order() {
    let tree = MiddleNode {
        name: String::from("Root"),
        children: vec![
            MiddleNode {
                name: String::from("Inner"),
                children: vec![EndNode {
                    name: String::from("Twin"),
                    index: 7,
                }],
            },
            EndNode {
                name: String::from("Twin"),
                index: 9,
            },
        ],
    };
    assert_eq!(tree.search("Twin").unwrap().get_index(), 7);
}

#[test]
fn search_on_a_leaf_checks_only_the_leaf() {
    let leaf = EndNode {
        name: String::from("Alone"),
        index: 5,
    };
    assert_eq!(leaf.search("Alone").unwrap().get_index(), 5);
    assert_eq!(leaf.search("Other").unwrap_err().cause_name(), "Other");
}

#[test]
fn handles_within_checks_every_location() {
    let test_tree = get_test_tree();
    assert!(test_tree.handles_within(4));
    assert!(!test_tree.handles_within(3));
    assert!(!test_tree.handles_within(0));
}
