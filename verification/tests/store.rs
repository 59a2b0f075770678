use node_canvas::geometry::{Offset, Point};
use node_canvas::node::{Node, NodeType};
use node_canvas::store::{NodeStore, StoreError};

fn record(id: usize, name: &str, x: i32, y: i32, node_type: NodeType, range: u32) -> Node {
    Node { name: String::from(name), id, position: Point { x, y }, node_type, range }
}

fn three_nodes() -> Vec<Node> {
    vec![
        record(4, "a", 0, 0, NodeType::Coordinator, 60),
        record(9, "b", 10, 20, NodeType::Router, 70),
        record(2, "c", -5, 5, NodeType::Endpoint, 80),
    ]
}

#[test]
fn new_store_is_empty() {
    let store = NodeStore::new();
    assert_eq!(store.len(), 0);
    assert!(store.nodes().is_empty());
    assert_eq!(store.next_id(), 0);
    assert_eq!(store.selected(), None);
    assert!(!store.ids_exhausted());
}

#[test]
fn created_ids_increase_from_zero() {
    let mut store = NodeStore::new();
    let mut ids = Vec::new();
    for k in 0..20 {
        ids.push(store.create(Point { x: k, y: -k }));
    }
    for k in 0..20 {
        assert_eq!(ids[k], k);
    }
    for j in 0..20 {
        for k in (j + 1)..20 {
            assert!(ids[j] < ids[k]);
            assert_ne!(ids[j], ids[k]);
        }
    }
    assert_eq!(store.next_id(), 20);
    assert_eq!(store.len(), 20);
}

#[test]
fn created_node_has_the_default_fields() {
    let mut store = NodeStore::new();
    let id = store.create(Point { x: 12, y: 34 });
    let node = &store.nodes()[0];
    assert_eq!(node.id, id);
    assert_eq!(node.name, "Node");
    assert_eq!(node.position, Point { x: 12, y: 34 });
    assert_eq!(node.node_type, NodeType::Endpoint);
    assert!(50 <= node.range && node.range <= 200);
}

#[test]
fn create_with_range_takes_the_given_range() {
    let mut store = NodeStore::new();
    let a = store.create_with_range(Point { x: 1, y: 2 }, 60);
    let b = store.create_with_range(Point { x: 3, y: 4 }, 1000);
    assert_eq!((a, b), (0, 1));
    assert_eq!(store.nodes()[0], record(0, "Node", 1, 2, NodeType::Endpoint, 60));
    assert_eq!(store.nodes()[1], record(1, "Node", 3, 4, NodeType::Endpoint, 1000));
}

#[test]
fn drawn_ranges_stay_in_bounds_and_vary() {
    let mut store = NodeStore::new();
    for _ in 0..400 {
        store.create(Point { x: 0, y: 0 });
    }
    let ranges: Vec<u32> = store.nodes().iter().map(|n| n.range).collect();
    assert!(ranges.iter().all(|r| 50 <= *r && *r <= 200));
    assert!(ranges.iter().any(|r| *r != ranges[0]));
    assert!(ranges.iter().any(|r| *r != 50));
    assert!(ranges.iter().any(|r| *r != 200));
}

#[test]
fn create_appends_behind_the_others() {
    let mut store = NodeStore::new();
    assert_eq!(store.replace_all(three_nodes()), Ok(()));
    let id = store.create_with_range(Point { x: 1, y: 1 }, 50);
    assert_eq!(id, 10);
    assert_eq!(store.len(), 4);
    assert_eq!(store.nodes()[..3], three_nodes()[..]);
    assert_eq!(store.nodes()[3].id, 10);
}

#[test]
fn replace_all_sets_the_next_id_above_the_largest() {
    let mut store = NodeStore::new();
    store.create(Point { x: 0, y: 0 });
    assert_eq!(store.replace_all(three_nodes()), Ok(()));
    assert_eq!(store.nodes(), &three_nodes());
    assert_eq!(store.next_id(), 10);
    let id = store.create(Point { x: 0, y: 0 });
    assert_eq!(id, 10);
    assert!(three_nodes().iter().all(|n| n.id < id));
}

#[test]
fn replace_all_can_lower_the_next_id() {
    let mut store = NodeStore::new();
    for _ in 0..30 {
        store.create(Point { x: 0, y: 0 });
    }
    assert_eq!(store.next_id(), 30);
    assert_eq!(store.replace_all(three_nodes()), Ok(()));
    assert_eq!(store.next_id(), 10);
}

#[test]
fn replace_all_with_no_nodes_starts_at_one() {
    let mut store = NodeStore::new();
    store.create(Point { x: 0, y: 0 });
    store.create(Point { x: 0, y: 0 });
    assert_eq!(store.replace_all(Vec::new()), Ok(()));
    assert_eq!(store.len(), 0);
    assert_eq!(store.next_id(), 1);
    assert_eq!(store.create(Point { x: 0, y: 0 }), 1);
}

#[test]
fn replace_all_refuses_the_largest_identifier() {
    let mut store = NodeStore::new();
    store.create_with_range(Point { x: 5, y: 6 }, 90);
    store.set_selected(Some(0));
    let mut nodes = three_nodes();
    nodes.push(record(usize::MAX, "last", 0, 0, NodeType::Router, 50));
    assert_eq!(store.replace_all(nodes), Err(StoreError::IdsExhausted));
    assert_eq!(store.len(), 1);
    assert_eq!(store.nodes()[0], record(0, "Node", 5, 6, NodeType::Endpoint, 90));
    assert_eq!(store.next_id(), 1);
    assert_eq!(store.selected(), Some(0));
}

#[test]
fn replace_all_accepts_the_identifier_below_the_largest() {
    let mut store = NodeStore::new();
    let nodes = vec![record(usize::MAX - 1, "almost", 0, 0, NodeType::Router, 50)];
    assert_eq!(store.replace_all(nodes), Ok(()));
    assert_eq!(store.next_id(), usize::MAX);
    assert!(store.ids_exhausted());
}

#[test]
fn replace_all_keeps_the_selection() {
    let mut store = NodeStore::new();
    store.set_selected(Some(77));
    assert_eq!(store.replace_all(three_nodes()), Ok(()));
    assert_eq!(store.selected(), Some(77));
    assert_eq!(store.selected_index(), None);
}

#[test]
fn replace_all_takes_duplicates_as_they_are() {
    let mut store = NodeStore::new();
    let nodes = vec![
        record(3, "first", 0, 0, NodeType::Router, 50),
        record(3, "second", 1, 1, NodeType::Router, 50),
    ];
    assert_eq!(store.replace_all(nodes), Ok(()));
    assert_eq!(store.len(), 2);
    assert_eq!(store.next_id(), 4);
    assert_eq!(store.index_of(3), Some(0));
}

#[test]
fn set_selected_records_the_identifier() {
    let mut store = NodeStore::new();
    assert_eq!(store.replace_all(three_nodes()), Ok(()));
    store.set_selected(Some(9));
    assert_eq!(store.selected(), Some(9));
    assert_eq!(store.selected_index(), Some(1));
    store.set_selected(Some(2));
    assert_eq!(store.selected(), Some(2));
    assert_eq!(store.selected_index(), Some(2));
    store.set_selected(None);
    assert_eq!(store.selected(), None);
    assert_eq!(store.selected_index(), None);
    assert_eq!(store.nodes(), &three_nodes());
}

#[test]
fn index_of_finds_nodes_by_identifier() {
    let mut store = NodeStore::new();
    assert_eq!(store.replace_all(three_nodes()), Ok(()));
    assert_eq!(store.index_of(4), Some(0));
    assert_eq!(store.index_of(9), Some(1));
    assert_eq!(store.index_of(2), Some(2));
    assert_eq!(store.index_of(0), None);
    assert_eq!(store.index_of(10), None);
}

#[test]
fn set_name_changes_one_node_only() {
    let mut store = NodeStore::new();
    assert_eq!(store.replace_all(three_nodes()), Ok(()));
    assert!(store.set_name(9, String::from("relay")));
    let mut expected = three_nodes();
    expected[1].name = String::from("relay");
    assert_eq!(store.nodes(), &expected);
    assert_eq!(store.next_id(), 10);
}

#[test]
fn set_node_type_changes_one_node_only() {
    let mut store = NodeStore::new();
    assert_eq!(store.replace_all(three_nodes()), Ok(()));
    assert!(store.set_node_type(2, NodeType::Coordinator));
    let mut expected = three_nodes();
    expected[2].node_type = NodeType::Coordinator;
    assert_eq!(store.nodes(), &expected);
}

#[test]
fn set_range_changes_one_node_only() {
    let mut store = NodeStore::new();
    assert_eq!(store.replace_all(three_nodes()), Ok(()));
    assert!(store.set_range(4, 150));
    let mut expected = three_nodes();
    expected[0].range = 150;
    assert_eq!(store.nodes(), &expected);
}

#[test]
fn set_range_stays_within_the_control() {
    let mut store = NodeStore::new();
    assert_eq!(store.replace_all(three_nodes()), Ok(()));
    assert!(store.set_range(4, 10));
    assert_eq!(store.nodes()[0].range, 50);
    assert!(store.set_range(4, 5000));
    assert_eq!(store.nodes()[0].range, 200);
    assert!(store.set_range(4, 50));
    assert_eq!(store.nodes()[0].range, 50);
    assert!(store.set_range(4, 200));
    assert_eq!(store.nodes()[0].range, 200);
}

#[test]
fn set_position_changes_one_node_only() {
    let mut store = NodeStore::new();
    assert_eq!(store.replace_all(three_nodes()), Ok(()));
    assert!(store.set_position(9, Point { x: 100, y: -100 }));
    let mut expected = three_nodes();
    expected[1].position = Point { x: 100, y: -100 };
    assert_eq!(store.nodes(), &expected);
}

#[test]
fn setters_leave_the_store_alone_without_the_node() {
    let mut store = NodeStore::new();
    assert_eq!(store.replace_all(three_nodes()), Ok(()));
    assert!(!store.set_name(5, String::from("nobody")));
    assert!(!store.set_node_type(5, NodeType::Router));
    assert!(!store.set_range(5, 100));
    assert!(!store.set_position(5, Point { x: 1, y: 1 }));
    assert_eq!(store.nodes(), &three_nodes());
    assert_eq!(store.next_id(), 10);
}

#[test]
fn setters_reach_the_first_of_two_nodes_with_one_identifier() {
    let mut store = NodeStore::new();
    let nodes = vec![
        record(3, "first", 0, 0, NodeType::Router, 50),
        record(3, "second", 1, 1, NodeType::Router, 50),
    ];
    assert_eq!(store.replace_all(nodes), Ok(()));
    assert!(store.set_name(3, String::from("renamed")));
    assert!(store.set_position(3, Point { x: 8, y: 8 }));
    assert_eq!(store.nodes()[0], record(3, "renamed", 8, 8, NodeType::Router, 50));
    assert_eq!(store.nodes()[1], record(3, "second", 1, 1, NodeType::Router, 50));
}

#[test]
fn place_moves_the_node_at_an_index() {
    let mut store = NodeStore::new();
    assert_eq!(store.replace_all(three_nodes()), Ok(()));
    assert!(store.place(2, Point { x: 40, y: 41 }));
    let mut expected = three_nodes();
    expected[2].position = Point { x: 40, y: 41 };
    assert_eq!(store.nodes(), &expected);
    assert!(!store.place(3, Point { x: 0, y: 0 }));
    assert!(!store.place(usize::MAX, Point { x: 0, y: 0 }));
    assert_eq!(store.nodes(), &expected);
}

#[test]
fn shift_all_moves_every_node() {
    let mut store = NodeStore::new();
    assert_eq!(store.replace_all(three_nodes()), Ok(()));
    store.shift_all(Offset { dx: 3, dy: -7 });
    let mut expected = three_nodes();
    expected[0].position = Point { x: 3, y: -7 };
    expected[1].position = Point { x: 13, y: 13 };
    expected[2].position = Point { x: -2, y: -2 };
    assert_eq!(store.nodes(), &expected);
    assert_eq!(store.next_id(), 10);
}

#[test]
fn shift_all_stops_at_the_ends_of_the_range() {
    let mut store = NodeStore::new();
    store.create_with_range(Point { x: i32::MAX - 2, y: 0 }, 50);
    store.create_with_range(Point { x: 0, y: i32::MIN + 2 }, 50);
    store.shift_all(Offset { dx: 10, dy: -10 });
    assert_eq!(store.nodes()[0].position, Point { x: i32::MAX, y: -10 });
    assert_eq!(store.nodes()[1].position, Point { x: 10, y: i32::MIN });
}

#[test]
fn snapshot_copies_the_nodes_in_order() {
    let mut store = NodeStore::new();
    assert_eq!(store.replace_all(three_nodes()), Ok(()));
    assert_eq!(store.snapshot(), three_nodes());
    assert_eq!(NodeStore::new().snapshot(), Vec::<Node>::new());
}

#[test]
fn snapshot_put_back_restores_the_nodes() {
    let mut store = NodeStore::new();
    store.create_with_range(Point { x: 1, y: 2 }, 60);
    store.create_with_range(Point { x: 3, y: 4 }, 70);
    store.set_name(1, String::from("two"));
    store.set_node_type(0, NodeType::Router);
    let saved = store.snapshot();
    let mut other = NodeStore::new();
    assert_eq!(other.replace_all(saved), Ok(()));
    assert_eq!(other.nodes(), store.nodes());
    assert_eq!(other.next_id(), 2);
}
