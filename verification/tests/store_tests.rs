use chord_rs::addr::Addr;
use chord_rs::store::NodeStore;
use chord_rs::{Node, NodeId};

fn node_at(id: u64, port: u16) -> Node {
    Node::with_id(NodeId(id), Addr::v4([127, 0, 0, 1], port))
}

#[test]
fn test_new() {
    let node = node_at(1, 42001);
    let store = NodeStore::new(node, 3);

    assert_eq!(store.successor(), node);
    assert_eq!(store.predecessor(), None);
}

#[test]
fn test_predecessor() {
    let node = node_at(1, 42001);
    let mut store = NodeStore::new(node, 3);
    let predecessor = node_at(2, 42002);
    assert_eq!(store.predecessor(), None);
    store.set_predecessor(predecessor);

    assert_eq!(store.predecessor(), Some(predecessor));

    store.unset_predecessor();
    assert_eq!(store.predecessor(), None);
}

#[test]
fn test_successor() {
    let node = node_at(1, 42001);
    let mut store = NodeStore::new(node, 3);
    let successor = node_at(2, 42002);
    assert_eq!(store.successor(), node);
    store.set_successor(successor);

    assert_eq!(store.successor(), successor);
}

#[test]
fn test_closest_preceding_node() {
    let node = node_at(10, 42001);
    let mut store = NodeStore::new(node, 3);
    let successor = node_at(20, 42002);
    let predecessor = node_at(1, 42003);
    store.set_predecessor(predecessor);

    let table = store.finger_table();
    for (i, finger) in table.iter().enumerate() {
        if finger._start < 20 {
            store.update_finger(i, successor);
        } else {
            store.update_finger(i, predecessor);
        }
    }

    assert_eq!(store.closest_preceding_node(10, 2), Some(predecessor));
    assert_eq!(store.closest_preceding_node(10, 10), Some(predecessor));
    assert_eq!(store.closest_preceding_node(10, 15), None);
    assert_eq!(store.closest_preceding_node(10, 21), Some(successor));
    assert_eq!(store.closest_preceding_node(10, 28), Some(successor));
}

#[test]
fn store_invariants_hold_after_any_operation_sequence() {
    // |finger_table| stays 64 and |successor_list| stays within the
    // replication factor through an arbitrary mix of operations.
    let mut store = NodeStore::new(node_at(8, 42008), 3);
    let check = |store: &NodeStore| {
        assert_eq!(store.finger_table().len(), 64);
        assert!(store.successor_list().len() <= 3);
    };
    check(&store);
    store.set_predecessor(node_at(4, 42004));
    check(&store);
    store.set_successor(node_at(16, 42016));
    check(&store);
    store.set_successor_list(vec![
        node_at(16, 42016),
        node_at(32, 42032),
        node_at(64, 42064),
        node_at(90, 42090),
    ]);
    check(&store);
    assert_eq!(store.successor_list().len(), 3);
    store.update_finger(0, node_at(32, 42032));
    check(&store);
    store.set_successor_list(vec![]);
    check(&store);
    store.unset_predecessor();
    check(&store);
}

#[test]
fn set_successor_list_truncates_and_moves_finger_zero() {
    let mut store = NodeStore::new(node_at(8, 42008), 2);
    store.set_successor_list(vec![node_at(16, 42016), node_at(32, 42032), node_at(64, 42064)]);
    let list = store.successor_list();
    assert_eq!(list.len(), 2);
    assert_eq!(list[0].id, NodeId(16));
    assert_eq!(list[1].id, NodeId(32));
    assert_eq!(store.successor().id, NodeId(16));
    // An empty replacement empties the list but keeps the successor finger.
    store.set_successor_list(vec![]);
    assert_eq!(store.successor_list().len(), 0);
    assert_eq!(store.successor().id, NodeId(16));
}

#[test]
fn update_finger_keeps_starts() {
    let mut store = NodeStore::new(node_at(8, 42008), 3);
    let before: Vec<u64> = store.finger_table().iter().map(|f| f._start).collect();
    store.update_finger(5, node_at(99, 42099));
    let table = store.finger_table();
    assert_eq!(table[5].node.id, NodeId(99));
    let after: Vec<u64> = table.iter().map(|f| f._start).collect();
    assert_eq!(before, after);
}
