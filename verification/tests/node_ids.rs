use lib::node_id::NodeId;

#[test]
fn numeric_node_id_gives_back_its_parts() {
    let node_id = NodeId::numeric(0, 2258);
    assert_eq!(node_id.namespace_index(), 0);
    assert_eq!(node_id.identifier(), 2258);

    let node_id = NodeId::numeric(u16::MAX, u32::MAX);
    assert_eq!(node_id.namespace_index(), u16::MAX);
    assert_eq!(node_id.identifier(), u32::MAX);
}

#[test]
fn new_node_id_is_null() {
    let node_id = NodeId::new();
    assert_eq!(node_id, NodeId::numeric(0, 0));
    assert!(node_id.is_null());
    assert!(!NodeId::numeric(0, 1).is_null());
    assert!(!NodeId::numeric(1, 0).is_null());
}

#[test]
fn node_ids_compare_by_parts() {
    assert_eq!(NodeId::numeric(2, 5), NodeId::numeric(2, 5));
    assert_ne!(NodeId::numeric(2, 5), NodeId::numeric(3, 5));
    assert_ne!(NodeId::numeric(2, 5), NodeId::numeric(2, 6));
}
