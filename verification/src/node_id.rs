//! Node ids with numeric identifiers.

use vstd::prelude::*;

verus! {

/// A node id whose identifier is numeric (`UA_NODEIDTYPE_NUMERIC`): the namespace index and the
/// number that identifies the node in that namespace.
#[derive(Clone, Copy, Debug, PartialEq, Eq, Structural)]
pub struct NodeId {
    namespace_index: u16,
    identifier: u32,
}

impl NodeId {
    /// The node id with namespace index `namespace_index` and numeric identifier `identifier`.
    pub closed spec fn spec_numeric(namespace_index: u16, identifier: u32) -> NodeId {
        NodeId { namespace_index, identifier }
    }

    /// The namespace index of this node id.
    pub closed spec fn spec_namespace_index(self) -> u16 {
        self.namespace_index
    }

    /// The numeric identifier of this node id.
    pub closed spec fn spec_identifier(self) -> u32 {
        self.identifier
    }

    /// The null node id, as `UA_NodeId_init` leaves it: all of its fields are zero, so its
    /// identifier is numeric, in namespace 0, with the value 0.
    pub fn new() -> (node_id: NodeId)
        ensures
            node_id == NodeId::spec_numeric(0, 0),
    {
        NodeId { namespace_index: 0, identifier: 0 }
    }

    /// The node id with a numeric identifier (`UA_NODEID_NUMERIC`).
    pub fn numeric(ns_index: u16, identifier: u32) -> (node_id: NodeId)
        ensures
            node_id == NodeId::spec_numeric(ns_index, identifier),
    {
        NodeId { namespace_index: ns_index, identifier }
    }

    /// The namespace index of this node id.
    pub fn namespace_index(&self) -> (ns_index: u16)
        ensures
            ns_index == self.spec_namespace_index(),
    {
        self.namespace_index
    }

    /// The numeric identifier of this node id.
    pub fn identifier(&self) -> (identifier: u32)
        ensures
            identifier == self.spec_identifier(),
    {
        self.identifier
    }

    /// Whether this is the null node id (namespace 0, identifier 0), as `UA_NodeId_isNull`
    /// decides it for a numeric node id.
    pub fn is_null(&self) -> (null: bool)
        ensures
            null == (*self == NodeId::spec_numeric(0, 0)),
    {
        self.namespace_index == 0 && self.identifier == 0
    }
}

/// A node id built from a namespace index and a numeric identifier gives both back unchanged.
pub broadcast proof fn numeric_node_id_parts(ns_index: u16, identifier: u32)
    ensures
        (#[trigger] NodeId::spec_numeric(ns_index, identifier)).spec_namespace_index() == ns_index,
        NodeId::spec_numeric(ns_index, identifier).spec_identifier() == identifier,
{
}

/// Every node id is the numeric node id of its own namespace index and identifier.
pub broadcast proof fn node_id_from_parts(node_id: NodeId)
    ensures
        NodeId::spec_numeric(
            (#[trigger] node_id.spec_namespace_index()),
            node_id.spec_identifier(),
        ) == node_id,
{
}

/// A node id built from a namespace index and a numeric identifier gives both back unchanged,
/// and two such node ids are equal exactly when their namespace indexes and identifiers are.
pub proof fn numeric_node_id_round_trip(ns1: u16, id1: u32, ns2: u16, id2: u32)
    ensures
        NodeId::spec_numeric(ns1, id1).spec_namespace_index() == ns1,
        NodeId::spec_numeric(ns1, id1).spec_identifier() == id1,
        (NodeId::spec_numeric(ns1, id1) == NodeId::spec_numeric(ns2, id2)) <==> (ns1 == ns2 && id1
            == id2),
{
}

/// What callers need to know of node ids.
pub broadcast group group_node_id {
    numeric_node_id_parts,
    node_id_from_parts,
}

} // verus!
