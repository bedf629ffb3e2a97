//! Data types, named by the node ids of their data type nodes.

use vstd::prelude::*;
use crate::node_id::NodeId;

verus! {

broadcast use crate::node_id::group_node_id;

/// A data type of namespace 0, named by the numeric identifier of its data type node (for
/// instance 13 for `DateTime`).
#[derive(Clone, Copy, Debug, PartialEq, Eq, Structural)]
pub struct DataType {
    type_id: u32,
}

impl DataType {
    /// The data type whose data type node has the numeric identifier `type_id` in namespace 0.
    pub closed spec fn spec_from_type_id(type_id: u32) -> DataType {
        DataType { type_id }
    }

    /// The numeric identifier of this data type's node in namespace 0.
    pub closed spec fn spec_type_id(self) -> u32 {
        self.type_id
    }

    /// The data type whose data type node has the numeric identifier `type_id` in namespace 0.
    pub fn from_type_id(type_id: u32) -> (data_type: DataType)
        ensures
            data_type == DataType::spec_from_type_id(type_id),
    {
        DataType { type_id }
    }

    /// The numeric identifier of this data type's node in namespace 0.
    pub fn type_id(&self) -> (type_id: u32)
        ensures
            type_id == self.spec_type_id(),
    {
        self.type_id
    }

    /// The node id of this data type's node, under which the C library finds the type.
    pub fn type_node_id(&self) -> (node_id: NodeId)
        ensures
            node_id == NodeId::spec_numeric(0, self.spec_type_id()),
    {
        NodeId::numeric(0, self.type_id)
    }
}

/// A data type built from a type id gives it back, and each data type is built from its own.
pub broadcast proof fn data_type_round_trip(type_id: u32, data_type: DataType)
    ensures
        (#[trigger] DataType::spec_from_type_id(type_id)).spec_type_id() == type_id,
        DataType::spec_from_type_id((#[trigger] data_type.spec_type_id())) == data_type,
{
}

} // verus!
