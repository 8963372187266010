//! Types nested in `CostGraphDef`.
use vstd::prelude::*;

verus! {

#[derive(Clone, Debug, PartialEq, Default)]
pub struct Node {
    /// The name of the node. Names are globally unique.
    pub name: String,
    /// The device of the node. Can be empty if the node is mapped to the
    /// default partition or partitioning hasn't been run yet.
    pub device: String,
    /// The id of the node. Node ids are only unique inside a partition.
    pub id: i32,
    pub input_info: Vec<InputInfo>,
    pub output_info: Vec<OutputInfo>,
    /// Temporary memory used by this node.
    pub temporary_memory_size: i64,
    /// Persistent memory used by this node.
    pub persistent_memory_size: i64,
    /// Deprecated.
    pub host_temp_memory_size: i64,
    /// Deprecated.
    pub device_temp_memory_size: i64,
    /// Deprecated.
    pub device_persistent_memory_size: i64,
    /// Estimate of the computational cost of this node, in microseconds.
    pub compute_cost: i64,
    /// Analytical estimate of the computational cost of this node, in
    /// microseconds.
    pub compute_time: i64,
    /// Analytical estimate of the memory access cost of this node, in
    /// microseconds.
    pub memory_time: i64,
    /// If true, the output is permanent: it can't be discarded, because this
    /// node is part of the "final output". Nodes may depend on final nodes.
    pub is_final: bool,
    /// Ids of the control inputs for this node.
    pub control_input: Vec<i32>,
    /// Are the costs inaccurate?
    pub inaccurate: bool,
}

/// Inputs of this node. They must be executed before this node can be
/// executed. An input is a particular output of another node, specified
/// by the node id and the output index.
#[derive(Clone, Debug, PartialEq, Default)]
pub struct InputInfo {
    pub preceding_node: i32,
    pub preceding_port: i32,
}

/// Outputs of this node.
#[derive(Clone, Debug, PartialEq, Default)]
pub struct OutputInfo {
    pub size: i64,
    /// If >= 0, the output is an alias of an input. Note that an alias input
    /// may itself be an alias. The algorithm will therefore need to follow
    /// those pointers.
    pub alias_input_port: i64,
    pub shape: Option<super::TensorShapeProto>,
    pub dtype: i32,
}

/// Total cost of this graph, typically used for balancing decisions.
#[derive(Clone, Debug, PartialEq, Default)]
pub struct AggregatedCost {
    /// Aggregated cost value.
    /// Each value is the bit pattern of an IEEE 754 binary32 number.
    pub cost: u32,
    /// Aggregated cost dimension (e.g. 'memory', 'compute', 'network').
    pub dimension: String,
}

} // verus!
