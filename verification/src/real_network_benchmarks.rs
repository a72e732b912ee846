//! The state of the nodes that network benchmarks run against.
use vstd::prelude::*;

verus! {

/// State of a test node.
#[derive(Debug, Clone, PartialEq)]
pub enum NodeStatus {
    /// Reachable.
    Online,
    /// Not running.
    Offline,
    /// Cut off from part of the network.
    Partitioned,
    /// Failed, for the reason given.
    Failed(String),
}

} // verus!
