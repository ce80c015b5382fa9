//! The network-wide counter of active nodes.

use vstd::prelude::*;

verus! {

/// The singleton that counts the active node records.
#[derive(Clone, Copy, Debug, PartialEq, Eq, Structural)]
pub struct NetworkStats {
    pub total_nodes: u64,
}

impl NetworkStats {
    /// The counter of a network with no node yet.
    pub fn new() -> (stats: NetworkStats)
        ensures
            stats.total_nodes == 0,
    {
        NetworkStats { total_nodes: 0 }
    }

    /// Counts one more node.
    pub fn node_added(&mut self)
        requires
            old(self).total_nodes < u64::MAX,
        ensures
            final(self).total_nodes == old(self).total_nodes + 1,
    {
        self.total_nodes = self.total_nodes + 1;
    }

    /// Counts one node less. A counter at zero stays at zero.
    pub fn node_removed(&mut self)
        ensures
            old(self).total_nodes > 0 ==> final(self).total_nodes == old(self).total_nodes - 1,
            old(self).total_nodes == 0 ==> final(self).total_nodes == 0,
    {
        if self.total_nodes > 0 {
            self.total_nodes = self.total_nodes - 1;
        }
    }
}

} // verus!
