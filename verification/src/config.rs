//! The options that the store-and-forward handler reads.

use vstd::prelude::*;

verus! {

/// Settings of the overlay, as far as store-and-forward goes. Each task gets
/// a copy.
#[derive(Clone, Copy, Debug, PartialEq, Eq)]
pub struct DhtConfig {
    /// A request is served only if the requester is among this many nodes
    /// closest to this one.
    pub saf_num_closest_nodes: usize,
    /// The most messages that one response carries.
    pub saf_max_returned_messages: usize,
    /// The most messages that the store keeps.
    pub store_capacity: usize,
    /// How long a message is kept when nothing else is said, in seconds.
    pub default_ttl: u64,
}

impl Default for DhtConfig {
    fn default() -> (config: Self)
        ensures
            config.saf_num_closest_nodes == 8,
            config.saf_max_returned_messages == 100,
            config.store_capacity == 10_000,
            config.default_ttl == 10_800,
    {
        DhtConfig {
            saf_num_closest_nodes: 8,
            saf_max_returned_messages: 100,
            store_capacity: 10_000,
            default_ttl: 10_800,
        }
    }
}

} // verus!
