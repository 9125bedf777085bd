//! The region policy: a node serves only the peers nearest to it.
//!
//! How near one node is to another is for the overlay to say. The peer
//! directory reports the known peers nearest to this node, the nearest
//! first, and the policy reads that report.

use crate::identity::NodeId;
use vstd::prelude::*;

verus! {

/// The views of a run of node ids, in the same order.
pub open spec fn node_id_views(ids: Seq<NodeId>) -> Seq<Seq<u8>> {
    ids.map_values(|id: NodeId| id@)
}

/// A node is in the region if it is one of the first `closest` of the
/// nearest known peers.
pub open spec fn in_region(node_id: Seq<u8>, nearest: Seq<Seq<u8>>, closest: nat) -> bool {
    exists|place: int| 0 <= place < nearest.len() && place < closest && #[trigger] nearest[place] == node_id
}

/// A region of no nodes holds nobody, and neither does a region of which
/// no peer is known.
pub proof fn lemma_empty_region(node_id: Seq<u8>, nearest: Seq<Seq<u8>>, closest: nat)
    requires
        closest == 0 || nearest.len() == 0,
    ensures
        !in_region(node_id, nearest, closest),
{
}

/// Who is in a region is in every wider region.
pub proof fn lemma_region_widens(node_id: Seq<u8>, nearest: Seq<Seq<u8>>, closest: nat, wider: nat)
    requires
        closest <= wider,
        in_region(node_id, nearest, closest),
    ensures
        in_region(node_id, nearest, wider),
{
    let place = choose|place: int|
        0 <= place < nearest.len() && place < closest && #[trigger] nearest[place] == node_id;
    assert(0 <= place < nearest.len() && place < wider && nearest[place] == node_id);
}

/// Decides whether `node_id` is among the `closest` nearest known peers,
/// given the peers nearest to this node, the nearest first.
pub fn in_network_region(node_id: &NodeId, nearest: &Vec<NodeId>, closest: usize) -> (inside: bool)
    ensures
        inside == in_region(node_id@, node_id_views(nearest@), closest as nat),
{
    let ghost ids = node_id_views(nearest@);
    let mut place: usize = 0;
    while place < nearest.len() && place < closest
        invariant
            ids == node_id_views(nearest@),
            place <= nearest.len(),
            place <= closest,
            forall|seen: int| 0 <= seen < place ==> #[trigger] ids[seen] != node_id@,
        decreases nearest.len() - place,
    {
        if nearest[place].equals(node_id) {
            proof {
                assert(ids[place as int] == node_id@);
            }
            return true;
        }
        place += 1;
    }
    false
}

} // verus!
