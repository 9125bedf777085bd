//! Who a node is on the overlay: its public key and its node id.
//!
//! Keys and ids are kept as the bytes they are sent as. The library compares
//! them and passes them on; it never computes with key material, and a secret
//! key never enters it.

use vstd::prelude::*;

verus! {

/// Compares two byte strings.
pub fn bytes_equal(a: &Vec<u8>, b: &Vec<u8>) -> (same: bool)
    ensures
        same == (a@ == b@),
{
    let same = a == b;
    proof {
        if same {
            assert(a@ =~= b@);
        }
    }
    same
}

/// A public key, as its canonical bytes.
#[derive(Debug, PartialEq, Eq)]
pub struct PublicKey {
    pub bytes: Vec<u8>,
}

impl View for PublicKey {
    type V = Seq<u8>;

    open spec fn view(&self) -> Seq<u8> {
        self.bytes@
    }
}

impl Clone for PublicKey {
    fn clone(&self) -> (copy: Self)
        ensures
            copy@ == self@,
    {
        PublicKey { bytes: self.bytes.clone() }
    }
}

impl PublicKey {
    pub fn new(bytes: Vec<u8>) -> (key: Self)
        ensures
            key@ == bytes@,
    {
        PublicKey { bytes }
    }

    pub fn as_bytes(&self) -> (bytes: &Vec<u8>)
        ensures
            bytes@ == self@,
    {
        &self.bytes
    }

    /// True exactly when both keys are the same bytes.
    pub fn equals(&self, other: &PublicKey) -> (same: bool)
        ensures
            same == (self@ == other@),
    {
        bytes_equal(&self.bytes, &other.bytes)
    }
}

/// A node's position on the overlay, as its bytes.
#[derive(Debug, PartialEq, Eq)]
pub struct NodeId {
    pub bytes: Vec<u8>,
}

impl View for NodeId {
    type V = Seq<u8>;

    open spec fn view(&self) -> Seq<u8> {
        self.bytes@
    }
}

impl Clone for NodeId {
    fn clone(&self) -> (copy: Self)
        ensures
            copy@ == self@,
    {
        NodeId { bytes: self.bytes.clone() }
    }
}

impl NodeId {
    pub fn new(bytes: Vec<u8>) -> (id: Self)
        ensures
            id@ == bytes@,
    {
        NodeId { bytes }
    }

    pub fn as_bytes(&self) -> (bytes: &Vec<u8>)
        ensures
            bytes@ == self@,
    {
        &self.bytes
    }

    /// True exactly when both ids are the same bytes.
    pub fn equals(&self, other: &NodeId) -> (same: bool)
        ensures
            same == (self@ == other@),
    {
        bytes_equal(&self.bytes, &other.bytes)
    }
}

/// What contracts say of a peer or of this node: the two byte strings.
pub struct PeerView {
    pub node_id: Seq<u8>,
    pub public_key: Seq<u8>,
}

/// A peer as the peer directory knows it.
#[derive(Debug, PartialEq, Eq)]
pub struct Peer {
    pub node_id: NodeId,
    pub public_key: PublicKey,
}

impl View for Peer {
    type V = PeerView;

    open spec fn view(&self) -> PeerView {
        PeerView { node_id: self.node_id@, public_key: self.public_key@ }
    }
}

impl Clone for Peer {
    fn clone(&self) -> (copy: Self)
        ensures
            copy@ == self@,
    {
        Peer { node_id: self.node_id.clone(), public_key: self.public_key.clone() }
    }
}

impl Peer {
    pub fn new(node_id: NodeId, public_key: PublicKey) -> (peer: Self)
        ensures
            peer@ == (PeerView { node_id: node_id@, public_key: public_key@ }),
    {
        Peer { node_id, public_key }
    }
}

/// This node's own identity, fixed for the life of the process. Only the
/// public half is held here.
#[derive(Debug, PartialEq, Eq)]
pub struct NodeIdentity {
    pub node_id: NodeId,
    pub public_key: PublicKey,
}

impl View for NodeIdentity {
    type V = PeerView;

    open spec fn view(&self) -> PeerView {
        PeerView { node_id: self.node_id@, public_key: self.public_key@ }
    }
}

impl Clone for NodeIdentity {
    fn clone(&self) -> (copy: Self)
        ensures
            copy@ == self@,
    {
        NodeIdentity { node_id: self.node_id.clone(), public_key: self.public_key.clone() }
    }
}

impl NodeIdentity {
    pub fn new(node_id: NodeId, public_key: PublicKey) -> (identity: Self)
        ensures
            identity@ == (PeerView { node_id: node_id@, public_key: public_key@ }),
    {
        NodeIdentity { node_id, public_key }
    }

    pub fn node_id(&self) -> (id: &NodeId)
        ensures
            id@ == self@.node_id,
    {
        &self.node_id
    }

    pub fn public_key(&self) -> (key: &PublicKey)
        ensures
            key@ == self@.public_key,
    {
        &self.public_key
    }
}

} // verus!
