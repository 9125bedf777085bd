//! The headers and bodies that travel on the overlay, and the rule that says
//! whom a message is for.

use crate::identity::{NodeId, Peer, PeerView, PublicKey};
use vstd::prelude::*;

verus! {

/// The overlay's message types. `UserMessage` marks a message of the
/// application; every other type is a control message of the overlay itself.
#[derive(Clone, Copy, Debug, PartialEq, Eq, Structural)]
pub enum DhtMessageType {
    UserMessage,
    Join,
    Discover,
    SafRequestMessages,
    SafStoredMessages,
}

impl DhtMessageType {
    pub open spec fn spec_is_dht_message(self) -> bool {
        self != DhtMessageType::UserMessage
    }

    /// True for a control message of the overlay, the store-and-forward types
    /// among them.
    #[verifier::when_used_as_spec(spec_is_dht_message)]
    pub fn is_dht_message(self) -> (control: bool)
        ensures
            control == self.spec_is_dht_message(),
    {
        match self {
            DhtMessageType::UserMessage => false,
            _ => true,
        }
    }

    pub open spec fn spec_is_saf_message(self) -> bool {
        self == DhtMessageType::SafRequestMessages || self == DhtMessageType::SafStoredMessages
    }

    /// True for the two types that the store-and-forward handler acts on.
    #[verifier::when_used_as_spec(spec_is_saf_message)]
    pub fn is_saf_message(self) -> (saf: bool)
        ensures
            saf == self.spec_is_saf_message(),
    {
        match self {
            DhtMessageType::SafRequestMessages => true,
            DhtMessageType::SafStoredMessages => true,
            _ => false,
        }
    }
}

/// What contracts say of a destination.
pub enum DestinationView {
    Undisclosed,
    PublicKey(Seq<u8>),
    NodeId(Seq<u8>),
}

/// Whom a message names as its recipient.
#[derive(Debug, PartialEq, Eq)]
pub enum NodeDestination {
    /// No recipient is named: any peer may try to decrypt.
    Undisclosed,
    /// The recipient is the holder of this public key.
    PublicKey(PublicKey),
    /// The recipient is the node with this id.
    NodeId(NodeId),
}

impl View for NodeDestination {
    type V = DestinationView;

    open spec fn view(&self) -> DestinationView {
        match self {
            NodeDestination::Undisclosed => DestinationView::Undisclosed,
            NodeDestination::PublicKey(key) => DestinationView::PublicKey(key@),
            NodeDestination::NodeId(id) => DestinationView::NodeId(id@),
        }
    }
}

impl Clone for NodeDestination {
    fn clone(&self) -> (copy: Self)
        ensures
            copy@ == self@,
    {
        match self {
            NodeDestination::Undisclosed => NodeDestination::Undisclosed,
            NodeDestination::PublicKey(key) => NodeDestination::PublicKey(key.clone()),
            NodeDestination::NodeId(id) => NodeDestination::NodeId(id.clone()),
        }
    }
}

/// The matching rule: an undisclosed destination is for everyone, a public
/// key for the node that holds it, a node id for the node that bears it.
pub open spec fn destination_matches(destination: DestinationView, node: PeerView) -> bool {
    match destination {
        DestinationView::Undisclosed => true,
        DestinationView::PublicKey(key) => key == node.public_key,
        DestinationView::NodeId(id) => id == node.node_id,
    }
}

impl NodeDestination {
    /// Decides whether this destination names the node with the given key
    /// and id.
    pub fn matches(&self, public_key: &PublicKey, node_id: &NodeId) -> (matched: bool)
        ensures
            matched == destination_matches(
                self@,
                PeerView { node_id: node_id@, public_key: public_key@ },
            ),
    {
        match self {
            NodeDestination::Undisclosed => true,
            NodeDestination::PublicKey(key) => key.equals(public_key),
            NodeDestination::NodeId(id) => id.equals(node_id),
        }
    }
}

/// An undisclosed destination matches every node.
pub proof fn lemma_undisclosed_matches_everyone(node: PeerView)
    ensures
        destination_matches(DestinationView::Undisclosed, node),
{
}

/// What contracts say of a transport header.
pub struct CommsHeaderView {
    pub message_public_key: Seq<u8>,
    pub message_signature: Seq<u8>,
}

/// The transport layer's header. The handler carries it along unread.
#[derive(Debug, PartialEq, Eq)]
pub struct CommsHeader {
    /// The key of the peer that sent the envelope.
    pub message_public_key: PublicKey,
    pub message_signature: Vec<u8>,
}

impl View for CommsHeader {
    type V = CommsHeaderView;

    open spec fn view(&self) -> CommsHeaderView {
        CommsHeaderView {
            message_public_key: self.message_public_key@,
            message_signature: self.message_signature@,
        }
    }
}

impl Clone for CommsHeader {
    fn clone(&self) -> (copy: Self)
        ensures
            copy@ == self@,
    {
        CommsHeader {
            message_public_key: self.message_public_key.clone(),
            message_signature: self.message_signature.clone(),
        }
    }
}

/// What contracts say of an overlay header.
pub struct DhtHeaderView {
    pub destination: DestinationView,
    pub origin_public_key: Seq<u8>,
    pub origin_signature: Seq<u8>,
    pub message_type: DhtMessageType,
}

/// The overlay's header: who wrote the message, for whom, and of what type.
#[derive(Debug, PartialEq, Eq)]
pub struct DhtHeader {
    pub destination: NodeDestination,
    /// The key of the peer that wrote the message, which need not be the peer
    /// that delivered it.
    pub origin_public_key: PublicKey,
    /// The writer's signature over the encrypted body.
    pub origin_signature: Vec<u8>,
    pub message_type: DhtMessageType,
}

impl View for DhtHeader {
    type V = DhtHeaderView;

    open spec fn view(&self) -> DhtHeaderView {
        DhtHeaderView {
            destination: self.destination@,
            origin_public_key: self.origin_public_key@,
            origin_signature: self.origin_signature@,
            message_type: self.message_type,
        }
    }
}

impl Clone for DhtHeader {
    fn clone(&self) -> (copy: Self)
        ensures
            copy@ == self@,
    {
        DhtHeader {
            destination: self.destination.clone(),
            origin_public_key: self.origin_public_key.clone(),
            origin_signature: self.origin_signature.clone(),
            message_type: self.message_type,
        }
    }
}

/// What contracts say of a decrypted message.
pub struct MessageView {
    pub header: Seq<u8>,
    pub body: Seq<u8>,
}

/// A message in the clear: an encoded header and an encoded body.
#[derive(Debug, PartialEq, Eq)]
pub struct Message {
    pub header: Vec<u8>,
    pub body: Vec<u8>,
}

impl View for Message {
    type V = MessageView;

    open spec fn view(&self) -> MessageView {
        MessageView { header: self.header@, body: self.body@ }
    }
}

impl Clone for Message {
    fn clone(&self) -> (copy: Self)
        ensures
            copy@ == self@,
    {
        Message { header: self.header.clone(), body: self.body.clone() }
    }
}

impl Message {
    pub fn new(header: Vec<u8>, body: Vec<u8>) -> (message: Self)
        ensures
            message@ == (MessageView { header: header@, body: body@ }),
    {
        Message { header, body }
    }
}

/// What contracts say of an inbound envelope. `decryption_result` is `Ok`
/// with the message in the clear, or `Err` with the bytes that would not
/// decrypt.
pub struct DecryptedDhtMessageView {
    pub version: u32,
    pub source_peer: PeerView,
    pub comms_header: CommsHeaderView,
    pub dht_header: DhtHeaderView,
    pub decryption_result: Result<MessageView, Seq<u8>>,
}

/// An inbound envelope after the outer layer was taken off.
#[derive(Debug, PartialEq, Eq)]
pub struct DecryptedDhtMessage {
    pub version: u32,
    /// The peer the envelope came from.
    pub source_peer: Peer,
    pub comms_header: CommsHeader,
    pub dht_header: DhtHeader,
    pub decryption_result: Result<Message, Vec<u8>>,
}

impl View for DecryptedDhtMessage {
    type V = DecryptedDhtMessageView;

    open spec fn view(&self) -> DecryptedDhtMessageView {
        DecryptedDhtMessageView {
            version: self.version,
            source_peer: self.source_peer@,
            comms_header: self.comms_header@,
            dht_header: self.dht_header@,
            decryption_result: match self.decryption_result {
                Ok(message) => Ok(message@),
                Err(bytes) => Err(bytes@),
            },
        }
    }
}

impl Clone for DecryptedDhtMessage {
    fn clone(&self) -> (copy: Self)
        ensures
            copy@ == self@,
    {
        DecryptedDhtMessage {
            version: self.version,
            source_peer: self.source_peer.clone(),
            comms_header: self.comms_header.clone(),
            dht_header: self.dht_header.clone(),
            decryption_result: match &self.decryption_result {
                Ok(message) => Ok(message.clone()),
                Err(bytes) => Err(bytes.clone()),
            },
        }
    }
}

impl DecryptedDhtMessage {
    /// An envelope whose body was decrypted.
    pub fn succeeded(
        message: Message,
        version: u32,
        source_peer: Peer,
        comms_header: CommsHeader,
        dht_header: DhtHeader,
    ) -> (envelope: Self)
        ensures
            envelope@ == (DecryptedDhtMessageView {
                version,
                source_peer: source_peer@,
                comms_header: comms_header@,
                dht_header: dht_header@,
                decryption_result: Ok(message@),
            }),
    {
        DecryptedDhtMessage {
            version,
            source_peer,
            comms_header,
            dht_header,
            decryption_result: Ok(message),
        }
    }

    /// An envelope whose body would not decrypt; the bytes are kept.
    pub fn failed(
        encrypted_body: Vec<u8>,
        version: u32,
        source_peer: Peer,
        comms_header: CommsHeader,
        dht_header: DhtHeader,
    ) -> (envelope: Self)
        ensures
            envelope@ == (DecryptedDhtMessageView {
                version,
                source_peer: source_peer@,
                comms_header: comms_header@,
                dht_header: dht_header@,
                decryption_result: Err(encrypted_body@),
            }),
    {
        DecryptedDhtMessage {
            version,
            source_peer,
            comms_header,
            dht_header,
            decryption_result: Err(encrypted_body),
        }
    }

    /// The message in the clear, if there is one.
    pub fn success(&self) -> (message: Option<&Message>)
        ensures
            match message {
                Some(m) => self@.decryption_result == Ok::<MessageView, Seq<u8>>(m@),
                None => self@.decryption_result is Err,
            },
    {
        match &self.decryption_result {
            Ok(message) => Some(message),
            Err(_) => None,
        }
    }

    pub fn decryption_succeeded(&self) -> (succeeded: bool)
        ensures
            succeeded == (self@.decryption_result is Ok),
    {
        self.decryption_result.is_ok()
    }

    pub fn decryption_failed(&self) -> (failed: bool)
        ensures
            failed == (self@.decryption_result is Err),
    {
        self.decryption_result.is_err()
    }
}

} // verus!
