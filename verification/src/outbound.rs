//! What the handler asks the outbound sender to do.

use crate::envelope::{DestinationView, DhtMessageType, NodeDestination};
use crate::identity::{NodeId, PublicKey};
use crate::message::{StoredMessageView, StoredMessagesResponse};
use vstd::prelude::*;

verus! {

/// What contracts say of a broadcast strategy.
pub enum BroadcastStrategyView {
    DirectNodeId(Seq<u8>),
    DirectPublicKey(Seq<u8>),
    Flood,
}

/// To which peers a message is sent.
#[derive(Debug, PartialEq, Eq)]
pub enum BroadcastStrategy {
    /// To the one peer with this node id.
    DirectNodeId(NodeId),
    /// To the one peer that holds this public key.
    DirectPublicKey(PublicKey),
    /// To every connected peer.
    Flood,
}

impl View for BroadcastStrategy {
    type V = BroadcastStrategyView;

    open spec fn view(&self) -> BroadcastStrategyView {
        match self {
            BroadcastStrategy::DirectNodeId(id) => BroadcastStrategyView::DirectNodeId(id@),
            BroadcastStrategy::DirectPublicKey(key) => BroadcastStrategyView::DirectPublicKey(key@),
            BroadcastStrategy::Flood => BroadcastStrategyView::Flood,
        }
    }
}

/// How the body of an outbound message is protected.
#[derive(Clone, Copy, Debug, PartialEq, Eq, Structural)]
pub enum OutboundEncryption {
    /// The body is sent in the clear.
    ClearText,
    /// The body is encrypted for the peer the message is sent to.
    EncryptForDestination,
}

/// What contracts say of an outbound message.
pub struct OutboundMessageView {
    pub strategy: BroadcastStrategyView,
    pub destination: DestinationView,
    pub encryption: OutboundEncryption,
    pub message_type: DhtMessageType,
    pub payload: Seq<StoredMessageView>,
}

/// One call of the outbound sender: whom to send to, what the header says,
/// how to encrypt, and the stored messages to carry.
#[derive(Debug, PartialEq, Eq)]
pub struct OutboundMessage {
    pub strategy: BroadcastStrategy,
    pub destination: NodeDestination,
    pub encryption: OutboundEncryption,
    pub message_type: DhtMessageType,
    pub payload: StoredMessagesResponse,
}

impl View for OutboundMessage {
    type V = OutboundMessageView;

    open spec fn view(&self) -> OutboundMessageView {
        OutboundMessageView {
            strategy: self.strategy@,
            destination: self.destination@,
            encryption: self.encryption,
            message_type: self.message_type,
            payload: self.payload@,
        }
    }
}

/// The reply to a request for stored messages: straight to the requester by
/// public key, with no recipient named in the header, encrypted for the
/// requester.
pub open spec fn stored_messages_reply(
    requester_public_key: Seq<u8>,
    payload: Seq<StoredMessageView>,
) -> OutboundMessageView {
    OutboundMessageView {
        strategy: BroadcastStrategyView::DirectPublicKey(requester_public_key),
        destination: DestinationView::Undisclosed,
        encryption: OutboundEncryption::EncryptForDestination,
        message_type: DhtMessageType::SafStoredMessages,
        payload,
    }
}

impl OutboundMessage {
    /// Builds the reply that carries `payload` to the requester.
    pub fn stored_messages(requester: PublicKey, payload: StoredMessagesResponse) -> (reply: Self)
        ensures
            reply@ == stored_messages_reply(requester@, payload@),
    {
        OutboundMessage {
            strategy: BroadcastStrategy::DirectPublicKey(requester),
            destination: NodeDestination::Undisclosed,
            encryption: OutboundEncryption::EncryptForDestination,
            message_type: DhtMessageType::SafStoredMessages,
            payload,
        }
    }
}

} // verus!
