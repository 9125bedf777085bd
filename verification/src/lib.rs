//! Store-and-forward handling for a peer-to-peer overlay.
//!
//! A node keeps encrypted messages for peers that are offline and hands them
//! out when a neighbour asks. This crate holds the rules of that exchange:
//! the bounded store, which stored messages a requester is given, how a
//! received batch is checked entry by entry, and how an inbound message is
//! routed. Whatever touches the network, the clock, the peer directory or a
//! cipher is done by the caller, who hands the outcome back as a plain value.

pub mod config;
pub mod effects;
pub mod envelope;
pub mod error;
pub mod identity;
pub mod message;
pub mod outbound;
pub mod region;
pub mod request;
pub mod response;
pub mod sequence;
pub mod store;
pub mod task;

pub use config::DhtConfig;
pub use effects::Effects;
pub use envelope::{
    CommsHeader, DecryptedDhtMessage, DhtHeader, DhtMessageType, Message, NodeDestination,
};
pub use error::{DHTError, Disposition, StoreAndForwardError};
pub use identity::{NodeId, NodeIdentity, Peer, PublicKey};
pub use message::{StoredMessage, StoredMessagesRequest, StoredMessagesResponse, Timestamp};
pub use outbound::{BroadcastStrategy, OutboundEncryption, OutboundMessage};
pub use request::{RegionCheck, RequestHandler, StoreRead};
pub use response::{
    Decryption, Delivery, Discarded, EntryEvidence, PeerLookup, ResponseHandler, SignatureCheck,
    StoredBatch,
};
pub use store::SafStore;
pub use task::{Answers, Dispatch, MessageHandlerTask, Route};
