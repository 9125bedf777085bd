//! The ways in which handling a store-and-forward message can fail, and what
//! each failure says of the peer that caused it.

use vstd::prelude::*;

verus! {

/// Why a store-and-forward message, or one entry of a batch, was not
/// handled.
#[derive(Clone, Copy, Debug, PartialEq, Eq, Structural)]
pub enum StoreAndForwardError {
    /// The body did not decode as the request or response it should be.
    InvalidEnvelopeBody,
    /// A stored message names a recipient other than this node.
    InvalidDestination,
    /// The origin's signature over the encrypted body did not verify.
    InvalidSignature,
    /// The body would not decrypt under the shared secret, or what came out
    /// was no message.
    DecryptionFailed,
    /// The peer directory does not know the origin.
    PeerNotFound,
    /// The store could not be read.
    StoreUnavailable,
    /// The outbound sender could not take the reply.
    OutboundFailed,
    /// The next stage of the pipeline returned an error.
    DownstreamFailed,
}

/// What a discarded entry says of the relay that sent it.
#[derive(Clone, Copy, Debug, PartialEq, Eq, Structural)]
pub enum Disposition {
    /// Nothing: the entry was simply not for this node, or its origin is a
    /// stranger. Worth a debug line.
    Expected,
    /// The relay should never have forwarded this entry. Worth a warning
    /// that carries a security marker and the relay's node id.
    Misbehaviour,
}

impl StoreAndForwardError {
    pub open spec fn spec_disposition(self) -> Disposition {
        if self == StoreAndForwardError::DecryptionFailed || self
            == StoreAndForwardError::PeerNotFound {
            Disposition::Expected
        } else {
            Disposition::Misbehaviour
        }
    }

    /// Sorts a failure of one entry: a failed decryption and an unknown
    /// origin are expected, everything else is misbehaviour of the relay.
    #[verifier::when_used_as_spec(spec_disposition)]
    pub fn disposition(self) -> (disposition: Disposition)
        ensures
            disposition == self.spec_disposition(),
    {
        match self {
            StoreAndForwardError::DecryptionFailed => Disposition::Expected,
            StoreAndForwardError::PeerNotFound => Disposition::Expected,
            _ => Disposition::Misbehaviour,
        }
    }

    pub open spec fn spec_message(self) -> Seq<char> {
        match self {
            StoreAndForwardError::InvalidEnvelopeBody => "The envelope body could not be decoded"@,
            StoreAndForwardError::InvalidDestination => "The message was not intended for this node"@,
            StoreAndForwardError::InvalidSignature => "The message signature is invalid"@,
            StoreAndForwardError::DecryptionFailed => "Unable to decrypt received stored message"@,
            StoreAndForwardError::PeerNotFound => "The origin peer is not known"@,
            StoreAndForwardError::StoreUnavailable => "The message store could not be read"@,
            StoreAndForwardError::OutboundFailed => "The outbound message could not be sent"@,
            StoreAndForwardError::DownstreamFailed => "The next service returned an error"@,
        }
    }

    /// The failure in words, for a log line.
    pub fn message(self) -> (text: String)
        ensures
            text@ == self.spec_message(),
    {
        match self {
            StoreAndForwardError::InvalidEnvelopeBody => "The envelope body could not be decoded".to_owned(),
            StoreAndForwardError::InvalidDestination => "The message was not intended for this node".to_owned(),
            StoreAndForwardError::InvalidSignature => "The message signature is invalid".to_owned(),
            StoreAndForwardError::DecryptionFailed => "Unable to decrypt received stored message".to_owned(),
            StoreAndForwardError::PeerNotFound => "The origin peer is not known".to_owned(),
            StoreAndForwardError::StoreUnavailable => "The message store could not be read".to_owned(),
            StoreAndForwardError::OutboundFailed => "The outbound message could not be sent".to_owned(),
            StoreAndForwardError::DownstreamFailed => "The next service returned an error".to_owned(),
        }
    }
}

/// Why the overlay service as a whole could not do what it was asked. The
/// variants with a text carry the words of a failure that arose in a
/// collaborator.
#[derive(Debug, PartialEq, Eq)]
pub enum DHTError {
    OutboundError(String),
    ConnectorError(String),
    /// OMS has not been initialized
    OMSUndefined,
    /// The current nodes identity is undefined
    NodeIdentityUndefined,
    /// PeerManager has not been initialized
    PeerManagerUndefined,
    PeerManagerError(String),
    /// Failed to send from API
    ApiSendFailed,
    /// Failed to receive in API from service
    ApiReceiveFailed,
    /// Received an unexpected response type from the API
    UnexpectedApiResponse,
    MessageFormatError(String),
    MessageSerializationError(String),
    NodeIdentityError(String),
}

impl Clone for DHTError {
    fn clone(&self) -> (copy: Self)
        ensures
            copy == *self,
    {
        match self {
            DHTError::OutboundError(text) => DHTError::OutboundError(text.clone()),
            DHTError::ConnectorError(text) => DHTError::ConnectorError(text.clone()),
            DHTError::OMSUndefined => DHTError::OMSUndefined,
            DHTError::NodeIdentityUndefined => DHTError::NodeIdentityUndefined,
            DHTError::PeerManagerUndefined => DHTError::PeerManagerUndefined,
            DHTError::PeerManagerError(text) => DHTError::PeerManagerError(text.clone()),
            DHTError::ApiSendFailed => DHTError::ApiSendFailed,
            DHTError::ApiReceiveFailed => DHTError::ApiReceiveFailed,
            DHTError::UnexpectedApiResponse => DHTError::UnexpectedApiResponse,
            DHTError::MessageFormatError(text) => DHTError::MessageFormatError(text.clone()),
            DHTError::MessageSerializationError(text) => DHTError::MessageSerializationError(
                text.clone(),
            ),
            DHTError::NodeIdentityError(text) => DHTError::NodeIdentityError(text.clone()),
        }
    }
}

impl DHTError {
    /// The words of the failure: a collaborator's own words where it carries
    /// them, else a fixed sentence.
    pub open spec fn spec_message(self) -> Seq<char> {
        match self {
            DHTError::OutboundError(text) => text@,
            DHTError::ConnectorError(text) => text@,
            DHTError::OMSUndefined => "OMS has not been initialized"@,
            DHTError::NodeIdentityUndefined => "The current nodes identity is undefined"@,
            DHTError::PeerManagerUndefined => "PeerManager has not been initialized"@,
            DHTError::PeerManagerError(text) => text@,
            DHTError::ApiSendFailed => "Failed to send from API"@,
            DHTError::ApiReceiveFailed => "Failed to receive in API from service"@,
            DHTError::UnexpectedApiResponse => "Received an unexpected response type from the API"@,
            DHTError::MessageFormatError(text) => text@,
            DHTError::MessageSerializationError(text) => text@,
            DHTError::NodeIdentityError(text) => text@,
        }
    }

    /// The failure in words.
    pub fn message(&self) -> (text: String)
        ensures
            text@ == self.spec_message(),
    {
        match self {
            DHTError::OutboundError(text) => text.clone(),
            DHTError::ConnectorError(text) => text.clone(),
            DHTError::OMSUndefined => "OMS has not been initialized".to_owned(),
            DHTError::NodeIdentityUndefined => "The current nodes identity is undefined".to_owned(),
            DHTError::PeerManagerUndefined => "PeerManager has not been initialized".to_owned(),
            DHTError::PeerManagerError(text) => text.clone(),
            DHTError::ApiSendFailed => "Failed to send from API".to_owned(),
            DHTError::ApiReceiveFailed => "Failed to receive in API from service".to_owned(),
            DHTError::UnexpectedApiResponse => "Received an unexpected response type from the API".to_owned(),
            DHTError::MessageFormatError(text) => text.clone(),
            DHTError::MessageSerializationError(text) => text.clone(),
            DHTError::NodeIdentityError(text) => text.clone(),
        }
    }
}

} // verus!
