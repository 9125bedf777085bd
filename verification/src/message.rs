//! The stored message and the two bodies of the exchange: the request for
//! stored messages and the response that carries them.

use crate::envelope::{CommsHeader, CommsHeaderView, DhtHeader, DhtHeaderView};
use vstd::prelude::*;

verus! {

/// A point in time on the wall clock, in seconds since the epoch.
pub type Timestamp = i64;

/// What contracts say of a stored message.
pub struct StoredMessageView {
    pub version: u32,
    pub comms_header: CommsHeaderView,
    pub dht_header: DhtHeaderView,
    pub encrypted_body: Seq<u8>,
    pub stored_at: int,
}

/// A message kept for a peer that was not there to take it. The body stays
/// encrypted for its recipient; the origin's signature over it is checked
/// when the message is received back, not when it is stored.
#[derive(Debug, PartialEq, Eq)]
pub struct StoredMessage {
    pub version: u32,
    pub comms_header: CommsHeader,
    pub dht_header: DhtHeader,
    pub encrypted_body: Vec<u8>,
    pub stored_at: Timestamp,
}

impl View for StoredMessage {
    type V = StoredMessageView;

    open spec fn view(&self) -> StoredMessageView {
        StoredMessageView {
            version: self.version,
            comms_header: self.comms_header@,
            dht_header: self.dht_header@,
            encrypted_body: self.encrypted_body@,
            stored_at: self.stored_at as int,
        }
    }
}

impl Clone for StoredMessage {
    fn clone(&self) -> (copy: Self)
        ensures
            copy@ == self@,
    {
        StoredMessage {
            version: self.version,
            comms_header: self.comms_header.clone(),
            dht_header: self.dht_header.clone(),
            encrypted_body: self.encrypted_body.clone(),
            stored_at: self.stored_at,
        }
    }
}

impl StoredMessage {
    pub fn new(
        version: u32,
        comms_header: CommsHeader,
        dht_header: DhtHeader,
        encrypted_body: Vec<u8>,
        stored_at: Timestamp,
    ) -> (message: Self)
        ensures
            message@ == (StoredMessageView {
                version,
                comms_header: comms_header@,
                dht_header: dht_header@,
                encrypted_body: encrypted_body@,
                stored_at: stored_at as int,
            }),
    {
        StoredMessage { version, comms_header, dht_header, encrypted_body, stored_at }
    }
}

/// The views of a run of stored messages, in the same order.
pub open spec fn message_views(messages: Seq<StoredMessage>) -> Seq<StoredMessageView> {
    messages.map_values(|m: StoredMessage| m@)
}

/// Asks a neighbour for the messages it keeps. Without `since` it asks for
/// all of them, with it for those stored at that time or later.
#[derive(Clone, Copy, Debug, PartialEq, Eq)]
pub struct StoredMessagesRequest {
    pub since: Option<Timestamp>,
}

impl StoredMessagesRequest {
    /// A request for everything that is kept.
    pub fn new() -> (request: Self)
        ensures
            request.since is None,
    {
        StoredMessagesRequest { since: None }
    }

    /// A request for what was stored at `since` or later.
    pub fn since(since: Timestamp) -> (request: Self)
        ensures
            request.since == Some(since),
    {
        StoredMessagesRequest { since: Some(since) }
    }

    /// The time filter of a request.
    pub open spec fn admits_time(self, stored_at: int) -> bool {
        match self.since {
            Some(since) => since <= stored_at,
            None => true,
        }
    }

    /// Decides whether a message stored at `stored_at` is asked for.
    pub fn admits(self, stored_at: Timestamp) -> (admitted: bool)
        ensures
            admitted == self.admits_time(stored_at as int),
    {
        match self.since {
            Some(since) => since <= stored_at,
            None => true,
        }
    }
}

/// The stored messages that a neighbour hands over, in order.
#[derive(Debug, PartialEq, Eq)]
pub struct StoredMessagesResponse {
    pub messages: Vec<StoredMessage>,
}

impl View for StoredMessagesResponse {
    type V = Seq<StoredMessageView>;

    open spec fn view(&self) -> Seq<StoredMessageView> {
        message_views(self.messages@)
    }
}

impl StoredMessagesResponse {
    pub fn new(messages: Vec<StoredMessage>) -> (response: Self)
        ensures
            response@ == message_views(messages@),
            response.messages == messages,
    {
        StoredMessagesResponse { messages }
    }

    pub fn len(&self) -> (count: usize)
        ensures
            count == self@.len(),
    {
        self.messages.len()
    }

    pub fn is_empty(&self) -> (empty: bool)
        ensures
            empty == (self@.len() == 0),
    {
        self.messages.len() == 0
    }
}

/// Copies a run of stored messages.
pub fn clone_messages(messages: &Vec<StoredMessage>) -> (copy: Vec<StoredMessage>)
    ensures
        message_views(copy@) == message_views(messages@),
{
    let mut copy: Vec<StoredMessage> = Vec::new();
    let mut i: usize = 0;
    while i < messages.len()
        invariant
            i <= messages.len(),
            copy.len() == i,
            forall|j: int| 0 <= j < i ==> copy@[j]@ == messages@[j]@,
        decreases messages.len() - i,
    {
        copy.push(messages[i].clone());
        i += 1;
    }
    proof {
        assert(message_views(copy@) =~= message_views(messages@));
    }
    copy
}

impl Clone for StoredMessagesResponse {
    fn clone(&self) -> (copy: Self)
        ensures
            copy@ == self@,
    {
        StoredMessagesResponse { messages: clone_messages(&self.messages) }
    }
}

} // verus!
