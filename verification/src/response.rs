//! Taking in a batch of stored messages.
//!
//! Each entry of a batch is checked on its own, as if it had just arrived:
//! is it for this node, is the origin's signature good, does it decrypt, is
//! the origin known. The library makes the first check itself and asks the
//! caller for the other three, one after the other, so that no cipher is run
//! for an entry that has already failed. An entry that fails is discarded
//! and the rest of the batch goes on.

use crate::effects::{nothing_done, quiet, Effects, EffectsView};
use crate::envelope::{
    destination_matches, DecryptedDhtMessage, DecryptedDhtMessageView, DestinationView, Message,
    MessageView,
};
use crate::error::{Disposition, StoreAndForwardError};
use crate::identity::{NodeIdentity, Peer, PeerView};
use crate::message::{message_views, StoredMessage, StoredMessageView, StoredMessagesResponse};
use crate::sequence::reversed;
use vstd::prelude::*;

verus! {

/// What the caller found out about one entry. `signature` is the verdict
/// on the origin's signature over the encrypted body, or nothing if the
/// signature could not even be read; `decrypted` is the message that came
/// out of the body, or nothing if it would not decrypt or decode; `origin`
/// is what the peer directory holds under the origin's public key.
pub struct Evidence {
    pub signature: Option<bool>,
    pub decrypted: Option<MessageView>,
    pub origin: Option<PeerView>,
}

/// The first check: an entry must name this node, or nobody.
pub open spec fn destination_checked(identity: PeerView, message: StoredMessageView) -> Result<
    (),
    StoreAndForwardError,
> {
    if destination_matches(message.dht_header.destination, identity) {
        Ok(())
    } else {
        Err(StoreAndForwardError::InvalidDestination)
    }
}

/// The second check: only a signature that was read and found good passes.
pub open spec fn signature_checked(verdict: Option<bool>) -> Result<(), StoreAndForwardError> {
    if verdict == Some(true) {
        Ok(())
    } else {
        Err(StoreAndForwardError::InvalidSignature)
    }
}

/// The third check: the body must have given a message.
pub open spec fn decryption_checked(decrypted: Option<MessageView>) -> Result<
    MessageView,
    StoreAndForwardError,
> {
    match decrypted {
        Some(message) => Ok(message),
        None => Err(StoreAndForwardError::DecryptionFailed),
    }
}

/// The fourth check: the origin must be a peer that the directory knows.
pub open spec fn origin_checked(origin: Option<PeerView>) -> Result<PeerView, StoreAndForwardError> {
    match origin {
        Some(peer) => Ok(peer),
        None => Err(StoreAndForwardError::PeerNotFound),
    }
}

/// The envelope that stands for an entry which passed: it comes from the
/// origin, not from the relay, bears the entry's own headers, and holds the
/// message in the clear.
pub open spec fn delivered_envelope(
    message: StoredMessageView,
    decrypted: MessageView,
    origin: PeerView,
) -> DecryptedDhtMessageView {
    DecryptedDhtMessageView {
        version: message.version,
        source_peer: origin,
        comms_header: message.comms_header,
        dht_header: message.dht_header,
        decryption_result: Ok(decrypted),
    }
}

/// What becomes of an entry: the four checks in their order, the first
/// failure deciding, and the envelope if none fails.
pub open spec fn entry_outcome(identity: PeerView, message: StoredMessageView, evidence: Evidence) -> Result<
    DecryptedDhtMessageView,
    StoreAndForwardError,
> {
    match destination_checked(identity, message) {
        Err(error) => Err(error),
        Ok(_) => match signature_checked(evidence.signature) {
            Err(error) => Err(error),
            Ok(_) => match decryption_checked(evidence.decrypted) {
                Err(error) => Err(error),
                Ok(clear) => match origin_checked(evidence.origin) {
                    Err(error) => Err(error),
                    Ok(origin) => Ok(delivered_envelope(message, clear, origin)),
                },
            },
        },
    }
}

/// An entry is passed on exactly when it is for this node, its signature
/// verifies, it decrypts, and its origin is known.
pub proof fn lemma_delivered_iff_all_checks_pass(
    identity: PeerView,
    message: StoredMessageView,
    evidence: Evidence,
)
    ensures
        entry_outcome(identity, message, evidence) is Ok <==> (destination_matches(
            message.dht_header.destination,
            identity,
        ) && evidence.signature == Some(true) && evidence.decrypted is Some && evidence.origin
            is Some),
        entry_outcome(identity, message, evidence) matches Ok(envelope) ==> envelope.source_peer
            == evidence.origin->0 && envelope.decryption_result == Ok::<MessageView, Seq<u8>>(
            evidence.decrypted->0,
        ),
{
}

/// An entry that names its recipient, by key or by id, is discarded with
/// `InvalidDestination` at every node that does not bear that name,
/// whatever else is found out about it.
pub proof fn lemma_named_entry_fails_elsewhere(
    other: PeerView,
    message: StoredMessageView,
    evidence: Evidence,
)
    requires
        match message.dht_header.destination {
            DestinationView::Undisclosed => false,
            DestinationView::PublicKey(key) => key != other.public_key,
            DestinationView::NodeId(id) => id != other.node_id,
        },
    ensures
        entry_outcome(other, message, evidence) == Err::<
            DecryptedDhtMessageView,
            StoreAndForwardError,
        >(StoreAndForwardError::InvalidDestination),
{
}

/// The way there and back: an entry that a requester was given comes out
/// at that requester as a message in the clear, sent by its origin, as soon
/// as its signature verifies, it decrypts and its origin is known.
pub proof fn lemma_round_trip(requester: PeerView, message: StoredMessageView, evidence: Evidence)
    requires
        destination_matches(message.dht_header.destination, requester),
        evidence.signature == Some(true),
        evidence.decrypted is Some,
        evidence.origin is Some,
    ensures
        entry_outcome(requester, message, evidence) == Ok::<
            DecryptedDhtMessageView,
            StoreAndForwardError,
        >(delivered_envelope(message, evidence.decrypted->0, evidence.origin->0)),
{
}

/// Decides whether a stored message is for this node.
pub fn check_destination(node_identity: &NodeIdentity, message: &StoredMessage) -> (result: Result<
    (),
    StoreAndForwardError,
>)
    ensures
        result == destination_checked(node_identity@, message@),
{
    if message.dht_header.destination.matches(&node_identity.public_key, &node_identity.node_id) {
        Ok(())
    } else {
        Err(StoreAndForwardError::InvalidDestination)
    }
}

/// Takes the verdict on a signature: good, bad, or not to be read.
pub fn check_signature(verdict: Option<bool>) -> (result: Result<(), StoreAndForwardError>)
    ensures
        result == signature_checked(verdict),
{
    match verdict {
        Some(true) => Ok(()),
        _ => Err(StoreAndForwardError::InvalidSignature),
    }
}

/// Takes what decrypting and decoding a body gave.
pub fn try_decrypt(decrypted: Option<Message>) -> (result: Result<Message, StoreAndForwardError>)
    ensures
        match result {
            Ok(message) => decrypted matches Some(given) && message@ == given@,
            Err(error) => decrypted is None && error == StoreAndForwardError::DecryptionFailed,
        },
{
    match decrypted {
        Some(message) => Ok(message),
        None => Err(StoreAndForwardError::DecryptionFailed),
    }
}

/// An entry that is for this node. Next the caller verifies the origin's
/// signature over the encrypted body under the origin's public key.
#[derive(Debug, PartialEq, Eq)]
pub struct SignatureCheck {
    pub message: StoredMessage,
}

/// An entry with a good signature. Next the caller derives the secret that
/// this node shares with the origin, decrypts the body with it and decodes
/// what comes out.
#[derive(Debug, PartialEq, Eq)]
pub struct Decryption {
    pub message: StoredMessage,
}

/// An entry that was decrypted. Next the caller looks the origin up in the
/// peer directory, by its public key.
#[derive(Debug, PartialEq, Eq)]
pub struct PeerLookup {
    pub message: StoredMessage,
    pub decrypted: Message,
}

impl SignatureCheck {
    /// Starts on one entry of a batch: it goes on to the signature check if
    /// it is for this node, and is discarded with `InvalidDestination` if
    /// not.
    pub fn begin(node_identity: &NodeIdentity, message: StoredMessage) -> (next: Result<
        SignatureCheck,
        StoreAndForwardError,
    >)
        ensures
            match next {
                Ok(check) => destination_checked(node_identity@, message@) is Ok && check.message@
                    == message@,
                Err(error) => destination_checked(node_identity@, message@) is Err && error
                    == StoreAndForwardError::InvalidDestination,
            },
    {
        match check_destination(node_identity, &message) {
            Ok(()) => Ok(SignatureCheck { message }),
            Err(error) => Err(error),
        }
    }

    /// Takes the verdict on the signature: the entry goes on to decryption
    /// if it is good, and is discarded with `InvalidSignature` if not.
    pub fn verified(self, verdict: Option<bool>) -> (next: Result<Decryption, StoreAndForwardError>)
        ensures
            match next {
                Ok(decryption) => signature_checked(verdict) is Ok && decryption.message@
                    == self.message@,
                Err(error) => signature_checked(verdict) is Err && error
                    == StoreAndForwardError::InvalidSignature,
            },
    {
        match check_signature(verdict) {
            Ok(()) => Ok(Decryption { message: self.message }),
            Err(error) => Err(error),
        }
    }
}

impl Decryption {
    /// Takes what decrypting gave: the entry goes on to the peer lookup if
    /// there is a message, and is discarded with `DecryptionFailed` if not.
    pub fn decrypted(self, decrypted: Option<Message>) -> (next: Result<
        PeerLookup,
        StoreAndForwardError,
    >)
        ensures
            match next {
                Ok(lookup) => decrypted matches Some(given) && lookup.decrypted@ == given@
                    && lookup.message@ == self.message@,
                Err(error) => decrypted is None && error == StoreAndForwardError::DecryptionFailed,
            },
    {
        match try_decrypt(decrypted) {
            Ok(decrypted) => Ok(PeerLookup { message: self.message, decrypted }),
            Err(error) => Err(error),
        }
    }
}

impl PeerLookup {
    /// Takes what the peer directory holds: the entry becomes an envelope
    /// from the origin if the origin is known, and is discarded with
    /// `PeerNotFound` if not.
    pub fn found(self, origin: Option<Peer>) -> (result: Result<
        DecryptedDhtMessage,
        StoreAndForwardError,
    >)
        ensures
            match result {
                Ok(envelope) => origin matches Some(peer) && envelope@ == delivered_envelope(
                    self.message@,
                    self.decrypted@,
                    peer@,
                ),
                Err(error) => origin is None && error == StoreAndForwardError::PeerNotFound,
            },
    {
        match origin {
            Some(peer) => Ok(
                DecryptedDhtMessage::succeeded(
                    self.decrypted,
                    self.message.version,
                    peer,
                    self.message.comms_header,
                    self.message.dht_header,
                ),
            ),
            None => Err(StoreAndForwardError::PeerNotFound),
        }
    }
}

/// What the caller found out about one entry, as values: see `Evidence`.
#[derive(Debug, PartialEq, Eq)]
pub struct EntryEvidence {
    pub signature: Option<bool>,
    pub decrypted: Option<Message>,
    pub origin: Option<Peer>,
}

impl View for EntryEvidence {
    type V = Evidence;

    open spec fn view(&self) -> Evidence {
        Evidence {
            signature: self.signature,
            decrypted: match self.decrypted {
                Some(message) => Some(message@),
                None => None,
            },
            origin: match self.origin {
                Some(peer) => Some(peer@),
                None => None,
            },
        }
    }
}

/// Processes one entry for which all the evidence is at hand already. It
/// takes the four steps in their order and stops at the first that fails.
pub fn process_incoming_stored_message(
    node_identity: &NodeIdentity,
    message: StoredMessage,
    evidence: EntryEvidence,
) -> (outcome: Result<DecryptedDhtMessage, StoreAndForwardError>)
    ensures
        outcome_view(outcome) == entry_outcome(node_identity@, message@, evidence@),
{
    let check = match SignatureCheck::begin(node_identity, message) {
        Ok(check) => check,
        Err(error) => {
            return Err(error);
        },
    };
    let decryption = match check.verified(evidence.signature) {
        Ok(decryption) => decryption,
        Err(error) => {
            return Err(error);
        },
    };
    let lookup = match decryption.decrypted(evidence.decrypted) {
        Ok(lookup) => lookup,
        Err(error) => {
            return Err(error);
        },
    };
    lookup.found(evidence.origin)
}

/// A batch that has arrived: who relayed it, and the body that holds it.
/// Next the body is decoded.
#[derive(Debug, PartialEq, Eq)]
pub struct ResponseHandler {
    pub node_identity: NodeIdentity,
    /// The peer that sent the batch.
    pub relay: Peer,
    /// The body of the response, decrypted and still encoded.
    pub body: Vec<u8>,
}

/// A batch that has been decoded. Next each message is processed on its
/// own, in any order and side by side if the caller likes.
#[derive(Debug, PartialEq, Eq)]
pub struct StoredBatch {
    pub node_identity: NodeIdentity,
    pub relay: Peer,
    pub messages: Vec<StoredMessage>,
}

impl ResponseHandler {
    pub fn new(node_identity: NodeIdentity, relay: Peer, body: Vec<u8>) -> (handler: Self)
        ensures
            handler.node_identity@ == node_identity@,
            handler.relay@ == relay@,
            handler.body@ == body@,
    {
        ResponseHandler { node_identity, relay, body }
    }

    /// Takes what decoding the body gave: the response, or nothing if the
    /// body was no response. A body that does not decode ends the handling
    /// with `InvalidEnvelopeBody`, the one failure of a batch that reaches
    /// the pipeline.
    pub fn decoded(self, response: Option<StoredMessagesResponse>) -> (next: Result<
        StoredBatch,
        StoreAndForwardError,
    >)
        ensures
            match next {
                Ok(batch) => response matches Some(given) && message_views(batch.messages@)
                    == given@ && batch.node_identity@ == self.node_identity@ && batch.relay@
                    == self.relay@,
                Err(error) => response is None && error
                    == StoreAndForwardError::InvalidEnvelopeBody,
            },
    {
        match response {
            Some(response) => Ok(
                StoredBatch {
                    node_identity: self.node_identity,
                    relay: self.relay,
                    messages: response.messages,
                },
            ),
            None => Err(StoreAndForwardError::InvalidEnvelopeBody),
        }
    }
}

/// An entry that was discarded: its place in the batch, why it failed, and
/// what that says of the relay.
#[derive(Clone, Copy, Debug, PartialEq, Eq, Structural)]
pub struct Discarded {
    pub index: usize,
    pub error: StoreAndForwardError,
    pub disposition: Disposition,
}

/// The outcome of one entry, as contracts see it.
pub type OutcomeView = Result<DecryptedDhtMessageView, StoreAndForwardError>;

/// One outcome, as contracts see it.
pub open spec fn outcome_view(outcome: Result<DecryptedDhtMessage, StoreAndForwardError>) -> OutcomeView {
    match outcome {
        Ok(envelope) => Ok(envelope@),
        Err(error) => Err(error),
    }
}

/// The outcomes of a batch, as contracts see them.
pub open spec fn outcome_views(
    outcomes: Seq<Result<DecryptedDhtMessage, StoreAndForwardError>>,
) -> Seq<OutcomeView> {
    outcomes.map_values(|outcome: Result<DecryptedDhtMessage, StoreAndForwardError>| outcome_view(outcome))
}

/// The envelopes of the entries that passed, in the order of the batch.
pub open spec fn deliveries(outcomes: Seq<OutcomeView>) -> Seq<DecryptedDhtMessageView>
    decreases outcomes.len(),
{
    if outcomes.len() == 0 {
        Seq::empty()
    } else {
        let before = deliveries(outcomes.drop_last());
        match outcomes.last() {
            Ok(envelope) => before.push(envelope),
            Err(_) => before,
        }
    }
}

/// The entries that failed, in the order of the batch, each with its place
/// and with what its failure says of the relay.
pub open spec fn discards(outcomes: Seq<OutcomeView>) -> Seq<Discarded>
    decreases outcomes.len(),
{
    if outcomes.len() == 0 {
        Seq::empty()
    } else {
        let before = discards(outcomes.drop_last());
        match outcomes.last() {
            Ok(_) => before,
            Err(error) => before.push(
                Discarded {
                    index: (outcomes.len() - 1) as usize,
                    error,
                    disposition: error.disposition(),
                },
            ),
        }
    }
}

/// Every entry of a batch is either passed on once or discarded once.
pub proof fn lemma_each_entry_once(outcomes: Seq<OutcomeView>)
    ensures
        deliveries(outcomes).len() + discards(outcomes).len() == outcomes.len(),
    decreases outcomes.len(),
{
    if outcomes.len() > 0 {
        lemma_each_entry_once(outcomes.drop_last());
    }
}

/// The envelopes passed on are those of the entries that passed, each at
/// its own place in the batch and in the batch's order; so no entry is
/// passed on twice, and none that failed is passed on.
pub proof fn lemma_deliveries_follow_the_batch(outcomes: Seq<OutcomeView>) -> (places: Seq<int>)
    ensures
        places.len() == deliveries(outcomes).len(),
        forall|k: int|
            0 <= k < places.len() ==> 0 <= #[trigger] places[k] < outcomes.len()
                && outcomes[places[k]] == Ok::<DecryptedDhtMessageView, StoreAndForwardError>(
                deliveries(outcomes)[k],
            ),
        forall|k: int, l: int| 0 <= k < l < places.len() ==> #[trigger] places[k] < #[trigger] places[l],
        forall|i: int|
            0 <= i < outcomes.len() && (#[trigger] outcomes[i]) is Ok ==> places.contains(i),
    decreases outcomes.len(),
{
    if outcomes.len() == 0 {
        Seq::empty()
    } else {
        let before = outcomes.drop_last();
        let inner = lemma_deliveries_follow_the_batch(before);
        let last = outcomes.len() - 1;
        let places = match outcomes.last() {
            Ok(_) => inner.push(last),
            Err(_) => inner,
        };
        assert forall|k: int| 0 <= k < places.len() implies 0 <= #[trigger] places[k]
            < outcomes.len() && outcomes[places[k]] == Ok::<
            DecryptedDhtMessageView,
            StoreAndForwardError,
        >(deliveries(outcomes)[k]) by {
            if k < inner.len() {
                assert(places[k] == inner[k]);
                assert(before[inner[k]] == outcomes[inner[k]]);
            }
        }
        assert forall|i: int|
            0 <= i < outcomes.len() && (#[trigger] outcomes[i]) is Ok implies places.contains(i) by {
            if i < last {
                assert(before[i] == outcomes[i]);
                assert(inner.contains(i));
                let k = choose|k: int| 0 <= k < inner.len() && inner[k] == i;
                assert(places[k] == i);
            } else {
                assert(places[places.len() - 1] == i);
            }
        }
        places
    }
}

/// What is left to do with a batch once every entry has been processed.
#[derive(Debug, PartialEq, Eq)]
pub struct Delivery {
    /// The envelopes to push into the next stage, each of them once.
    pub forward: Vec<DecryptedDhtMessage>,
    /// The entries to write a log line for.
    pub discarded: Vec<Discarded>,
}

/// The views of a run of envelopes, in the same order.
pub open spec fn envelope_views(envelopes: Seq<DecryptedDhtMessage>) -> Seq<DecryptedDhtMessageView> {
    envelopes.map_values(|e: DecryptedDhtMessage| e@)
}

/// Sorts the outcomes of a batch: the envelopes of the entries that passed
/// go on to the next stage, the failures are listed for the log.
pub fn collect(outcomes: Vec<Result<DecryptedDhtMessage, StoreAndForwardError>>) -> (delivery: Delivery)
    ensures
        envelope_views(delivery.forward@) == deliveries(outcome_views(outcomes@)),
        delivery.discarded@ == discards(outcome_views(outcomes@)),
{
    let ghost all = outcome_views(outcomes@);
    let count: usize = outcomes.len();
    let mut stack = reversed(outcomes);
    let mut forward: Vec<DecryptedDhtMessage> = Vec::new();
    let mut discarded: Vec<Discarded> = Vec::new();
    let mut index: usize = 0;
    proof {
        assert(all.take(0) =~= Seq::<OutcomeView>::empty());
    }
    while stack.len() > 0
        invariant
            all.len() == count,
            index <= count,
            stack.len() == count - index,
            forall|j: int|
                0 <= j < stack.len() ==> outcome_view(#[trigger] stack@[j]) == all[count - 1 - j],
            envelope_views(forward@) == deliveries(all.take(index as int)),
            discarded@ == discards(all.take(index as int)),
        decreases stack.len(),
    {
        let ghost top = outcome_view(stack@[stack.len() - 1]);
        let ghost forward_before = envelope_views(forward@);
        proof {
            assert(top == all[index as int]);
            assert(all.take(index + 1).drop_last() =~= all.take(index as int));
            assert(all.take(index + 1).last() == all[index as int]);
        }
        match stack.pop() {
            Some(Ok(envelope)) => {
                forward.push(envelope);
                proof {
                    assert(envelope_views(forward@) =~= forward_before.push(envelope@));
                }
            },
            Some(Err(error)) => {
                discarded.push(Discarded { index, error, disposition: error.disposition() });
            },
            None => {},
        }
        index += 1;
    }
    proof {
        assert(all.take(index as int) =~= all);
    }
    Delivery { forward, discarded }
}

/// The evidence for the entry at `place`. An entry for which none is given
/// counts as one of which nothing could be found out.
pub open spec fn evidence_at(evidence: Seq<Evidence>, place: int) -> Evidence {
    if 0 <= place < evidence.len() {
        evidence[place]
    } else {
        Evidence { signature: None, decrypted: None, origin: None }
    }
}

/// The views of a run of evidence, in the same order.
pub open spec fn evidence_views(evidence: Seq<EntryEvidence>) -> Seq<Evidence> {
    evidence.map_values(|e: EntryEvidence| e@)
}

/// The outcome of every entry of a batch, in the order of the batch, each
/// entry taken with the evidence at its place.
pub open spec fn batch_outcomes(
    identity: PeerView,
    messages: Seq<StoredMessageView>,
    evidence: Seq<Evidence>,
) -> Seq<OutcomeView> {
    Seq::new(
        messages.len(),
        |place: int| entry_outcome(identity, messages[place], evidence_at(evidence, place)),
    )
}

impl StoredBatch {
    /// Processes a whole batch for which the evidence is at hand already:
    /// every entry on its own with the evidence at its place, a failure of
    /// one leaving the others untouched.
    pub fn process_with(self, evidence: Vec<EntryEvidence>) -> (delivery: Delivery)
        ensures
            envelope_views(delivery.forward@) == deliveries(
                batch_outcomes(
                    self.node_identity@,
                    message_views(self.messages@),
                    evidence_views(evidence@),
                ),
            ),
            delivery.discarded@ == discards(
                batch_outcomes(
                    self.node_identity@,
                    message_views(self.messages@),
                    evidence_views(evidence@),
                ),
            ),
    {
        let ghost messages = message_views(self.messages@);
        let ghost found = evidence_views(evidence@);
        let ghost identity = self.node_identity@;
        let node_identity = self.node_identity;
        let count: usize = self.messages.len();
        let given: usize = evidence.len();
        let mut stack = reversed(self.messages);
        let mut evidence_stack = reversed(evidence);
        let mut outcomes: Vec<Result<DecryptedDhtMessage, StoreAndForwardError>> = Vec::new();
        while stack.len() > 0
            invariant
                node_identity@ == identity,
                messages.len() == count,
                found.len() == given,
                outcomes.len() + stack.len() == count,
                evidence_stack.len() == if outcomes.len() < given {
                    given - outcomes.len()
                } else {
                    0
                },
                forall|j: int|
                    0 <= j < stack.len() ==> (#[trigger] stack@[j])@ == messages[count - 1 - j],
                forall|j: int|
                    0 <= j < evidence_stack.len() ==> (#[trigger] evidence_stack@[j])@ == found[given
                        - 1 - j],
                forall|j: int|
                    0 <= j < outcomes.len() ==> outcome_view(#[trigger] outcomes@[j])
                        == entry_outcome(identity, messages[j], evidence_at(found, j)),
            decreases stack.len(),
        {
            let ghost place = outcomes.len() as int;
            match stack.pop() {
                Some(message) => {
                    let entry_evidence = match evidence_stack.pop() {
                        Some(entry_evidence) => entry_evidence,
                        None => EntryEvidence { signature: None, decrypted: None, origin: None },
                    };
                    proof {
                        assert(entry_evidence@ == evidence_at(found, place));
                    }
                    let outcome = process_incoming_stored_message(&node_identity, message, entry_evidence);
                    outcomes.push(outcome);
                },
                None => {},
            }
        }
        proof {
            assert(outcome_views(outcomes@) =~= batch_outcomes(identity, messages, found));
        }
        collect(outcomes)
    }
}

/// Closes a batch. The calls into the next stage may have failed, some or
/// all of them; that is worth a log line each and changes nothing: once
/// every entry has been processed the batch was handled well.
pub fn delivery_result(failed_calls: usize) -> (result: Result<(), StoreAndForwardError>)
    ensures
        result == Ok::<(), StoreAndForwardError>(()),
{
    let _ = failed_calls;
    Ok(())
}

/// What taking in a batch comes to: a body that is no response fails, and
/// otherwise every entry is passed on or discarded and the batch was
/// handled well, whatever became of its entries.
pub open spec fn response_effects(
    identity: PeerView,
    response: Option<Seq<StoredMessageView>>,
    evidence: Seq<Evidence>,
) -> EffectsView {
    match response {
        None => nothing_done(Err(StoreAndForwardError::InvalidEnvelopeBody)),
        Some(messages) => EffectsView {
            outbound: None,
            downstream: deliveries(batch_outcomes(identity, messages, evidence)),
            discarded: discards(batch_outcomes(identity, messages, evidence)),
            result: Ok(()),
        },
    }
}

/// Takes in a batch from the first step to the last, with every answer of
/// the collaborators at hand already: what decoding the body gave, what was
/// found out about each entry, and whether the next stage accepts what it
/// is handed.
pub fn handle_stored_messages(
    handler: ResponseHandler,
    response: Option<StoredMessagesResponse>,
    evidence: Vec<EntryEvidence>,
    accepted: bool,
) -> (done: Effects)
    ensures
        done@ == response_effects(
            handler.node_identity@,
            match response {
                Some(given) => Some(given@),
                None => None,
            },
            evidence_views(evidence@),
        ),
{
    let batch = match handler.decoded(response) {
        Ok(batch) => batch,
        Err(error) => {
            return quiet(Err(error));
        },
    };
    let delivery = batch.process_with(evidence);
    let failed_calls: usize = if accepted {
        0
    } else {
        delivery.forward.len()
    };
    Effects {
        outbound: None,
        downstream: delivery.forward,
        discarded: delivery.discarded,
        result: delivery_result(failed_calls),
    }
}

} // verus!
