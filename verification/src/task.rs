//! The stage of the inbound pipeline that takes store-and-forward messages
//! aside and lets every other message pass.

use crate::config::DhtConfig;
use crate::effects::{nothing_done, quiet, Effects, EffectsView};
use crate::envelope::{DecryptedDhtMessage, DecryptedDhtMessageView, DhtMessageType};
use crate::error::StoreAndForwardError;
use crate::identity::{NodeId, NodeIdentity, PeerView};
use crate::message::{StoredMessageView, StoredMessagesRequest, StoredMessagesResponse, Timestamp};
use crate::outbound::stored_messages_reply;
use crate::region::{in_region, node_id_views};
use crate::request::{
    handle_stored_messages_request, is_due, lemma_selection_is_exact, request_effects, selection,
    RequestHandler,
};
use crate::response::{
    batch_outcomes, deliveries, delivered_envelope, discards, entry_outcome, evidence_views,
    handle_stored_messages, lemma_each_entry_once, lemma_round_trip, response_effects,
    EntryEvidence, Evidence, ResponseHandler,
};
use crate::store::{live_entries, SafStore, StoredEntryView};
use vstd::prelude::*;

verus! {

/// Where an inbound message goes.
#[derive(Clone, Copy, Debug, PartialEq, Eq, Structural)]
pub enum Route {
    /// Nowhere: it is dropped without a word, and that is no failure.
    Discard,
    /// To the handler that serves requests for stored messages.
    ServeRequest,
    /// To the handler that takes in batches of stored messages.
    ReceiveStored,
    /// On to the next stage, as it is.
    PassDownstream,
}

/// The routing rules, in their order. A control message of the overlay that
/// would not decrypt is dropped, whatever its type: it cannot be acted on
/// and must not travel on. A request and a batch go to their handlers.
/// Everything else passes.
pub open spec fn route(message: DecryptedDhtMessageView) -> Route {
    let message_type = message.dht_header.message_type;
    if message_type.is_dht_message() && message.decryption_result is Err {
        Route::Discard
    } else if message_type == DhtMessageType::SafRequestMessages {
        Route::ServeRequest
    } else if message_type == DhtMessageType::SafStoredMessages {
        Route::ReceiveStored
    } else {
        Route::PassDownstream
    }
}

/// What is to be done with an inbound message.
#[derive(Debug, PartialEq, Eq)]
pub enum Dispatch {
    /// Nothing. The handling has ended well.
    Discard,
    /// The message is a request for stored messages: serve it.
    ServeRequest(RequestHandler),
    /// The message is a batch of stored messages: take it in.
    ReceiveStored(ResponseHandler),
    /// The message is not for this stage: hand it to the next stage once,
    /// and let that stage's answer be the answer of this one.
    PassDownstream(DecryptedDhtMessage),
}

/// The handling of one inbound message. A task is made for one message and
/// used up by running it.
#[derive(Debug, PartialEq, Eq)]
pub struct MessageHandlerTask {
    pub config: DhtConfig,
    pub node_identity: NodeIdentity,
    pub message: DecryptedDhtMessage,
}

impl MessageHandlerTask {
    pub fn new(config: DhtConfig, node_identity: NodeIdentity, message: DecryptedDhtMessage) -> (task:
        Self)
        ensures
            task.config == config,
            task.node_identity@ == node_identity@,
            task.message@ == message@,
    {
        MessageHandlerTask { config, node_identity, message }
    }

    /// Routes the message. A handler that comes out holds the peer that
    /// sent the message and the body that was decrypted; a message that
    /// passes comes out as it went in.
    pub fn run(self) -> (dispatch: Dispatch)
        ensures
            match dispatch {
                Dispatch::Discard => route(self.message@) == Route::Discard,
                Dispatch::ServeRequest(handler) => self.message@.decryption_result matches Ok(clear)
                    && handler.body@ == clear.body && route(self.message@) == Route::ServeRequest
                    && handler.config == self.config && handler.node_identity@
                    == self.node_identity@ && handler.requester@ == self.message@.source_peer,
                Dispatch::ReceiveStored(handler) => self.message@.decryption_result matches Ok(clear)
                    && handler.body@ == clear.body && route(self.message@) == Route::ReceiveStored
                    && handler.node_identity@ == self.node_identity@ && handler.relay@
                    == self.message@.source_peer,
                Dispatch::PassDownstream(message) => route(self.message@) == Route::PassDownstream
                    && message@ == self.message@,
            },
    {
        let message_type = self.message.dht_header.message_type;
        if message_type.is_dht_message() && self.message.decryption_failed() {
            return Dispatch::Discard;
        }
        match message_type {
            DhtMessageType::SafRequestMessages => match self.message.decryption_result {
                Ok(clear) => Dispatch::ServeRequest(
                    RequestHandler::new(
                        self.config,
                        self.node_identity,
                        self.message.source_peer,
                        clear.body,
                    ),
                ),
                // Ruled out above: a request that would not decrypt was dropped.
                Err(_) => Dispatch::Discard,
            },
            DhtMessageType::SafStoredMessages => match self.message.decryption_result {
                Ok(clear) => Dispatch::ReceiveStored(
                    ResponseHandler::new(self.node_identity, self.message.source_peer, clear.body),
                ),
                // Ruled out above: a batch that would not decrypt was dropped.
                Err(_) => Dispatch::Discard,
            },
            _ => Dispatch::PassDownstream(self.message),
        }
    }
}

/// What the collaborators say while one message is handled. Only the
/// answers that the handling comes to ask for are read.
pub struct AnswersView {
    pub request: Option<StoredMessagesRequest>,
    pub nearest: Seq<Seq<u8>>,
    pub sent: bool,
    pub response: Option<Seq<StoredMessageView>>,
    pub evidence: Seq<Evidence>,
    pub accepted: bool,
}

/// What the collaborators say while one message is handled, as values.
#[derive(Debug, PartialEq, Eq)]
pub struct Answers {
    /// What decoding the body as a request gives, if anything.
    pub request: Option<StoredMessagesRequest>,
    /// The known peers nearest to this node, the nearest first, as the
    /// peer directory reports them.
    pub nearest: Vec<NodeId>,
    /// Whether the outbound sender takes a reply.
    pub sent: bool,
    /// What decoding the body as a response gives, if anything.
    pub response: Option<StoredMessagesResponse>,
    /// What is found out about each entry of the response, by its place.
    pub evidence: Vec<EntryEvidence>,
    /// Whether the next stage accepts a message that is passed on.
    pub accepted: bool,
}

impl View for Answers {
    type V = AnswersView;

    open spec fn view(&self) -> AnswersView {
        AnswersView {
            request: self.request,
            nearest: node_id_views(self.nearest@),
            sent: self.sent,
            response: match self.response {
                Some(response) => Some(response@),
                None => None,
            },
            evidence: evidence_views(self.evidence@),
            accepted: self.accepted,
        }
    }
}

/// What handling a message comes to, given what the collaborators say.
pub open spec fn effects(
    config: DhtConfig,
    identity: PeerView,
    message: DecryptedDhtMessageView,
    answers: AnswersView,
    store: Option<Seq<StoredEntryView>>,
    now: int,
) -> EffectsView {
    match route(message) {
        Route::Discard => nothing_done(Ok(())),
        Route::ServeRequest => request_effects(
            config.saf_num_closest_nodes as nat,
            config.saf_max_returned_messages as nat,
            message.source_peer,
            answers.request,
            answers.nearest,
            store,
            now,
            answers.sent,
        ),
        Route::ReceiveStored => response_effects(identity, answers.response, answers.evidence),
        Route::PassDownstream => EffectsView {
            outbound: None,
            downstream: seq![message],
            discarded: Seq::empty(),
            result: if answers.accepted {
                Ok(())
            } else {
                Err(StoreAndForwardError::DownstreamFailed)
            },
        },
    }
}

/// The one case in which the store is read: a request that decodes, from a
/// sender within the region.
pub open spec fn reads_store(
    config: DhtConfig,
    message: DecryptedDhtMessageView,
    answers: AnswersView,
) -> bool {
    route(message) == Route::ServeRequest && answers.request is Some && in_region(
        message.source_peer.node_id,
        answers.nearest,
        config.saf_num_closest_nodes as nat,
    )
}

/// A request that decodes, from a sender within the region, is answered
/// with one reply to that sender, and the reply carries the messages that
/// the request selects from the store: as many as the store has for the
/// sender, up to the limit. Nothing goes to the next stage.
pub proof fn lemma_request_is_answered(
    config: DhtConfig,
    identity: PeerView,
    message: DecryptedDhtMessageView,
    answers: AnswersView,
    entries: Seq<StoredEntryView>,
    now: int,
)
    requires
        route(message) == Route::ServeRequest,
        answers.request is Some,
        in_region(message.source_peer.node_id, answers.nearest, config.saf_num_closest_nodes as nat),
    ensures
        effects(config, identity, message, answers, Some(entries), now).outbound == Some(
            stored_messages_reply(
                message.source_peer.public_key,
                selection(
                    entries,
                    now,
                    answers.request->0,
                    message.source_peer,
                    config.saf_max_returned_messages as nat,
                ),
            ),
        ),
        effects(config, identity, message, answers, Some(entries), now).downstream.len() == 0,
        effects(config, identity, message, answers, Some(entries), now).result is Ok
            <==> answers.sent,
{
}

/// A request from a sender outside the region comes to nothing: no reply,
/// nothing for the next stage, the store not so much as read, and no
/// failure either.
pub proof fn lemma_outside_region_nothing_happens(
    config: DhtConfig,
    identity: PeerView,
    message: DecryptedDhtMessageView,
    answers: AnswersView,
    store: Option<Seq<StoredEntryView>>,
    now: int,
)
    requires
        route(message) == Route::ServeRequest,
        answers.request is Some,
        !in_region(message.source_peer.node_id, answers.nearest, config.saf_num_closest_nodes as nat),
    ensures
        effects(config, identity, message, answers, store, now) == nothing_done(Ok(())),
        !reads_store(config, message, answers),
{
}

/// Of a batch that decodes, the next stage gets the envelopes of exactly
/// those entries that pass all four checks, each of them once and in the
/// order of the batch; every other entry is discarded. No reply is sent,
/// the store is not read, and the batch never fails as a whole.
pub proof fn lemma_batch_delivers_what_passes(
    config: DhtConfig,
    identity: PeerView,
    message: DecryptedDhtMessageView,
    answers: AnswersView,
    store: Option<Seq<StoredEntryView>>,
    now: int,
)
    requires
        route(message) == Route::ReceiveStored,
        answers.response is Some,
    ensures
        ({
            let done = effects(config, identity, message, answers, store, now);
            let outcomes = batch_outcomes(identity, answers.response->0, answers.evidence);
            &&& done.downstream == deliveries(outcomes)
            &&& done.discarded == discards(outcomes)
            &&& done.downstream.len() + done.discarded.len() == (answers.response->0).len()
            &&& done.outbound is None
            &&& done.result is Ok
            &&& !reads_store(config, message, answers)
        }),
{
    let outcomes = batch_outcomes(identity, answers.response->0, answers.evidence);
    lemma_each_entry_once(outcomes);
}

/// A message that passes is handed to the next stage once, as it came, and
/// that is all: no reply is sent and the store is not read. What the next
/// stage says of it is what the pipeline is told.
pub proof fn lemma_passing_changes_nothing(
    config: DhtConfig,
    identity: PeerView,
    message: DecryptedDhtMessageView,
    answers: AnswersView,
    store: Option<Seq<StoredEntryView>>,
    now: int,
)
    requires
        !message.dht_header.message_type.is_saf_message(),
        !(message.dht_header.message_type.is_dht_message() && message.decryption_result is Err),
    ensures
        ({
            let done = effects(config, identity, message, answers, store, now);
            &&& done.downstream == seq![message]
            &&& done.outbound is None
            &&& done.discarded.len() == 0
            &&& done.result is Ok <==> answers.accepted
            &&& !reads_store(config, message, answers)
        }),
{
}

/// The way there and back: a message that a requester was sent in a reply
/// comes out at that requester as a message in the clear, sent by its
/// origin, as soon as its signature verifies, it decrypts and its origin is
/// known there.
pub proof fn lemma_reply_comes_through(
    entries: Seq<StoredEntryView>,
    now: int,
    request: StoredMessagesRequest,
    requester: PeerView,
    limit: nat,
    place: int,
    evidence: Evidence,
)
    requires
        0 <= place < selection(entries, now, request, requester, limit).len(),
        evidence.signature == Some(true),
        evidence.decrypted is Some,
        evidence.origin is Some,
    ensures
        entry_outcome(
            requester,
            selection(entries, now, request, requester, limit)[place],
            evidence,
        ) == Ok::<DecryptedDhtMessageView, StoreAndForwardError>(
            delivered_envelope(
                selection(entries, now, request, requester, limit)[place],
                evidence.decrypted->0,
                evidence.origin->0,
            ),
        ),
{
    let message = selection(entries, now, request, requester, limit)[place];
    lemma_selection_is_exact(entries, now, request, requester, limit);
    assert(is_due(entries, now, request, requester, message));
    lemma_round_trip(requester, message, evidence);
}

/// A control message of the overlay that would not decrypt comes to
/// nothing, whatever its type.
pub proof fn lemma_unreadable_control_message_is_dropped(
    config: DhtConfig,
    identity: PeerView,
    message: DecryptedDhtMessageView,
    answers: AnswersView,
    store: Option<Seq<StoredEntryView>>,
    now: int,
)
    requires
        message.dht_header.message_type.is_dht_message(),
        message.decryption_result is Err,
    ensures
        effects(config, identity, message, answers, store, now) == nothing_done(Ok(())),
        !reads_store(config, message, answers),
{
}

impl MessageHandlerTask {
    /// Handles the message from the first step to the last, with every
    /// answer of the collaborators at hand already. It takes the same steps
    /// as a caller who asks for each answer when it is due.
    ///
    /// The store is touched in one case only, and then it loses its expired
    /// entries and nothing else.
    pub fn run_to_end(self, answers: Answers, store: Option<&mut SafStore>, now: Timestamp) -> (done:
        Effects)
        ensures
            done@ == effects(
                self.config,
                self.node_identity@,
                self.message@,
                answers@,
                match store {
                    Some(s) => Some(s@),
                    None => None,
                },
                now as int,
            ),
            store matches Some(s) ==> final(s).spec_capacity() == s.spec_capacity() && final(s)@
                == if reads_store(self.config, self.message@, answers@) {
                live_entries(s@, now as int)
            } else {
                s@
            },
            store matches Some(s) ==> reads_store(self.config, self.message@, answers@) ==> final(s).is_sound(),
    {
        match self.run() {
            Dispatch::Discard => quiet(Ok(())),
            Dispatch::ServeRequest(handler) => handle_stored_messages_request(
                handler,
                answers.request,
                &answers.nearest,
                store,
                now,
                answers.sent,
            ),
            Dispatch::ReceiveStored(handler) => handle_stored_messages(
                handler,
                answers.response,
                answers.evidence,
                answers.accepted,
            ),
            Dispatch::PassDownstream(message) => {
                let mut downstream: Vec<DecryptedDhtMessage> = Vec::new();
                downstream.push(message);
                let done = Effects {
                    outbound: None,
                    downstream,
                    discarded: Vec::new(),
                    result: downstream_result(answers.accepted),
                };
                proof {
                    assert(done@.downstream =~= seq![self.message@]);
                }
                done
            },
        }
    }
}

/// Takes the next stage's answer to a message that was passed on: it is the
/// answer of this stage too.
pub fn downstream_result(accepted: bool) -> (result: Result<(), StoreAndForwardError>)
    ensures
        result == if accepted {
            Ok::<(), StoreAndForwardError>(())
        } else {
            Err::<(), StoreAndForwardError>(StoreAndForwardError::DownstreamFailed)
        },
{
    if accepted {
        Ok(())
    } else {
        Err(StoreAndForwardError::DownstreamFailed)
    }
}

} // verus!
