//! Serving a request for stored messages.
//!
//! A request is served in four steps, and between them the caller does what
//! this library cannot: it decodes the body, asks the peer directory whether
//! the requester is near enough, locks the store, and sends the reply. Each
//! step takes what the caller found and says what comes next.

use crate::config::DhtConfig;
use crate::effects::{nothing_done, quiet, Effects, EffectsView};
use crate::envelope::destination_matches;
use crate::error::StoreAndForwardError;
use crate::identity::{NodeId, NodeIdentity, Peer, PeerView};
use crate::message::{
    StoredMessage, StoredMessageView, StoredMessagesRequest, StoredMessagesResponse, Timestamp,
};
use crate::outbound::{stored_messages_reply, OutboundMessage};
use crate::region::{in_network_region, in_region, node_id_views};
use crate::sequence::lemma_filter_push;
use crate::store::{
    is_live, lemma_filter_entries, lemma_pruning_is_unseen, live_entries, SafStore,
    StoredEntryView,
};
use vstd::prelude::*;

verus! {

/// An entry is wanted by a request if it was stored within the time asked
/// for and its destination matches the requester.
pub open spec fn is_wanted(
    entry: StoredEntryView,
    request: StoredMessagesRequest,
    requester: PeerView,
) -> bool {
    request.admits_time(entry.message.stored_at) && destination_matches(
        entry.message.dht_header.destination,
        requester,
    )
}

/// An entry that names no recipient is wanted by every requester whose
/// request admits the time at which it was stored.
pub proof fn lemma_undisclosed_entry_is_for_every_requester(
    entry: StoredEntryView,
    request: StoredMessagesRequest,
    requester: PeerView,
)
    requires
        entry.message.dht_header.destination is Undisclosed,
    ensures
        is_wanted(entry, request, requester) == request.admits_time(entry.message.stored_at),
{
}

/// The entries that a request retains: those that are live at `now` and
/// wanted, in the order of the store.
pub open spec fn retained(
    entries: Seq<StoredEntryView>,
    now: int,
    request: StoredMessagesRequest,
    requester: PeerView,
) -> Seq<StoredEntryView> {
    live_entries(entries, now).filter(|e: StoredEntryView| is_wanted(e, request, requester))
}

/// The messages that a response carries: those of the first `limit`
/// retained entries, or of all of them if they are fewer.
pub open spec fn selection(
    entries: Seq<StoredEntryView>,
    now: int,
    request: StoredMessagesRequest,
    requester: PeerView,
    limit: nat,
) -> Seq<StoredMessageView> {
    let all = retained(entries, now, request, requester);
    let count = if limit < all.len() {
        limit as int
    } else {
        all.len() as int
    };
    all.take(count).map_values(|e: StoredEntryView| e.message)
}

/// A response carries as many messages as were retained, up to the limit.
pub proof fn lemma_selection_len(
    entries: Seq<StoredEntryView>,
    now: int,
    request: StoredMessagesRequest,
    requester: PeerView,
    limit: nat,
)
    ensures
        selection(entries, now, request, requester, limit).len() == if limit < retained(
            entries,
            now,
            request,
            requester,
        ).len() {
            limit
        } else {
            retained(entries, now, request, requester).len()
        },
        selection(entries, now, request, requester, limit).len() <= limit,
{
}

/// A message is due to a requester if the store holds it in an entry that
/// is live at `now` and that the request wants.
pub open spec fn is_due(
    entries: Seq<StoredEntryView>,
    now: int,
    request: StoredMessagesRequest,
    requester: PeerView,
    message: StoredMessageView,
) -> bool {
    exists|j: int|
        0 <= j < entries.len() && (#[trigger] entries[j]).message == message && is_live(
            entries[j],
            now,
        ) && is_wanted(entries[j], request, requester)
}

/// Every message of a response is due to the requester; and when the limit
/// leaves room, every message that is due is in the response.
pub proof fn lemma_selection_is_exact(
    entries: Seq<StoredEntryView>,
    now: int,
    request: StoredMessagesRequest,
    requester: PeerView,
    limit: nat,
)
    ensures
        forall|i: int|
            0 <= i < selection(entries, now, request, requester, limit).len() ==> is_due(
                entries,
                now,
                request,
                requester,
                #[trigger] selection(entries, now, request, requester, limit)[i],
            ),
        retained(entries, now, request, requester).len() <= limit ==> forall|
            message: StoredMessageView,
        | #[trigger]
            is_due(entries, now, request, requester, message) ==> selection(
                entries,
                now,
                request,
                requester,
                limit,
            ).contains(message),
{
    let live_pred = |e: StoredEntryView| is_live(e, now);
    let want_pred = |e: StoredEntryView| is_wanted(e, request, requester);
    let live = live_entries(entries, now);
    let all = retained(entries, now, request, requester);
    let chosen = selection(entries, now, request, requester, limit);
    lemma_filter_entries(entries, live_pred);
    lemma_filter_entries(live, want_pred);
    assert forall|i: int| 0 <= i < chosen.len() implies is_due(
        entries,
        now,
        request,
        requester,
        #[trigger] chosen[i],
    ) by {
        assert(chosen[i] == all[i].message);
        assert(want_pred(all[i]));
        assert(live.contains(all[i]));
        let k = choose|k: int| 0 <= k < live.len() && live[k] == all[i];
        assert(live_pred(live[k]));
        assert(entries.contains(live[k]));
        let j = choose|j: int| 0 <= j < entries.len() && entries[j] == live[k];
        assert(entries[j].message == chosen[i]);
    }
    if all.len() <= limit {
        assert forall|message: StoredMessageView| #[trigger]
            is_due(entries, now, request, requester, message) implies chosen.contains(message) by {
            let j = choose|j: int|
                0 <= j < entries.len() && (#[trigger] entries[j]).message == message && is_live(
                    entries[j],
                    now,
                ) && is_wanted(entries[j], request, requester);
            entries.lemma_filter_contains(live_pred, j);
            let k = choose|k: int| 0 <= k < live.len() && live[k] == entries[j];
            live.lemma_filter_contains(want_pred, k);
            let m = choose|m: int| 0 <= m < all.len() && all[m] == entries[j];
            assert(chosen[m] == message);
        }
    }
}

/// Serving a request takes nothing from the next one: what a request
/// selects from the store as it was served is what it selects from the
/// store as it was left.
pub proof fn lemma_serving_is_unseen(
    entries: Seq<StoredEntryView>,
    now: int,
    request: StoredMessagesRequest,
    requester: PeerView,
    limit: nat,
)
    ensures
        selection(live_entries(entries, now), now, request, requester, limit) == selection(
            entries,
            now,
            request,
            requester,
            limit,
        ),
{
    lemma_pruning_is_unseen(entries, now);
}

/// Goes through the store for a requester: drops what has expired, and
/// copies out the messages of the first `limit` entries that the request
/// retains.
pub fn select_messages(
    store: &mut SafStore,
    request: &StoredMessagesRequest,
    requester: &Peer,
    limit: usize,
    now: Timestamp,
) -> (messages: Vec<StoredMessage>)
    ensures
        final(store).is_sound(),
        final(store).spec_capacity() == old(store).spec_capacity(),
        final(store)@ == live_entries(old(store)@, now as int),
        crate::message::message_views(messages@) == selection(
            old(store)@,
            now as int,
            *request,
            requester@,
            limit as nat,
        ),
{
    store.prune(now);
    let ghost live = store@;
    let ghost pred = |e: StoredEntryView| is_wanted(e, *request, requester@);
    let mut messages: Vec<StoredMessage> = Vec::new();
    let mut i: usize = 0;
    proof {
        reveal(Seq::filter);
        assert(live.take(0) =~= Seq::<StoredEntryView>::empty());
    }
    while i < store.len() && messages.len() < limit
        invariant
            store@ == live,
            pred == |e: StoredEntryView| is_wanted(e, *request, requester@),
            i <= live.len(),
            messages.len() <= limit,
            messages.len() == live.take(i as int).filter(pred).len(),
            forall|j: int|
                0 <= j < messages.len() ==> (#[trigger] messages@[j])@ == live.take(i as int).filter(
                    pred,
                )[j].message,
        decreases live.len() - i,
    {
        let message = store.message_at(i);
        let wanted = request.admits(message.stored_at) && message.dht_header.destination.matches(
            &requester.public_key,
            &requester.node_id,
        );
        proof {
            lemma_filter_push(live.take(i as int), live[i as int], pred);
            assert(live.take(i + 1) =~= live.take(i as int).push(live[i as int]));
            assert(wanted == pred(live[i as int]));
        }
        if wanted {
            let copy = store.message_at(i).clone();
            messages.push(copy);
        }
        i += 1;
    }
    proof {
        let seen = live.take(i as int);
        let unseen = live.skip(i as int);
        let all = live.filter(pred);
        assert(live =~= seen + unseen);
        Seq::filter_distributes_over_add(seen, unseen, pred);
        assert(all == seen.filter(pred) + unseen.filter(pred));
        if i as int == live.len() {
            assert(unseen =~= Seq::<StoredEntryView>::empty());
            reveal(Seq::filter);
            assert(unseen.filter(pred) =~= Seq::<StoredEntryView>::empty());
        }
        let count = if (limit as nat) < all.len() {
            limit as int
        } else {
            all.len() as int
        };
        assert(count == messages.len());
        assert(all.take(count) =~= seen.filter(pred));
        assert(crate::message::message_views(messages@) =~= all.take(count).map_values(
            |e: StoredEntryView| e.message,
        ));
    }
    messages
}

/// A request for stored messages that has arrived: who asks, and the body
/// that says what for. Next the body is decoded.
#[derive(Debug, PartialEq, Eq)]
pub struct RequestHandler {
    pub config: DhtConfig,
    pub node_identity: NodeIdentity,
    /// The peer that sent the request.
    pub requester: Peer,
    /// The body of the request, decrypted and still encoded.
    pub body: Vec<u8>,
}

/// A request that has been decoded. Next the peer directory says whether
/// `requester` is among the `closest` nodes nearest to `node_id`.
#[derive(Debug, PartialEq, Eq)]
pub struct RegionCheck {
    pub request: StoredMessagesRequest,
    pub requester: Peer,
    /// This node's id.
    pub node_id: NodeId,
    /// How many of the nearest nodes are served.
    pub closest: usize,
    /// The most messages that the response may carry.
    pub limit: usize,
}

/// A request from within the region. Next the store is read.
#[derive(Debug, PartialEq, Eq)]
pub struct StoreRead {
    pub request: StoredMessagesRequest,
    pub requester: Peer,
    /// The most messages that the response may carry.
    pub limit: usize,
}

impl RequestHandler {
    pub fn new(config: DhtConfig, node_identity: NodeIdentity, requester: Peer, body: Vec<u8>) -> (handler:
        Self)
        ensures
            handler.config == config,
            handler.node_identity@ == node_identity@,
            handler.requester@ == requester@,
            handler.body@ == body@,
    {
        RequestHandler { config, node_identity, requester, body }
    }

    /// Takes what decoding the body gave: the request, or nothing if the
    /// body was no request. A body that does not decode ends the handling
    /// with `InvalidEnvelopeBody`; a request goes on to the region check.
    pub fn decoded(self, request: Option<StoredMessagesRequest>) -> (next: Result<
        RegionCheck,
        StoreAndForwardError,
    >)
        ensures
            match next {
                Ok(check) => request == Some(check.request) && check.requester@ == self.requester@
                    && check.node_id@ == self.node_identity@.node_id && check.closest
                    == self.config.saf_num_closest_nodes && check.limit
                    == self.config.saf_max_returned_messages,
                Err(error) => request is None && error == StoreAndForwardError::InvalidEnvelopeBody,
            },
    {
        match request {
            Some(request) => Ok(
                RegionCheck {
                    request,
                    requester: self.requester,
                    node_id: self.node_identity.node_id,
                    closest: self.config.saf_num_closest_nodes,
                    limit: self.config.saf_max_returned_messages,
                },
            ),
            None => Err(StoreAndForwardError::InvalidEnvelopeBody),
        }
    }
}

impl RegionCheck {
    /// Reads the peer directory's report of the peers nearest to this node,
    /// the nearest first, and finds whether the requester is within the
    /// region.
    pub fn in_region(&self, nearest: &Vec<NodeId>) -> (inside: bool)
        ensures
            inside == in_region(self.requester@.node_id, node_id_views(nearest@), self.closest as nat),
    {
        in_network_region(&self.requester.node_id, nearest, self.closest)
    }

    /// Takes the verdict of the region policy. A requester outside the region is
    /// refused without a word: nothing is read, nothing is sent, and the
    /// handling ends well. A requester within it is served from the store.
    pub fn resolved(self, in_region: bool) -> (next: Option<StoreRead>)
        ensures
            match next {
                Some(read) => in_region && read.request == self.request && read.requester@
                    == self.requester@ && read.limit == self.limit,
                None => !in_region,
            },
    {
        if in_region {
            Some(StoreRead { request: self.request, requester: self.requester, limit: self.limit })
        } else {
            None
        }
    }
}

impl StoreRead {
    /// Reads the store at `now` and builds the reply. Without a store to
    /// read, the handling ends with `StoreUnavailable`. With one, the reply
    /// goes to the requester and carries what the request selects, be it
    /// nothing at all; expired entries leave the store on the way and
    /// nothing else in it changes.
    pub fn serve(self, store: Option<&mut SafStore>, now: Timestamp) -> (reply: Result<
        OutboundMessage,
        StoreAndForwardError,
    >)
        ensures
            match reply {
                Ok(message) => store matches Some(s) && final(s).is_sound() && final(s).spec_capacity()
                    == s.spec_capacity() && final(s)@ == live_entries(s@, now as int) && message@
                    == stored_messages_reply(
                    self.requester@.public_key,
                    selection(s@, now as int, self.request, self.requester@, self.limit as nat),
                ),
                Err(error) => store is None && error == StoreAndForwardError::StoreUnavailable,
            },
    {
        match store {
            Some(store) => {
                let messages = select_messages(
                    store,
                    &self.request,
                    &self.requester,
                    self.limit,
                    now,
                );
                let payload = StoredMessagesResponse::new(messages);
                Ok(OutboundMessage::stored_messages(self.requester.public_key, payload))
            },
            None => Err(StoreAndForwardError::StoreUnavailable),
        }
    }
}

/// Takes the outbound sender's word on the reply: the request was served if
/// the reply was taken, and failed with `OutboundFailed` if it was not.
pub fn reply_result(sent: bool) -> (result: Result<(), StoreAndForwardError>)
    ensures
        result == if sent {
            Ok::<(), StoreAndForwardError>(())
        } else {
            Err::<(), StoreAndForwardError>(StoreAndForwardError::OutboundFailed)
        },
{
    if sent {
        Ok(())
    } else {
        Err(StoreAndForwardError::OutboundFailed)
    }
}

/// What serving a request comes to: a body that is no request fails, a
/// requester outside the region is passed over in silence, a store that
/// cannot be read fails, and otherwise one reply goes out, which the
/// outbound sender takes or does not. `store` is what the store holds, or
/// nothing if it cannot be read.
pub open spec fn request_effects(
    closest: nat,
    limit: nat,
    requester: PeerView,
    request: Option<StoredMessagesRequest>,
    nearest: Seq<Seq<u8>>,
    store: Option<Seq<StoredEntryView>>,
    now: int,
    sent: bool,
) -> EffectsView {
    match request {
        None => nothing_done(Err(StoreAndForwardError::InvalidEnvelopeBody)),
        Some(request) => if !in_region(requester.node_id, nearest, closest) {
            nothing_done(Ok(()))
        } else {
            match store {
                None => nothing_done(Err(StoreAndForwardError::StoreUnavailable)),
                Some(entries) => EffectsView {
                    outbound: Some(
                        stored_messages_reply(
                            requester.public_key,
                            selection(entries, now, request, requester, limit),
                        ),
                    ),
                    downstream: Seq::empty(),
                    discarded: Seq::empty(),
                    result: if sent {
                        Ok(())
                    } else {
                        Err(StoreAndForwardError::OutboundFailed)
                    },
                },
            }
        },
    }
}

/// Serves a request from the first step to the last, with every answer of
/// the collaborators at hand already: what decoding the body gave, the peer
/// directory's report of the nearest peers, the store if it can be read,
/// the time, and whether the outbound sender takes the reply.
///
/// The store is read only for a request that decodes and comes from within
/// the region; it then loses its expired entries and nothing else.
pub fn handle_stored_messages_request(
    handler: RequestHandler,
    request: Option<StoredMessagesRequest>,
    nearest: &Vec<NodeId>,
    store: Option<&mut SafStore>,
    now: Timestamp,
    sent: bool,
) -> (done: Effects)
    ensures
        done@ == request_effects(
            handler.config.saf_num_closest_nodes as nat,
            handler.config.saf_max_returned_messages as nat,
            handler.requester@,
            request,
            node_id_views(nearest@),
            match store {
                Some(s) => Some(s@),
                None => None,
            },
            now as int,
            sent,
        ),
        store matches Some(s) ==> final(s).spec_capacity() == s.spec_capacity() && final(s)@ == if request
            is Some && in_region(
            handler.requester@.node_id,
            node_id_views(nearest@),
            handler.config.saf_num_closest_nodes as nat,
        ) {
            live_entries(s@, now as int)
        } else {
            s@
        },
        store matches Some(s) ==> request is Some && in_region(
            handler.requester@.node_id,
            node_id_views(nearest@),
            handler.config.saf_num_closest_nodes as nat,
        ) ==> final(s).is_sound(),
{
    let check = match handler.decoded(request) {
        Ok(check) => check,
        Err(error) => {
            return quiet(Err(error));
        },
    };
    let inside = check.in_region(nearest);
    let read = match check.resolved(inside) {
        Some(read) => read,
        None => {
            return quiet(Ok(()));
        },
    };
    match read.serve(store, now) {
        Ok(reply) => {
            let done = Effects {
                outbound: Some(reply),
                downstream: Vec::new(),
                discarded: Vec::new(),
                result: reply_result(sent),
            };
            proof {
                assert(done@.downstream =~= Seq::empty());
            }
            done
        },
        Err(error) => quiet(Err(error)),
    }
}

} // verus!
