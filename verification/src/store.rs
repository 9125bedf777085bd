//! The bounded store of messages kept for absent peers.
//!
//! Every entry has a key and a time at which it stops counting. The store
//! never holds two entries under one key, nor more entries than its
//! capacity. Expired entries are not sought out: they are skipped by every
//! reader and dropped whenever the store is gone through anyway. The store
//! has no clock of its own; each operation is told what time it is.

use crate::identity::bytes_equal;
use crate::message::{StoredMessage, StoredMessageView, Timestamp};
use crate::sequence::{lemma_filter_keeps_all, lemma_filter_push, reversed};
use vstd::prelude::*;

verus! {

/// What contracts say of one entry of the store.
pub struct StoredEntryView {
    pub key: Seq<u8>,
    pub message: StoredMessageView,
    /// The entry counts while the time is before this.
    pub expires_at: int,
}

/// An entry is live while the time is before its expiry.
pub open spec fn is_live(entry: StoredEntryView, now: int) -> bool {
    now < entry.expires_at
}

/// The entries that are live at `now`, in their order.
pub open spec fn live_entries(entries: Seq<StoredEntryView>, now: int) -> Seq<StoredEntryView> {
    entries.filter(|e: StoredEntryView| is_live(e, now))
}

/// The entries that are live at `now` and stand under another key than
/// `key`, in their order.
pub open spec fn live_others(entries: Seq<StoredEntryView>, key: Seq<u8>, now: int) -> Seq<
    StoredEntryView,
> {
    entries.filter(|e: StoredEntryView| is_live(e, now) && e.key != key)
}

/// No two entries stand under one key.
pub open spec fn keys_distinct(entries: Seq<StoredEntryView>) -> bool {
    forall|i: int, j: int|
        0 <= i < j < entries.len() ==> (#[trigger] entries[i]).key != (#[trigger] entries[j]).key
}

/// When an entry inserted at `now` with a lifetime of `ttl` seconds expires.
/// The end of time is as far as a lifetime reaches.
pub open spec fn expiry(now: int, ttl: int) -> int {
    if now + ttl > i64::MAX {
        i64::MAX as int
    } else {
        now + ttl
    }
}

/// Entry `i` is the oldest: no entry was stored before it, and of those
/// stored at the same time it stands first.
pub open spec fn is_oldest(entries: Seq<StoredEntryView>, i: int) -> bool {
    &&& 0 <= i < entries.len()
    &&& forall|j: int|
        0 <= j < entries.len() ==> entries[i].message.stored_at <= (
        #[trigger] entries[j]).message.stored_at
    &&& forall|j: int|
        0 <= j < i ==> entries[i].message.stored_at < (#[trigger] entries[j]).message.stored_at
}

/// The place of the oldest entry.
pub open spec fn oldest_index(entries: Seq<StoredEntryView>) -> int {
    choose|i: int| is_oldest(entries, i)
}

/// At most one entry is the oldest.
pub proof fn lemma_oldest_is_unique(entries: Seq<StoredEntryView>, i: int, j: int)
    requires
        is_oldest(entries, i),
        is_oldest(entries, j),
    ensures
        i == j,
        oldest_index(entries) == i,
{
    if i < j {
        assert(entries[j].message.stored_at < entries[i].message.stored_at);
    }
    if j < i {
        assert(entries[i].message.stored_at < entries[j].message.stored_at);
    }
    let k = oldest_index(entries);
    if k < i {
        assert(entries[i].message.stored_at < entries[k].message.stored_at);
    }
    if i < k {
        assert(entries[k].message.stored_at < entries[i].message.stored_at);
    }
}

/// What an insertion leaves of the entries that were there: the live
/// entries under other keys, less the oldest of them if they fill the
/// store.
pub open spec fn room_made(entries: Seq<StoredEntryView>, capacity: nat, key: Seq<u8>, now: int) -> Seq<
    StoredEntryView,
> {
    let kept = live_others(entries, key, now);
    if kept.len() < capacity {
        kept
    } else {
        kept.remove(oldest_index(kept))
    }
}

/// What the store holds after an insertion at `now`: what the insertion
/// leaves of the entries that were there, and the new entry last. A store
/// without room for a single entry stays empty.
pub open spec fn after_insert(
    entries: Seq<StoredEntryView>,
    capacity: nat,
    entry: StoredEntryView,
    now: int,
) -> Seq<StoredEntryView> {
    if capacity == 0 {
        Seq::empty()
    } else {
        room_made(entries, capacity, entry.key, now).push(entry)
    }
}

/// An insertion never takes a store beyond its capacity.
pub proof fn lemma_insert_within_capacity(
    entries: Seq<StoredEntryView>,
    capacity: nat,
    entry: StoredEntryView,
    now: int,
)
    requires
        entries.len() <= capacity,
    ensures
        after_insert(entries, capacity, entry, now).len() <= capacity,
{
    let kept = live_others(entries, entry.key, now);
    lemma_filter_entries(entries, |e: StoredEntryView| is_live(e, now) && e.key != entry.key);
    if capacity > 0 && kept.len() >= capacity {
        lemma_oldest_exists(kept);
    }
}

/// Inserting is idempotent: to insert the same entry at the same time once
/// more changes nothing.
pub proof fn lemma_insert_is_idempotent(
    entries: Seq<StoredEntryView>,
    capacity: nat,
    entry: StoredEntryView,
    now: int,
)
    requires
        entries.len() <= capacity,
    ensures
        after_insert(after_insert(entries, capacity, entry, now), capacity, entry, now)
            == after_insert(entries, capacity, entry, now),
{
    if capacity > 0 {
        let pred = |e: StoredEntryView| is_live(e, now) && e.key != entry.key;
        let kept = live_others(entries, entry.key, now);
        let room = room_made(entries, capacity, entry.key, now);
        let once = after_insert(entries, capacity, entry, now);
        assert(once == room.push(entry));
        assert(room.len() < capacity && forall|i: int|
            0 <= i < room.len() ==> pred(#[trigger] room[i])) by {
            lemma_filter_entries(entries, pred);
            if kept.len() >= capacity {
                lemma_oldest_exists(kept);
                let oldest = oldest_index(kept);
                assert forall|i: int| 0 <= i < room.len() implies pred(#[trigger] room[i]) by {
                    if i < oldest {
                        assert(room[i] == kept[i]);
                    } else {
                        assert(room[i] == kept[i + 1]);
                    }
                }
            }
        }
        assert(live_others(once, entry.key, now) == room) by {
            lemma_filter_keeps_all(room, pred);
            lemma_filter_push(room, entry, pred);
            assert(!pred(entry));
        }
    }
}

/// Dropping what has expired changes nothing for those who read the store
/// at that time: the live entries are the same before and after.
pub proof fn lemma_pruning_is_unseen(entries: Seq<StoredEntryView>, now: int)
    ensures
        live_entries(live_entries(entries, now), now) == live_entries(entries, now),
{
    let pred = |e: StoredEntryView| is_live(e, now);
    lemma_filter_entries(entries, pred);
    lemma_filter_keeps_all(live_entries(entries, now), pred);
}

/// A run of entries that is not empty has an oldest entry.
pub proof fn lemma_oldest_exists(entries: Seq<StoredEntryView>)
    requires
        entries.len() > 0,
    ensures
        is_oldest(entries, oldest_index(entries)),
    decreases entries.len(),
{
    if entries.len() == 1 {
        assert(is_oldest(entries, 0));
    } else {
        let before = entries.drop_last();
        lemma_oldest_exists(before);
        let inner = oldest_index(before);
        let last = entries.len() - 1;
        if entries[last].message.stored_at < before[inner].message.stored_at {
            assert forall|j: int| 0 <= j < entries.len() implies entries[last].message.stored_at <= (
            #[trigger] entries[j]).message.stored_at by {
                if j < last {
                    assert(before[j] == entries[j]);
                }
            }
            assert forall|j: int| 0 <= j < last implies entries[last].message.stored_at < (
            #[trigger] entries[j]).message.stored_at by {
                assert(before[j] == entries[j]);
            }
            assert(is_oldest(entries, last));
        } else {
            assert(before[inner] == entries[inner]);
            assert forall|j: int| 0 <= j < entries.len() implies entries[inner].message.stored_at <= (
            #[trigger] entries[j]).message.stored_at by {
                if j < last {
                    assert(before[j] == entries[j]);
                }
            }
            assert forall|j: int| 0 <= j < inner implies entries[inner].message.stored_at < (
            #[trigger] entries[j]).message.stored_at by {
                assert(before[j] == entries[j]);
            }
            assert(is_oldest(entries, inner));
        }
    }
}

/// A filter hands out entries of what it was given, each of which meets the
/// predicate, and keeps keys apart that were apart.
pub proof fn lemma_filter_entries(entries: Seq<StoredEntryView>, pred: spec_fn(StoredEntryView) -> bool)
    ensures
        entries.filter(pred).len() <= entries.len(),
        forall|i: int|
            0 <= i < entries.filter(pred).len() ==> pred(#[trigger] entries.filter(pred)[i])
                && entries.contains(entries.filter(pred)[i]),
        keys_distinct(entries) ==> keys_distinct(entries.filter(pred)),
    decreases entries.len(),
{
    reveal(Seq::filter);
    if entries.len() > 0 {
        let before = entries.drop_last();
        let last = entries.last();
        lemma_filter_entries(before, pred);
        let filtered = entries.filter(pred);
        let inner = before.filter(pred);
        assert forall|i: int| 0 <= i < filtered.len() implies pred(#[trigger] filtered[i])
            && entries.contains(filtered[i]) by {
            if i < inner.len() {
                assert(filtered[i] == inner[i]);
                let j = choose|j: int| 0 <= j < before.len() && before[j] == inner[i];
                assert(entries[j] == filtered[i]);
            } else {
                assert(filtered[i] == last);
                assert(entries[entries.len() - 1] == last);
            }
        }
        if keys_distinct(entries) {
            assert(keys_distinct(before)) by {
                assert forall|i: int, j: int| 0 <= i < j < before.len() implies (
                #[trigger] before[i]).key != (#[trigger] before[j]).key by {
                    assert(before[i] == entries[i]);
                    assert(before[j] == entries[j]);
                }
            }
            assert forall|i: int, j: int| 0 <= i < j < filtered.len() implies (
            #[trigger] filtered[i]).key != (#[trigger] filtered[j]).key by {
                if j < inner.len() {
                    assert(filtered[i] == inner[i]);
                    assert(filtered[j] == inner[j]);
                } else {
                    assert(filtered[j] == last);
                    assert(filtered[i] == inner[i]);
                    let k = choose|k: int| 0 <= k < before.len() && before[k] == inner[i];
                    assert(entries[k] == filtered[i]);
                    assert(entries[entries.len() - 1] == last);
                }
            }
        }
    }
}

/// One entry as the store keeps it.
#[derive(Debug, PartialEq, Eq)]
struct StoreEntry {
    key: Vec<u8>,
    message: StoredMessage,
    expires_at: Timestamp,
}

impl View for StoreEntry {
    type V = StoredEntryView;

    closed spec fn view(&self) -> StoredEntryView {
        StoredEntryView {
            key: self.key@,
            message: self.message@,
            expires_at: self.expires_at as int,
        }
    }
}

spec fn entry_views(entries: Seq<StoreEntry>) -> Seq<StoredEntryView> {
    entries.map_values(|e: StoreEntry| e@)
}

/// The predicate by which the store is gone through: an entry stays if it is
/// live and does not stand under the key that is being replaced.
spec fn stays(key: Option<Seq<u8>>, now: int) -> spec_fn(StoredEntryView) -> bool {
    |e: StoredEntryView|
        is_live(e, now) && match key {
            Some(k) => e.key != k,
            None => true,
        }
}

/// Keeps the entries that are live at `now`, and of those only the ones
/// under another key where a key is given. The order stays.
fn retain(entries: Vec<StoreEntry>, key: Option<&Vec<u8>>, now: Timestamp) -> (kept: Vec<StoreEntry>)
    ensures
        entry_views(kept@) == entry_views(entries@).filter(
            stays(
                match key {
                    Some(k) => Some(k@),
                    None => None,
                },
                now as int,
            ),
        ),
{
    let ghost all = entry_views(entries@);
    let ghost pred = stays(
        match key {
            Some(k) => Some(k@),
            None => None,
        },
        now as int,
    );
    let mut stack = reversed(entries);
    let mut kept: Vec<StoreEntry> = Vec::new();
    let ghost mut done: int = 0;
    proof {
        assert(all.take(0) =~= Seq::<StoredEntryView>::empty());
        reveal(Seq::filter);
        assert(entry_views(kept@) =~= all.take(0).filter(pred));
    }
    while stack.len() > 0
        invariant
            0 <= done <= all.len(),
            all.len() == entries.len(),
            stack.len() == all.len() - done,
            forall|j: int| 0 <= j < stack.len() ==> (#[trigger] stack@[j])@ == all[all.len() - 1 - j],
            entry_views(kept@) == all.take(done).filter(pred),
            pred == stays(
                match key {
                    Some(k) => Some(k@),
                    None => None,
                },
                now as int,
            ),
        decreases stack.len(),
    {
        let ghost top = stack@[stack.len() - 1];
        let ghost before = entry_views(kept@);
        match stack.pop() {
            Some(entry) => {
                assert(entry == top);
                assert(entry@ == all[done]);
                let other = match key {
                    Some(k) => !bytes_equal(&entry.key, k),
                    None => true,
                };
                let keep = now < entry.expires_at && other;
                proof {
                    lemma_filter_push(all.take(done), all[done], pred);
                    assert(all.take(done + 1) =~= all.take(done).push(all[done]));
                    assert(keep == pred(all[done]));
                }
                if keep {
                    kept.push(entry);
                    proof {
                        assert(entry_views(kept@) =~= before.push(all[done]));
                    }
                }
                proof {
                    done = done + 1;
                }
            },
            None => {},
        }
    }
    proof {
        assert(all.take(done) =~= all);
    }
    kept
}

/// Finds the oldest of a run of entries that is not empty.
fn find_oldest(entries: &Vec<StoreEntry>) -> (oldest: usize)
    requires
        entries.len() > 0,
    ensures
        is_oldest(entry_views(entries@), oldest as int),
{
    let mut oldest: usize = 0;
    let mut i: usize = 1;
    while i < entries.len()
        invariant
            1 <= i <= entries.len(),
            is_oldest(entry_views(entries@).take(i as int), oldest as int),
        decreases entries.len() - i,
    {
        let ghost seen = entry_views(entries@).take(i as int);
        let ghost next = entry_views(entries@).take(i + 1);
        if entries[i].message.stored_at < entries[oldest].message.stored_at {
            proof {
                assert forall|j: int| 0 <= j < next.len() implies next[i as int].message.stored_at <= (
                #[trigger] next[j]).message.stored_at by {
                    if j < i {
                        assert(seen[j] == next[j]);
                    }
                }
                assert forall|j: int| 0 <= j < i implies next[i as int].message.stored_at < (
                #[trigger] next[j]).message.stored_at by {
                    assert(seen[j] == next[j]);
                }
            }
            oldest = i;
        } else {
            proof {
                assert forall|j: int| 0 <= j < next.len() implies next[oldest as int].message.stored_at
                    <= (#[trigger] next[j]).message.stored_at by {
                    if j < i {
                        assert(seen[j] == next[j]);
                    }
                }
                assert forall|j: int| 0 <= j < oldest implies next[oldest as int].message.stored_at < (
                #[trigger] next[j]).message.stored_at by {
                    assert(seen[j] == next[j]);
                }
            }
        }
        i += 1;
    }
    proof {
        assert(entry_views(entries@).take(i as int) =~= entry_views(entries@));
    }
    oldest
}

/// The store: its entries in the order in which they came, and the most it
/// may hold.
#[derive(Debug, PartialEq, Eq)]
pub struct SafStore {
    capacity: usize,
    entries: Vec<StoreEntry>,
}

impl View for SafStore {
    type V = Seq<StoredEntryView>;

    closed spec fn view(&self) -> Seq<StoredEntryView> {
        entry_views(self.entries@)
    }
}

impl SafStore {
    /// The most entries the store may hold.
    pub closed spec fn spec_capacity(&self) -> nat {
        self.capacity as nat
    }

    /// A store is sound if it is within its capacity and holds no key twice.
    /// Every store is, at all times: each operation says so of the store it
    /// leaves behind, and the two readers below say so of the store as they
    /// find it.
    pub open spec fn is_sound(&self) -> bool {
        &&& self@.len() <= self.spec_capacity()
        &&& keys_distinct(self@)
    }

    /// What every store upholds: it is within its capacity, and no key
    /// occurs twice.
    #[verifier::type_invariant]
    spec fn wf(&self) -> bool {
        &&& entry_views(self.entries@).len() <= self.capacity
        &&& keys_distinct(entry_views(self.entries@))
    }

    /// An empty store that holds up to `capacity` entries.
    pub fn new(capacity: usize) -> (store: Self)
        ensures
            store.is_sound(),
            store@ == Seq::<StoredEntryView>::empty(),
            store.spec_capacity() == capacity,
    {
        let store = SafStore { capacity, entries: Vec::new() };
        proof {
            assert(store@ =~= Seq::<StoredEntryView>::empty());
        }
        store
    }

    pub fn capacity(&self) -> (capacity: usize)
        ensures
            capacity == self.spec_capacity(),
            self.is_sound(),
    {
        proof {
            use_type_invariant(self);
        }
        self.capacity
    }

    /// How many entries the store holds, the expired ones among them.
    pub fn len(&self) -> (count: usize)
        ensures
            count == self@.len(),
            count <= self.spec_capacity(),
            self.is_sound(),
    {
        proof {
            use_type_invariant(self);
        }
        self.entries.len()
    }

    pub fn is_empty(&self) -> (empty: bool)
        ensures
            empty == (self@.len() == 0),
    {
        self.entries.len() == 0
    }

    /// Puts `message` under `key`, to count for `ttl` seconds from `now`.
    ///
    /// An entry that stood under `key` is replaced, and its lifetime starts
    /// anew. Expired entries are dropped on the way. If the store is then
    /// still full, the entry that was stored first makes room.
    pub fn insert(&mut self, key: Vec<u8>, message: StoredMessage, ttl: u64, now: Timestamp)
        ensures
            final(self).is_sound(),
            final(self).spec_capacity() == old(self).spec_capacity(),
            final(self)@ == after_insert(
                old(self)@,
                old(self).spec_capacity(),
                StoredEntryView {
                    key: key@,
                    message: message@,
                    expires_at: expiry(now as int, ttl as int),
                },
                now as int,
            ),
    {
        let ghost before = self@;
        let ghost pred = |e: StoredEntryView| is_live(e, now as int) && e.key != key@;
        proof {
            use_type_invariant(&*self);
        }
        if self.capacity == 0 {
            proof {
                assert(self@ =~= Seq::<StoredEntryView>::empty());
            }
            return ;
        }
        let mut taken = SafStore { capacity: self.capacity, entries: Vec::new() };
        core::mem::swap(self, &mut taken);
        let SafStore { capacity, entries } = taken;
        let mut kept = retain(entries, Some(&key), now);
        let ghost survivors = entry_views(kept@);
        proof {
            assert(stays(Some(key@), now as int) == pred) by {
                assert forall|e: StoredEntryView| #[trigger] stays(Some(key@), now as int)(e) == pred(e) by {}
                assert(stays(Some(key@), now as int) =~= pred);
            }
            assert(survivors == live_others(before, key@, now as int));
            lemma_filter_entries(before, pred);
        }
        if kept.len() >= capacity {
            let oldest: usize = find_oldest(&kept);
            proof {
                lemma_oldest_is_unique(survivors, oldest as int, oldest as int);
            }
            let _ = kept.remove(oldest);
            proof {
                assert(entry_views(kept@) =~= survivors.remove(oldest as int));
            }
        }
        let ghost room = entry_views(kept@);
        let sum: i128 = now as i128 + ttl as i128;
        let expires_at: i64 = if sum > i64::MAX as i128 {
            i64::MAX
        } else {
            sum as i64
        };
        let entry = StoreEntry { key, message, expires_at };
        kept.push(entry);
        proof {
            assert(entry_views(kept@) =~= room.push(entry@));
            assert forall|i: int| 0 <= i < room.len() implies (#[trigger] room[i]).key != entry@.key
                && survivors.contains(room[i]) by {
                if room.len() == survivors.len() {
                    assert(room[i] == survivors[i]);
                } else {
                    let oldest = oldest_index(survivors);
                    if i < oldest {
                        assert(room[i] == survivors[i]);
                    } else {
                        assert(room[i] == survivors[i + 1]);
                    }
                }
            }
            assert(keys_distinct(room)) by {
                if room.len() != survivors.len() {
                    let oldest = oldest_index(survivors);
                    assert forall|i: int, j: int| 0 <= i < j < room.len() implies (
                    #[trigger] room[i]).key != (#[trigger] room[j]).key by {
                        let a = if i < oldest { i } else { i + 1 };
                        let b = if j < oldest { j } else { j + 1 };
                        assert(room[i] == survivors[a]);
                        assert(room[j] == survivors[b]);
                    }
                } else {
                    assert(room =~= survivors);
                }
            }
        }
        *self = SafStore { capacity, entries: kept };
    }

    /// Drops the entries that have expired at `now`.
    pub fn prune(&mut self, now: Timestamp)
        ensures
            final(self).is_sound(),
            final(self).spec_capacity() == old(self).spec_capacity(),
            final(self)@ == live_entries(old(self)@, now as int),
    {
        let ghost before = self@;
        let ghost pred = |e: StoredEntryView| is_live(e, now as int);
        proof {
            use_type_invariant(&*self);
        }
        let mut taken = SafStore { capacity: self.capacity, entries: Vec::new() };
        core::mem::swap(self, &mut taken);
        let SafStore { capacity, entries } = taken;
        let kept = retain(entries, None, now);
        proof {
            assert(stays(None, now as int) == pred) by {
                assert forall|e: StoredEntryView| #[trigger] stays(None, now as int)(e) == pred(e) by {}
                assert(stays(None, now as int) =~= pred);
            }
            lemma_filter_entries(before, pred);
        }
        *self = SafStore { capacity, entries: kept };
    }

    /// The key of the entry at place `index`.
    pub fn key_at(&self, index: usize) -> (key: &Vec<u8>)
        requires
            index < self@.len(),
        ensures
            key@ == self@[index as int].key,
    {
        &self.entries[index].key
    }

    /// The message of the entry at place `index`.
    pub fn message_at(&self, index: usize) -> (message: &StoredMessage)
        requires
            index < self@.len(),
        ensures
            message@ == self@[index as int].message,
    {
        &self.entries[index].message
    }

    /// Whether the entry at place `index` is live at `now`.
    pub fn is_live_at(&self, index: usize, now: Timestamp) -> (live: bool)
        requires
            index < self@.len(),
        ensures
            live == is_live(self@[index as int], now as int),
    {
        now < self.entries[index].expires_at
    }

    /// Hands out a copy of every entry that is live at `now`, key and
    /// message, in the order in which they came. The expired entries are
    /// dropped from the store on the way.
    pub fn iter(&mut self, now: Timestamp) -> (pairs: Vec<(Vec<u8>, StoredMessage)>)
        ensures
            final(self).is_sound(),
            final(self).spec_capacity() == old(self).spec_capacity(),
            final(self)@ == live_entries(old(self)@, now as int),
            pairs.len() == final(self)@.len(),
            forall|i: int|
                0 <= i < pairs.len() ==> (#[trigger] pairs@[i]).0@ == final(self)@[i].key
                    && pairs@[i].1@ == final(self)@[i].message,
    {
        self.prune(now);
        let mut pairs: Vec<(Vec<u8>, StoredMessage)> = Vec::new();
        let mut i: usize = 0;
        while i < self.entries.len()
            invariant
                i <= self.entries.len(),
                pairs.len() == i,
                forall|j: int|
                    0 <= j < i ==> (#[trigger] pairs@[j]).0@ == self@[j].key && pairs@[j].1@
                        == self@[j].message,
            decreases self.entries.len() - i,
        {
            let key = self.entries[i].key.clone();
            let message = self.entries[i].message.clone();
            pairs.push((key, message));
            i += 1;
        }
        pairs
    }
}

} // verus!
