//! The ordered track list of one session. Index 0, when present, is the
//! playing (or about-to-play) entry; indices 1 and above are pending.
//! Clearing and shuffling touch the pending suffix alone and never move or
//! drop the head.

use vstd::prelude::*;
use vstd::seq_lib::group_to_multiset_ensures;
use rand::Rng;
use crate::metadata::Metadata;

verus! {

/// One queued track: its resolved metadata, bound to the originating command
/// interaction; the interaction is absent when the track was started without
/// a command to follow up on.
pub struct QueueEntry {
    pub metadata: Metadata,
    /// An identifier the embedding program uses to find the interaction that
    /// asked for the track.
    pub context: Option<u64>,
}

impl Clone for QueueEntry {
    fn clone(&self) -> (r: Self)
        ensures
            r == *self,
    {
        QueueEntry { metadata: self.metadata.clone(), context: self.context }
    }
}

/// The pending suffix of a queue: everything after the head.
pub open spec fn pending_of(q: Seq<QueueEntry>) -> Seq<QueueEntry> {
    if q.len() == 0 {
        Seq::empty()
    } else {
        q.subrange(1, q.len() as int)
    }
}

/// Relies on rand: `rand::rng()` hands out the thread's generator and
/// `Rng::random_range(0..n)` returns a value below `n`; it panics only on an
/// empty range, which `n >= 1` rules out.
#[verifier::external_body]
fn random_below(n: usize) -> (r: usize)
    requires
        1 <= n,
    ensures
        r < n,
{
    rand::rng().random_range(0..n)
}

/// The ordered track list of one session.
pub struct TrackQueue {
    entries: Vec<QueueEntry>,
}

impl View for TrackQueue {
    type V = Seq<QueueEntry>;

    closed spec fn view(&self) -> Seq<QueueEntry> {
        self.entries@
    }
}

impl TrackQueue {
    /// An empty queue.
    pub fn new() -> (q: TrackQueue)
        ensures
            q@ =~= Seq::<QueueEntry>::empty(),
    {
        TrackQueue { entries: Vec::new() }
    }

    pub fn len(&self) -> (n: usize)
        ensures
            n == self@.len(),
    {
        self.entries.len()
    }

    pub fn is_empty(&self) -> (r: bool)
        ensures
            r <==> self@.len() == 0,
    {
        self.entries.is_empty()
    }

    /// The playing entry, when there is one.
    pub fn head(&self) -> (r: Option<&QueueEntry>)
        ensures
            self@.len() == 0 ==> r is None,
            self@.len() >= 1 ==> (r matches Some(e) && *e == self@[0]),
    {
        if self.entries.len() == 0 {
            None
        } else {
            Some(&self.entries[0])
        }
    }

    /// Append an entry at the tail; the new length is its queue position.
    pub fn enqueue(&mut self, e: QueueEntry) -> (n: usize)
        ensures
            final(self)@ =~= old(self)@.push(e),
            n == final(self)@.len(),
    {
        self.entries.push(e);
        self.entries.len()
    }

    /// Drop the head once it has finished playing; pending entries move down.
    pub fn advance(&mut self)
        requires
            old(self)@.len() >= 1,
        ensures
            final(self)@ =~= pending_of(old(self)@),
    {
        let _ = self.entries.remove(0);
        assert(self@ =~= pending_of(old(self)@));
    }

    /// Remove every pending entry; the head stays and stays first.
    pub fn clear_pending(&mut self)
        requires
            old(self)@.len() >= 1,
        ensures
            final(self)@ =~= seq![old(self)@[0]],
    {
        self.entries.truncate(1);
        assert(self@ =~= seq![old(self)@[0]]);
    }

    /// Permute the pending entries in place: the head never moves, and what
    /// is pending afterwards is exactly what was pending before, as a
    /// multiset — a permutation, not a resample.
    pub fn shuffle_pending(&mut self)
        requires
            old(self)@.len() >= 1,
        ensures
            final(self)@.len() == old(self)@.len(),
            final(self)@[0] == old(self)@[0],
            pending_of(final(self)@).to_multiset() =~= pending_of(old(self)@).to_multiset(),
    {
        broadcast use group_to_multiset_ensures;

        let ghost orig = self.entries@;
        let mut rest = self.entries.split_off(1);
        let ghost pending = rest@;
        assert(self.entries@ =~= seq![orig[0]]);
        assert(pending =~= pending_of(orig));
        while rest.len() > 0
            invariant
                self.entries@.len() >= 1,
                self.entries@[0] == orig[0],
                self.entries@.len() + rest@.len() == orig.len(),
                pending_of(self.entries@).to_multiset().add(rest@.to_multiset()) =~= pending.to_multiset(),
            decreases rest@.len(),
        {
            let ghost entries0 = self.entries@;
            let ghost rest0 = rest@;
            let i = random_below(rest.len());
            let e = rest.remove(i);
            self.entries.push(e);
            proof {
                assert(rest0.contains(e)) by {
                    assert(rest0[i as int] == e);
                }
                vstd::seq_lib::to_multiset_contains::<QueueEntry>(rest0, e);
                vstd::seq_lib::to_multiset_remove::<QueueEntry>(rest0, i as int);
                assert(pending_of(self.entries@) =~= pending_of(entries0).push(e));
                vstd::seq_lib::to_multiset_build::<QueueEntry>(pending_of(entries0), e);
                assert(pending_of(self.entries@).to_multiset().add(rest@.to_multiset())
                    =~= pending.to_multiset());
            }
        }
        proof {
            assert(rest@ =~= Seq::<QueueEntry>::empty());
            assert forall|x: QueueEntry| rest@.to_multiset().count(x) == 0 by {
                vstd::seq_lib::to_multiset_contains::<QueueEntry>(rest@, x);
            }
            assert(pending_of(self.entries@).to_multiset() =~= pending.to_multiset());
        }
    }

    /// A read-only copy of the pending entries' metadata, in order, the head
    /// excluded.
    pub fn snapshot_pending(&self) -> (r: Vec<Metadata>)
        ensures
            r@.len() == pending_of(self@).len(),
            forall|i: int| 0 <= i < r@.len() ==> r@[i] == pending_of(self@)[i].metadata,
    {
        let mut out: Vec<Metadata> = Vec::new();
        let mut i: usize = 1;
        if self.entries.len() == 0 {
            return out;
        }
        while i < self.entries.len()
            invariant
                1 <= i <= self.entries.len(),
                out@.len() == i - 1,
                forall|j: int| 0 <= j < out@.len() ==> out@[j] == self.entries@[j + 1].metadata,
            decreases self.entries.len() - i,
        {
            out.push(self.entries[i].metadata.clone());
            i = i + 1;
        }
        out
    }
}

} // verus!
