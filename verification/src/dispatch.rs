//! The speech dispatcher.
//!
//! Speakable chunks arrive over an ordered channel and are handed to
//! voice synthesis strictly first-in first-out: chunks of one
//! completion response are published in the order they were emitted,
//! and never interleave with chunks of another response.  The
//! dispatcher keeps a ghost log of everything it has already
//! published, so the FIFO discipline is stated in its contracts.

use vstd::prelude::*;

verus! {

/// The views of a sequence of owned strings.
pub open spec fn spec_views(v: Seq<String>) -> Seq<Seq<char>> {
    v.map_values(|s: String| s@)
}

/// Queues speakable chunks and hands them out in arrival order.
pub struct SpeechDispatcher {
    /// Chunks accepted but not yet published, oldest first.
    pub pending: Vec<String>,
    /// Everything already published, in publication order.
    pub published: Ghost<Seq<Seq<char>>>,
}

impl SpeechDispatcher {
    /// The chunks still waiting, oldest first.
    pub open spec fn pending_chunks(self) -> Seq<Seq<char>> {
        spec_views(self.pending@)
    }

    /// The chunks already published, in publication order.
    pub open spec fn published_chunks(self) -> Seq<Seq<char>> {
        self.published@
    }

    /// The complete order: everything published, then everything
    /// pending.  `enqueue` extends it and `next_chunk` preserves it,
    /// so publication order equals arrival order.
    pub open spec fn order(self) -> Seq<Seq<char>> {
        self.published_chunks() + self.pending_chunks()
    }

    pub fn new() -> (d: SpeechDispatcher)
        ensures
            d.pending_chunks() == Seq::<Seq<char>>::empty(),
            d.published_chunks() == Seq::<Seq<char>>::empty(),
    {
        let d = SpeechDispatcher { pending: Vec::new(), published: Ghost(Seq::empty()) };
        proof {
            assert(d.pending_chunks() =~= Seq::<Seq<char>>::empty());
        }
        d
    }

    /// Accept one chunk at the back of the queue.
    pub fn enqueue(&mut self, chunk: String)
        ensures
            final(self).pending_chunks() == old(self).pending_chunks().push(chunk@),
            final(self).published_chunks() == old(self).published_chunks(),
            final(self).order() == old(self).order().push(chunk@),
    {
        self.pending.push(chunk);
        proof {
            assert(final(self).pending_chunks() =~= old(self).pending_chunks().push(chunk@));
            assert(final(self).order() =~= old(self).order().push(chunk@));
        }
    }

    /// Publish the oldest pending chunk, if any: it is removed from
    /// the front of the queue and appended to the publication log, so
    /// the overall order never changes.
    pub fn next_chunk(&mut self) -> (chunk: Option<String>)
        ensures
            final(self).order() == old(self).order(),
            if old(self).pending_chunks().len() == 0 {
                &&& chunk is None
                &&& final(self).pending_chunks() == old(self).pending_chunks()
                &&& final(self).published_chunks() == old(self).published_chunks()
            } else {
                &&& (chunk matches Some(c) && c@ == old(self).pending_chunks()[0])
                &&& final(self).pending_chunks() == old(self).pending_chunks().drop_first()
                &&& final(self).published_chunks()
                    == old(self).published_chunks().push(old(self).pending_chunks()[0])
            },
    {
        if self.pending.len() == 0 {
            None
        } else {
            let c = self.pending.remove(0);
            proof {
                self.published@ = self.published@.push(c@);
                assert(final(self).pending_chunks() =~= old(self).pending_chunks().drop_first());
                assert(final(self).order() =~= old(self).order());
            }
            Some(c)
        }
    }
}

/// Order preservation: when every chunk of one response is enqueued
/// before any chunk of a later response, the publication order keeps
/// each response's chunks at their own positions — every chunk of the
/// first response precedes every chunk of the second, and each
/// response's internal order is untouched.
pub proof fn lemma_order_preservation(first: Seq<Seq<char>>, second: Seq<Seq<char>>, i: int, j: int)
    requires
        0 <= i < first.len(),
        0 <= j < second.len(),
    ensures
        (first + second)[i] == first[i],
        (first + second)[first.len() + j] == second[j],
        i < first.len() + j,
{
}

} // verus!
