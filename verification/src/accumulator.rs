//! The utterance accumulator.
//!
//! Transcript fragments (and chat-bypass messages) are appended to a
//! single text buffer.  The buffer is flushed as one model-ready
//! utterance only when it passes the boundary test **and** at least the
//! minimum dwell time has elapsed since the previous flush; until then
//! it keeps growing.  One accumulator processes one input at a time,
//! in arrival order.

use vstd::prelude::*;

use crate::boundary::{is_boundary, spec_is_boundary};

verus! {

/// Default minimum dwell time between flushes, in milliseconds.
pub const DEFAULT_DWELL_MS: u64 = 500;

/// The result of appending `frag` to the buffer `buf`: a single
/// separating space is inserted when the buffer does not already end
/// in a space and the fragment does not bring its own.
pub open spec fn spec_append(buf: Seq<char>, frag: Seq<char>) -> Seq<char> {
    if buf.len() > 0 && buf.last() != ' ' && frag.len() > 0 && frag[0] != ' ' {
        buf + seq![' '] + frag
    } else {
        buf + frag
    }
}

/// The flush condition: the buffer passes the boundary test and the
/// dwell time has elapsed since the previous flush.
pub open spec fn spec_should_flush(buf: Seq<char>, last_flush_ms: u64, now_ms: u64, dwell_ms: u64) -> bool {
    spec_is_boundary(buf) && now_ms >= last_flush_ms + dwell_ms
}

/// How one call of `UtteranceAccumulator::push` relates the state
/// after (`post`) to the state before (`pre`): the fragment is
/// appended, and the whole buffer is flushed as `flushed` exactly when
/// the appended buffer passes the boundary test and the dwell time has
/// elapsed.
pub open spec fn spec_push_outcome(
    pre: UtteranceAccumulator,
    post: UtteranceAccumulator,
    frag: Seq<char>,
    now_ms: u64,
    flushed: Option<String>,
) -> bool {
    let appended = spec_append(pre.buf@, frag);
    &&& post.dwell_ms == pre.dwell_ms
    &&& if spec_should_flush(appended, pre.last_flush_ms, now_ms, pre.dwell_ms) {
        &&& (flushed matches Some(u) && u@ == appended)
        &&& post.buf@ == Seq::<char>::empty()
        &&& post.last_flush_ms == now_ms
    } else {
        &&& flushed is None
        &&& post.buf@ == appended
        &&& post.last_flush_ms == pre.last_flush_ms
    }
}

/// One turn's worth of user input being accumulated.
pub struct UtteranceAccumulator {
    /// The text buffered since the last flush.
    pub buf: String,
    /// When the buffer was last flushed, in milliseconds.
    pub last_flush_ms: u64,
    /// Minimum time between flushes, in milliseconds.
    pub dwell_ms: u64,
}

impl UtteranceAccumulator {
    /// An empty accumulator whose dwell timer starts at `now_ms`.
    pub fn new(dwell_ms: u64, now_ms: u64) -> (acc: UtteranceAccumulator)
        ensures
            acc.buf@ == Seq::<char>::empty(),
            acc.last_flush_ms == now_ms,
            acc.dwell_ms == dwell_ms,
    {
        UtteranceAccumulator { buf: String::new(), last_flush_ms: now_ms, dwell_ms }
    }

    /// An empty accumulator with the default dwell time.
    pub fn with_default_dwell(now_ms: u64) -> (acc: UtteranceAccumulator)
        ensures
            acc.buf@ == Seq::<char>::empty(),
            acc.last_flush_ms == now_ms,
            acc.dwell_ms == DEFAULT_DWELL_MS,
    {
        Self::new(DEFAULT_DWELL_MS, now_ms)
    }

    /// Append one fragment, then flush if and only if the appended
    /// buffer passes the boundary test and the dwell time has elapsed.
    /// On a flush the whole buffer is emitted as the utterance, the
    /// buffer is cleared, and the dwell timer is reset to `now_ms`.
    pub fn push(&mut self, fragment: &str, now_ms: u64) -> (flushed: Option<String>)
        requires
            old(self).last_flush_ms <= now_ms,
        ensures
            spec_push_outcome(*old(self), *final(self), fragment@, now_ms, flushed),
    {
        let buf_len = self.buf.as_str().unicode_len();
        let frag_len = fragment.unicode_len();
        let needs_sep = buf_len > 0 && self.buf.as_str().get_char(buf_len - 1) != ' '
            && frag_len > 0 && fragment.get_char(0) != ' ';
        if needs_sep {
            self.buf.append(" ");
            proof {
                reveal_strlit(" ");
                assert(" "@ =~= seq![' ']);
            }
        }
        self.buf.append(fragment);
        proof {
            assert(self.buf@ == spec_append(old(self).buf@, fragment@));
        }
        self.try_flush(now_ms)
    }

    /// Poll the accumulator: flush if and only if the buffer as it
    /// stands passes the boundary test and the dwell time has elapsed.
    pub fn tick(&mut self, now_ms: u64) -> (flushed: Option<String>)
        requires
            old(self).last_flush_ms <= now_ms,
        ensures
            final(self).dwell_ms == old(self).dwell_ms,
            if spec_should_flush(old(self).buf@, old(self).last_flush_ms, now_ms, old(self).dwell_ms) {
                &&& (flushed matches Some(u) && u@ == old(self).buf@)
                &&& final(self).buf@ == Seq::<char>::empty()
                &&& final(self).last_flush_ms == now_ms
            } else {
                &&& flushed is None
                &&& final(self).buf@ == old(self).buf@
                &&& final(self).last_flush_ms == old(self).last_flush_ms
            },
    {
        self.try_flush(now_ms)
    }

    fn try_flush(&mut self, now_ms: u64) -> (flushed: Option<String>)
        requires
            old(self).last_flush_ms <= now_ms,
        ensures
            final(self).dwell_ms == old(self).dwell_ms,
            if spec_should_flush(old(self).buf@, old(self).last_flush_ms, now_ms, old(self).dwell_ms) {
                &&& (flushed matches Some(u) && u@ == old(self).buf@)
                &&& final(self).buf@ == Seq::<char>::empty()
                &&& final(self).last_flush_ms == now_ms
            } else {
                &&& flushed is None
                &&& final(self).buf@ == old(self).buf@
                &&& final(self).last_flush_ms == old(self).last_flush_ms
            },
    {
        if is_boundary(self.buf.as_str()) && now_ms - self.last_flush_ms >= self.dwell_ms {
            let utterance = self.buf.clone();
            self.buf = String::new();
            self.last_flush_ms = now_ms;
            Some(utterance)
        } else {
            None
        }
    }
}

/// Flush timing, fast side: while the dwell time has not elapsed, no
/// flush occurs, whatever the buffer holds.
pub proof fn lemma_no_flush_before_dwell(buf: Seq<char>, last_flush_ms: u64, now_ms: u64, dwell_ms: u64)
    requires
        now_ms < last_flush_ms + dwell_ms,
    ensures
        !spec_should_flush(buf, last_flush_ms, now_ms, dwell_ms),
{
}

/// Flush timing, slow side: once the dwell time has elapsed, a buffer
/// that passes the boundary test flushes immediately.
pub proof fn lemma_flush_after_dwell(buf: Seq<char>, last_flush_ms: u64, now_ms: u64, dwell_ms: u64)
    requires
        now_ms >= last_flush_ms + dwell_ms,
        spec_is_boundary(buf),
    ensures
        spec_should_flush(buf, last_flush_ms, now_ms, dwell_ms),
{
}

} // verus!
