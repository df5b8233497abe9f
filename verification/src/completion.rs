//! The completion streamer.
//!
//! One accumulated utterance becomes one streaming language-model
//! request with a fixed model identifier and a bounded output length.
//! The response's tokens are folded, in order, into an accumulation
//! buffer; every time the buffer ends on a boundary character it is
//! emitted immediately as a speakable chunk — no dwell-time gate on
//! this side, since latency to the first spoken chunk matters most.

use vstd::prelude::*;

use crate::boundary::{is_boundary, spec_is_boundary};
use crate::dispatch::{spec_views, SpeechDispatcher};

verus! {

/// Bound on the model's output length, in tokens.
pub const MAX_COMPLETION_TOKENS: u16 = 512;

/// One streaming chat-completion request: a single user message, a
/// fixed model identifier, and a bounded maximum output length.
pub struct CompletionRequest {
    pub model: String,
    pub max_tokens: u16,
    pub user_message: String,
}

/// Build the request for one utterance.
pub fn build_request(utterance: &str) -> (req: CompletionRequest)
    ensures
        req.model@ == "gpt-4-1106-preview"@,
        req.max_tokens == MAX_COMPLETION_TOKENS,
        req.user_message@ == utterance@,
{
    CompletionRequest {
        model: String::from_str("gpt-4-1106-preview"),
        max_tokens: MAX_COMPLETION_TOKENS,
        user_message: String::from_str(utterance),
    }
}

/// The chunks emitted, and the buffer left over, after folding `toks`
/// in order into a buffer that starts as `buf`: each token is
/// appended, and whenever the buffer passes the boundary test it is
/// emitted whole and cleared.
pub open spec fn spec_chunks(buf: Seq<char>, toks: Seq<Seq<char>>) -> (Seq<Seq<char>>, Seq<char>)
    decreases toks.len(),
{
    if toks.len() == 0 {
        (Seq::<Seq<char>>::empty(), buf)
    } else {
        let prev = spec_chunks(buf, toks.drop_last());
        let grown = prev.1 + toks.last();
        if spec_is_boundary(grown) {
            (prev.0.push(grown), Seq::<char>::empty())
        } else {
            (prev.0, grown)
        }
    }
}

/// The concatenation of a sequence of chunks.
pub open spec fn spec_concat_all(chunks: Seq<Seq<char>>) -> Seq<char>
    decreases chunks.len(),
{
    if chunks.len() == 0 {
        Seq::<char>::empty()
    } else {
        spec_concat_all(chunks.drop_last()) + chunks.last()
    }
}

/// Re-segments one response's token stream into speakable chunks.
pub struct CompletionStreamer {
    /// Model output not yet emitted as a chunk.
    pub buf: String,
}

impl CompletionStreamer {
    pub fn new() -> (s: CompletionStreamer)
        ensures
            s.buf@ == Seq::<char>::empty(),
    {
        CompletionStreamer { buf: String::new() }
    }

    /// Fold one token into the buffer; the buffer is emitted whole,
    /// and cleared, exactly when it now passes the boundary test.
    pub fn push_token(&mut self, token: &str) -> (chunk: Option<String>)
        ensures
            ({
                let grown = old(self).buf@ + token@;
                if spec_is_boundary(grown) {
                    &&& (chunk matches Some(c) && c@ == grown)
                    &&& final(self).buf@ == Seq::<char>::empty()
                } else {
                    &&& chunk is None
                    &&& final(self).buf@ == grown
                }
            }),
    {
        self.buf.append(token);
        if is_boundary(self.buf.as_str()) {
            let chunk = self.buf.clone();
            self.buf = String::new();
            Some(chunk)
        } else {
            None
        }
    }

    /// Consume one response's tokens front to back, handing each
    /// emitted chunk to the dispatcher in emission order.  The chunks
    /// of this response form one contiguous, ordered block at the back
    /// of the dispatcher's queue.
    pub fn process_response(&mut self, tokens: &Vec<String>, dispatcher: &mut SpeechDispatcher)
        ensures
            final(self).buf@ == spec_chunks(old(self).buf@, spec_views(tokens@)).1,
            final(dispatcher).pending_chunks()
                == old(dispatcher).pending_chunks() + spec_chunks(old(self).buf@, spec_views(tokens@)).0,
            final(dispatcher).published_chunks() == old(dispatcher).published_chunks(),
    {
        let ghost buf0 = old(self).buf@;
        let ghost views = spec_views(tokens@);
        let ghost pending0 = old(dispatcher).pending_chunks();
        let n = tokens.len();
        let mut i: usize = 0;
        proof {
            assert(views.take(0) =~= Seq::<Seq<char>>::empty());
            assert(pending0 + spec_chunks(buf0, views.take(0)).0 =~= pending0);
        }
        while i < n
            invariant
                0 <= i <= n,
                n == tokens@.len(),
                views == spec_views(tokens@),
                self.buf@ == spec_chunks(buf0, views.take(i as int)).1,
                dispatcher.pending_chunks() == pending0 + spec_chunks(buf0, views.take(i as int)).0,
                dispatcher.published_chunks() == old(dispatcher).published_chunks(),
            decreases n - i,
        {
            proof {
                assert(views.take(i + 1).drop_last() =~= views.take(i as int));
                assert(views.take(i + 1).last() == tokens@[i as int]@);
            }
            let token = &tokens[i];
            let emitted = self.push_token(token.as_str());
            match emitted {
                Some(chunk) => {
                    proof {
                        assert(spec_chunks(buf0, views.take(i + 1)).0
                            =~= spec_chunks(buf0, views.take(i as int)).0.push(chunk@));
                    }
                    dispatcher.enqueue(chunk);
                    proof {
                        assert(dispatcher.pending_chunks()
                            =~= pending0 + spec_chunks(buf0, views.take(i + 1)).0);
                    }
                },
                None => {
                    proof {
                        assert(spec_chunks(buf0, views.take(i + 1)).0
                            =~= spec_chunks(buf0, views.take(i as int)).0);
                    }
                },
            }
            i += 1;
        }
        proof {
            assert(views.take(n as int) =~= views);
        }
    }
}

/// Nothing is lost or reordered by re-segmentation: the emitted
/// chunks, concatenated in emission order, followed by the leftover
/// buffer, spell out the starting buffer followed by every token in
/// stream order.
pub proof fn lemma_chunks_preserve_text(buf: Seq<char>, toks: Seq<Seq<char>>)
    ensures
        spec_concat_all(spec_chunks(buf, toks).0) + spec_chunks(buf, toks).1
            == buf + spec_concat_all(toks),
    decreases toks.len(),
{
    if toks.len() == 0 {
        assert(spec_concat_all(spec_chunks(buf, toks).0) + spec_chunks(buf, toks).1
            =~= buf + spec_concat_all(toks));
    } else {
        lemma_chunks_preserve_text(buf, toks.drop_last());
        let prev = spec_chunks(buf, toks.drop_last());
        let grown = prev.1 + toks.last();
        assert(spec_concat_all(toks) == spec_concat_all(toks.drop_last()) + toks.last());
        assert(buf + spec_concat_all(toks)
            =~= (spec_concat_all(prev.0) + prev.1) + toks.last());
        if spec_is_boundary(grown) {
            assert(prev.0.push(grown).drop_last() =~= prev.0);
            assert(spec_concat_all(prev.0.push(grown)) == spec_concat_all(prev.0) + grown);
            assert(spec_concat_all(spec_chunks(buf, toks).0) + spec_chunks(buf, toks).1
                =~= (spec_concat_all(prev.0) + prev.1) + toks.last());
        } else {
            assert(spec_concat_all(spec_chunks(buf, toks).0) + spec_chunks(buf, toks).1
                =~= (spec_concat_all(prev.0) + prev.1) + toks.last());
        }
    }
}

} // verus!
