//! The response-scoped view of the message stream.
//!
//! The engine's outbound channel yields every message of the session.  A
//! response-scoped stream ends by itself right after a result message — or
//! when the channel closes — so callers never detect the terminal
//! condition themselves.  The asynchronous stream object lives in the
//! unverified runtime and calls [`ResponseFilter::step`] once per poll.

use vstd::prelude::*;
use crate::types::{Message, MessageV};

verus! {

/// What the response-scoped stream does on one poll.
pub enum StreamStep {
    /// Yield this message to the caller.
    Yield(Message),
    /// The stream has ended; yield nothing, now or ever again.
    End,
}

/// The termination state of one response-scoped stream.
pub struct ResponseFilter {
    pub terminated: bool,
}

impl ResponseFilter {
    /// A fresh, open stream.
    pub fn new() -> (r: ResponseFilter)
        ensures
            !r.terminated,
    {
        ResponseFilter { terminated: false }
    }

    /// Decide one poll: `item` is the next message from the engine's
    /// channel, or `None` when the channel has closed.
    ///
    /// Once terminated, the stream ends forever.  A result message is
    /// yielded and then terminates the stream; a closed channel terminates
    /// it with nothing yielded.
    pub fn step(&mut self, item: Option<Message>) -> (out: StreamStep)
        ensures
            old(self).terminated ==> (out is End && final(self).terminated),
            !old(self).terminated ==> match item {
                None => out is End && final(self).terminated,
                Some(m) => {
                    &&& out matches StreamStep::Yield(y) && y == m
                    &&& final(self).terminated == (m@ is Result)
                },
            },
    {
        if self.terminated {
            return StreamStep::End;
        }
        match item {
            None => {
                self.terminated = true;
                StreamStep::End
            },
            Some(m) => {
                if matches!(m, Message::Result(_)) {
                    self.terminated = true;
                }
                StreamStep::Yield(m)
            },
        }
    }
}

/// The messages an open response-scoped stream yields from a sequence of
/// channel items: every message up to and including the first result
/// message, or all of them when no result message arrives before the
/// channel closes.
pub open spec fn spec_response_prefix(ms: Seq<MessageV>) -> Seq<MessageV>
    decreases ms.len(),
{
    if ms.len() == 0 {
        Seq::empty()
    } else if ms[0] is Result {
        seq![ms[0]]
    } else {
        seq![ms[0]] + spec_response_prefix(ms.drop_first())
    }
}

/// The response-scoped stream always terminates right after yielding the
/// first result message, even when further messages would have been
/// available: what it yields is exactly the prefix through that message.
pub proof fn lemma_response_scope_terminates(ms: Seq<MessageV>, i: int)
    requires
        0 <= i < ms.len(),
        ms[i] is Result,
        forall|k: int| 0 <= k < i ==> !(#[trigger] ms[k] is Result),
    ensures
        spec_response_prefix(ms) == ms.take(i + 1),
        spec_response_prefix(ms).len() == i + 1,
        spec_response_prefix(ms).last() is Result,
    decreases i,
{
    if i == 0 {
        assert(spec_response_prefix(ms) =~= ms.take(1));
    } else {
        assert(!(ms[0] is Result));
        let rest = ms.drop_first();
        assert(rest[i - 1] == ms[i]);
        assert forall|k: int| 0 <= k < i - 1 implies !(#[trigger] rest[k] is Result) by {
            assert(rest[k] == ms[k + 1]);
        }
        lemma_response_scope_terminates(rest, i - 1);
        assert(spec_response_prefix(ms) =~= ms.take(i + 1));
    }
}

/// When the channel closes without a result message ever arriving, the
/// response-scoped stream yields everything and then ends.
pub proof fn lemma_response_scope_closes(ms: Seq<MessageV>)
    requires
        forall|k: int| 0 <= k < ms.len() ==> !(#[trigger] ms[k] is Result),
    ensures
        spec_response_prefix(ms) == ms,
    decreases ms.len(),
{
    if ms.len() > 0 {
        let rest = ms.drop_first();
        assert forall|k: int| 0 <= k < rest.len() implies !(#[trigger] rest[k] is Result) by {
            assert(rest[k] == ms[k + 1]);
        }
        lemma_response_scope_closes(rest);
        assert(spec_response_prefix(ms) =~= ms);
    }
}

} // verus!
