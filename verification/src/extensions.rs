//! Convenience accessors on messages and message lists.

use vstd::prelude::*;
use crate::transport::{join_strings, spec_join, strs_view};
use crate::types::{
    blocks_view, AssistantMessage, ContentBlock, ContentBlockV, Message, MessageV, ResultMessage,
};

verus! {

broadcast use vstd::seq::Seq::group_seq_extra;

/// The texts of the plain text blocks in a content list, in order.
pub open spec fn spec_text_blocks(bs: Seq<ContentBlockV>) -> Seq<Seq<char>>
    decreases bs.len(),
{
    if bs.len() == 0 {
        Seq::empty()
    } else {
        spec_text_blocks(bs.drop_last()) + match bs.last() {
            ContentBlockV::Text { text } => seq![text],
            _ => Seq::<Seq<char>>::empty(),
        }
    }
}

/// The texts of the text blocks of every assistant message in a list, in
/// order.
pub open spec fn spec_assistant_texts(ms: Seq<MessageV>) -> Seq<Seq<char>>
    decreases ms.len(),
{
    if ms.len() == 0 {
        Seq::empty()
    } else {
        spec_assistant_texts(ms.drop_last()) + match ms.last() {
            MessageV::Assistant(a) => spec_text_blocks(a.content),
            _ => Seq::<Seq<char>>::empty(),
        }
    }
}

/// The views of a message list.
pub open spec fn msgs_view(ms: Seq<Message>) -> Seq<MessageV> {
    ms.map_values(|m: Message| m@)
}

/// Collect the texts of the text blocks of one content list.
fn collect_block_texts(out: &mut Vec<String>, content: &Vec<ContentBlock>)
    ensures
        strs_view(final(out)@) == strs_view(old(out)@) + spec_text_blocks(blocks_view(content@)),
{
    let ghost bv = blocks_view(content@);
    let n = content.len();
    let mut i: usize = 0;
    proof {
        assert(strs_view(out@) + spec_text_blocks(bv.take(0)) =~= strs_view(out@));
    }
    while i < n
        invariant
            n == content@.len(),
            bv == blocks_view(content@),
            i <= n,
            strs_view(out@) == strs_view(old(out)@) + spec_text_blocks(bv.take(i as int)),
        decreases n - i,
    {
        proof {
            assert(bv.take(i + 1).drop_last() =~= bv.take(i as int));
            assert(bv.take(i + 1).last() == bv[i as int]);
            assert(bv[i as int] == content@[i as int]@);
        }
        match &content[i] {
            ContentBlock::Text { text } => {
                out.push(text.clone());
                proof {
                    assert(strs_view(out@) =~= strs_view(old(out)@) + spec_text_blocks(
                        bv.take(i + 1),
                    ));
                }
            },
            _ => {
                proof {
                    assert(strs_view(out@) =~= strs_view(old(out)@) + spec_text_blocks(
                        bv.take(i + 1),
                    ));
                }
            },
        }
        i += 1;
    }
    proof {
        assert(bv.take(n as int) =~= bv);
    }
}

impl Message {
    /// Whether this is an assistant message.
    pub fn is_assistant(&self) -> (r: bool)
        ensures
            r == (self@ is Assistant),
    {
        matches!(self, Message::Assistant(_))
    }

    /// Whether this is a user message.
    pub fn is_user(&self) -> (r: bool)
        ensures
            r == (self@ is User),
    {
        matches!(self, Message::User(_))
    }

    /// Whether this is a result message.
    pub fn is_result(&self) -> (r: bool)
        ensures
            r == (self@ is Result),
    {
        matches!(self, Message::Result(_))
    }

    /// This message as an assistant message, when it is one.
    pub fn as_assistant(&self) -> (r: Option<&AssistantMessage>)
        ensures
            match r {
                Some(a) => self@ == MessageV::Assistant(a@),
                None => !(self@ is Assistant),
            },
    {
        match self {
            Message::Assistant(a) => Some(a),
            _ => None,
        }
    }

    /// This message as a result message, when it is one.
    pub fn as_result(&self) -> (r: Option<&ResultMessage>)
        ensures
            match r {
                Some(m) => self@ == MessageV::Result(m@),
                None => !(self@ is Result),
            },
    {
        match self {
            Message::Result(m) => Some(m),
            _ => None,
        }
    }

    /// The text blocks of an assistant message, joined with newlines;
    /// `None` for any other message.
    pub fn text_content(&self) -> (r: Option<String>)
        ensures
            match r {
                Some(s) => {
                    &&& self@ matches MessageV::Assistant(a) && s@ == spec_join(
                        spec_text_blocks(a.content),
                        "\n"@,
                    )
                },
                None => !(self@ is Assistant),
            },
    {
        match self {
            Message::Assistant(a) => {
                let mut texts: Vec<String> = Vec::new();
                collect_block_texts(&mut texts, &a.content);
                proof {
                    assert(strs_view(texts@) =~= spec_text_blocks(blocks_view(a.content@)));
                }
                Some(join_strings(&texts, "\n"))
            },
            _ => None,
        }
    }
}

/// Convenience accessors on a list of messages.
pub trait MessageVecExt {
    /// Every assistant message, in order.
    fn assistant_messages(&self) -> Vec<&AssistantMessage>;

    /// The text of every assistant text block, joined with newlines.
    fn text_content(&self) -> String;

    /// The last assistant message, when there is one.
    fn last_assistant(&self) -> Option<&AssistantMessage>;

    /// The first result message, when there is one.
    fn result_message(&self) -> Option<&ResultMessage>;

    /// Whether any assistant message is present.
    fn has_assistant_messages(&self) -> bool;

    /// The text of every assistant text block, in order.
    fn text_blocks(&self) -> Vec<String>;
}

impl MessageVecExt for Vec<Message> {
    /// Every assistant message, in order.
    fn assistant_messages(&self) -> (r: Vec<&AssistantMessage>)
        ensures
            forall|k: int| 0 <= k < r@.len() ==> msgs_view(self@).contains(
                MessageV::Assistant(#[trigger] r@[k]@),
            ),
            (exists|i: int| 0 <= i < self@.len() && (#[trigger] self@[i]@) is Assistant) ==> r@.len()
                > 0,
            (forall|i: int| 0 <= i < self@.len() ==> !((#[trigger] self@[i]@) is Assistant))
                ==> r@.len() == 0,
    {
        let mut out: Vec<&AssistantMessage> = Vec::new();
        let n = self.len();
        let mut i: usize = 0;
        while i < n
            invariant
                n == self@.len(),
                i <= n,
                forall|k: int| 0 <= k < out@.len() ==> msgs_view(self@).contains(
                    MessageV::Assistant(#[trigger] out@[k]@),
                ),
                (out@.len() > 0) == (exists|q: int|
                    0 <= q < i && (#[trigger] self@[q]@) is Assistant),
            decreases n - i,
        {
            match &self[i] {
                Message::Assistant(a) => {
                    out.push(a);
                    proof {
                        assert(msgs_view(self@)[i as int] == self@[i as int]@);
                        assert(self@[i as int]@ == MessageV::Assistant(a@));
                        assert(msgs_view(self@).contains(MessageV::Assistant(a@)));
                        assert(0 <= (i as int) && (i as int) < i + 1 && (self@[i as int]@) is Assistant);
                    }
                },
                _ => {
                    proof {
                        assert(!((self@[i as int]@) is Assistant));
                        if exists|q: int| 0 <= q < i + 1 && (#[trigger] self@[q]@) is Assistant {
                            let q = choose|q: int|
                                0 <= q < i + 1 && (#[trigger] self@[q]@) is Assistant;
                            assert(q != i as int);
                            assert(0 <= q < i as int && (self@[q]@) is Assistant);
                        }
                    }
                },
            }
            i += 1;
        }
        out
    }

    /// The text of every assistant text block, joined with newlines.
    fn text_content(&self) -> (r: String)
        ensures
            r@ == spec_join(spec_assistant_texts(msgs_view(self@)), "\n"@),
    {
        let ghost mv = msgs_view(self@);
        let mut texts: Vec<String> = Vec::new();
        let n = self.len();
        let mut i: usize = 0;
        proof {
            assert(strs_view(texts@) =~= spec_assistant_texts(mv.take(0)));
        }
        while i < n
            invariant
                n == self@.len(),
                mv == msgs_view(self@),
                i <= n,
                strs_view(texts@) == spec_assistant_texts(mv.take(i as int)),
            decreases n - i,
        {
            proof {
                assert(mv.take(i + 1).drop_last() =~= mv.take(i as int));
                assert(mv.take(i + 1).last() == mv[i as int]);
                assert(mv[i as int] == self@[i as int]@);
            }
            match &self[i] {
                Message::Assistant(a) => {
                    collect_block_texts(&mut texts, &a.content);
                    proof {
                        assert(strs_view(texts@) =~= spec_assistant_texts(mv.take(i + 1)));
                    }
                },
                _ => {
                    proof {
                        assert(strs_view(texts@) =~= spec_assistant_texts(mv.take(i + 1)));
                    }
                },
            }
            i += 1;
        }
        proof {
            assert(mv.take(n as int) =~= mv);
        }
        join_strings(&texts, "\n")
    }

    /// The last assistant message, when there is one.
    fn last_assistant(&self) -> (r: Option<&AssistantMessage>)
        ensures
            match r {
                Some(a) => exists|i: int|
                    {
                        &&& 0 <= i < self@.len()
                        &&& (#[trigger] self@[i]@) == MessageV::Assistant(a@)
                        &&& forall|k: int| i < k < self@.len() ==> !((#[trigger] self@[k]@)
                            is Assistant)
                    },
                None => forall|i: int| 0 <= i < self@.len() ==> !((#[trigger] self@[i]@)
                    is Assistant),
            },
    {
        let n = self.len();
        let mut i: usize = n;
        while i > 0
            invariant
                n == self@.len(),
                i <= n,
                forall|k: int| i <= k < n ==> !((#[trigger] self@[k]@) is Assistant),
            decreases i,
        {
            i = i - 1;
            match &self[i] {
                Message::Assistant(a) => {
                    proof {
                        assert(self@[i as int]@ == MessageV::Assistant(a@));
                    }
                    return Some(a);
                },
                _ => {},
            }
        }
        None
    }

    /// The first result message, when there is one.
    fn result_message(&self) -> (r: Option<&ResultMessage>)
        ensures
            match r {
                Some(m) => exists|i: int|
                    0 <= i < self@.len() && (#[trigger] self@[i]@) == MessageV::Result(m@),
                None => forall|i: int| 0 <= i < self@.len() ==> !((#[trigger] self@[i]@)
                    is Result),
            },
    {
        let n = self.len();
        let mut i: usize = 0;
        while i < n
            invariant
                n == self@.len(),
                i <= n,
                forall|k: int| 0 <= k < i ==> !((#[trigger] self@[k]@) is Result),
            decreases n - i,
        {
            match &self[i] {
                Message::Result(m) => {
                    proof {
                        assert(self@[i as int]@ == MessageV::Result(m@));
                    }
                    return Some(m);
                },
                _ => {},
            }
            i += 1;
        }
        None
    }

    /// Whether any assistant message is present.
    fn has_assistant_messages(&self) -> (r: bool)
        ensures
            r == exists|i: int| 0 <= i < self@.len() && (#[trigger] self@[i]@) is Assistant,
    {
        let n = self.len();
        let mut i: usize = 0;
        while i < n
            invariant
                n == self@.len(),
                i <= n,
                forall|k: int| 0 <= k < i ==> !((#[trigger] self@[k]@) is Assistant),
            decreases n - i,
        {
            match &self[i] {
                Message::Assistant(_) => {
                    proof {
                        assert((self@[i as int]@) is Assistant);
                    }
                    return true;
                },
                _ => {},
            }
            i += 1;
        }
        false
    }

    /// The text of every assistant text block, in order.
    fn text_blocks(&self) -> (r: Vec<String>)
        ensures
            strs_view(r@) == spec_assistant_texts(msgs_view(self@)),
    {
        let ghost mv = msgs_view(self@);
        let mut texts: Vec<String> = Vec::new();
        let n = self.len();
        let mut i: usize = 0;
        proof {
            assert(strs_view(texts@) =~= spec_assistant_texts(mv.take(0)));
        }
        while i < n
            invariant
                n == self@.len(),
                mv == msgs_view(self@),
                i <= n,
                strs_view(texts@) == spec_assistant_texts(mv.take(i as int)),
            decreases n - i,
        {
            proof {
                assert(mv.take(i + 1).drop_last() =~= mv.take(i as int));
                assert(mv.take(i + 1).last() == mv[i as int]);
                assert(mv[i as int] == self@[i as int]@);
            }
            match &self[i] {
                Message::Assistant(a) => {
                    collect_block_texts(&mut texts, &a.content);
                    proof {
                        assert(strs_view(texts@) =~= spec_assistant_texts(mv.take(i + 1)));
                    }
                },
                _ => {
                    proof {
                        assert(strs_view(texts@) =~= spec_assistant_texts(mv.take(i + 1)));
                    }
                },
            }
            i += 1;
        }
        proof {
            assert(mv.take(n as int) =~= mv);
        }
        texts
    }
}

} // verus!
