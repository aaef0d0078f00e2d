use vstd::prelude::*;

use crate::text::{concat_frags, lemma_concat_frags_push, lemma_concat_frags_take_step};

verus! {

use vstd::string::StringExecFns;

/// The shared buffer of one turn, written by the completion task and drained
/// by the flush loop: text fragments awaiting forwarding, plus the turn's
/// completion flag. Two ghost fields keep the full history of the traffic —
/// all text ever pushed and all text ever drained — so that contracts can
/// speak about the whole stream and not just the current buffer.
pub struct TokenAccumulator {
    buffer: Vec<String>,
    done: bool,
    pushed: Ghost<Seq<char>>,
    drained: Ghost<Seq<char>>,
}

impl TokenAccumulator {
    /// The fragments currently buffered, in arrival order.
    pub closed spec fn buffered(self) -> Seq<Seq<char>> {
        self.buffer@.map_values(|s: String| s@)
    }

    /// All text pushed so far, concatenated in arrival order.
    pub closed spec fn pushed_text(self) -> Seq<char> {
        self.pushed@
    }

    /// All text drained so far, concatenated in drain order.
    pub closed spec fn drained_text(self) -> Seq<char> {
        self.drained@
    }

    /// Whether the producer has signalled the end of the turn.
    pub closed spec fn is_complete(self) -> bool {
        self.done
    }

    /// Every pushed character is either already drained or still buffered,
    /// in order: the accumulator neither loses nor reorders text.
    pub open spec fn wf(self) -> bool {
        self.pushed_text() == self.drained_text() + concat_frags(self.buffered())
    }

    /// A fresh accumulator for one turn: empty and not yet complete.
    pub fn new() -> (r: TokenAccumulator)
        ensures
            r.wf(),
            !r.is_complete(),
            r.buffered() == Seq::<Seq<char>>::empty(),
            r.pushed_text() == Seq::<char>::empty(),
            r.drained_text() == Seq::<char>::empty(),
    {
        let r = TokenAccumulator {
            buffer: Vec::new(),
            done: false,
            pushed: Ghost(Seq::empty()),
            drained: Ghost(Seq::empty()),
        };
        proof {
            assert(r.buffered() =~= Seq::<Seq<char>>::empty());
            assert(r.drained_text() + concat_frags(r.buffered()) =~= r.pushed_text());
        }
        r
    }

    /// Appends one fragment to the buffer; the producer's half of the turn.
    pub fn push(&mut self, fragment: String)
        requires
            old(self).wf(),
        ensures
            final(self).wf(),
            final(self).is_complete() == old(self).is_complete(),
            final(self).buffered() == old(self).buffered().push(fragment@),
            final(self).pushed_text() == old(self).pushed_text() + fragment@,
            final(self).drained_text() == old(self).drained_text(),
    {
        let ghost f = fragment@;
        self.pushed = Ghost(self.pushed@ + fragment@);
        self.buffer.push(fragment);
        proof {
            assert(self.buffered() =~= old(self).buffered().push(f));
            lemma_concat_frags_push(old(self).buffered(), f);
            assert(self.drained_text() + concat_frags(self.buffered())
                =~= old(self).pushed_text() + f);
        }
    }

    /// Atomically removes all buffered fragments and returns their
    /// concatenation in arrival order; empty text when nothing is buffered.
    pub fn drain(&mut self) -> (r: String)
        requires
            old(self).wf(),
        ensures
            final(self).wf(),
            final(self).is_complete() == old(self).is_complete(),
            r@ == concat_frags(old(self).buffered()),
            final(self).buffered() == Seq::<Seq<char>>::empty(),
            final(self).pushed_text() == old(self).pushed_text(),
            final(self).drained_text() == old(self).drained_text() + r@,
    {
        let mut out = String::new();
        let n = self.buffer.len();
        let mut i: usize = 0;
        while i < n
            invariant
                i <= n,
                *self == *old(self),
                n == self.buffer.len(),
                out@ == concat_frags(self.buffered().take(i as int)),
            decreases n - i,
        {
            proof {
                lemma_concat_frags_take_step(self.buffered(), i as int);
            }
            let fragment: &String = &self.buffer[i];
            out.append(fragment.as_str());
            i += 1;
        }
        assert(self.buffered().take(n as int) =~= self.buffered());
        self.buffer.clear();
        self.drained = Ghost(self.drained@ + out@);
        proof {
            assert(self.buffered() =~= Seq::<Seq<char>>::empty());
            assert(self.drained_text() + concat_frags(self.buffered())
                =~= old(self).pushed_text());
        }
        out
    }

    /// Sets the completion flag; called exactly once per turn, after the
    /// producer's last push.
    pub fn mark_done(&mut self)
        requires
            old(self).wf(),
            !old(self).is_complete(),
        ensures
            final(self).wf(),
            final(self).is_complete(),
            final(self).buffered() == old(self).buffered(),
            final(self).pushed_text() == old(self).pushed_text(),
            final(self).drained_text() == old(self).drained_text(),
    {
        self.done = true;
    }

    /// Reads the completion flag; the consumer's check before each drain.
    pub fn is_done(&self) -> (r: bool)
        ensures
            r == self.is_complete(),
    {
        self.done
    }
}

/// Ordering law: the text drained so far is always a prefix of the text
/// pushed so far, and once the buffer is empty the two are equal — every
/// fragment pushed is forwarded, exactly once, in push order.
pub proof fn lemma_drains_match_pushes(acc: TokenAccumulator)
    requires
        acc.wf(),
    ensures
        acc.drained_text().is_prefix_of(acc.pushed_text()),
        acc.buffered().len() == 0 ==> acc.drained_text() == acc.pushed_text(),
{
    assert(acc.pushed_text().subrange(0, acc.drained_text().len() as int)
        =~= acc.drained_text());
    if acc.buffered().len() == 0 {
        assert(acc.drained_text() + concat_frags(acc.buffered()) =~= acc.drained_text());
    }
}

} // verus!
