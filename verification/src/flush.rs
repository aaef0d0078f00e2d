use vstd::prelude::*;

use crate::accumulator::TokenAccumulator;
use crate::text::concat_frags;

verus! {

/// What one wake of the flush loop observed: the completion flag as it
/// stood before the drain, and the drained text when there was any to
/// forward.
pub struct FlushPoll {
    /// The buffered text, when the drain found any; what the loop forwards
    /// downstream, tagged with the turn's ordinal.
    pub payload: Option<String>,
    /// Whether the producer had already marked the turn complete before the
    /// drain. The loop performs one more poll after observing this, so the
    /// fragment of the final race window is never dropped.
    pub finished: bool,
}

/// One polling step of the flush loop: observe the completion flag, then
/// drain the whole buffer. The caller sleeps a small fixed interval between
/// polls, forwards every payload in order, and leaves after the first poll
/// that follows an observed `finished` — a failed downstream send instead
/// aborts the loop at once.
pub fn flush_poll(acc: &mut TokenAccumulator) -> (r: FlushPoll)
    requires
        old(acc).wf(),
    ensures
        final(acc).wf(),
        r.finished == old(acc).is_complete(),
        final(acc).is_complete() == old(acc).is_complete(),
        final(acc).pushed_text() == old(acc).pushed_text(),
        final(acc).buffered() == Seq::<Seq<char>>::empty(),
        final(acc).drained_text() == old(acc).drained_text()
            + concat_frags(old(acc).buffered()),
        r.payload matches Some(p) ==> p@ == concat_frags(old(acc).buffered())
            && p@.len() > 0,
        r.payload is None ==> concat_frags(old(acc).buffered()).len() == 0,
{
    let finished = acc.is_done();
    let text = acc.drain();
    if text.as_str().is_empty() {
        FlushPoll { payload: None, finished }
    } else {
        FlushPoll { payload: Some(text), finished }
    }
}

} // verus!
