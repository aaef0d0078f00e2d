use vstd::prelude::*;

use crate::accumulator::TokenAccumulator;
use crate::conversation::ConversationLog;
use crate::delta::{
    absorbed_len, delta_views, fragment_text, lemma_absorbed_len_conflict,
    lemma_absorbed_len_mergeable, lemma_stream_text_take_step, mergeable, stream_text,
    ProviderDelta,
};
use crate::message::{
    assistant_message_view, lemma_message_views_push, message_views, system_message_view,
    user_message_view, ChatMessage, MessageView, Role,
};

verus! {

use vstd::string::StringExecFns;

/// Why a turn produced no assistant message.
#[derive(Clone, Copy, PartialEq, Eq, Structural, Debug)]
pub enum TurnError {
    /// The upstream transport or stream failed mid-turn.
    Stream,
    /// Two deltas of the turn were structurally incompatible.
    Merge,
    /// The stream ended without yielding a single delta.
    EmptyCompletion,
}

/// Merges the deltas of one streamed completion, in arrival order, into the
/// turn's final assistant text, handing every non-empty fragment to the
/// accumulator along the way.
pub struct DeltaMerger {
    merged_id: Option<u64>,
    text: String,
}

impl DeltaMerger {
    /// The stream identifier of the deltas merged so far, if any arrived.
    pub closed spec fn stream_id(self) -> Option<u64> {
        self.merged_id
    }

    /// The text merged so far, in arrival order.
    pub closed spec fn merged_text(self) -> Seq<char> {
        self.text@
    }

    /// A merger that has seen no delta yet.
    pub fn new() -> (r: DeltaMerger)
        ensures
            r.stream_id() is None,
            r.merged_text() == Seq::<char>::empty(),
    {
        DeltaMerger { merged_id: None, text: String::new() }
    }

    /// Takes one delta: its non-empty fragment is pushed into the
    /// accumulator first, then the delta is merged — which fails, leaving
    /// the merger unchanged, when the delta belongs to a different stream
    /// than its predecessors.
    pub fn absorb(&mut self, delta: &ProviderDelta, acc: &mut TokenAccumulator) -> (r: Result<
        (),
        TurnError,
    >)
        requires
            old(acc).wf(),
        ensures
            final(acc).wf(),
            final(acc).is_complete() == old(acc).is_complete(),
            final(acc).drained_text() == old(acc).drained_text(),
            final(acc).pushed_text() == old(acc).pushed_text() + fragment_text(delta@),
            (r is Ok) <==> (old(self).stream_id() is None
                || old(self).stream_id() == Some(delta.id)),
            r is Ok ==> final(self).stream_id() == Some(delta.id),
            r is Ok ==> final(self).merged_text() == old(self).merged_text()
                + fragment_text(delta@),
            r is Err ==> *final(self) == *old(self),
            r is Err ==> r == Err::<(), TurnError>(TurnError::Merge),
    {
        match &delta.fragment {
            Some(f) => {
                if !f.as_str().is_empty() {
                    acc.push(f.clone());
                } else {
                    proof {
                        assert(old(acc).pushed_text() + fragment_text(delta@)
                            =~= old(acc).pushed_text());
                    }
                }
            },
            None => {
                proof {
                    assert(old(acc).pushed_text() + fragment_text(delta@)
                        =~= old(acc).pushed_text());
                }
            },
        }
        match self.merged_id {
            None => {
                self.merged_id = Some(delta.id);
                match &delta.fragment {
                    Some(f) => self.text.append(f.as_str()),
                    None => {
                        proof {
                            assert(old(self).merged_text() + fragment_text(delta@)
                                =~= old(self).merged_text());
                        }
                    },
                }
                Ok(())
            },
            Some(id) => {
                if id == delta.id {
                    match &delta.fragment {
                        Some(f) => self.text.append(f.as_str()),
                        None => {
                            proof {
                                assert(old(self).merged_text() + fragment_text(delta@)
                                    =~= old(self).merged_text());
                            }
                        },
                    }
                    Ok(())
                } else {
                    Err(TurnError::Merge)
                }
            },
        }
    }

    /// The turn's final assistant message: the merged text of every delta,
    /// or an error when no delta ever arrived.
    pub fn finish(self) -> (r: Result<ChatMessage, TurnError>)
        ensures
            (r is Ok) <==> (self.stream_id() is Some),
            r matches Ok(m) ==> m@ == assistant_message_view(self.merged_text()),
            r is Err ==> r == Err::<ChatMessage, TurnError>(TurnError::EmptyCompletion),
    {
        match self.merged_id {
            Some(_) => Ok(ChatMessage { role: Role::Assistant, content: Some(self.text) }),
            None => Err(TurnError::EmptyCompletion),
        }
    }
}

/// Drives one full request/response cycle per user turn against the
/// upstream completion provider: it appends the user's message, consumes
/// the provider's delta stream, merges it into the assistant's reply, and
/// always signals completion to the flush loop.
pub struct ChatService {}

impl ChatService {
    pub fn new() -> (r: ChatService) {
        ChatService {}
    }

    /// The conversation opening: a single system message carrying the given
    /// text.
    pub fn get_base_messages(system_message: &str) -> (r: Vec<ChatMessage>)
        ensures
            message_views(r@) == seq![system_message_view(system_message@)],
    {
        let mut messages: Vec<ChatMessage> = Vec::new();
        let opening = ChatService::gen_sys_message(system_message);
        let ghost m = opening;
        messages.push(opening);
        proof {
            lemma_message_views_push(Seq::<ChatMessage>::empty(), m);
            assert(message_views(Seq::<ChatMessage>::empty())
                =~= Seq::<MessageView>::empty());
            assert(message_views(messages@)
                =~= seq![system_message_view(system_message@)]);
        }
        messages
    }

    /// A system message carrying the given text.
    pub fn gen_sys_message(system_message: &str) -> (r: ChatMessage)
        ensures
            r@ == system_message_view(system_message@),
    {
        ChatMessage { role: Role::System, content: Some(String::from_str(system_message)) }
    }

    /// A user message carrying the given text.
    pub fn gen_user_message(user_message: &str) -> (r: ChatMessage)
        ensures
            r@ == user_message_view(user_message@),
    {
        ChatMessage { role: Role::User, content: Some(String::from_str(user_message)) }
    }

    /// Consumes the turn's delta stream in arrival order: every non-empty
    /// fragment is pushed into the accumulator, every delta merged into the
    /// final completion. `stream_failed` says that the upstream transport
    /// failed after yielding these deltas; the merged message is then
    /// discarded. Merging stops at the first incompatible delta.
    pub fn listen_for_tokens(
        &self,
        deltas: &Vec<ProviderDelta>,
        stream_failed: bool,
        acc: &mut TokenAccumulator,
    ) -> (r: Result<ChatMessage, TurnError>)
        requires
            old(acc).wf(),
        ensures
            final(acc).wf(),
            final(acc).is_complete() == old(acc).is_complete(),
            final(acc).drained_text() == old(acc).drained_text(),
            final(acc).pushed_text() == old(acc).pushed_text()
                + stream_text(delta_views(deltas@).take(absorbed_len(delta_views(deltas@)))),
            (r is Ok) <==> (!stream_failed && deltas@.len() > 0
                && mergeable(delta_views(deltas@))),
            r matches Ok(m) ==> m@ == assistant_message_view(stream_text(delta_views(deltas@))),
            !mergeable(delta_views(deltas@)) ==> r == Err::<ChatMessage, TurnError>(
                TurnError::Merge,
            ),
            mergeable(delta_views(deltas@)) && stream_failed ==> r == Err::<
                ChatMessage,
                TurnError,
            >(TurnError::Stream),
            mergeable(delta_views(deltas@)) && !stream_failed && deltas@.len() == 0 ==> r == Err::<
                ChatMessage,
                TurnError,
            >(TurnError::EmptyCompletion),
    {
        let ghost dv = delta_views(deltas@);
        let mut merger = DeltaMerger::new();
        let n = deltas.len();
        let mut i: usize = 0;
        proof {
            assert(stream_text(dv.take(0)) =~= Seq::<char>::empty());
            assert(acc.pushed_text() + stream_text(dv.take(0)) =~= acc.pushed_text());
        }
        while i < n
            invariant
                i <= n,
                n == deltas.len(),
                dv == delta_views(deltas@),
                acc.wf(),
                acc.is_complete() == old(acc).is_complete(),
                acc.drained_text() == old(acc).drained_text(),
                acc.pushed_text() == old(acc).pushed_text() + stream_text(dv.take(i as int)),
                forall|j: int| 0 <= j < i ==> (#[trigger] dv[j].id) == dv[0].id,
                i > 0 ==> merger.stream_id() == Some(dv[0].id),
                i == 0 ==> merger.stream_id() is None,
                merger.merged_text() == stream_text(dv.take(i as int)),
            decreases n - i,
        {
            let delta = &deltas[i];
            proof {
                assert(delta@ == dv[i as int]);
                lemma_stream_text_take_step(dv, i as int);
            }
            let ghost pushed_before = acc.pushed_text();
            let absorbed = merger.absorb(delta, acc);
            proof {
                assert(acc.pushed_text() == pushed_before + fragment_text(dv[i as int]));
                assert((old(acc).pushed_text() + stream_text(dv.take(i as int)))
                    + fragment_text(dv[i as int])
                    =~= old(acc).pushed_text() + stream_text(dv.take(i + 1)));
            }
            match absorbed {
                Ok(()) => {},
                Err(e) => {
                    proof {
                        lemma_absorbed_len_conflict(dv, i as int);
                        assert(!mergeable(dv));
                    }
                    return Err(e);
                },
            }
            i += 1;
        }
        proof {
            assert(mergeable(dv));
            lemma_absorbed_len_mergeable(dv);
            assert(dv.take(n as int) =~= dv);
        }
        if stream_failed {
            Err(TurnError::Stream)
        } else {
            merger.finish()
        }
    }

    /// One full user turn: the user's message is appended to the log, the
    /// provider's delta stream is consumed through `listen_for_tokens`, on
    /// success the merged assistant message is appended after it, and the
    /// accumulator is marked complete on every path — success, stream
    /// failure, merge failure or an empty stream — so the flush loop always
    /// terminates.
    pub fn chat(
        &self,
        user_message: &str,
        log: &mut ConversationLog,
        acc: &mut TokenAccumulator,
        deltas: &Vec<ProviderDelta>,
        stream_failed: bool,
    ) -> (r: Result<(), TurnError>)
        requires
            old(acc).wf(),
            !old(acc).is_complete(),
        ensures
            final(acc).wf(),
            final(acc).is_complete(),
            final(acc).drained_text() == old(acc).drained_text(),
            final(acc).pushed_text() == old(acc).pushed_text()
                + stream_text(delta_views(deltas@).take(absorbed_len(delta_views(deltas@)))),
            old(log)@.is_prefix_of(final(log)@),
            (r is Ok) <==> (!stream_failed && deltas@.len() > 0
                && mergeable(delta_views(deltas@))),
            r is Ok ==> final(log)@ == old(log)@ + seq![
                user_message_view(user_message@),
                assistant_message_view(stream_text(delta_views(deltas@))),
            ],
            r is Err ==> final(log)@ == old(log)@.push(user_message_view(user_message@)),
            !mergeable(delta_views(deltas@)) ==> r == Err::<(), TurnError>(TurnError::Merge),
            mergeable(delta_views(deltas@)) && stream_failed ==> r == Err::<(), TurnError>(
                TurnError::Stream,
            ),
            mergeable(delta_views(deltas@)) && !stream_failed && deltas@.len() == 0 ==> r
                == Err::<(), TurnError>(TurnError::EmptyCompletion),
    {
        let user = ChatService::gen_user_message(user_message);
        log.append(user);
        let outcome = self.listen_for_tokens(deltas, stream_failed, acc);
        match outcome {
            Ok(message) => {
                log.append(message);
                acc.mark_done();
                proof {
                    assert(log@ =~= old(log)@ + seq![
                        user_message_view(user_message@),
                        assistant_message_view(stream_text(delta_views(deltas@))),
                    ]);
                    assert(log@.subrange(0, old(log)@.len() as int) =~= old(log)@);
                }
                Ok(())
            },
            Err(e) => {
                acc.mark_done();
                proof {
                    assert(log@.subrange(0, old(log)@.len() as int) =~= old(log)@);
                }
                Err(e)
            },
        }
    }
}

} // verus!
