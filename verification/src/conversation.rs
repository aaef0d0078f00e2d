use vstd::prelude::*;

use crate::message::{
    lemma_message_views_push, message_views, system_message_view, ChatMessage, MessageView, Role,
};
use crate::text::{joined_snippets, lemma_joined_snippets_take_step};

verus! {

use vstd::string::StringExecFns;

/// The log after seeding with the given context text: a lone system message
/// when the log was empty, otherwise the log unchanged.
pub open spec fn seeded(log: Seq<MessageView>, context: Seq<char>) -> Seq<MessageView> {
    if log.len() == 0 {
        seq![system_message_view(context)]
    } else {
        log
    }
}

/// The ordered conversation history of one connection: role-tagged messages
/// in chronological turn order, only ever appended to. It is the single
/// source of truth for the context window sent upstream.
pub struct ConversationLog {
    messages: Vec<ChatMessage>,
}

impl View for ConversationLog {
    type V = Seq<MessageView>;

    closed spec fn view(&self) -> Seq<MessageView> {
        message_views(self.messages@)
    }
}

impl ConversationLog {
    /// An empty history, created when the connection is opened.
    pub fn new() -> (r: ConversationLog)
        ensures
            r@ == Seq::<MessageView>::empty(),
    {
        let r = ConversationLog { messages: Vec::new() };
        proof {
            assert(r@ =~= Seq::<MessageView>::empty());
        }
        r
    }

    /// How many messages the history holds.
    pub fn len(&self) -> (n: usize)
        ensures
            n == self@.len(),
    {
        self.messages.len()
    }

    /// A borrow of the message at the given position.
    pub fn message_at(&self, i: usize) -> (m: &ChatMessage)
        requires
            i < self@.len(),
        ensures
            m@ == self@[i as int],
    {
        &self.messages[i]
    }

    /// Appends one message; the history grows and nothing else changes.
    pub fn append(&mut self, message: ChatMessage)
        ensures
            final(self)@ == old(self)@.push(message@),
            old(self)@.is_prefix_of(final(self)@),
    {
        let ghost m = message;
        self.messages.push(message);
        proof {
            lemma_message_views_push(old(self).messages@, m);
            assert(self@.subrange(0, old(self)@.len() as int) =~= old(self)@);
        }
    }

    /// A copy of the current history, in order: the snapshot from which one
    /// upstream completion request is built.
    pub fn snapshot(&self) -> (r: Vec<ChatMessage>)
        ensures
            message_views(r@) == self@,
    {
        let mut copy: Vec<ChatMessage> = Vec::new();
        let n = self.messages.len();
        let mut i: usize = 0;
        proof {
            assert(message_views(copy@) =~= self@.take(0));
        }
        while i < n
            invariant
                i <= n,
                n == self.messages.len(),
                message_views(copy@) == self@.take(i as int),
            decreases n - i,
        {
            let duplicated = self.messages[i].duplicate();
            proof {
                lemma_message_views_push(copy@, duplicated);
                assert(self@[i as int] == self.messages@[i as int]@);
                assert(self@.take(i as int).push(self@[i as int]) =~= self@.take(i + 1));
            }
            copy.push(duplicated);
            i += 1;
        }
        proof {
            assert(self@.take(n as int) =~= self@);
        }
        copy
    }

    /// Seeds the conversation with system context built from the given
    /// snippets: appends exactly one system message joining them when the
    /// log is still empty, and is a no-op otherwise.
    pub fn seed_system_context(&mut self, snippets: &Vec<String>)
        ensures
            final(self)@ == seeded(
                old(self)@,
                joined_snippets(snippets@.map_values(|s: String| s@)),
            ),
            old(self)@.is_prefix_of(final(self)@),
    {
        let ghost snips = snippets@.map_values(|s: String| s@);
        if self.messages.len() == 0 {
            let mut content = String::new();
            let n = snippets.len();
            let mut i: usize = 0;
            while i < n
                invariant
                    i <= n,
                    n == snippets.len(),
                    snips == snippets@.map_values(|s: String| s@),
                    content@ == joined_snippets(snips.take(i as int)),
                decreases n - i,
            {
                proof {
                    lemma_joined_snippets_take_step(snips, i as int);
                }
                if i > 0 {
                    let separator = "\n";
                    proof {
                        reveal_strlit("\n");
                        assert(separator@ =~= seq!['\n']);
                    }
                    content.append(separator);
                }
                let snippet: &String = &snippets[i];
                content.append(snippet.as_str());
                i += 1;
            }
            proof {
                assert(snips.take(n as int) =~= snips);
            }
            let opening = ChatMessage { role: Role::System, content: Some(content) };
            let ghost m = opening;
            self.messages.push(opening);
            proof {
                lemma_message_views_push(old(self).messages@, m);
                assert(message_views(old(self).messages@) =~= Seq::<MessageView>::empty());
                assert(self@ =~= seq![system_message_view(joined_snippets(snips))]);
                assert(self@.subrange(0, old(self)@.len() as int) =~= old(self)@);
            }
        } else {
            proof {
                assert(self@.subrange(0, old(self)@.len() as int) =~= old(self)@);
            }
        }
    }
}

/// Idempotent seeding law: seeding an already-seeded log is a no-op — at
/// most one system message is ever added, no matter how often seeding runs —
/// and a log that already holds messages is never changed by seeding.
pub proof fn lemma_seed_idempotent(log: Seq<MessageView>, first: Seq<char>, second: Seq<char>)
    ensures
        seeded(seeded(log, first), second) == seeded(log, first),
        seeded(log, first).len() <= log.len() + 1,
        log.len() > 0 ==> seeded(log, first) == log,
{
}

} // verus!
