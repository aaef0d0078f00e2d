use vstd::prelude::*;

verus! {

/// Who authored a message in the conversation.
#[derive(Clone, Copy, PartialEq, Eq, Structural, Debug)]
pub enum Role {
    System,
    User,
    Assistant,
}

/// The mathematical value of a `ChatMessage`: its role and, when present,
/// its text as a sequence of characters.
#[verifier::ext_equal]
pub ghost struct MessageView {
    pub role: Role,
    pub content: Option<Seq<char>>,
}

/// One role-tagged message of the conversation history.
#[derive(Clone, Debug)]
pub struct ChatMessage {
    pub role: Role,
    pub content: Option<String>,
}

impl View for ChatMessage {
    type V = MessageView;

    open spec fn view(&self) -> MessageView {
        MessageView {
            role: self.role,
            content: match self.content {
                Some(s) => Some(s@),
                None => None,
            },
        }
    }
}

/// The mathematical values of a sequence of messages, in order.
pub open spec fn message_views(messages: Seq<ChatMessage>) -> Seq<MessageView> {
    messages.map_values(|m: ChatMessage| m@)
}

/// Appending a message appends its value to the sequence of values.
pub proof fn lemma_message_views_push(messages: Seq<ChatMessage>, m: ChatMessage)
    ensures
        message_views(messages.push(m)) == message_views(messages).push(m@),
{
    assert(message_views(messages.push(m)) =~= message_views(messages).push(m@));
}

/// A system message carrying the given text.
pub open spec fn system_message_view(content: Seq<char>) -> MessageView {
    MessageView { role: Role::System, content: Some(content) }
}

/// A user message carrying the given text.
pub open spec fn user_message_view(content: Seq<char>) -> MessageView {
    MessageView { role: Role::User, content: Some(content) }
}

/// An assistant message carrying the given text.
pub open spec fn assistant_message_view(content: Seq<char>) -> MessageView {
    MessageView { role: Role::Assistant, content: Some(content) }
}

impl ChatMessage {
    /// An identical copy of the message.
    pub fn duplicate(&self) -> (r: ChatMessage)
        ensures
            r@ == self@,
    {
        ChatMessage {
            role: self.role,
            content: match &self.content {
                Some(s) => Some(s.clone()),
                None => None,
            },
        }
    }
}

} // verus!
