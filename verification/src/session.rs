use vstd::prelude::*;

use crate::conversation::{seeded, ConversationLog};
use crate::models::ChatWsRequest;
use crate::text::joined_snippets;

verus! {

/// The lifecycle of one connection: awaiting the next frame, processing one
/// turn, or closed for good.
#[derive(Clone, Copy, PartialEq, Eq, Structural, Debug)]
pub enum SessionState {
    AwaitingFrame,
    ProcessingTurn,
    Closed,
}

/// An inbound frame after the transport layer has decoded it.
#[derive(Debug)]
pub enum SessionEvent {
    /// A text frame whose payload decoded into a chat request.
    ChatRequest(ChatWsRequest),
    /// A text frame whose payload failed to decode.
    MalformedFrame,
    /// A ping, pong or binary frame: liveness only.
    KeepAlive,
    /// The peer's close frame.
    CloseFrame,
}

/// What the caller must do next with the connection.
#[derive(Debug)]
pub enum SessionAction {
    /// Run one completion turn for this chat text, tagging every forwarded
    /// fragment with the given ordinal for client-side rendering.
    StartTurn { ordinal: usize, chat: String },
    /// Nothing to do; await the next frame.
    Ignore,
    /// Stop reading frames; the session is over.
    Disconnect,
}

/// The per-connection state machine. It decides — from its state and the
/// decoded frame — whether to seed the conversation, start a turn, ignore
/// the frame, or tear the session down; the caller performs the I/O and
/// reports each turn's outcome back through `finish_turn`.
pub struct ConnectionSession {
    state: SessionState,
}

impl View for ConnectionSession {
    type V = SessionState;

    closed spec fn view(&self) -> SessionState {
        self.state
    }
}

impl ConnectionSession {
    /// A session fresh from the upgrade handshake, awaiting its first frame.
    pub fn new() -> (r: ConnectionSession)
        ensures
            r@ == SessionState::AwaitingFrame,
    {
        ConnectionSession { state: SessionState::AwaitingFrame }
    }

    /// The session's current lifecycle state.
    pub fn state(&self) -> (s: SessionState)
        ensures
            s == self@,
    {
        self.state
    }

    /// Takes one decoded inbound frame. A closed session processes nothing.
    /// A close frame closes the session. Malformed payloads and keep-alive
    /// frames change nothing — the turn of a request that failed to decode
    /// never starts, so the log does not grow. A chat request seeds the
    /// conversation (first turn only, by log emptiness), computes the
    /// turn's ordinal — the log length before the new user message — and
    /// moves the session into its turn.
    pub fn on_event(&mut self, log: &mut ConversationLog, event: SessionEvent) -> (r:
        SessionAction)
        requires
            old(self)@ != SessionState::ProcessingTurn,
        ensures
            old(log)@.is_prefix_of(final(log)@),
            old(self)@ == SessionState::Closed ==> final(self)@ == SessionState::Closed
                && final(log)@ == old(log)@ && r is Disconnect,
            old(self)@ == SessionState::AwaitingFrame ==> match event {
                SessionEvent::ChatRequest(req) => {
                    &&& final(self)@ == SessionState::ProcessingTurn
                    &&& final(log)@ == seeded(
                        old(log)@,
                        joined_snippets(req.context@.map_values(|s: String| s@)),
                    )
                    &&& (r matches SessionAction::StartTurn { ordinal, chat }
                        && ordinal == final(log)@.len() && chat@ == req.chat@)
                },
                SessionEvent::MalformedFrame => final(self)@ == SessionState::AwaitingFrame
                    && final(log)@ == old(log)@ && r is Ignore,
                SessionEvent::KeepAlive => final(self)@ == SessionState::AwaitingFrame
                    && final(log)@ == old(log)@ && r is Ignore,
                SessionEvent::CloseFrame => final(self)@ == SessionState::Closed
                    && final(log)@ == old(log)@ && r is Disconnect,
            },
    {
        proof {
            assert(old(log)@.subrange(0, old(log)@.len() as int) =~= old(log)@);
        }
        if matches!(self.state, SessionState::Closed) {
            SessionAction::Disconnect
        } else {
            match event {
                SessionEvent::ChatRequest(req) => {
                    log.seed_system_context(&req.context);
                    let ordinal = log.len();
                    self.state = SessionState::ProcessingTurn;
                    SessionAction::StartTurn { ordinal, chat: req.chat }
                },
                SessionEvent::MalformedFrame => SessionAction::Ignore,
                SessionEvent::KeepAlive => SessionAction::Ignore,
                SessionEvent::CloseFrame => {
                    self.state = SessionState::Closed;
                    SessionAction::Disconnect
                },
            }
        }
    }

    /// Ends the current turn once its flush loop has returned: a failed
    /// downstream send is terminal for the connection, anything else puts
    /// the session back to awaiting the next frame.
    pub fn finish_turn(&mut self, send_failed: bool)
        requires
            old(self)@ == SessionState::ProcessingTurn,
        ensures
            final(self)@ == if send_failed {
                SessionState::Closed
            } else {
                SessionState::AwaitingFrame
            },
    {
        if send_failed {
            self.state = SessionState::Closed;
        } else {
            self.state = SessionState::AwaitingFrame;
        }
    }
}

} // verus!
