//! Core of a streaming chat relay: an append-only conversation history, a
//! producer/consumer token buffer, the completion-driving turn logic, the
//! flush protocol that forwards buffered text downstream, and the
//! per-connection state machine that sequences them.
pub mod accumulator;
pub mod chat;
pub mod conversation;
pub mod delta;
pub mod flush;
pub mod message;
pub mod models;
pub mod session;
pub mod text;
