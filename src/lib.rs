//! Client-side transport and state-synchronisation layer of a chat
//! assistant: wire protocol, event bus, connection lifecycle and the
//! reconciliation of optimistic local state with server responses.

pub mod app_state;
pub mod chat;
pub mod connection;
pub mod conversation;
pub mod conversations;
pub mod dispatch;
pub mod events;
pub mod media;
pub mod outbound;
pub mod protocol;
pub mod settings;
pub mod text;
pub mod types;
