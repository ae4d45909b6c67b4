//! The wire protocol: the messages the client sends and the messages the
//! server sends, as plain data. Timestamps are milliseconds since the Unix
//! epoch; on the wire each message is an object tagged by `type`.

use vstd::prelude::*;

verus! {

/// Messages sent from client to server.
#[derive(Debug, Clone, PartialEq, Eq)]
pub enum WSClientMessage {
    Chat {
        id: String,
        timestamp: i64,
        conversation_id: String,
        body: String,
        image: Option<ImagePayload>,
        reply_to: Option<String>,
    },
    Ping { id: String, timestamp: i64 },
    Subscribe { id: String, timestamp: i64, events: Vec<String> },
    ListConversations { id: String, timestamp: i64 },
    GetHistory { id: String, timestamp: i64, conversation_id: String, limit: Option<u32> },
    CreateConversation { id: String, timestamp: i64, title: Option<String> },
    DeleteConversation { id: String, timestamp: i64, conversation_id: String },
}

/// An image on the wire: base64 data and its mimetype.
#[derive(Debug, Clone, PartialEq, Eq)]
pub struct ImagePayload {
    pub data: String,
    pub mimetype: String,
}

/// Messages received from the server.
#[derive(Debug, Clone, PartialEq, Eq)]
pub enum WSServerMessage {
    Response {
        id: String,
        timestamp: i64,
        reply_to: String,
        conversation_id: Option<String>,
        body: String,
        image: Option<ImagePayload>,
    },
    Pong { id: String, timestamp: i64 },
    Notification { id: String, timestamp: i64, title: String, body: String, category: String },
    Error {
        id: String,
        timestamp: i64,
        reply_to: Option<String>,
        conversation_id: Option<String>,
        code: String,
        message: String,
    },
    Typing {
        id: String,
        timestamp: i64,
        reply_to: String,
        conversation_id: Option<String>,
        is_typing: bool,
    },
    ConversationsList { id: String, timestamp: i64, conversations: Vec<ConversationInfo> },
    History { id: String, timestamp: i64, conversation_id: String, messages: Vec<HistoryMessage> },
    ConversationCreated {
        id: String,
        timestamp: i64,
        conversation_id: String,
        title: Option<String>,
    },
    ConversationDeleted { id: String, timestamp: i64, conversation_id: String },
}

/// One entry of the server's conversation list.
#[derive(Debug, Clone, PartialEq, Eq)]
pub struct ConversationInfo {
    pub id: String,
    pub last_message: Option<String>,
    pub last_message_time: Option<i64>,
    pub message_count: u32,
}

/// One record of a conversation's history.
#[derive(Debug, Clone, PartialEq, Eq)]
pub struct HistoryMessage {
    pub role: String,
    pub content: String,
    pub timestamp: Option<i64>,
}

} // verus!
