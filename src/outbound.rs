//! Requests from client to server: each gets a fresh id and the current
//! time, and is sent only over a live connection.

use vstd::prelude::*;
use crate::connection::{ConnectionMachine, LinkAction};
use crate::conversation::views;
use crate::protocol::{ImagePayload, WSClientMessage};
use crate::types::{fresh_id, now_millis};

verus! {

/// Why a request could not be sent.
#[derive(Debug, PartialEq, Eq)]
pub enum TransportError {
    /// No connection is open.
    NotConnected,
    /// The request could not be encoded.
    Serialization(String),
    /// Writing to the connection failed.
    SendFailed(String),
}

/// The notification categories the client subscribes to on connecting.
pub open spec fn subscribed_events() -> Seq<Seq<char>> {
    seq!["notifications"@, "reminders"@]
}

/// The id of a client message.
pub open spec fn request_id(m: WSClientMessage) -> Seq<char> {
    match m {
        WSClientMessage::Chat { id, .. } => id@,
        WSClientMessage::Ping { id, .. } => id@,
        WSClientMessage::Subscribe { id, .. } => id@,
        WSClientMessage::ListConversations { id, .. } => id@,
        WSClientMessage::GetHistory { id, .. } => id@,
        WSClientMessage::CreateConversation { id, .. } => id@,
        WSClientMessage::DeleteConversation { id, .. } => id@,
    }
}

/// A chat message in conversation `conv_id`.
pub fn chat_request(conv_id: String, text: String, image: Option<ImagePayload>) -> (r:
    WSClientMessage)
    ensures
        r matches WSClientMessage::Chat { id, conversation_id, body, image: i, reply_to, .. } && id@.len()
            == 36 && conversation_id == conv_id && body == text && i == image && reply_to is None,
{
    WSClientMessage::Chat {
        id: fresh_id(),
        timestamp: now_millis(),
        conversation_id: conv_id,
        body: text,
        image,
        reply_to: None,
    }
}

/// A keep-alive ping.
pub fn ping_request() -> (r: WSClientMessage)
    ensures
        r matches WSClientMessage::Ping { id, .. } && id@.len() == 36,
{
    WSClientMessage::Ping { id: fresh_id(), timestamp: now_millis() }
}

/// The subscription to notifications and reminders.
pub fn subscribe_request() -> (r: WSClientMessage)
    ensures
        r matches WSClientMessage::Subscribe { id, events, .. } && id@.len() == 36 && views(events@)
            == subscribed_events(),
{
    let events = vec!["notifications".to_string(), "reminders".to_string()];
    assert(views(events@) =~= subscribed_events());
    WSClientMessage::Subscribe { id: fresh_id(), timestamp: now_millis(), events }
}

/// A request for the conversation list.
pub fn list_conversations_request() -> (r: WSClientMessage)
    ensures
        r matches WSClientMessage::ListConversations { id, .. } && id@.len() == 36,
{
    WSClientMessage::ListConversations { id: fresh_id(), timestamp: now_millis() }
}

/// A request for the history of conversation `conv_id`.
pub fn get_history_request(conv_id: String, limit: Option<u32>) -> (r: WSClientMessage)
    ensures
        r matches WSClientMessage::GetHistory { id, conversation_id, limit: l, .. } && id@.len()
            == 36 && conversation_id == conv_id && l == limit,
{
    WSClientMessage::GetHistory {
        id: fresh_id(),
        timestamp: now_millis(),
        conversation_id: conv_id,
        limit,
    }
}

/// A request to create a conversation.
pub fn create_conversation_request(title: Option<String>) -> (r: WSClientMessage)
    ensures
        r matches WSClientMessage::CreateConversation { id, title: t, .. } && id@.len() == 36 && t
            == title,
{
    WSClientMessage::CreateConversation { id: fresh_id(), timestamp: now_millis(), title }
}

/// A request to delete conversation `conv_id`.
pub fn delete_conversation_request(conv_id: String) -> (r: WSClientMessage)
    ensures
        r matches WSClientMessage::DeleteConversation { id, conversation_id, .. } && id@.len() == 36
            && conversation_id == conv_id,
{
    WSClientMessage::DeleteConversation {
        id: fresh_id(),
        timestamp: now_millis(),
        conversation_id: conv_id,
    }
}

/// The request an action of the connection machine sends, if it sends one.
pub fn request_for_action(a: LinkAction) -> (r: Option<WSClientMessage>)
    ensures
        a is SendSubscribe ==> (r matches Some(WSClientMessage::Subscribe { events, .. })
            && views(events@) == subscribed_events()),
        a is SendListConversations ==> (r matches Some(WSClientMessage::ListConversations { .. })),
        !(a is SendSubscribe || a is SendListConversations) ==> r is None,
{
    match a {
        LinkAction::SendSubscribe => Some(subscribe_request()),
        LinkAction::SendListConversations => Some(list_conversations_request()),
        _ => None,
    }
}

/// A request may be written only over a live connection.
pub fn check_connected(link: &ConnectionMachine) -> (r: Result<(), TransportError>)
    ensures
        r is Ok <==> link.connected,
        r matches Err(e) ==> e == TransportError::NotConnected,
{
    if link.connected {
        Ok(())
    } else {
        Err(TransportError::NotConnected)
    }
}

/// A chat request ready to be written, with its id (which correlates later
/// answers); fails when no connection is open.
pub fn prepare_chat(
    link: &ConnectionMachine,
    conv_id: String,
    text: String,
    image: Option<ImagePayload>,
) -> (r: Result<(WSClientMessage, String), TransportError>)
    ensures
        r is Err <==> !link.connected,
        r matches Err(e) ==> e == TransportError::NotConnected,
        r matches Ok((m, id)) ==> (m matches WSClientMessage::Chat {
            id: mid,
            conversation_id,
            body,
            image: i,
            reply_to,
            ..
        } && mid == id && conversation_id == conv_id && body == text && i == image
            && reply_to is None && id@.len() == 36),
{
    if !link.connected {
        return Err(TransportError::NotConnected);
    }
    let msg = chat_request(conv_id, text, image);
    let id = match &msg {
        WSClientMessage::Chat { id, .. } => id.clone(),
        _ => String::new(),
    };
    Ok((msg, id))
}

/// Whether the keep-alive task pings now: only while connected and no
/// shutdown was requested; otherwise it ends.
pub fn keep_alive_tick(link: &ConnectionMachine) -> (r: Option<WSClientMessage>)
    ensures
        r is Some <==> (link.connected && !link.shutdown),
        r matches Some(m) ==> m is Ping,
{
    if link.shutdown || !link.connected {
        None
    } else {
        Some(ping_request())
    }
}

} // verus!
