//! Core data model: connection status, messages and their lifecycle.

use vstd::prelude::*;

verus! {

/// Status of the connection to the server, as observed by consumers.
#[derive(Clone, Copy, Debug, PartialEq, Eq, Structural)]
pub enum ConnectionStatus {
    Connecting,
    Connected,
    Disconnected,
    Reconnecting,
}

impl Default for ConnectionStatus {
    fn default() -> (r: Self)
        ensures
            r == ConnectionStatus::Disconnected,
    {
        ConnectionStatus::Disconnected
    }
}

/// Who wrote a message.
#[derive(Clone, Copy, Debug, PartialEq, Eq, Structural)]
pub enum MessageSender {
    User,
    Assistant,
    System,
}

/// Delivery status of a message.
#[derive(Debug, PartialEq, Eq)]
pub enum MessageStatus {
    Sending,
    Sent,
    Delivered,
    Error(String),
}

impl Clone for MessageStatus {
    fn clone(&self) -> (r: Self)
        ensures
            r == *self,
    {
        match self {
            MessageStatus::Sending => MessageStatus::Sending,
            MessageStatus::Sent => MessageStatus::Sent,
            MessageStatus::Delivered => MessageStatus::Delivered,
            MessageStatus::Error(e) => MessageStatus::Error(e.clone()),
        }
    }
}

/// An image attached to a message: base64 payload and its mimetype.
#[derive(Debug, PartialEq, Eq)]
pub struct ImageData {
    pub data: String,
    pub mimetype: String,
}

impl Clone for ImageData {
    fn clone(&self) -> (r: Self)
        ensures
            r == *self,
    {
        ImageData { data: self.data.clone(), mimetype: self.mimetype.clone() }
    }
}

/// Clones an optional image, keeping it equal to the original.
pub fn clone_image(image: &Option<ImageData>) -> (r: Option<ImageData>)
    ensures
        r == *image,
{
    match image {
        Some(i) => Some(i.clone()),
        None => None,
    }
}

/// Clones an optional string, keeping it equal to the original.
pub fn clone_text(text: &Option<String>) -> (r: Option<String>)
    ensures
        r == *text,
{
    match text {
        Some(t) => Some(t.clone()),
        None => None,
    }
}

/// A chat message. `timestamp` is in milliseconds since the Unix epoch.
#[derive(Debug, PartialEq)]
pub struct Message {
    pub id: String,
    pub body: String,
    pub timestamp: i64,
    pub sender: MessageSender,
    pub status: MessageStatus,
    pub image: Option<ImageData>,
}

impl Clone for Message {
    fn clone(&self) -> (r: Self)
        ensures
            r == *self,
    {
        Message {
            id: self.id.clone(),
            body: self.body.clone(),
            timestamp: self.timestamp,
            sender: self.sender,
            status: self.status.clone(),
            image: clone_image(&self.image),
        }
    }
}

/// Relies on `uuid::Uuid::new_v4` and its `Display`: a random identifier,
/// written in the 36-character hyphenated form.
#[verifier::external_body]
pub(crate) fn fresh_id() -> (r: String)
    ensures
        r@.len() == 36,
{
    uuid::Uuid::new_v4().to_string()
}

/// Relies on `chrono::Utc::now` and `DateTime::timestamp_millis`: the current
/// time in milliseconds. Nothing is known of its value.
#[verifier::external_body]
pub(crate) fn now_millis() -> (r: i64) {
    chrono::Utc::now().timestamp_millis()
}

/// Milliseconds since the Unix epoch of the first instant `chrono` represents
/// (January 1 of year -262143, UTC).
pub const MIN_REPRESENTABLE_MILLIS: i64 = -8334601228800000;

/// Milliseconds since the Unix epoch of the last instant `chrono` represents
/// (December 31 of year 262142, 23:59:59.999 UTC).
pub const MAX_REPRESENTABLE_MILLIS: i64 = 8210266876799999;

/// Relies on `chrono::DateTime::from_timestamp_millis`, which round-trips with
/// `timestamp_millis` and returns `None` outside the range from
/// `DateTime::<Utc>::MIN_UTC` to `MAX_UTC`.
#[verifier::external_body]
pub(crate) fn representable_millis(t: i64) -> (r: Option<i64>)
    ensures
        r is Some <==> MIN_REPRESENTABLE_MILLIS <= t <= MAX_REPRESENTABLE_MILLIS,
        r matches Some(v) ==> v == t,
{
    match chrono::DateTime::from_timestamp_millis(t) {
        Some(d) => Some(d.timestamp_millis()),
        None => None,
    }
}

impl Message {
    /// A new message written by the user, waiting to be sent.
    pub fn new_user(body: String) -> (r: Self)
        ensures
            r.body == body,
            r.id@.len() == 36,
            r.sender == MessageSender::User,
            r.status == MessageStatus::Sending,
            r.image is None,
    {
        Message {
            id: fresh_id(),
            body,
            timestamp: now_millis(),
            sender: MessageSender::User,
            status: MessageStatus::Sending,
            image: None,
        }
    }

    /// A new user message with an image attached, waiting to be sent.
    pub fn new_user_with_image(body: String, image: ImageData) -> (r: Self)
        ensures
            r.body == body,
            r.id@.len() == 36,
            r.sender == MessageSender::User,
            r.status == MessageStatus::Sending,
            r.image == Some(image),
    {
        Message {
            id: fresh_id(),
            body,
            timestamp: now_millis(),
            sender: MessageSender::User,
            status: MessageStatus::Sending,
            image: Some(image),
        }
    }

    /// A message from the assistant, delivered on arrival.
    pub fn new_assistant(id: String, body: String, image: Option<ImageData>) -> (r: Self)
        ensures
            r.id == id,
            r.body == body,
            r.sender == MessageSender::Assistant,
            r.status == MessageStatus::Delivered,
            r.image == image,
    {
        Message {
            id,
            body,
            timestamp: now_millis(),
            sender: MessageSender::Assistant,
            status: MessageStatus::Delivered,
            image,
        }
    }

    /// A system notice, delivered on arrival.
    pub fn new_system(body: String) -> (r: Self)
        ensures
            r.body == body,
            r.id@.len() == 36,
            r.sender == MessageSender::System,
            r.status == MessageStatus::Delivered,
            r.image is None,
    {
        Message {
            id: fresh_id(),
            body,
            timestamp: now_millis(),
            sender: MessageSender::System,
            status: MessageStatus::Delivered,
            image: None,
        }
    }
}

} // verus!
