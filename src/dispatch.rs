//! Inbound dispatch: each message from the server becomes zero or one
//! application event.

use vstd::prelude::*;
use vstd::string::*;
use crate::conversation::{short_id, Conversation};
use crate::events::AppEvent;
use crate::protocol::{ConversationInfo, HistoryMessage, ImagePayload, WSServerMessage};
use crate::text::{find_char, first_at, has_prefix, same_text, slice_string, starts_with};
use crate::types::{
    clone_text, fresh_id, now_millis, representable_millis, ImageData, Message, MessageSender,
    MessageStatus, MAX_REPRESENTABLE_MILLIS, MIN_REPRESENTABLE_MILLIS,
};

verus! {

/// `a` is where a line of `s` begins.
pub open spec fn line_start(s: Seq<char>, a: int) -> bool {
    0 <= a < s.len() && (a == 0 || s[a - 1] == '\n')
}

/// Where the line that begins at `a` ends: at the next `\n`, or at the end of `s`.
pub open spec fn line_end(s: Seq<char>, a: int) -> int {
    if exists|k: int| first_at(s, '\n', a, k) {
        choose|k: int| first_at(s, '\n', a, k)
    } else {
        s.len() as int
    }
}

/// The text of the line that begins at `a`, without its line ending
/// (`\n` or `\r\n`).
pub open spec fn line_text(s: Seq<char>, a: int) -> Seq<char> {
    let e = line_end(s, a);
    if e < s.len() && e > a && s[e - 1] == '\r' {
        s.subrange(a, e - 1)
    } else {
        s.subrange(a, e)
    }
}

/// The line that begins at `a` carries the message body.
pub open spec fn is_body_line(s: Seq<char>, a: int) -> bool {
    line_start(s, a) && starts_with(line_text(s, a), "Body: "@)
}

/// `a` begins the first line of `s` that carries the body.
pub open spec fn first_body_line(s: Seq<char>, a: int) -> bool {
    is_body_line(s, a) && forall|b: int| 0 <= b < a ==> !#[trigger] is_body_line(s, b)
}

/// The text a user wrote, from a stored record that may carry a metadata
/// header ("Current Date: ...", then lines up to one "Body: ..."): the text
/// after "Body: " on the first such line; the whole content otherwise.
pub open spec fn displayed_body(content: Seq<char>) -> Seq<char> {
    if starts_with(content, "Current Date:"@) && exists|a: int| first_body_line(content, a) {
        let a = choose|a: int| first_body_line(content, a);
        let t = line_text(content, a);
        t.subrange(6, t.len() as int)
    } else {
        content
    }
}

/// The sender a history role names, if it is a known one.
pub open spec fn role_sender(role: Seq<char>) -> Option<MessageSender> {
    if role == "user"@ {
        Some(MessageSender::User)
    } else if role == "assistant"@ {
        Some(MessageSender::Assistant)
    } else if role == "system"@ {
        Some(MessageSender::System)
    } else {
        None
    }
}

/// A history record with a known role.
pub open spec fn known_record(h: HistoryMessage) -> bool {
    role_sender(h.role@) is Some
}

/// The records of a history that are kept, in order.
pub open spec fn kept_records(hs: Seq<HistoryMessage>) -> Seq<HistoryMessage> {
    hs.filter(known_filter())
}

/// The filter of `kept_records`.
pub open spec fn known_filter() -> spec_fn(HistoryMessage) -> bool {
    |h: HistoryMessage| known_record(h)
}

/// The body shown for a record: user records lose their metadata header.
pub open spec fn record_body(h: HistoryMessage) -> Seq<char> {
    if role_sender(h.role@) == Some(MessageSender::User) {
        displayed_body(h.content@)
    } else {
        h.content@
    }
}

/// `m` is the message made from record `h`, with id `id`.
pub open spec fn message_of_record(m: Message, h: HistoryMessage, id: Seq<char>) -> bool {
    &&& role_sender(h.role@) == Some(m.sender)
    &&& m.id@ == id
    &&& m.body@ == record_body(h)
    &&& m.status == MessageStatus::Delivered
    &&& m.image is None
}

/// `ms` are the messages made from records `hs`, one for one, each with a fresh id.
pub open spec fn from_records(ms: Seq<Message>, hs: Seq<HistoryMessage>) -> bool {
    &&& ms.len() == hs.len()
    &&& forall|i: int|
        0 <= i < ms.len() ==> #[trigger] message_of_record(ms[i], hs[i], ms[i].id@) && ms[i].id@.len()
            == 36
}

/// The image of a message, from its wire form.
pub open spec fn image_of(p: Option<ImagePayload>) -> Option<ImageData> {
    match p {
        Some(i) => Some(ImageData { data: i.data, mimetype: i.mimetype }),
        None => None,
    }
}

/// A time kept only when it is a representable instant.
pub open spec fn representable(t: Option<i64>) -> Option<i64> {
    match t {
        Some(v) => if MIN_REPRESENTABLE_MILLIS <= v <= MAX_REPRESENTABLE_MILLIS {
            Some(v)
        } else {
            None
        },
        None => None,
    }
}

/// `c` is the conversation made from list entry `info`.
pub open spec fn summarises(c: Conversation, info: ConversationInfo) -> bool {
    &&& c.wf()
    &&& c.id == info.id
    &&& c.title@ == "Chat "@ + short_id(info.id@)
    &&& c.messages@.len() == 0
    &&& c.last_message_preview == info.last_message
    &&& c.last_message_time == representable(info.last_message_time)
    &&& c.message_count == info.message_count as usize
    &&& c.pending_messages@.len() == 0
}

/// What the dispatch of `msg` publishes: `r` is the event, or `None` when the
/// message publishes nothing.
pub open spec fn dispatched(msg: WSServerMessage, r: Option<AppEvent>) -> bool {
    match msg {
        WSServerMessage::Response { id, conversation_id, body, image, .. } => match conversation_id {
            Some(c) => r matches Some(AppEvent::MessageReceived { conv_id, message }) && conv_id
                == c && message.id == id && message.body == body && message.sender
                == MessageSender::Assistant && message.status == MessageStatus::Delivered
                && message.image == image_of(image),
            None => r is None,
        },
        WSServerMessage::Typing { conversation_id, is_typing, .. } => match conversation_id {
            Some(c) => r matches Some(AppEvent::TypingChanged { conv_id, is_typing: t }) && conv_id
                == c && t == is_typing,
            None => r is None,
        },
        WSServerMessage::Error { reply_to, conversation_id, message, .. } => {
            if reply_to is Some && conversation_id is Some {
                r matches Some(AppEvent::MessageError { conv_id, msg_id, error }) && conv_id
                    == conversation_id->0 && msg_id == reply_to->0 && error == message
            } else {
                r is None
            }
        },
        WSServerMessage::ConversationsList { conversations, .. } => r matches Some(
            AppEvent::ConversationsLoaded(cs),
        ) && cs@.len() == conversations@.len() && forall|i: int|
            0 <= i < cs@.len() ==> #[trigger] summarises(cs@[i], conversations@[i]),
        WSServerMessage::History { conversation_id, messages, .. } => r matches Some(
            AppEvent::HistoryLoaded { conv_id, messages: ms },
        ) && conv_id == conversation_id && from_records(ms@, kept_records(messages@)),
        WSServerMessage::ConversationCreated { conversation_id, title, .. } => r matches Some(
            AppEvent::ConversationCreated { id, title: t },
        ) && id == conversation_id && t == title,
        WSServerMessage::ConversationDeleted { conversation_id, .. } => r matches Some(
            AppEvent::ConversationDeleted(id),
        ) && id == conversation_id,
        WSServerMessage::Notification { .. } => r is None,
        WSServerMessage::Pong { .. } => r is None,
    }
}

/// The text of a user record as shown: see `displayed_body`.
pub fn strip_metadata(content: &str) -> (r: String)
    ensures
        r@ == displayed_body(content@),
{
    if !has_prefix(content, "Current Date:") {
        return content.to_string();
    }
    let n = content.unicode_len();
    let mut a: usize = 0;
    while a < n
        invariant
            n == content@.len(),
            a <= n,
            a < n ==> line_start(content@, a as int),
            starts_with(content@, "Current Date:"@),
            forall|b: int| 0 <= b < a ==> !#[trigger] is_body_line(content@, b),
        decreases n - a,
    {
        let found = find_char(content, '\n', a);
        let end: usize = match found {
            Some(b) => b,
            None => n,
        };
        proof {
            if let Some(b) = found {
                let k = choose|k: int| first_at(content@, '\n', a as int, k);
                assert(k == b as int);
            }
            assert(line_end(content@, a as int) == end as int);
        }
        let cut: usize = if end < n && end > a && content.get_char(end - 1) == '\r' {
            end - 1
        } else {
            end
        };
        let text = slice_string(content, a, cut);
        assert(text@ == line_text(content@, a as int));
        if has_prefix(text.as_str(), "Body: ") {
            proof {
                reveal_strlit("Body: ");
            }
            let tl = text.as_str().unicode_len();
            let r = slice_string(text.as_str(), 6, tl);
            proof {
                assert(first_body_line(content@, a as int));
                let c = choose|c: int| first_body_line(content@, c);
                assert(c == a as int) by {
                    if c < a {
                    } else if c > a {
                        assert(!is_body_line(content@, a as int));
                    }
                }
            }
            return r;
        }
        proof {
            assert forall|b: int| 0 <= b < end + 1 implies !#[trigger] is_body_line(content@, b) by {
                if a < b <= end && b < n {
                    assert(content@[b - 1] != '\n');
                }
            }
        }
        if end == n {
            a = n;
        } else {
            a = end + 1;
        }
    }
    proof {
        assert(!exists|c: int| first_body_line(content@, c));
    }
    content.to_string()
}

/// The sender named by a history role, if it is a known one.
pub fn sender_of_role(role: &str) -> (r: Option<MessageSender>)
    ensures
        r == role_sender(role@),
{
    if same_text(role, "user") {
        Some(MessageSender::User)
    } else if same_text(role, "assistant") {
        Some(MessageSender::Assistant)
    } else if same_text(role, "system") {
        Some(MessageSender::System)
    } else {
        None
    }
}

/// The message made from a history record, given its id and timestamp;
/// `None` for a record whose role is not known.
pub fn message_from_record(h: &HistoryMessage, id: String, timestamp: i64) -> (r: Option<Message>)
    ensures
        r is Some <==> known_record(*h),
        r matches Some(m) ==> message_of_record(m, *h, id@) && m.timestamp == timestamp,
{
    match sender_of_role(h.role.as_str()) {
        None => None,
        Some(sender) => {
            let body = match sender {
                MessageSender::User => strip_metadata(h.content.as_str()),
                _ => h.content.clone(),
            };
            Some(
                Message {
                    id,
                    body,
                    timestamp,
                    sender,
                    status: MessageStatus::Delivered,
                    image: None,
                },
            )
        },
    }
}

/// The message made from a history record, with a fresh id; its timestamp is
/// the record's when that is a representable instant, and the current time
/// otherwise.
pub fn parse_history_message(h: &HistoryMessage) -> (r: Option<Message>)
    ensures
        r is Some <==> known_record(*h),
        r matches Some(m) ==> message_of_record(m, *h, m.id@) && m.id@.len() == 36,
        r matches Some(m) ==> (representable(h.timestamp) matches Some(t) ==> m.timestamp == t),
{
    let id = fresh_id();
    let stamp = match h.timestamp {
        Some(t) => representable_millis(t),
        None => None,
    };
    let timestamp = match stamp {
        Some(t) => t,
        None => now_millis(),
    };
    message_from_record(h, id, timestamp)
}

/// The messages of a history, records with an unknown role left out.
pub fn parse_history(records: &Vec<HistoryMessage>) -> (r: Vec<Message>)
    ensures
        from_records(r@, kept_records(records@)),
{
    let mut out: Vec<Message> = Vec::new();
    let mut i: usize = 0;
    while i < records.len()
        invariant
            0 <= i <= records@.len(),
            from_records(out@, kept_records(records@.subrange(0, i as int))),
        decreases records@.len() - i,
    {
        let ghost pre = records@.subrange(0, i as int);
        let h = &records[i];
        proof {
            assert(records@.subrange(0, i + 1) =~= pre.push(*h));
            pre.lemma_filter_push(*h, known_filter());
            assert(kept_records(records@.subrange(0, i + 1)) == if known_record(*h) {
                kept_records(pre).push(*h)
            } else {
                kept_records(pre)
            });
        }
        match parse_history_message(h) {
            Some(m) => {
                let ghost before = out@;
                out.push(m);
                proof {
                    let hs = kept_records(pre).push(*h);
                    assert forall|j: int| 0 <= j < out@.len() implies #[trigger] message_of_record(
                        out@[j],
                        hs[j],
                        out@[j].id@,
                    ) && out@[j].id@.len() == 36 by {
                        if j < before.len() {
                            assert(out@[j] == before[j]);
                            assert(message_of_record(before[j], kept_records(pre)[j], before[j].id@));
                        }
                    }
                }
            },
            None => {},
        }
        i = i + 1;
    }
    assert(records@.subrange(0, records@.len() as int) =~= records@);
    out
}

/// The conversations of a conversation list, in order.
pub fn conversations_from_list(infos: &Vec<ConversationInfo>) -> (r: Vec<Conversation>)
    ensures
        r@.len() == infos@.len(),
        forall|i: int| 0 <= i < r@.len() ==> #[trigger] summarises(r@[i], infos@[i]),
{
    let mut out: Vec<Conversation> = Vec::new();
    let mut i: usize = 0;
    while i < infos.len()
        invariant
            0 <= i <= infos@.len(),
            out@.len() == i,
            forall|j: int| 0 <= j < i ==> #[trigger] summarises(out@[j], infos@[j]),
        decreases infos@.len() - i,
    {
        let info = &infos[i];
        let c = Conversation::from_server(
            info.id.clone(),
            clone_text(&info.last_message),
            info.last_message_time,
            info.message_count as usize,
        );
        out.push(c);
        i = i + 1;
    }
    out
}

/// The event that a message from the server publishes, if any.
pub fn dispatch_server_message(msg: WSServerMessage) -> (r: Option<AppEvent>)
    ensures
        dispatched(msg, r),
{
    match msg {
        WSServerMessage::Response { id, conversation_id, body, image, .. } => {
            let image_data = match image {
                Some(i) => Some(ImageData { data: i.data, mimetype: i.mimetype }),
                None => None,
            };
            match conversation_id {
                Some(conv_id) => {
                    let message = Message::new_assistant(id, body, image_data);
                    Some(AppEvent::MessageReceived { conv_id, message })
                },
                None => None,
            }
        },
        WSServerMessage::Typing { conversation_id, is_typing, .. } => match conversation_id {
            Some(conv_id) => Some(AppEvent::TypingChanged { conv_id, is_typing }),
            None => None,
        },
        WSServerMessage::Error { reply_to, conversation_id, message, .. } => {
            match (reply_to, conversation_id) {
                (Some(msg_id), Some(conv_id)) => Some(
                    AppEvent::MessageError { conv_id, msg_id, error: message },
                ),
                _ => None,
            }
        },
        WSServerMessage::ConversationsList { conversations, .. } => {
            Some(AppEvent::ConversationsLoaded(conversations_from_list(&conversations)))
        },
        WSServerMessage::History { conversation_id, messages, .. } => {
            Some(
                AppEvent::HistoryLoaded {
                    conv_id: conversation_id,
                    messages: parse_history(&messages),
                },
            )
        },
        WSServerMessage::ConversationCreated { conversation_id, title, .. } => {
            Some(AppEvent::ConversationCreated { id: conversation_id, title })
        },
        WSServerMessage::ConversationDeleted { conversation_id, .. } => {
            Some(AppEvent::ConversationDeleted(conversation_id))
        },
        WSServerMessage::Notification { .. } => None,
        WSServerMessage::Pong { .. } => None,
    }
}

} // verus!
