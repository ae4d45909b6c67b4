//! The chat feature: per-conversation message lists, the optimistic send,
//! and the reconciliation of pending messages with the server's answers.

use vstd::prelude::*;
use vstd::string::*;
use crate::conversation::{find_id, lemma_push_contains, remove_id, restamped, set_status, views};
use crate::events::AppEvent;
use crate::media::SelectedMedia;
use crate::protocol::ImagePayload;
use crate::types::{ImageData, Message, MessageSender, MessageStatus};

verus! {

/// The messages of one conversation.
#[derive(Debug)]
pub struct Thread {
    pub conv_id: String,
    pub messages: Vec<Message>,
}

/// Conversation ids of the threads are distinct.
pub open spec fn threads_wf(s: Seq<Thread>) -> bool {
    forall|i: int, j: int| 0 <= i < j < s.len() ==> s[i].conv_id@ != s[j].conv_id@
}

/// Some thread is for conversation `id`.
pub open spec fn has_thread(s: Seq<Thread>, id: Seq<char>) -> bool {
    exists|i: int| 0 <= i < s.len() && #[trigger] s[i].conv_id@ == id
}

/// The messages of conversation `id`; none when it has no thread.
pub open spec fn messages_of(s: Seq<Thread>, id: Seq<char>) -> Seq<Message> {
    if has_thread(s, id) {
        s[choose|i: int| 0 <= i < s.len() && #[trigger] s[i].conv_id@ == id].messages@
    } else {
        Seq::empty()
    }
}

/// The threads of `t` hold the same messages as those of `s` for every
/// conversation but `id`.
pub open spec fn others_kept(s: Seq<Thread>, t: Seq<Thread>, id: Seq<char>) -> bool {
    forall|o: Seq<char>| o != id ==> #[trigger] messages_of(t, o) == messages_of(s, o)
}

/// `k` is the most recent message of `msgs` whose id is pending.
pub open spec fn latest_pending(msgs: Seq<Message>, pending: Seq<Seq<char>>, k: int) -> bool {
    &&& 0 <= k < msgs.len()
    &&& pending.contains(msgs[k].id@)
    &&& forall|j: int| k < j < msgs.len() ==> !pending.contains(#[trigger] msgs[j].id@)
}

/// Unicode white space, as `char::is_whitespace` tests it.
pub open spec fn white_space(c: char) -> bool {
    ('\u{9}' <= c <= '\u{d}') || c == ' ' || c == '\u{85}' || c == '\u{a0}' || c == '\u{1680}'
        || ('\u{2000}' <= c <= '\u{200a}') || c == '\u{2028}' || c == '\u{2029}' || c
        == '\u{202f}' || c == '\u{205f}' || c == '\u{3000}'
}

/// `s` holds nothing but white space.
pub open spec fn blank(s: Seq<char>) -> bool {
    forall|i: int| 0 <= i < s.len() ==> white_space(#[trigger] s[i])
}

/// Whether `c` is white space.
pub fn is_white_space(c: char) -> (r: bool)
    ensures
        r == white_space(c),
{
    ('\u{9}' <= c && c <= '\u{d}') || c == ' ' || c == '\u{85}' || c == '\u{a0}' || c
        == '\u{1680}' || ('\u{2000}' <= c && c <= '\u{200a}') || c == '\u{2028}' || c
        == '\u{2029}' || c == '\u{202f}' || c == '\u{205f}' || c == '\u{3000}'
}

/// Whether `s` holds nothing but white space.
pub fn is_blank(s: &str) -> (r: bool)
    ensures
        r == blank(s@),
{
    let n = s.unicode_len();
    let mut i: usize = 0;
    while i < n
        invariant
            n == s@.len(),
            0 <= i <= n,
            forall|j: int| 0 <= j < i ==> white_space(#[trigger] s@[j]),
        decreases n - i,
    {
        if !is_white_space(s.get_char(i)) {
            return false;
        }
        i = i + 1;
    }
    true
}

/// Index of the thread of conversation `id`.
pub fn find_thread(s: &Vec<Thread>, id: &String) -> (r: Option<usize>)
    requires
        threads_wf(s@),
    ensures
        r matches Some(k) ==> k < s@.len() && s@[k as int].conv_id@ == id@ && messages_of(s@, id@)
            == s@[k as int].messages@,
        r is None <==> !has_thread(s@, id@),
        r is None ==> messages_of(s@, id@) == Seq::<Message>::empty(),
{
    let mut i: usize = 0;
    while i < s.len()
        invariant
            threads_wf(s@),
            0 <= i <= s@.len(),
            forall|j: int| 0 <= j < i ==> s@[j].conv_id@ != id@,
        decreases s@.len() - i,
    {
        if s[i].conv_id == *id {
            proof {
                let c = choose|c: int| 0 <= c < s@.len() && #[trigger] s@[c].conv_id@ == id@;
                assert(s@[i as int].conv_id@ == id@);
                if c < i as int {
                    assert(s@[c].conv_id@ != s@[i as int].conv_id@);
                } else if c > i as int {
                    assert(s@[i as int].conv_id@ != s@[c].conv_id@);
                }
            }
            return Some(i);
        }
        i = i + 1;
    }
    None
}

/// Changing one thread in place keeps the other conversations' messages.
proof fn lemma_frame_update(s: Seq<Thread>, t: Seq<Thread>, k: int)
    requires
        threads_wf(s),
        s.len() == t.len(),
        0 <= k < s.len(),
        forall|i: int| 0 <= i < s.len() ==> #[trigger] t[i].conv_id == s[i].conv_id,
        forall|i: int| 0 <= i < s.len() && i != k ==> #[trigger] t[i] == s[i],
    ensures
        threads_wf(t),
        others_kept(s, t, s[k].conv_id@),
        messages_of(t, s[k].conv_id@) == t[k].messages@,
{
    let id = s[k].conv_id@;
    assert forall|i: int, j: int| 0 <= i < j < t.len() implies t[i].conv_id@ != t[j].conv_id@ by {
        assert(t[i].conv_id == s[i].conv_id);
        assert(t[j].conv_id == s[j].conv_id);
    }
    assert forall|o: Seq<char>| o != id implies #[trigger] messages_of(t, o) == messages_of(s, o) by {
        if has_thread(s, o) {
            let js = choose|i: int| 0 <= i < s.len() && #[trigger] s[i].conv_id@ == o;
            assert(t[js].conv_id@ == o);
            let jt = choose|i: int| 0 <= i < t.len() && #[trigger] t[i].conv_id@ == o;
            assert(s[jt].conv_id@ == o);
        } else {
            assert forall|i: int| 0 <= i < t.len() implies #[trigger] t[i].conv_id@ != o by {
                assert(t[i].conv_id == s[i].conv_id);
            }
        }
    }
    let c = choose|i: int| 0 <= i < t.len() && #[trigger] t[i].conv_id@ == id;
    assert(t[k].conv_id@ == id);
}

/// Appending a thread for a new conversation keeps the others.
proof fn lemma_frame_push(s: Seq<Thread>, th: Thread)
    requires
        threads_wf(s),
        !has_thread(s, th.conv_id@),
    ensures
        threads_wf(s.push(th)),
        others_kept(s, s.push(th), th.conv_id@),
        messages_of(s.push(th), th.conv_id@) == th.messages@,
{
    let t = s.push(th);
    let id = th.conv_id@;
    assert forall|i: int, j: int| 0 <= i < j < t.len() implies t[i].conv_id@ != t[j].conv_id@ by {
        if j == s.len() {
            assert(t[i] == s[i]);
        }
    }
    assert forall|o: Seq<char>| o != id implies #[trigger] messages_of(t, o) == messages_of(s, o) by {
        if has_thread(s, o) {
            let js = choose|i: int| 0 <= i < s.len() && #[trigger] s[i].conv_id@ == o;
            assert(t[js].conv_id@ == o);
            let jt = choose|i: int| 0 <= i < t.len() && #[trigger] t[i].conv_id@ == o;
            assert(jt < s.len());
            assert(s[jt].conv_id@ == o);
        } else {
            assert forall|i: int| 0 <= i < t.len() implies #[trigger] t[i].conv_id@ != o by {
                if i < s.len() {
                    assert(t[i] == s[i]);
                }
            }
        }
    }
    assert(t[s.len() as int].conv_id@ == id);
    let c = choose|i: int| 0 <= i < t.len() && #[trigger] t[i].conv_id@ == id;
    assert(c == s.len());
}

/// Removing the thread at `k` keeps the others.
proof fn lemma_frame_remove(s: Seq<Thread>, k: int)
    requires
        threads_wf(s),
        0 <= k < s.len(),
    ensures
        threads_wf(s.remove(k)),
        others_kept(s, s.remove(k), s[k].conv_id@),
        !has_thread(s.remove(k), s[k].conv_id@),
{
    let t = s.remove(k);
    let id = s[k].conv_id@;
    assert forall|i: int| 0 <= i < t.len() implies #[trigger] t[i] == s[if i < k {
        i
    } else {
        i + 1
    }] by {}
    assert forall|i: int, j: int| 0 <= i < j < t.len() implies t[i].conv_id@ != t[j].conv_id@ by {
        let ii = if i < k { i } else { i + 1 };
        let jj = if j < k { j } else { j + 1 };
        assert(t[i] == s[ii] && t[j] == s[jj]);
    }
    assert forall|i: int| 0 <= i < t.len() implies #[trigger] t[i].conv_id@ != id by {
        let ii = if i < k { i } else { i + 1 };
        assert(t[i] == s[ii]);
    }
    assert forall|o: Seq<char>| o != id implies #[trigger] messages_of(t, o) == messages_of(s, o) by {
        if has_thread(s, o) {
            let js = choose|i: int| 0 <= i < s.len() && #[trigger] s[i].conv_id@ == o;
            assert(js != k);
            let jj = if js < k { js } else { js - 1 };
            assert(t[jj] == s[js]);
            assert(t[jj].conv_id@ == o);
            let jt = choose|i: int| 0 <= i < t.len() && #[trigger] t[i].conv_id@ == o;
            let jjt = if jt < k { jt } else { jt + 1 };
            assert(t[jt] == s[jjt]);
        } else {
            assert forall|i: int| 0 <= i < t.len() implies #[trigger] t[i].conv_id@ != o by {
                let ii = if i < k { i } else { i + 1 };
                assert(t[i] == s[ii]);
            }
        }
    }
}

/// Appends `m` to the messages of conversation `id`.
fn push_message(s: &mut Vec<Thread>, id: &String, m: Message)
    requires
        threads_wf(old(s)@),
    ensures
        threads_wf(final(s)@),
        messages_of(final(s)@, id@) == messages_of(old(s)@, id@).push(m),
        others_kept(old(s)@, final(s)@, id@),
{
    let ghost before = s@;
    match find_thread(s, id) {
        Some(k) => {
            s[k].messages.push(m);
            proof {
                lemma_frame_update(before, s@, k as int);
            }
        },
        None => {
            let th = Thread { conv_id: id.clone(), messages: vec![m] };
            proof {
                lemma_frame_push(before, th);
                assert(th.messages@ =~= Seq::<Message>::empty().push(m));
            }
            s.push(th);
        },
    }
}

/// Sets the status of the first message `msg_id` of conversation `id`.
fn restamp_message(s: &mut Vec<Thread>, id: &String, msg_id: &String, status: MessageStatus)
    requires
        threads_wf(old(s)@),
    ensures
        threads_wf(final(s)@),
        messages_of(final(s)@, id@) == restamped(messages_of(old(s)@, id@), msg_id@, status),
        others_kept(old(s)@, final(s)@, id@),
{
    let ghost before = s@;
    match find_thread(s, id) {
        Some(k) => {
            set_status(&mut s[k].messages, msg_id, status);
            proof {
                lemma_frame_update(before, s@, k as int);
            }
        },
        None => {
            assert(restamped(Seq::<Message>::empty(), msg_id@, status) =~= Seq::<Message>::empty());
        },
    }
}

/// Replaces the messages of conversation `id`.
fn replace_messages(s: &mut Vec<Thread>, id: &String, msgs: Vec<Message>)
    requires
        threads_wf(old(s)@),
    ensures
        threads_wf(final(s)@),
        messages_of(final(s)@, id@) == msgs@,
        others_kept(old(s)@, final(s)@, id@),
{
    let ghost before = s@;
    match find_thread(s, id) {
        Some(k) => {
            s[k].messages = msgs;
            proof {
                lemma_frame_update(before, s@, k as int);
            }
        },
        None => {
            let th = Thread { conv_id: id.clone(), messages: msgs };
            proof {
                lemma_frame_push(before, th);
            }
            s.push(th);
        },
    }
}

/// A copy of a list of messages.
fn copy_messages(msgs: &Vec<Message>) -> (r: Vec<Message>)
    ensures
        r@ == msgs@,
{
    let mut r: Vec<Message> = Vec::new();
    let mut i: usize = 0;
    while i < msgs.len()
        invariant
            0 <= i <= msgs@.len(),
            r@ == msgs@.subrange(0, i as int),
        decreases msgs@.len() - i,
    {
        r.push(msgs[i].clone());
        i = i + 1;
    }
    assert(r@ =~= msgs@);
    r
}

/// What the chat feature hands to the transport after an optimistic send:
/// the event to publish and the chat request to send.
#[derive(Debug)]
pub struct OutgoingChat {
    pub event: AppEvent,
    pub conv_id: String,
    pub text: String,
    pub image: Option<ImagePayload>,
}

/// The state of the chat feature.
#[derive(Debug)]
pub struct ChatState {
    pub threads: Vec<Thread>,
    pub current_conv_id: Option<String>,
    pub is_typing: bool,
    pub pending_messages: Vec<String>,
}

/// `after` is `before` with the messages of conversation `id` replaced by `msgs`.
pub open spec fn history_set(
    before: ChatState,
    after: ChatState,
    id: Seq<char>,
    msgs: Seq<Message>,
) -> bool {
    &&& messages_of(after.threads@, id) == msgs
    &&& others_kept(before.threads@, after.threads@, id)
    &&& after.current_conv_id == before.current_conv_id
    &&& after.is_typing == before.is_typing
    &&& after.pending_messages == before.pending_messages
}

/// Conversation `id` is the selected one in `s`.
pub open spec fn is_selected(s: ChatState, id: Seq<char>) -> bool {
    s.current_conv_id matches Some(c) && c@ == id
}

/// The pending ids of `after` are those of `before`, less `gone` if given.
pub open spec fn pending_without(before: ChatState, after: ChatState, gone: Option<Seq<char>>) -> bool {
    forall|p: Seq<char>|
        #![trigger after.pending_ids().contains(p)]
        after.pending_ids().contains(p) <==> (before.pending_ids().contains(p) && gone != Some(p))
}

/// `after` is `before` once message `message` is received in conversation
/// `id` in answer to `reply_to`, when known: that message stops being pending
/// and is marked delivered, the typing indicator is cleared if `id` is
/// selected, and the message is appended.
pub open spec fn received(
    before: ChatState,
    after: ChatState,
    id: Seq<char>,
    reply_to: Option<Seq<char>>,
    message: Message,
) -> bool {
    &&& messages_of(after.threads@, id) == (match reply_to {
        Some(t) => restamped(messages_of(before.threads@, id), t, MessageStatus::Delivered),
        None => messages_of(before.threads@, id),
    }).push(message)
    &&& others_kept(before.threads@, after.threads@, id)
    &&& pending_without(before, after, reply_to)
    &&& after.is_typing == if is_selected(before, id) {
        false
    } else {
        before.is_typing
    }
    &&& after.current_conv_id == before.current_conv_id
}

/// `after` is `before` once message `msg_id` of conversation `id` is marked
/// with `error`: it stops being pending, nothing else changes.
pub open spec fn errored(
    before: ChatState,
    after: ChatState,
    id: Seq<char>,
    msg_id: Seq<char>,
    error: String,
) -> bool {
    &&& messages_of(after.threads@, id) == restamped(
        messages_of(before.threads@, id),
        msg_id,
        MessageStatus::Error(error),
    )
    &&& others_kept(before.threads@, after.threads@, id)
    &&& pending_without(before, after, Some(msg_id))
    &&& after.current_conv_id == before.current_conv_id
    &&& after.is_typing == before.is_typing
}

/// `after` is `before` with the typing indicator set to `v` if conversation
/// `id` is selected, unchanged otherwise.
pub open spec fn typing_set(before: ChatState, after: ChatState, id: Seq<char>, v: bool) -> bool {
    &&& after.is_typing == if is_selected(before, id) {
        v
    } else {
        before.is_typing
    }
    &&& after.current_conv_id == before.current_conv_id
    &&& after.threads == before.threads
    &&& after.pending_messages == before.pending_messages
}

/// `after` is `before` without the messages of conversation `id`, which is
/// no longer selected if it was.
pub open spec fn cleared(before: ChatState, after: ChatState, id: Seq<char>) -> bool {
    &&& messages_of(after.threads@, id) == Seq::<Message>::empty()
    &&& others_kept(before.threads@, after.threads@, id)
    &&& after.current_conv_id == if is_selected(before, id) {
        None
    } else {
        before.current_conv_id
    }
    &&& after.pending_messages == before.pending_messages
    &&& after.is_typing == before.is_typing
}

/// `after` is `before` with `conv` selected and the typing indicator cleared.
pub open spec fn selected(before: ChatState, after: ChatState, conv: Option<String>) -> bool {
    &&& after.current_conv_id == conv
    &&& !after.is_typing
    &&& after.threads == before.threads
    &&& after.pending_messages == before.pending_messages
}

/// The id of the most recent message of `msgs` that is pending, if any.
pub open spec fn latest_pending_id(msgs: Seq<Message>, pending: Seq<Seq<char>>) -> Option<
    Seq<char>,
> {
    if exists|k: int| latest_pending(msgs, pending, k) {
        Some(msgs[choose|k: int| latest_pending(msgs, pending, k)].id@)
    } else {
        None
    }
}

impl ChatState {
    pub open spec fn wf(&self) -> bool {
        threads_wf(self.threads@) && views(self.pending_messages@).no_duplicates()
    }

    /// Ids of the messages that wait for the server.
    pub open spec fn pending_ids(&self) -> Seq<Seq<char>> {
        views(self.pending_messages@)
    }

    /// No messages, no conversation selected, not typing, nothing pending.
    pub fn new() -> (r: Self)
        ensures
            r.wf(),
            r.threads@.len() == 0,
            r.current_conv_id is None,
            !r.is_typing,
            r.pending_messages@.len() == 0,
    {
        ChatState {
            threads: Vec::new(),
            current_conv_id: None,
            is_typing: false,
            pending_messages: Vec::new(),
        }
    }

    /// The messages of the selected conversation; none when none is selected.
    pub fn current_messages(&self) -> (r: Vec<Message>)
        requires
            self.wf(),
        ensures
            self.current_conv_id matches Some(id) ==> r@ == messages_of(self.threads@, id@),
            self.current_conv_id is None ==> r@.len() == 0,
    {
        match &self.current_conv_id {
            Some(id) => self.messages_for(id.as_str()),
            None => Vec::new(),
        }
    }

    /// The messages of conversation `conv_id`.
    pub fn messages_for(&self, conv_id: &str) -> (r: Vec<Message>)
        requires
            self.wf(),
        ensures
            r@ == messages_of(self.threads@, conv_id@),
    {
        let key = conv_id.to_string();
        match find_thread(&self.threads, &key) {
            Some(k) => copy_messages(&self.threads[k].messages),
            None => Vec::new(),
        }
    }

    /// Whether the assistant is typing in the selected conversation.
    pub fn is_typing(&self) -> (r: bool)
        ensures
            r == self.is_typing,
    {
        self.is_typing
    }

    /// The selected conversation.
    pub fn current_conv_id(&self) -> (r: Option<String>)
        ensures
            r == self.current_conv_id,
    {
        match &self.current_conv_id {
            Some(id) => Some(id.clone()),
            None => None,
        }
    }

    /// Whether message `msg_id` waits for the server.
    pub fn is_pending(&self, msg_id: &str) -> (r: bool)
        ensures
            r == self.pending_ids().contains(msg_id@),
    {
        let key = msg_id.to_string();
        match find_id(&self.pending_messages, &key) {
            Some(k) => {
                assert(self.pending_ids()[k as int] == msg_id@);
                true
            },
            None => false,
        }
    }

    /// Selects a conversation (or none); the typing indicator is cleared.
    pub fn set_current_conversation(&mut self, conv_id: Option<String>)
        ensures
            selected(*old(self), *final(self), conv_id),
    {
        self.current_conv_id = conv_id;
        self.is_typing = false;
    }

    /// Sets the typing indicator, for the selected conversation only.
    pub fn set_typing(&mut self, conv_id: &str, is_typing: bool)
        ensures
            typing_set(*old(self), *final(self), conv_id@, is_typing),
    {
        if self.is_current(conv_id) {
            self.is_typing = is_typing;
        }
    }

    /// Whether `conv_id` is the selected conversation.
    fn is_current(&self, conv_id: &str) -> (r: bool)
        ensures
            r == (self.current_conv_id matches Some(c) && c@ == conv_id@),
    {
        match &self.current_conv_id {
            Some(c) => same_text_string(c, conv_id),
            None => false,
        }
    }

    /// Appends a user message to conversation `conv_id` and records it as
    /// pending (the optimistic update).
    pub fn add_user_message(&mut self, conv_id: &str, message: Message)
        requires
            old(self).wf(),
        ensures
            final(self).wf(),
            messages_of(final(self).threads@, conv_id@) == messages_of(
                old(self).threads@,
                conv_id@,
            ).push(message),
            others_kept(old(self).threads@, final(self).threads@, conv_id@),
            forall|p: Seq<char>|
                #![trigger final(self).pending_ids().contains(p)]
                final(self).pending_ids().contains(p) <==> (old(self).pending_ids().contains(p)
                    || p == message.id@),
            final(self).current_conv_id == old(self).current_conv_id,
            final(self).is_typing == old(self).is_typing,
    {
        let ghost old_ids = self.pending_ids();
        let id = message.id.clone();
        match find_id(&self.pending_messages, &id) {
            Some(k) => {
                assert(old_ids[k as int] == message.id@);
                assert forall|p: Seq<char>|
                    #![trigger self.pending_ids().contains(p)]
                    self.pending_ids().contains(p) <==> (old_ids.contains(p) || p
                        == message.id@) by {}
            },
            None => {
                self.pending_messages.push(id);
                proof {
                    assert(self.pending_ids() =~= old_ids.push(message.id@));
                    lemma_push_contains(old_ids, message.id@);
                }
            },
        }
        let key = conv_id.to_string();
        push_message(&mut self.threads, &key, message);
    }

    /// Records a message received in conversation `conv_id` in answer to
    /// `reply_to`, when known: that message stops being pending and is
    /// marked delivered. The typing indicator of the selected conversation
    /// is cleared, and the message is appended.
    fn receive(&mut self, conv_id: &str, reply_to: Option<&str>, message: Message)
        requires
            old(self).wf(),
        ensures
            final(self).wf(),
            received(
                *old(self),
                *final(self),
                conv_id@,
                match reply_to {
                    Some(t) => Some(t@),
                    None => None,
                },
                message,
            ),
    {
        let key = conv_id.to_string();
        let ghost s0 = self.threads@;
        match reply_to {
            Some(t) => {
                let tkey = t.to_string();
                remove_id(&mut self.pending_messages, &tkey);
                restamp_message(&mut self.threads, &key, &tkey, MessageStatus::Delivered);
            },
            None => {},
        }
        let ghost s1 = self.threads@;
        if self.is_current(conv_id) {
            self.is_typing = false;
        }
        push_message(&mut self.threads, &key, message);
        proof {
            let s2 = self.threads@;
            assert forall|o: Seq<char>| o != conv_id@ implies #[trigger] messages_of(s2, o)
                == messages_of(s0, o) by {
                assert(messages_of(s2, o) == messages_of(s1, o));
            }
        }
    }

    /// Records a message received in conversation `conv_id` in answer to
    /// message `reply_to`: see `receive`.
    pub fn add_received_message(&mut self, conv_id: &str, reply_to: &str, message: Message)
        requires
            old(self).wf(),
        ensures
            final(self).wf(),
            received(*old(self), *final(self), conv_id@, Some(reply_to@), message),
            !final(self).pending_ids().contains(reply_to@),
    {
        self.receive(conv_id, Some(reply_to), message);
    }

    /// Marks message `msg_id` of conversation `conv_id` with an error; it
    /// stops being pending.
    pub fn mark_message_error(&mut self, conv_id: &str, msg_id: &str, error: String)
        requires
            old(self).wf(),
        ensures
            final(self).wf(),
            errored(*old(self), *final(self), conv_id@, msg_id@, error),
            !final(self).pending_ids().contains(msg_id@),
    {
        let key = conv_id.to_string();
        let mkey = msg_id.to_string();
        remove_id(&mut self.pending_messages, &mkey);
        restamp_message(&mut self.threads, &key, &mkey, MessageStatus::Error(error));
    }

    /// Replaces the messages of conversation `conv_id` with a loaded history.
    pub fn set_history(&mut self, conv_id: &str, messages: Vec<Message>)
        requires
            old(self).wf(),
        ensures
            final(self).wf(),
            history_set(*old(self), *final(self), conv_id@, messages@),
    {
        let key = conv_id.to_string();
        replace_messages(&mut self.threads, &key, messages);
    }

    /// Forgets the messages of a deleted conversation; if it was selected,
    /// none is.
    pub fn clear_conversation(&mut self, conv_id: &str)
        requires
            old(self).wf(),
        ensures
            final(self).wf(),
            cleared(*old(self), *final(self), conv_id@),
    {
        let key = conv_id.to_string();
        let ghost before = self.threads@;
        match find_thread(&self.threads, &key) {
            Some(k) => {
                self.threads.remove(k);
                proof {
                    lemma_frame_remove(before, k as int);
                }
            },
            None => {},
        }
        if self.is_current(conv_id) {
            self.current_conv_id = None;
        }
    }

    /// The message a response in conversation `conv_id` is attributed to: the
    /// most recent message of that conversation that is still pending.
    pub fn reply_target(&self, conv_id: &str) -> (r: Option<String>)
        requires
            self.wf(),
        ensures
            r matches Some(t) ==> exists|i: int|
                latest_pending(messages_of(self.threads@, conv_id@), self.pending_ids(), i)
                    && #[trigger] messages_of(self.threads@, conv_id@)[i].id@ == t@,
            r is None ==> forall|j: int|
                0 <= j < messages_of(self.threads@, conv_id@).len()
                    ==> !self.pending_ids().contains(
                    #[trigger] messages_of(self.threads@, conv_id@)[j].id@,
                ),
    {
        let key = conv_id.to_string();
        match find_thread(&self.threads, &key) {
            None => None,
            Some(k) => {
                let msgs = &self.threads[k].messages;
                let mut i: usize = msgs.len();
                while i > 0
                    invariant
                        0 <= i <= msgs@.len(),
                        msgs@ == messages_of(self.threads@, conv_id@),
                        forall|j: int|
                            i <= j < msgs@.len() ==> !self.pending_ids().contains(
                                #[trigger] msgs@[j].id@,
                            ),
                    decreases i,
                {
                    i = i - 1;
                    if self.is_pending(msgs[i].id.as_str()) {
                        assert(latest_pending(msgs@, self.pending_ids(), i as int));
                        return Some(msgs[i].id.clone());
                    }
                }
                None
            },
        }
    }

    /// Applies an event from the bus to the chat feature. A received message
    /// is attributed to the most recent pending message of its conversation
    /// (see `reply_target`).
    pub fn apply_event(&mut self, event: AppEvent)
        requires
            old(self).wf(),
        ensures
            final(self).wf(),
            event matches AppEvent::ConversationSelected(id) ==> selected(
                *old(self),
                *final(self),
                Some(id),
            ),
            event matches AppEvent::MessageReceived { conv_id, message } ==> received(
                *old(self),
                *final(self),
                conv_id@,
                latest_pending_id(messages_of(old(self).threads@, conv_id@), old(self).pending_ids()),
                message,
            ),
            event matches AppEvent::MessageReceived { conv_id, message } ==> forall|k: int|
                latest_pending(messages_of(old(self).threads@, conv_id@), old(self).pending_ids(), k)
                    ==> !final(self).pending_ids().contains(
                    #[trigger] messages_of(old(self).threads@, conv_id@)[k].id@,
                ),
            event matches AppEvent::MessageError { conv_id, msg_id, error } ==> errored(
                *old(self),
                *final(self),
                conv_id@,
                msg_id@,
                error,
            ) && !final(self).pending_ids().contains(msg_id@),
            event matches AppEvent::TypingChanged { conv_id, is_typing } ==> typing_set(
                *old(self),
                *final(self),
                conv_id@,
                is_typing,
            ),
            event matches AppEvent::HistoryLoaded { conv_id, messages } ==> history_set(
                *old(self),
                *final(self),
                conv_id@,
                messages@,
            ),
            event matches AppEvent::ConversationDeleted(id) ==> cleared(
                *old(self),
                *final(self),
                id@,
            ),
            event is NavigateToList ==> selected(*old(self), *final(self), None),
            !(event is ConversationSelected || event is MessageReceived || event is MessageError
                || event is TypingChanged || event is HistoryLoaded || event is ConversationDeleted
                || event is NavigateToList) ==> *final(self) == *old(self),
    {
        match event {
            AppEvent::ConversationSelected(id) => self.set_current_conversation(Some(id)),
            AppEvent::MessageReceived { conv_id, message } => {
                let ghost msgs = messages_of(self.threads@, conv_id@);
                let ghost pend = self.pending_ids();
                let target = self.reply_target(conv_id.as_str());
                match target {
                    Some(t) => {
                        proof {
                            let i = choose|i: int|
                                latest_pending(msgs, pend, i) && #[trigger] msgs[i].id@ == t@;
                            assert forall|k: int| latest_pending(msgs, pend, k) implies msgs[k].id@
                                == t@ by {
                                if k < i {
                                    assert(!pend.contains(msgs[i].id@));
                                } else if k > i {
                                    assert(!pend.contains(msgs[k].id@));
                                }
                            }
                            let c = choose|k: int| latest_pending(msgs, pend, k);
                            assert(msgs[c].id@ == t@);
                            assert(latest_pending_id(msgs, pend) == Some(t@));
                        }
                        self.receive(conv_id.as_str(), Some(t.as_str()), message)
                    },
                    None => {
                        proof {
                            assert(!exists|k: int| latest_pending(msgs, pend, k));
                        }
                        self.receive(conv_id.as_str(), None, message)
                    },
                }
            },
            AppEvent::MessageError { conv_id, msg_id, error } => {
                self.mark_message_error(conv_id.as_str(), msg_id.as_str(), error)
            },
            AppEvent::TypingChanged { conv_id, is_typing } => {
                self.set_typing(conv_id.as_str(), is_typing)
            },
            AppEvent::HistoryLoaded { conv_id, messages } => {
                self.set_history(conv_id.as_str(), messages)
            },
            AppEvent::ConversationDeleted(id) => self.clear_conversation(id.as_str()),
            AppEvent::NavigateToList => self.set_current_conversation(None),
            _ => {},
        }
    }

    /// Sends a message in the selected conversation. Ignored (no change, no
    /// request) when the text is blank and no image is attached, or when no
    /// conversation is selected. Otherwise the message is appended to the
    /// conversation as Sending and recorded as pending before anything is
    /// sent; the result carries the event to publish and the request.
    pub fn send_message(&mut self, text: String, media: Option<SelectedMedia>) -> (r: Option<
        OutgoingChat,
    >)
        requires
            old(self).wf(),
        ensures
            final(self).wf(),
            r is None <==> ((blank(text@) && media is None) || old(self).current_conv_id is None),
            r is None ==> *final(self) == *old(self),
            r matches Some(out) ==> {
                let cur = old(self).current_conv_id->0;
                let msgs = messages_of(final(self).threads@, cur@);
                let m = msgs.last();
                &&& msgs == messages_of(old(self).threads@, cur@).push(m)
                &&& others_kept(old(self).threads@, final(self).threads@, cur@)
                &&& m.body == text
                &&& m.sender == MessageSender::User
                &&& m.status == MessageStatus::Sending
                &&& m.id@.len() == 36
                &&& m.image == match media {
                    Some(md) => Some(ImageData { data: md.data, mimetype: md.mimetype }),
                    None => None,
                }
                &&& final(self).pending_ids().contains(m.id@)
                &&& out.event == AppEvent::MessageSent { conv_id: cur, message: m }
                &&& out.conv_id == cur
                &&& out.text == text
                &&& out.image == match media {
                    Some(md) => Some(ImagePayload { data: md.data, mimetype: md.mimetype }),
                    None => None,
                }
            },
            final(self).current_conv_id == old(self).current_conv_id,
            final(self).is_typing == old(self).is_typing,
    {
        if is_blank(text.as_str()) && media.is_none() {
            return None;
        }
        let conv_id = match &self.current_conv_id {
            Some(id) => id.clone(),
            None => {
                return None;
            },
        };
        let (msg, payload) = match media {
            Some(m) => {
                let image = ImageData { data: m.data.clone(), mimetype: m.mimetype.clone() };
                (
                    Message::new_user_with_image(text.clone(), image),
                    Some(ImagePayload { data: m.data, mimetype: m.mimetype }),
                )
            },
            None => (Message::new_user(text.clone()), None),
        };
        let event = AppEvent::MessageSent { conv_id: conv_id.clone(), message: msg.clone() };
        self.add_user_message(conv_id.as_str(), msg);
        Some(OutgoingChat { event, conv_id, text, image: payload })
    }
}

/// Whether a string and a string slice hold the same characters.
fn same_text_string(a: &String, b: &str) -> (r: bool)
    ensures
        r == (a@ == b@),
{
    crate::text::same_text(a.as_str(), b)
}

/// A history load replaces a conversation's messages: after loading `first`
/// and then `second` for conversation `id`, its messages are exactly
/// `second`, and every other conversation is as before both loads.
pub proof fn history_replace_law(
    s0: ChatState,
    s1: ChatState,
    s2: ChatState,
    id: Seq<char>,
    first: Seq<Message>,
    second: Seq<Message>,
)
    requires
        history_set(s0, s1, id, first),
        history_set(s1, s2, id, second),
    ensures
        messages_of(s2.threads@, id) == second,
        others_kept(s0.threads@, s2.threads@, id),
{
    assert forall|o: Seq<char>| o != id implies #[trigger] messages_of(s2.threads@, o)
        == messages_of(s0.threads@, o) by {
        assert(messages_of(s2.threads@, o) == messages_of(s1.threads@, o));
    }
}

} // verus!
