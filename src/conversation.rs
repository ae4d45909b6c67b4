//! A conversation: its messages, summary fields and the ids of user messages
//! that still wait for the server.

use vstd::prelude::*;
use vstd::string::*;
use crate::text::{find_char, first_at, slice_string, take_chars, take_string};
use crate::types::{
    representable_millis, Message, MessageStatus, MAX_REPRESENTABLE_MILLIS, MIN_REPRESENTABLE_MILLIS,
};

verus! {

/// A status of a message that still waits for a server correlation.
pub open spec fn awaiting(s: MessageStatus) -> bool {
    s is Sending
}

/// The views of a sequence of strings.
pub open spec fn views(v: Seq<String>) -> Seq<Seq<char>> {
    v.map_values(|s: String| s@)
}

/// `k` is the first message of `msgs` with id `id`.
pub open spec fn first_with_id(msgs: Seq<Message>, id: Seq<char>, k: int) -> bool {
    &&& 0 <= k < msgs.len()
    &&& msgs[k].id@ == id
    &&& forall|j: int| 0 <= j < k ==> msgs[j].id@ != id
}

/// No message of `msgs` has id `id`.
pub open spec fn no_message_with_id(msgs: Seq<Message>, id: Seq<char>) -> bool {
    forall|j: int| 0 <= j < msgs.len() ==> msgs[j].id@ != id
}

/// `m` with its status replaced.
pub open spec fn with_status(m: Message, s: MessageStatus) -> Message {
    Message { status: s, ..m }
}

/// `msgs` with the status of the first message with id `id` replaced by `s`
/// (unchanged when there is none).
pub open spec fn restamped(msgs: Seq<Message>, id: Seq<char>, s: MessageStatus) -> Seq<Message> {
    Seq::new(
        msgs.len(),
        |i: int|
            if first_with_id(msgs, id, i) {
                with_status(msgs[i], s)
            } else {
                msgs[i]
            },
    )
}

/// Some message of `msgs` with id `id` still waits for the server.
pub open spec fn awaited_in(msgs: Seq<Message>, id: Seq<char>) -> bool {
    exists|i: int| 0 <= i < msgs.len() && msgs[i].id@ == id && awaiting(msgs[i].status)
}

/// `c` is a new empty conversation with id `id`, titled `title` or else
/// "New Chat".
pub open spec fn is_new_conversation(c: Conversation, id: String, title: Option<String>) -> bool {
    &&& c.id == id
    &&& match title {
        Some(t) => c.title == t,
        None => c.title@ == "New Chat"@,
    }
    &&& c.messages@.len() == 0
    &&& c.last_message_preview is None
    &&& c.last_message_time is None
    &&& c.message_count == 0
    &&& c.pending_messages@.len() == 0
}

/// The characters of a conversation id shown in its generated title: the
/// part between the first and the second `-`, or the start of the id when it
/// holds no `-`, cut to eight characters.
pub open spec fn short_id(id: Seq<char>) -> Seq<char> {
    if exists|k: int| first_at(id, '-', 0, k) {
        let k = choose|k: int| first_at(id, '-', 0, k);
        let start = k + 1;
        if exists|m: int| first_at(id, '-', start, m) {
            let m = choose|m: int| first_at(id, '-', start, m);
            take_chars(id.subrange(start, m), 8)
        } else {
            take_chars(id.subrange(start, id.len() as int), 8)
        }
    } else {
        take_chars(id, 8)
    }
}

/// Index of the first message with the given id.
pub fn find_message(msgs: &Vec<Message>, id: &String) -> (r: Option<usize>)
    ensures
        r matches Some(k) ==> first_with_id(msgs@, id@, k as int),
        r is None ==> no_message_with_id(msgs@, id@),
{
    let mut i: usize = 0;
    while i < msgs.len()
        invariant
            0 <= i <= msgs@.len(),
            forall|j: int| 0 <= j < i ==> msgs@[j].id@ != id@,
        decreases msgs@.len() - i,
    {
        if msgs[i].id == *id {
            return Some(i);
        }
        i = i + 1;
    }
    None
}

/// Index of `id` in a list of ids.
pub fn find_id(ids: &Vec<String>, id: &String) -> (r: Option<usize>)
    ensures
        r matches Some(k) ==> k < ids@.len() && ids@[k as int]@ == id@,
        r is None ==> !views(ids@).contains(id@),
{
    let mut i: usize = 0;
    while i < ids.len()
        invariant
            0 <= i <= ids@.len(),
            forall|j: int| 0 <= j < i ==> ids@[j]@ != id@,
        decreases ids@.len() - i,
    {
        if ids[i] == *id {
            return Some(i);
        }
        i = i + 1;
    }
    proof {
        if views(ids@).contains(id@) {
            let j = choose|j: int| 0 <= j < views(ids@).len() && views(ids@)[j] == id@;
            assert(ids@[j]@ == id@);
        }
    }
    None
}

/// Sets the status of the first message with id `id`; no change when none has it.
pub fn set_status(msgs: &mut Vec<Message>, id: &String, status: MessageStatus)
    ensures
        final(msgs)@ == restamped(old(msgs)@, id@, status),
{
    match find_message(msgs, id) {
        Some(k) => {
            msgs[k].status = status;
            assert(final(msgs)@ =~= restamped(old(msgs)@, id@, status));
        },
        None => {
            assert(old(msgs)@ =~= restamped(old(msgs)@, id@, status));
        },
    }
}

/// Removes `id` from a list of distinct ids.
pub fn remove_id(ids: &mut Vec<String>, id: &String)
    requires
        views(old(ids)@).no_duplicates(),
    ensures
        views(final(ids)@).no_duplicates(),
        forall|p: Seq<char>|
            #![trigger views(final(ids)@).contains(p)]
            views(final(ids)@).contains(p) <==> (views(old(ids)@).contains(p) && p != id@),
{
    match find_id(ids, id) {
        Some(k) => {
            let ghost before = views(ids@);
            ids.remove(k);
            assert(views(ids@) =~= before.remove(k as int));
            assert forall|p: Seq<char>|
                #![trigger views(ids@).contains(p)]
                views(ids@).contains(p) <==> (before.contains(p) && p != id@) by {
                if views(ids@).contains(p) {
                    let j = choose|j: int| 0 <= j < views(ids@).len() && views(ids@)[j] == p;
                    let jj = if j < k { j } else { j + 1 };
                    assert(before[jj] == p);
                    assert(jj != k);
                    assert(before[k as int] == id@);
                    assert(p != id@);
                }
                if before.contains(p) && p != id@ {
                    let j = choose|j: int| 0 <= j < before.len() && before[j] == p;
                    if j < k {
                        assert(views(ids@)[j] == p);
                    } else {
                        assert(views(ids@)[j - 1] == p);
                    }
                }
            }
        },
        None => {},
    }
}

/// A conversation. `last_message_time` is in milliseconds since the Unix epoch.
#[derive(Debug, PartialEq)]
pub struct Conversation {
    pub id: String,
    pub title: String,
    pub messages: Vec<Message>,
    pub last_message_preview: Option<String>,
    pub last_message_time: Option<i64>,
    pub message_count: usize,
    /// Ids of user messages that wait for a server correlation.
    pub pending_messages: Vec<String>,
}

impl Clone for Conversation {
    fn clone(&self) -> (r: Self)
        ensures
            r.same(self),
    {
        let mut messages: Vec<Message> = Vec::new();
        let mut i: usize = 0;
        while i < self.messages.len()
            invariant
                0 <= i <= self.messages@.len(),
                messages@ == self.messages@.subrange(0, i as int),
            decreases self.messages@.len() - i,
        {
            messages.push(self.messages[i].clone());
            i = i + 1;
        }
        assert(messages@ =~= self.messages@);
        let mut pending: Vec<String> = Vec::new();
        let mut i: usize = 0;
        while i < self.pending_messages.len()
            invariant
                0 <= i <= self.pending_messages@.len(),
                pending@ == self.pending_messages@.subrange(0, i as int),
            decreases self.pending_messages@.len() - i,
        {
            pending.push(self.pending_messages[i].clone());
            i = i + 1;
        }
        assert(pending@ =~= self.pending_messages@);
        let preview = match &self.last_message_preview {
            Some(p) => Some(p.clone()),
            None => None,
        };
        Conversation {
            id: self.id.clone(),
            title: self.title.clone(),
            messages,
            last_message_preview: preview,
            last_message_time: self.last_message_time,
            message_count: self.message_count,
            pending_messages: pending,
        }
    }
}

impl Conversation {
    /// `self` and `other` hold the same values.
    pub open spec fn same(&self, other: &Conversation) -> bool {
        &&& self.id == other.id
        &&& self.title == other.title
        &&& self.messages@ == other.messages@
        &&& self.last_message_preview == other.last_message_preview
        &&& self.last_message_time == other.last_message_time
        &&& self.message_count == other.message_count
        &&& self.pending_messages@ == other.pending_messages@
    }

    /// The ids of the messages that wait for the server.
    pub open spec fn pending_ids(&self) -> Seq<Seq<char>> {
        views(self.pending_messages@)
    }

    /// Pending ids are distinct, and each names a message of this conversation
    /// that still waits for the server.
    pub open spec fn wf(&self) -> bool {
        &&& self.pending_ids().no_duplicates()
        &&& forall|k: int|
            0 <= k < self.pending_ids().len() ==> #[trigger] awaited_in(
                self.messages@,
                self.pending_ids()[k],
            )
    }

    /// An empty conversation; its title is "New Chat" unless one is given.
    pub fn new(id: String, title: Option<String>) -> (r: Self)
        ensures
            r.wf(),
            is_new_conversation(r, id, title),
    {
        let title = match title {
            Some(t) => t,
            None => "New Chat".to_string(),
        };
        Conversation {
            id,
            title,
            messages: Vec::new(),
            last_message_preview: None,
            last_message_time: None,
            message_count: 0,
            pending_messages: Vec::new(),
        }
    }

    /// A conversation as summarised by the server's conversation list. Its
    /// title is "Chat " followed by the short form of its id; a time that is
    /// not a representable instant is dropped.
    pub fn from_server(
        id: String,
        last_message: Option<String>,
        last_message_time: Option<i64>,
        message_count: usize,
    ) -> (r: Self)
        ensures
            r.wf(),
            r.id == id,
            r.title@ == "Chat "@ + short_id(id@),
            r.messages@.len() == 0,
            r.last_message_preview == last_message,
            r.last_message_time == match last_message_time {
                Some(t) => if MIN_REPRESENTABLE_MILLIS <= t <= MAX_REPRESENTABLE_MILLIS {
                    Some(t)
                } else {
                    None
                },
                None => None,
            },
            r.message_count == message_count,
            r.pending_messages@.len() == 0,
    {
        let short = short_id_string(id.as_str());
        let title = "Chat ".to_string().concat(short.as_str());
        let time = match last_message_time {
            Some(t) => representable_millis(t),
            None => None,
        };
        Conversation {
            id,
            title,
            messages: Vec::new(),
            last_message_preview: last_message,
            last_message_time: time,
            message_count,
            pending_messages: Vec::new(),
        }
    }
    /// Appends a user message and records it as pending (optimistic update).
    pub fn add_user_message(&mut self, message: Message)
        requires
            old(self).wf(),
            message.status is Sending,
            old(self).message_count < usize::MAX,
        ensures
            final(self).wf(),
            final(self).id == old(self).id,
            final(self).title == old(self).title,
            final(self).messages@ == old(self).messages@.push(message),
            forall|p: Seq<char>|
                #![trigger final(self).pending_ids().contains(p)]
                final(self).pending_ids().contains(p) <==> (old(self).pending_ids().contains(p)
                    || p == message.id@),
            final(self).last_message_preview == Some(message.body),
            final(self).last_message_time == Some(message.timestamp),
            final(self).message_count == old(self).message_count + 1,
    {
        let ghost old_msgs = self.messages@;
        let ghost old_ids = self.pending_ids();
        let id = message.id.clone();
        match find_id(&self.pending_messages, &id) {
            Some(k) => {
                assert(old_ids[k as int] == message.id@);
            },
            None => {
                self.pending_messages.push(id);
                proof {
                    assert(self.pending_ids() =~= old_ids.push(message.id@));
                    lemma_push_contains(old_ids, message.id@);
                }
            },
        }
        self.last_message_preview = Some(message.body.clone());
        self.last_message_time = Some(message.timestamp);
        self.message_count = self.message_count + 1;
        self.messages.push(message);
        proof {
            let msgs = self.messages@;
            assert(msgs[old_msgs.len() as int] == message);
            lemma_push_keeps_awaited(old_msgs, message);
            assert(awaited_in(msgs, message.id@));
            assert forall|k: int| 0 <= k < self.pending_ids().len() implies #[trigger] awaited_in(
                msgs,
                self.pending_ids()[k],
            ) by {
                let p = self.pending_ids()[k];
                assert(self.pending_ids().contains(p));
                if p != message.id@ {
                    let j = choose|j: int| 0 <= j < old_ids.len() && old_ids[j] == p;
                    assert(awaited_in(old_msgs, old_ids[j]));
                }
            }
        }
    }

    /// Records the server's response to the pending message `reply_to`: it is
    /// no longer pending, it is marked delivered, and the response is appended.
    pub fn add_response(&mut self, reply_to: &str, response: Message)
        requires
            old(self).wf(),
            old(self).message_count < usize::MAX,
        ensures
            final(self).wf(),
            final(self).id == old(self).id,
            final(self).title == old(self).title,
            final(self).messages@ == restamped(
                old(self).messages@,
                reply_to@,
                MessageStatus::Delivered,
            ).push(response),
            forall|p: Seq<char>|
                #![trigger final(self).pending_ids().contains(p)]
                final(self).pending_ids().contains(p) <==> (old(self).pending_ids().contains(p)
                    && p != reply_to@),
            final(self).last_message_preview == Some(response.body),
            final(self).last_message_time == Some(response.timestamp),
            final(self).message_count == old(self).message_count + 1,
    {
        let key = reply_to.to_string();
        let ghost old_msgs = self.messages@;
        let ghost old_ids = self.pending_ids();
        remove_id(&mut self.pending_messages, &key);
        set_status(&mut self.messages, &key, MessageStatus::Delivered);
        self.last_message_preview = Some(response.body.clone());
        self.last_message_time = Some(response.timestamp);
        self.message_count = self.message_count + 1;
        let ghost mid = self.messages@;
        self.messages.push(response);
        proof {
            lemma_restamp_keeps_others(old_msgs, reply_to@, MessageStatus::Delivered);
            lemma_push_keeps_awaited(mid, response);
            lemma_wf_after_removal(old_ids, self.pending_ids(), old_msgs, self.messages@, reply_to@);
        }
    }

    /// Records a server error for message `id`: it is no longer pending and is
    /// marked with the error.
    pub fn mark_message_error(&mut self, id: &str, error: String)
        requires
            old(self).wf(),
        ensures
            final(self).wf(),
            final(self).id == old(self).id,
            final(self).title == old(self).title,
            final(self).messages@ == restamped(
                old(self).messages@,
                id@,
                MessageStatus::Error(error),
            ),
            forall|p: Seq<char>|
                #![trigger final(self).pending_ids().contains(p)]
                final(self).pending_ids().contains(p) <==> (old(self).pending_ids().contains(p)
                    && p != id@),
            final(self).last_message_preview == old(self).last_message_preview,
            final(self).last_message_time == old(self).last_message_time,
            final(self).message_count == old(self).message_count,
    {
        let key = id.to_string();
        let ghost old_msgs = self.messages@;
        let ghost old_ids = self.pending_ids();
        remove_id(&mut self.pending_messages, &key);
        set_status(&mut self.messages, &key, MessageStatus::Error(error));
        proof {
            lemma_restamp_keeps_others(old_msgs, id@, MessageStatus::Error(error));
            lemma_wf_after_removal(old_ids, self.pending_ids(), old_msgs, self.messages@, id@);
        }
    }

    /// Marks message `id` as received by the server: it is no longer sending,
    /// so it stops being pending.
    pub fn mark_message_sent(&mut self, id: &str)
        requires
            old(self).wf(),
        ensures
            final(self).wf(),
            final(self).id == old(self).id,
            final(self).title == old(self).title,
            final(self).messages@ == restamped(old(self).messages@, id@, MessageStatus::Sent),
            forall|p: Seq<char>|
                #![trigger final(self).pending_ids().contains(p)]
                final(self).pending_ids().contains(p) <==> (old(self).pending_ids().contains(p)
                    && p != id@),
            final(self).last_message_preview == old(self).last_message_preview,
            final(self).last_message_time == old(self).last_message_time,
            final(self).message_count == old(self).message_count,
    {
        let key = id.to_string();
        let ghost old_msgs = self.messages@;
        let ghost old_ids = self.pending_ids();
        remove_id(&mut self.pending_messages, &key);
        set_status(&mut self.messages, &key, MessageStatus::Sent);
        proof {
            lemma_restamp_keeps_others(old_msgs, id@, MessageStatus::Sent);
            lemma_wf_after_removal(old_ids, self.pending_ids(), old_msgs, self.messages@, id@);
        }
    }

    /// Replaces the message list wholesale (history load). The summary follows
    /// the last message, if any; ids that no longer name a waiting message
    /// stop being pending.
    pub fn set_messages(&mut self, messages: Vec<Message>)
        requires
            old(self).wf(),
        ensures
            final(self).wf(),
            final(self).id == old(self).id,
            final(self).title == old(self).title,
            final(self).messages@ == messages@,
            forall|p: Seq<char>|
                #![trigger final(self).pending_ids().contains(p)]
                final(self).pending_ids().contains(p) <==> (old(self).pending_ids().contains(p)
                    && awaited_in(messages@, p)),
            messages@.len() > 0 ==> final(self).last_message_preview == Some(
                messages@.last().body,
            ) && final(self).last_message_time == Some(messages@.last().timestamp),
            messages@.len() == 0 ==> final(self).last_message_preview
                == old(self).last_message_preview && final(self).last_message_time == old(
                self,
            ).last_message_time,
            final(self).message_count == old(self).message_count,
    {
        let ghost old_ids = self.pending_ids();
        let mut kept: Vec<String> = Vec::new();
        let mut i: usize = 0;
        while i < self.pending_messages.len()
            invariant
                0 <= i <= self.pending_messages@.len(),
                old_ids == views(self.pending_messages@),
                old_ids.no_duplicates(),
                views(kept@).no_duplicates(),
                forall|k: int|
                    0 <= k < views(kept@).len() ==> #[trigger] awaited_in(
                        messages@,
                        views(kept@)[k],
                    ),
                forall|p: Seq<char>|
                    #![trigger views(kept@).contains(p)]
                    views(kept@).contains(p) <==> (old_ids.subrange(0, i as int).contains(p)
                        && awaited_in(messages@, p)),
            decreases self.pending_messages@.len() - i,
        {
            let id = self.pending_messages[i].clone();
            let ghost before = views(kept@);
            proof {
                assert(old_ids.subrange(0, i + 1) =~= old_ids.subrange(0, i as int).push(id@));
                lemma_push_contains(old_ids.subrange(0, i as int), id@);
                assert(!old_ids.subrange(0, i as int).contains(id@)) by {
                    if old_ids.subrange(0, i as int).contains(id@) {
                        let j = choose|j: int|
                            0 <= j < i && old_ids.subrange(0, i as int)[j] == id@;
                        assert(old_ids[j] == old_ids[i as int]);
                    }
                }
            }
            if is_awaited(&messages, &id) {
                kept.push(id);
                proof {
                    assert(views(kept@) =~= before.push(id@));
                    lemma_push_contains(before, id@);
                }
            }
            i = i + 1;
        }
        proof {
            assert(old_ids.subrange(0, i as int) =~= old_ids);
        }
        self.pending_messages = kept;
        let n = messages.len();
        if n > 0 {
            self.last_message_time = Some(messages[n - 1].timestamp);
            self.last_message_preview = Some(messages[n - 1].body.clone());
        }
        self.messages = messages;
    }
}

/// Restamping keeps every waiting message whose id is not `id`.
proof fn lemma_restamp_keeps_others(msgs: Seq<Message>, id: Seq<char>, s: MessageStatus)
    ensures
        forall|p: Seq<char>|
            p != id && #[trigger] awaited_in(msgs, p) ==> awaited_in(restamped(msgs, id, s), p),
{
    assert forall|p: Seq<char>| p != id && #[trigger] awaited_in(msgs, p) implies awaited_in(
        restamped(msgs, id, s),
        p,
    ) by {
        let i = choose|i: int| 0 <= i < msgs.len() && msgs[i].id@ == p && awaiting(msgs[i].status);
        assert(restamped(msgs, id, s)[i] == msgs[i]);
    }
}

/// What a sequence holds after a push.
pub proof fn lemma_push_contains(s: Seq<Seq<char>>, x: Seq<char>)
    ensures
        forall|p: Seq<char>| #[trigger] s.push(x).contains(p) <==> (s.contains(p) || p == x),
        !s.contains(x) && s.no_duplicates() ==> s.push(x).no_duplicates(),
{
    assert forall|p: Seq<char>| #[trigger] s.push(x).contains(p) <==> (s.contains(p) || p == x) by {
        if s.contains(p) {
            let j = choose|j: int| 0 <= j < s.len() && s[j] == p;
            assert(s.push(x)[j] == p);
        }
        if p == x {
            assert(s.push(x)[s.len() as int] == p);
        }
        if s.push(x).contains(p) && p != x {
            let j = choose|j: int| 0 <= j < s.push(x).len() && s.push(x)[j] == p;
            assert(s[j] == p);
        }
    }
}

/// Removing an id from the pending list keeps it well formed when every other
/// waiting message still waits.
proof fn lemma_wf_after_removal(
    old_ids: Seq<Seq<char>>,
    new_ids: Seq<Seq<char>>,
    old_msgs: Seq<Message>,
    new_msgs: Seq<Message>,
    id: Seq<char>,
)
    requires
        forall|k: int| 0 <= k < old_ids.len() ==> #[trigger] awaited_in(old_msgs, old_ids[k]),
        forall|p: Seq<char>|
            #![trigger new_ids.contains(p)]
            new_ids.contains(p) <==> (old_ids.contains(p) && p != id),
        forall|p: Seq<char>|
            p != id && #[trigger] awaited_in(old_msgs, p) ==> awaited_in(new_msgs, p),
    ensures
        forall|k: int| 0 <= k < new_ids.len() ==> #[trigger] awaited_in(new_msgs, new_ids[k]),
{
    assert forall|k: int| 0 <= k < new_ids.len() implies #[trigger] awaited_in(
        new_msgs,
        new_ids[k],
    ) by {
        let p = new_ids[k];
        assert(new_ids.contains(p));
        let j = choose|j: int| 0 <= j < old_ids.len() && old_ids[j] == p;
        assert(awaited_in(old_msgs, old_ids[j]));
    }
}

/// Appending a message keeps every waiting message.
proof fn lemma_push_keeps_awaited(msgs: Seq<Message>, m: Message)
    ensures
        forall|p: Seq<char>| #[trigger] awaited_in(msgs, p) ==> awaited_in(msgs.push(m), p),
{
    assert forall|p: Seq<char>| #[trigger] awaited_in(msgs, p) implies awaited_in(msgs.push(m), p) by {
        let i = choose|i: int| 0 <= i < msgs.len() && msgs[i].id@ == p && awaiting(msgs[i].status);
        assert(msgs.push(m)[i] == msgs[i]);
    }
}

/// Whether some message of `msgs` with id `id` still waits for the server.
pub fn is_awaited(msgs: &Vec<Message>, id: &String) -> (r: bool)
    ensures
        r == awaited_in(msgs@, id@),
{
    let mut i: usize = 0;
    while i < msgs.len()
        invariant
            0 <= i <= msgs@.len(),
            forall|j: int| 0 <= j < i ==> !(msgs@[j].id@ == id@ && awaiting(msgs@[j].status)),
        decreases msgs@.len() - i,
    {
        let waiting = match &msgs[i].status {
            MessageStatus::Sending => true,
            _ => false,
        };
        if waiting && msgs[i].id == *id {
            return true;
        }
        i = i + 1;
    }
    false
}

/// The short form of a conversation id used in generated titles.
pub fn short_id_string(id: &str) -> (r: String)
    ensures
        r@ == short_id(id@),
{
    let n = id.unicode_len();
    match find_char(id, '-', 0) {
        Some(k) => {
            match find_char(id, '-', k + 1) {
                Some(m) => {
                    let seg = slice_string(id, k + 1, m);
                    let r = take_string(seg.as_str(), 8);
                    proof {
                        let k2 = choose|k2: int| first_at(id@, '-', 0, k2);
                        assert(k2 == k as int);
                        let start = k + 1;
                        let m2 = choose|m2: int| first_at(id@, '-', start as int, m2);
                        assert(m2 == m as int);
                    }
                    r
                },
                None => {
                    let seg = slice_string(id, k + 1, n);
                    let r = take_string(seg.as_str(), 8);
                    proof {
                        let k2 = choose|k2: int| first_at(id@, '-', 0, k2);
                        assert(k2 == k as int);
                    }
                    r
                },
            }
        },
        None => take_string(id, 8),
    }
}

} // verus!
