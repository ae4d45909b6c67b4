//! The whole client state in one value: conversations, current view,
//! connection status, typing flag and server URL.

use vstd::prelude::*;
use crate::conversation::{is_new_conversation, restamped, Conversation};
use crate::conversations::{
    find_conversation, has_id, merged, remove_conversation, sort_by_recency, sorted_by_recency, store_wf,
    upsert, upserted, view_after_delete, without, ViewState,
};
use crate::dispatch::{
    conversations_from_list, from_records, image_of, kept_records, parse_history, summarises,
};
use crate::protocol::WSServerMessage;
use crate::types::{ConnectionStatus, ImageData, Message, MessageSender, MessageStatus};

verus! {

/// The server URL used until another is set.
pub const DEFAULT_SERVER_URL: &'static str = "ws://10.8.0.8:8765/ws";

/// The conversations of `s` are those of `t`, except the one at `k`.
pub open spec fn same_but(s: Seq<Conversation>, t: Seq<Conversation>, k: int) -> bool {
    &&& s.len() == t.len()
    &&& forall|i: int| 0 <= i < s.len() && i != k ==> #[trigger] s[i] == t[i]
}

/// Global application state.
#[derive(Debug)]
pub struct AppState {
    pub conversations: Vec<Conversation>,
    pub view: ViewState,
    pub connection_status: ConnectionStatus,
    pub is_typing: bool,
    pub server_url: String,
    pub loading_conversations: bool,
}

impl AppState {
    pub open spec fn wf(&self) -> bool {
        store_wf(self.conversations@)
    }

    /// The starting state: no conversations, the list shown, connecting.
    pub fn new() -> (r: Self)
        ensures
            r.wf(),
            r.conversations@.len() == 0,
            r.view == ViewState::ConversationList,
            r.connection_status == ConnectionStatus::Connecting,
            !r.is_typing,
            r.server_url@ == DEFAULT_SERVER_URL@,
            r.loading_conversations,
    {
        AppState {
            conversations: Vec::new(),
            view: ViewState::ConversationList,
            connection_status: ConnectionStatus::Connecting,
            is_typing: false,
            server_url: DEFAULT_SERVER_URL.to_string(),
            loading_conversations: true,
        }
    }

    /// The conversation shown, if one is and it is known.
    pub fn current_conversation(&self) -> (r: Option<&Conversation>)
        requires
            self.wf(),
        ensures
            r matches Some(c) ==> (self.view matches ViewState::Chat(id) && c.id@ == id@
                && self.conversations@.contains(*c)),
            r is None ==> (self.view matches ViewState::Chat(id) ==> !has_id(
                self.conversations@,
                id@,
            )),
    {
        match &self.view {
            ViewState::Chat(id) => match find_conversation(&self.conversations, id) {
                Some(k) => Some(&self.conversations[k]),
                None => None,
            },
            ViewState::ConversationList => None,
        }
    }

    /// The id of the conversation shown, if one is.
    pub fn current_conversation_id(&self) -> (r: Option<&str>)
        ensures
            self.view matches ViewState::Chat(id) ==> (r matches Some(s) && s@ == id@),
            self.view is ConversationList ==> r is None,
    {
        match &self.view {
            ViewState::Chat(id) => Some(id.as_str()),
            ViewState::ConversationList => None,
        }
    }

    /// Whether a conversation with id `id` is known.
    pub fn has_conversation(&self, id: &str) -> (r: bool)
        requires
            self.wf(),
        ensures
            r == has_id(self.conversations@, id@),
    {
        let key = id.to_string();
        find_conversation(&self.conversations, &key).is_some()
    }

    /// A copy of the conversation with id `id`.
    pub fn get_conversation(&self, id: &str) -> (r: Option<Conversation>)
        requires
            self.wf(),
        ensures
            r is None <==> !has_id(self.conversations@, id@),
            r matches Some(c) ==> exists|i: int|
                0 <= i < self.conversations@.len() && self.conversations@[i].id@ == id@
                    && #[trigger] c.same(&self.conversations@[i]),
    {
        let key = id.to_string();
        match find_conversation(&self.conversations, &key) {
            Some(k) => Some(self.conversations[k].clone()),
            None => None,
        }
    }

    /// Shows conversation `id`.
    pub fn open_conversation(&mut self, id: &str)
        ensures
            final(self).view matches ViewState::Chat(c) && c@ == id@,
            final(self).conversations == old(self).conversations,
    {
        self.view = ViewState::Chat(id.to_string());
    }

    /// Shows the list.
    pub fn go_to_list(&mut self)
        ensures
            final(self).view == ViewState::ConversationList,
            final(self).conversations == old(self).conversations,
    {
        self.view = ViewState::ConversationList;
    }

    /// Adds a conversation, or replaces the one with its id.
    pub fn upsert_conversation(&mut self, conv: Conversation)
        requires
            old(self).wf(),
            conv.wf(),
        ensures
            final(self).wf(),
            final(self).conversations@ == upserted(old(self).conversations@, conv),
            final(self).view == old(self).view,
    {
        upsert(&mut self.conversations, conv);
    }

    /// Adds a new empty conversation and shows it.
    pub fn create_conversation(&mut self, id: String, title: Option<String>)
        requires
            old(self).wf(),
        ensures
            final(self).wf(),
            exists|c: Conversation|
                #[trigger] is_new_conversation(c, id, title) && final(self).conversations@
                    == upserted(old(self).conversations@, c),
            has_id(final(self).conversations@, id@),
            final(self).view == ViewState::Chat(id),
    {
        let ghost t = title;
        let conv = Conversation::new(id.clone(), title);
        upsert(&mut self.conversations, conv);
        proof {
            crate::conversations::lemma_upserted_has(old(self).conversations@, conv);
            assert(is_new_conversation(conv, id, t));
        }
        self.view = ViewState::Chat(id);
    }

    /// Removes conversation `id`; if it was shown, shows the list.
    pub fn delete_conversation(&mut self, id: &str)
        requires
            old(self).wf(),
        ensures
            final(self).wf(),
            final(self).conversations@ == without(old(self).conversations@, id@),
            !has_id(final(self).conversations@, id@),
            final(self).view == view_after_delete(old(self).view, id@),
    {
        let key = id.to_string();
        remove_conversation(&mut self.conversations, &key);
        let shown = match &self.view {
            ViewState::Chat(c) => *c == key,
            ViewState::ConversationList => false,
        };
        if shown {
            self.view = ViewState::ConversationList;
        }
    }

    /// The conversations, most recent first.
    pub fn sorted_conversations(&self) -> (r: Vec<Conversation>)
        ensures
            sorted_by_recency(self.conversations@, r@),
    {
        sort_by_recency(&self.conversations)
    }

    /// Records a response in conversation `conversation_id` (see
    /// `Conversation::add_response`); unknown conversations are left alone.
    pub fn add_response_to_conversation(
        &mut self,
        conversation_id: &str,
        reply_to: &str,
        response: Message,
    )
        requires
            old(self).wf(),
        ensures
            final(self).wf(),
            final(self).view == old(self).view,
            !has_id(old(self).conversations@, conversation_id@) ==> final(self).conversations
                == old(self).conversations,
            forall|k: int|
                0 <= k < old(self).conversations@.len() && old(self).conversations@[k].id@
                    == conversation_id@ ==> same_but(
                    final(self).conversations@,
                    old(self).conversations@,
                    k,
                ) && #[trigger] final(self).conversations@[k].messages@ == (if old(self).conversations@[k].message_count < usize::MAX {
                    restamped(
                        old(self).conversations@[k].messages@,
                        reply_to@,
                        MessageStatus::Delivered,
                    ).push(response)
                } else {
                    old(self).conversations@[k].messages@
                }) && (old(self).conversations@[k].message_count < usize::MAX
                    ==> !final(self).conversations@[k].pending_ids().contains(reply_to@)),
    {
        let key = conversation_id.to_string();
        match find_conversation(&self.conversations, &key) {
            Some(k) => {
                if self.conversations[k].message_count < usize::MAX {
                    let ghost before = self.conversations@;
                    self.conversations[k].add_response(reply_to, response);
                    proof {
                        assert forall|i: int, j: int|
                            0 <= i < j < self.conversations@.len() implies self.conversations@[i].id@
                            != self.conversations@[j].id@ by {
                            assert(self.conversations@[i].id == before[i].id);
                            assert(self.conversations@[j].id == before[j].id);
                        }
                        assert forall|i: int| 0 <= i < self.conversations@.len() implies #[trigger] self.conversations@[i].wf() by {
                            if i != k {
                                assert(self.conversations@[i] == before[i]);
                            }
                        }
                    }
                }
            },
            None => {},
        }
    }

    /// Marks message `message_id` of conversation `conversation_id` with an
    /// error (see `Conversation::mark_message_error`).
    pub fn mark_message_error_in_conversation(
        &mut self,
        conversation_id: &str,
        message_id: &str,
        error: String,
    )
        requires
            old(self).wf(),
        ensures
            final(self).wf(),
            final(self).view == old(self).view,
            !has_id(old(self).conversations@, conversation_id@) ==> final(self).conversations
                == old(self).conversations,
            forall|k: int|
                0 <= k < old(self).conversations@.len() && old(self).conversations@[k].id@
                    == conversation_id@ ==> same_but(
                    final(self).conversations@,
                    old(self).conversations@,
                    k,
                ) && #[trigger] final(self).conversations@[k].messages@ == restamped(
                    old(self).conversations@[k].messages@,
                    message_id@,
                    MessageStatus::Error(error),
                ) && !final(self).conversations@[k].pending_ids().contains(message_id@),
    {
        let key = conversation_id.to_string();
        match find_conversation(&self.conversations, &key) {
            Some(k) => {
                let ghost before = self.conversations@;
                self.conversations[k].mark_message_error(message_id, error);
                proof {
                    assert forall|i: int, j: int|
                        0 <= i < j < self.conversations@.len() implies self.conversations@[i].id@
                        != self.conversations@[j].id@ by {
                        assert(self.conversations@[i].id == before[i].id);
                        assert(self.conversations@[j].id == before[j].id);
                    }
                    assert forall|i: int| 0 <= i < self.conversations@.len() implies #[trigger] self.conversations@[i].wf() by {
                        if i != k {
                            assert(self.conversations@[i] == before[i]);
                        }
                    }
                }
            },
            None => {},
        }
    }

    /// Replaces the messages of conversation `conversation_id` with a loaded
    /// history (see `Conversation::set_messages`).
    pub fn set_conversation_history(&mut self, conversation_id: &str, messages: Vec<Message>)
        requires
            old(self).wf(),
        ensures
            final(self).wf(),
            final(self).view == old(self).view,
            !has_id(old(self).conversations@, conversation_id@) ==> final(self).conversations
                == old(self).conversations,
            forall|k: int|
                0 <= k < old(self).conversations@.len() && old(self).conversations@[k].id@
                    == conversation_id@ ==> same_but(
                    final(self).conversations@,
                    old(self).conversations@,
                    k,
                ) && #[trigger] final(self).conversations@[k].messages@ == messages@,
    {
        let key = conversation_id.to_string();
        match find_conversation(&self.conversations, &key) {
            Some(k) => {
                let ghost before = self.conversations@;
                self.conversations[k].set_messages(messages);
                proof {
                    assert forall|i: int, j: int|
                        0 <= i < j < self.conversations@.len() implies self.conversations@[i].id@
                        != self.conversations@[j].id@ by {
                        assert(self.conversations@[i].id == before[i].id);
                        assert(self.conversations@[j].id == before[j].id);
                    }
                    assert forall|i: int| 0 <= i < self.conversations@.len() implies #[trigger] self.conversations@[i].wf() by {
                        if i != k {
                            assert(self.conversations@[i] == before[i]);
                        }
                    }
                }
            },
            None => {},
        }
    }

    /// Applies a message from the server directly to the state: a response
    /// answers the message named by its `replyTo`, typing is shown only for
    /// the conversation on screen, an error marks the message it names, a
    /// list is merged (and loading ends), a history replaces a
    /// conversation's messages, and created or deleted conversations are
    /// added (and shown) or removed.
    pub fn apply_server_message(&mut self, msg: WSServerMessage)
        requires
            old(self).wf(),
        ensures
            final(self).wf(),
            msg matches WSServerMessage::Response { id, reply_to, conversation_id, body, image, .. }
                ==> (conversation_id matches Some(c) ==> forall|k: int|
                0 <= k < old(self).conversations@.len() && old(self).conversations@[k].id@ == c@
                    && old(self).conversations@[k].message_count < usize::MAX ==> {
                    let m = #[trigger] final(self).conversations@[k].messages@.last();
                    &&& !final(self).conversations@[k].pending_ids().contains(reply_to@)
                    &&& final(self).conversations@[k].messages@ == restamped(
                        old(self).conversations@[k].messages@,
                        reply_to@,
                        MessageStatus::Delivered,
                    ).push(m)
                    &&& m.id == id && m.body == body && m.image == image_of(image)
                    &&& m.sender == MessageSender::Assistant
                    &&& m.status == MessageStatus::Delivered
                }),
            msg matches WSServerMessage::Typing { conversation_id, is_typing, .. } ==> (
            final(self).is_typing == if (conversation_id matches Some(c) && old(self).view matches ViewState::Chat(v) && v@ == c@) {
                is_typing
            } else {
                old(self).is_typing
            }),
            msg matches WSServerMessage::Error {
                reply_to: Some(r),
                conversation_id: Some(c),
                message,
                ..
            } ==> (forall|k: int|
                0 <= k < old(self).conversations@.len() && old(self).conversations@[k].id@ == c@
                    ==> #[trigger] final(self).conversations@[k].messages@ == restamped(
                    old(self).conversations@[k].messages@,
                    r@,
                    MessageStatus::Error(message),
                ) && !final(self).conversations@[k].pending_ids().contains(r@)),
            msg matches WSServerMessage::ConversationsList { conversations, .. } ==> {
                &&& !final(self).loading_conversations
                &&& exists|cs: Seq<Conversation>|
                    cs.len() == conversations@.len() && (forall|j: int|
                        0 <= j < cs.len() ==> #[trigger] summarises(cs[j], conversations@[j]))
                        && final(self).conversations@ == merged(old(self).conversations@, cs)
            },
            msg matches WSServerMessage::History { conversation_id, messages, .. } ==> forall|k: int|
                0 <= k < old(self).conversations@.len() && old(self).conversations@[k].id@
                    == conversation_id@ ==> from_records(
                    #[trigger] final(self).conversations@[k].messages@,
                    kept_records(messages@),
                ),
            msg matches WSServerMessage::ConversationCreated { conversation_id, title, .. } ==> (exists|
                c: Conversation,
            |
                #[trigger] is_new_conversation(c, conversation_id, title) && final(self).conversations@ == upserted(old(self).conversations@, c)) && final(self).view
                == ViewState::Chat(conversation_id),
            msg matches WSServerMessage::ConversationDeleted { conversation_id, .. } ==> !has_id(
                final(self).conversations@,
                conversation_id@,
            ) && final(self).view == view_after_delete(old(self).view, conversation_id@),
            (msg is Pong || msg is Notification) ==> *final(self) == *old(self),
    {
        match msg {
            WSServerMessage::Response { id, reply_to, conversation_id, body, image, .. } => {
                let image_data = match image {
                    Some(i) => Some(ImageData { data: i.data, mimetype: i.mimetype }),
                    None => None,
                };
                let response = Message::new_assistant(id, body, image_data);
                if let Some(c) = conversation_id {
                    self.add_response_to_conversation(c.as_str(), reply_to.as_str(), response);
                }
            },
            WSServerMessage::Typing { conversation_id, is_typing, .. } => {
                if let Some(c) = conversation_id {
                    let shown = match &self.view {
                        ViewState::Chat(v) => *v == c,
                        ViewState::ConversationList => false,
                    };
                    if shown {
                        self.is_typing = is_typing;
                    }
                }
            },
            WSServerMessage::Error { reply_to, conversation_id, message, .. } => {
                match (reply_to, conversation_id) {
                    (Some(r), Some(c)) => {
                        self.mark_message_error_in_conversation(c.as_str(), r.as_str(), message)
                    },
                    _ => {},
                }
            },
            WSServerMessage::ConversationsList { conversations, .. } => {
                self.loading_conversations = false;
                let mut list = conversations_from_list(&conversations);
                proof {
                    assert forall|j: int| 0 <= j < list@.len() implies #[trigger] list@[j].wf() by {
                        assert(summarises(list@[j], conversations@[j]));
                    }
                }
                let ghost all = list@;
                let ghost start = self.conversations@;
                let n = list.len();
                let mut i: usize = 0;
                while i < n
                    invariant
                        n == all.len(),
                        list@ == all.subrange(i as int, n as int),
                        forall|j: int| 0 <= j < all.len() ==> #[trigger] all[j].wf(),
                        store_wf(self.conversations@),
                        self.conversations@ == merged(start, all.subrange(0, i as int)),
                        !self.loading_conversations,
                        0 <= i <= n,
                    decreases n - i,
                {
                    let c = list.remove(0);
                    proof {
                        assert(c == all[i as int]);
                        assert(all.subrange(0, i + 1).drop_last() =~= all.subrange(0, i as int));
                        assert(list@ =~= all.subrange(i + 1, n as int));
                    }
                    upsert(&mut self.conversations, c);
                    i = i + 1;
                }
                proof {
                    assert(all.subrange(0, n as int) =~= all);
                }
            },
            WSServerMessage::History { conversation_id, messages, .. } => {
                let parsed = parse_history(&messages);
                self.set_conversation_history(conversation_id.as_str(), parsed);
            },
            WSServerMessage::ConversationCreated { conversation_id, title, .. } => {
                self.create_conversation(conversation_id, title);
            },
            WSServerMessage::ConversationDeleted { conversation_id, .. } => {
                self.delete_conversation(conversation_id.as_str());
            },
            WSServerMessage::Notification { .. } => {},
            WSServerMessage::Pong { .. } => {},
        }
    }
}

impl Default for AppState {
    fn default() -> (r: Self)
        ensures
            r.wf(),
            r.conversations@.len() == 0,
            r.view == ViewState::ConversationList,
            r.connection_status == ConnectionStatus::Connecting,
    {
        AppState::new()
    }
}

} // verus!
