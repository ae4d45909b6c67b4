//! The client-side mirror of the conversation list: conversations keyed by
//! id, the current view, and the ordering by recency.

use vstd::prelude::*;
use crate::conversation::{is_new_conversation, Conversation};
use crate::outbound::get_history_request;
use crate::protocol::WSClientMessage;
use crate::events::AppEvent;

verus! {

/// Which screen is shown: the list, or one conversation.
#[derive(Debug, PartialEq, Eq)]
pub enum ViewState {
    ConversationList,
    Chat(String),
}

impl Clone for ViewState {
    fn clone(&self) -> (r: Self)
        ensures
            r == *self,
    {
        match self {
            ViewState::ConversationList => ViewState::ConversationList,
            ViewState::Chat(id) => ViewState::Chat(id.clone()),
        }
    }
}

/// Ids are distinct and every conversation is well formed.
pub open spec fn store_wf(s: Seq<Conversation>) -> bool {
    &&& forall|i: int, j: int| 0 <= i < j < s.len() ==> s[i].id@ != s[j].id@
    &&& forall|i: int| 0 <= i < s.len() ==> #[trigger] s[i].wf()
}

/// Some conversation of `s` has id `id`.
pub open spec fn has_id(s: Seq<Conversation>, id: Seq<char>) -> bool {
    exists|i: int| 0 <= i < s.len() && #[trigger] s[i].id@ == id
}

/// `s` with conversation `c` put in: it replaces the one with the same id,
/// or comes last.
pub open spec fn upserted(s: Seq<Conversation>, c: Conversation) -> Seq<Conversation> {
    if has_id(s, c.id@) {
        s.update(choose|i: int| 0 <= i < s.len() && #[trigger] s[i].id@ == c.id@, c)
    } else {
        s.push(c)
    }
}

/// `s` with each conversation of `cs` put in, in order.
pub open spec fn merged(s: Seq<Conversation>, cs: Seq<Conversation>) -> Seq<Conversation>
    decreases cs.len(),
{
    if cs.len() == 0 {
        s
    } else {
        upserted(merged(s, cs.drop_last()), cs.last())
    }
}

/// `s` without the conversation with id `id`.
pub open spec fn without(s: Seq<Conversation>, id: Seq<char>) -> Seq<Conversation> {
    if has_id(s, id) {
        s.remove(choose|i: int| 0 <= i < s.len() && #[trigger] s[i].id@ == id)
    } else {
        s
    }
}

/// `a` is at least as recent as `b`; a conversation without a time is older
/// than any with one.
pub open spec fn at_least_as_recent(a: Option<i64>, b: Option<i64>) -> bool {
    match (a, b) {
        (_, None) => true,
        (None, Some(_)) => false,
        (Some(x), Some(y)) => x >= y,
    }
}

/// `order` lists every index below `n` once.
pub open spec fn is_permutation(order: Seq<usize>, n: nat) -> bool {
    &&& order.len() == n
    &&& order.no_duplicates()
    &&& forall|i: int| 0 <= i < order.len() ==> #[trigger] order[i] < n
}

/// `r` holds the conversations of `s`, most recent first.
pub open spec fn sorted_by_recency(s: Seq<Conversation>, r: Seq<Conversation>) -> bool {
    &&& r.len() == s.len()
    &&& exists|order: Seq<usize>|
        is_permutation(order, s.len()) && forall|i: int|
            0 <= i < r.len() ==> #[trigger] r[i].same(&s[order[i] as int])
    &&& forall|i: int, j: int|
        0 <= i < j < r.len() ==> at_least_as_recent(
            r[i].last_message_time,
            r[j].last_message_time,
        )
}

/// Whether `a` is at least as recent as `b`.
pub fn is_at_least_as_recent(a: Option<i64>, b: Option<i64>) -> (r: bool)
    ensures
        r == at_least_as_recent(a, b),
{
    match (a, b) {
        (_, None) => true,
        (None, Some(_)) => false,
        (Some(x), Some(y)) => x >= y,
    }
}

/// Index of the conversation with id `id`.
pub fn find_conversation(s: &Vec<Conversation>, id: &String) -> (r: Option<usize>)
    requires
        store_wf(s@),
    ensures
        r matches Some(k) ==> k < s@.len() && s@[k as int].id@ == id@,
        r is None <==> !has_id(s@, id@),
{
    let mut i: usize = 0;
    while i < s.len()
        invariant
            0 <= i <= s@.len(),
            forall|j: int| 0 <= j < i ==> s@[j].id@ != id@,
        decreases s@.len() - i,
    {
        if s[i].id == *id {
            return Some(i);
        }
        i = i + 1;
    }
    None
}

/// Puts `c` into the store: see `upserted`.
pub fn upsert(s: &mut Vec<Conversation>, c: Conversation)
    requires
        store_wf(old(s)@),
        c.wf(),
    ensures
        store_wf(final(s)@),
        final(s)@ == upserted(old(s)@, c),
{
    let ghost before = s@;
    match find_conversation(s, &c.id) {
        Some(k) => {
            proof {
                let i = choose|i: int| 0 <= i < before.len() && #[trigger] before[i].id@ == c.id@;
                assert(i == k as int);
            }
            s.set(k, c);
        },
        None => {
            s.push(c);
        },
    }
}

/// Removes the conversation with id `id`: see `without`.
pub fn remove_conversation(s: &mut Vec<Conversation>, id: &String)
    requires
        store_wf(old(s)@),
    ensures
        store_wf(final(s)@),
        final(s)@ == without(old(s)@, id@),
        !has_id(final(s)@, id@),
{
    let ghost before = s@;
    match find_conversation(s, id) {
        Some(k) => {
            proof {
                let i = choose|i: int| 0 <= i < before.len() && #[trigger] before[i].id@ == id@;
                assert(i == k as int);
            }
            s.remove(k);
            proof {
                assert forall|j: int| 0 <= j < s@.len() implies s@[j].id@ != id@ by {
                    if j < k {
                        assert(s@[j] == before[j]);
                    } else {
                        assert(s@[j] == before[j + 1]);
                    }
                }
            }
        },
        None => {},
    }
}

/// The conversations of `s`, most recent first (a stable order).
pub fn sort_by_recency(s: &Vec<Conversation>) -> (r: Vec<Conversation>)
    ensures
        sorted_by_recency(s@, r@),
{
    let n = s.len();
    let mut order: Vec<usize> = Vec::new();
    let mut i: usize = 0;
    while i < n
        invariant
            n == s@.len(),
            0 <= i <= n,
            order@.len() == i,
            order@.no_duplicates(),
            forall|k: int| 0 <= k < order@.len() ==> #[trigger] order@[k] < i,
            forall|a: int, b: int|
                0 <= a < b < order@.len() ==> at_least_as_recent(
                    s@[order@[a] as int].last_message_time,
                    s@[order@[b] as int].last_message_time,
                ),
        decreases n - i,
    {
        let key = s[i].last_message_time;
        let mut p: usize = 0;
        while p < order.len() && is_at_least_as_recent(s[order[p]].last_message_time, key)
            invariant
                n == s@.len(),
                i < n,
                key == s@[i as int].last_message_time,
                0 <= p <= order@.len(),
                forall|k: int| 0 <= k < order@.len() ==> #[trigger] order@[k] < i,
                forall|k: int|
                    0 <= k < p ==> at_least_as_recent(
                        s@[#[trigger] order@[k] as int].last_message_time,
                        key,
                    ),
            decreases order@.len() - p,
        {
            p = p + 1;
        }
        let ghost before = order@;
        proof {
            if p < before.len() {
                assert(!at_least_as_recent(s@[before[p as int] as int].last_message_time, key));
            }
        }
        order.insert(p, i);
        proof {
            assert forall|a: int, b: int| 0 <= a < b < order@.len() implies at_least_as_recent(
                s@[order@[a] as int].last_message_time,
                s@[order@[b] as int].last_message_time,
            ) by {
                if b < p {
                    assert(order@[a] == before[a] && order@[b] == before[b]);
                } else if b == p {
                    assert(order@[a] == before[a]);
                } else if a == p {
                    assert(order@[b] == before[b - 1]);
                    assert(at_least_as_recent(
                        s@[before[p as int] as int].last_message_time,
                        s@[before[b - 1] as int].last_message_time,
                    ) || b - 1 == p);
                } else if a < p {
                    assert(order@[a] == before[a] && order@[b] == before[b - 1]);
                } else {
                    assert(order@[a] == before[a - 1] && order@[b] == before[b - 1]);
                }
            }
            assert forall|x: int, y: int|
                0 <= x < order@.len() && 0 <= y < order@.len() && x != y implies order@[x]
                != order@[y] by {
                if x != p as int && y != p as int {
                    let xx = if x < p { x } else { x - 1 };
                    let yy = if y < p { y } else { y - 1 };
                    assert(order@[x] == before[xx] && order@[y] == before[yy]);
                } else if x == p as int {
                    let yy = if y < p { y } else { y - 1 };
                    assert(order@[y] == before[yy]);
                } else {
                    let xx = if x < p { x } else { x - 1 };
                    assert(order@[x] == before[xx]);
                }
            }
            assert forall|k: int| 0 <= k < order@.len() implies #[trigger] order@[k] < i + 1 by {
                if k < p {
                    assert(order@[k] == before[k]);
                } else if k > p {
                    assert(order@[k] == before[k - 1]);
                }
            }
        }
        i = i + 1;
    }
    let mut r: Vec<Conversation> = Vec::new();
    let mut j: usize = 0;
    while j < n
        invariant
            n == s@.len(),
            order@.len() == n,
            forall|k: int| 0 <= k < order@.len() ==> #[trigger] order@[k] < n,
            0 <= j <= n,
            r@.len() == j,
            forall|k: int| 0 <= k < j ==> #[trigger] r@[k].same(&s@[order@[k] as int]),
        decreases n - j,
    {
        r.push(s[order[j]].clone());
        j = j + 1;
    }
    proof {
        assert(is_permutation(order@, n as nat));
        assert forall|a: int, b: int| 0 <= a < b < r@.len() implies at_least_as_recent(
            r@[a].last_message_time,
            r@[b].last_message_time,
        ) by {
            assert(r@[a].same(&s@[order@[a] as int]));
            assert(r@[b].same(&s@[order@[b] as int]));
        }
    }
    r
}

/// Number of messages asked for when a conversation's history is loaded.
pub const HISTORY_LIMIT: u32 = 50;

/// Every conversation of a loaded list is well formed.
pub open spec fn all_wf(cs: Seq<Conversation>) -> bool {
    forall|i: int| 0 <= i < cs.len() ==> #[trigger] cs[i].wf()
}

/// The conversations carried by an event are well formed.
pub open spec fn event_wf(e: AppEvent) -> bool {
    match e {
        AppEvent::ConversationsLoaded(cs) => all_wf(cs@),
        _ => true,
    }
}

/// The view after the conversation with id `id` is deleted.
pub open spec fn view_after_delete(v: ViewState, id: Seq<char>) -> ViewState {
    match v {
        ViewState::Chat(c) => if c@ == id {
            ViewState::ConversationList
        } else {
            v
        },
        ViewState::ConversationList => v,
    }
}

/// The conversations feature: the conversation store, the current view and
/// whether the list is still loading.
pub struct ConversationsState {
    pub conversations: Vec<Conversation>,
    pub view: ViewState,
    pub loading: bool,
}

impl ConversationsState {
    pub open spec fn wf(&self) -> bool {
        store_wf(self.conversations@)
    }

    /// No conversations, the list shown, loading.
    pub fn new() -> (r: Self)
        ensures
            r.wf(),
            r.conversations@.len() == 0,
            r.view == ViewState::ConversationList,
            r.loading,
    {
        ConversationsState {
            conversations: Vec::new(),
            view: ViewState::ConversationList,
            loading: true,
        }
    }

    /// The current view.
    pub fn view(&self) -> (r: ViewState)
        ensures
            r == self.view,
    {
        self.view.clone()
    }

    /// Whether the list is still loading.
    pub fn is_loading(&self) -> (r: bool)
        ensures
            r == self.loading,
    {
        self.loading
    }

    /// The conversations, most recent first.
    pub fn sorted_conversations(&self) -> (r: Vec<Conversation>)
        ensures
            sorted_by_recency(self.conversations@, r@),
    {
        sort_by_recency(&self.conversations)
    }

    /// A copy of the conversation with id `id`.
    pub fn get_conversation(&self, id: &str) -> (r: Option<Conversation>)
        requires
            self.wf(),
        ensures
            r is None <==> !has_id(self.conversations@, id@),
            r matches Some(c) ==> exists|i: int|
                0 <= i < self.conversations@.len() && self.conversations@[i].id@ == id@
                    && #[trigger] c.same(&self.conversations@[i]),
    {
        let key = id.to_string();
        match find_conversation(&self.conversations, &key) {
            Some(k) => Some(self.conversations[k].clone()),
            None => None,
        }
    }

    /// The id of the conversation shown, if one is.
    pub fn current_conversation_id(&self) -> (r: Option<String>)
        ensures
            self.view matches ViewState::Chat(id) ==> r == Some(id),
            self.view is ConversationList ==> r is None,
    {
        match &self.view {
            ViewState::Chat(id) => Some(id.clone()),
            ViewState::ConversationList => None,
        }
    }

    /// Sets the loading flag.
    pub fn set_loading(&mut self, loading: bool)
        ensures
            final(self).loading == loading,
            final(self).view == old(self).view,
            final(self).conversations == old(self).conversations,
    {
        self.loading = loading;
    }

    /// Shows the list.
    pub fn go_to_list(&mut self)
        ensures
            final(self).view == ViewState::ConversationList,
            final(self).loading == old(self).loading,
            final(self).conversations == old(self).conversations,
    {
        self.view = ViewState::ConversationList;
    }

    /// Shows conversation `id`.
    pub fn open_conversation(&mut self, id: &str)
        ensures
            final(self).view matches ViewState::Chat(c) && c@ == id@,
            final(self).loading == old(self).loading,
            final(self).conversations == old(self).conversations,
    {
        self.view = ViewState::Chat(id.to_string());
    }

    /// Adds a conversation, or replaces the one with its id.
    pub fn upsert_conversation(&mut self, conversation: Conversation)
        requires
            old(self).wf(),
            conversation.wf(),
        ensures
            final(self).wf(),
            final(self).conversations@ == upserted(old(self).conversations@, conversation),
            final(self).view == old(self).view,
            final(self).loading == old(self).loading,
    {
        upsert(&mut self.conversations, conversation);
    }

    /// Merges a loaded list into the store (a conversation replaces the one
    /// with its id) and ends loading.
    pub fn set_conversations(&mut self, conversations: Vec<Conversation>)
        requires
            old(self).wf(),
            all_wf(conversations@),
        ensures
            final(self).wf(),
            final(self).conversations@ == merged(old(self).conversations@, conversations@),
            final(self).view == old(self).view,
            !final(self).loading,
    {
        self.loading = false;
        let ghost start = self.conversations@;
        let mut rest = conversations;
        let ghost all = rest@;
        let n = rest.len();
        let mut i: usize = 0;
        while i < n
            invariant
                n == all.len(),
                rest@ == all.subrange(i as int, n as int),
                all_wf(all),
                store_wf(self.conversations@),
                self.conversations@ == merged(start, all.subrange(0, i as int)),
                self.view == old(self).view,
                !self.loading,
                0 <= i <= n,
            decreases n - i,
        {
            let c = rest.remove(0);
            proof {
                assert(c == all[i as int]);
                assert(all.subrange(0, i + 1).drop_last() =~= all.subrange(0, i as int));
                assert(rest@ =~= all.subrange(i + 1, n as int));
            }
            upsert(&mut self.conversations, c);
            i = i + 1;
        }
        proof {
            assert(all.subrange(0, n as int) =~= all);
        }
    }

    /// Adds a new empty conversation and shows it.
    pub fn create_conversation(&mut self, id: String, title: Option<String>)
        requires
            old(self).wf(),
        ensures
            final(self).wf(),
            exists|c: Conversation|
                #[trigger] is_new_conversation(c, id, title) && final(self).conversations@
                    == upserted(old(self).conversations@, c),
            has_id(final(self).conversations@, id@),
            final(self).view == ViewState::Chat(id),
            final(self).loading == old(self).loading,
    {
        let ghost t = title;
        let c = Conversation::new(id.clone(), title);
        upsert(&mut self.conversations, c);
        proof {
            lemma_upserted_has(old(self).conversations@, c);
            assert(is_new_conversation(c, id, t));
        }
        self.view = ViewState::Chat(id);
    }

    /// Removes conversation `id`; if it was shown, shows the list.
    pub fn delete_conversation(&mut self, id: &str)
        requires
            old(self).wf(),
        ensures
            final(self).wf(),
            final(self).conversations@ == without(old(self).conversations@, id@),
            final(self).view == view_after_delete(old(self).view, id@),
            final(self).loading == old(self).loading,
    {
        let key = id.to_string();
        remove_conversation(&mut self.conversations, &key);
        let shown = match &self.view {
            ViewState::Chat(c) => *c == key,
            ViewState::ConversationList => false,
        };
        if shown {
            self.view = ViewState::ConversationList;
        }
    }

    /// Shows conversation `id`. Returns the event that announces the
    /// selection, and the request for its history (at most `HISTORY_LIMIT`
    /// messages), to publish and to send.
    pub fn select_conversation(&mut self, id: &str) -> (r: (AppEvent, WSClientMessage))
        ensures
            final(self).view matches ViewState::Chat(c) && c@ == id@,
            r.0 matches AppEvent::ConversationSelected(c) && c@ == id@,
            r.1 matches WSClientMessage::GetHistory { conversation_id, limit, .. }
                && conversation_id@ == id@ && limit == Some(HISTORY_LIMIT),
            final(self).conversations == old(self).conversations,
            final(self).loading == old(self).loading,
    {
        self.open_conversation(id);
        let request = get_history_request(id.to_string(), Some(HISTORY_LIMIT));
        (AppEvent::ConversationSelected(id.to_string()), request)
    }

    /// Goes back to the list and returns the event that announces it.
    pub fn go_back(&mut self) -> (r: AppEvent)
        ensures
            final(self).view == ViewState::ConversationList,
            r is NavigateToList,
            final(self).conversations == old(self).conversations,
            final(self).loading == old(self).loading,
    {
        self.go_to_list();
        AppEvent::NavigateToList
    }

    /// Applies an event from the bus to the conversations feature.
    pub fn apply_event(&mut self, event: AppEvent)
        requires
            old(self).wf(),
            event_wf(event),
        ensures
            final(self).wf(),
            event matches AppEvent::ConversationsLoaded(cs) ==> final(self).conversations@
                == merged(old(self).conversations@, cs@) && !final(self).loading,
            event matches AppEvent::ConversationCreated { id, title } ==> (exists|c: Conversation|
                #[trigger] is_new_conversation(c, id, title) && final(self).conversations@
                    == upserted(old(self).conversations@, c)) && final(self).view
                == ViewState::Chat(id),
            event matches AppEvent::ConversationDeleted(id) ==> final(self).conversations@
                == without(old(self).conversations@, id@) && final(self).view == view_after_delete(
                old(self).view,
                id@,
            ),
            event is NavigateToList ==> final(self).view == ViewState::ConversationList,
            event matches AppEvent::NavigateToChat(id) ==> (final(self).view matches ViewState::Chat(
                c,
            ) && c@ == id@),
            !(event is ConversationsLoaded || event is ConversationCreated
                || event is ConversationDeleted || event is NavigateToList
                || event is NavigateToChat) ==> *final(self) == *old(self),
    {
        match event {
            AppEvent::ConversationsLoaded(cs) => self.set_conversations(cs),
            AppEvent::ConversationCreated { id, title } => self.create_conversation(id, title),
            AppEvent::ConversationDeleted(id) => self.delete_conversation(id.as_str()),
            AppEvent::NavigateToList => self.go_to_list(),
            AppEvent::NavigateToChat(id) => self.open_conversation(id.as_str()),
            _ => {},
        }
    }
}

/// After `c` is put in, its id is present.
pub proof fn lemma_upserted_has(s: Seq<Conversation>, c: Conversation)
    ensures
        has_id(upserted(s, c), c.id@),
{
    if has_id(s, c.id@) {
        let i = choose|i: int| 0 <= i < s.len() && #[trigger] s[i].id@ == c.id@;
        assert(upserted(s, c)[i] == c);
    } else {
        assert(upserted(s, c)[s.len() as int] == c);
    }
}

} // verus!
