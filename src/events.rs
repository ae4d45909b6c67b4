//! Application events and the publish/subscribe bus that carries them.

use vstd::prelude::*;
use crate::conversation::Conversation;
use crate::types::{ConnectionStatus, Message};

verus! {

/// Events exchanged between the transport and the feature services.
#[derive(Debug, Clone)]
pub enum AppEvent {
    ConnectionChanged(ConnectionStatus),
    ConversationSelected(String),
    ConversationCreated { id: String, title: Option<String> },
    ConversationDeleted(String),
    ConversationsLoaded(Vec<Conversation>),
    MessageSent { conv_id: String, message: Message },
    MessageReceived { conv_id: String, message: Message },
    MessageError { conv_id: String, msg_id: String, error: String },
    TypingChanged { conv_id: String, is_typing: bool },
    HistoryLoaded { conv_id: String, messages: Vec<Message> },
    ServerUrlChanged(String),
    SettingsModalToggled(bool),
    NavigateToList,
    NavigateToChat(String),
}

/// A fan-out bus. Every event is published once into a log; each subscriber
/// reads the log from its own cursor, so it sees every event published after
/// it subscribed, in publish order, exactly once. Unbounded: events stay
/// until every subscriber has read them and `compact` is called.
pub struct EventBus<T> {
    log: Vec<T>,
    cursors: Vec<usize>,
}

impl<T> EventBus<T> {
    /// Cursors stay inside the log.
    pub closed spec fn wf(&self) -> bool {
        forall|s: int| 0 <= s < self.cursors@.len() ==> self.cursors@[s] <= self.log@.len()
    }

    /// Number of subscribers.
    pub closed spec fn subscribers(&self) -> nat {
        self.cursors@.len()
    }

    /// Events published to subscriber `s` that it has not read yet, oldest first.
    pub closed spec fn pending(&self, s: int) -> Seq<T> {
        self.log@.subrange(self.cursors@[s] as int, self.log@.len() as int)
    }

    /// A bus with no subscribers.
    pub fn new() -> (r: Self)
        ensures
            r.wf(),
            r.subscribers() == 0,
    {
        EventBus { log: Vec::new(), cursors: Vec::new() }
    }

    /// Number of subscribers.
    pub fn subscriber_count(&self) -> (r: usize)
        ensures
            r == self.subscribers(),
    {
        self.cursors.len()
    }

    /// Publishes `event` to every current subscriber; with none it is dropped.
    pub fn publish(&mut self, event: T)
        requires
            old(self).wf(),
        ensures
            final(self).wf(),
            final(self).subscribers() == old(self).subscribers(),
            forall|s: int|
                0 <= s < old(self).subscribers() ==> #[trigger] final(self).pending(s) == old(
                    self,
                ).pending(s).push(event),
    {
        if self.cursors.len() == 0 {
            return;
        }
        let ghost before = *self;
        self.log.push(event);
        assert forall|s: int| 0 <= s < before.subscribers() implies #[trigger] self.pending(s)
            == before.pending(s).push(event) by {
            assert(self.pending(s) =~= before.pending(s).push(event));
        }
    }

    /// Adds a subscriber that will see the events published from now on, and
    /// returns its number.
    pub fn subscribe(&mut self) -> (r: usize)
        requires
            old(self).wf(),
            old(self).subscribers() < usize::MAX,
        ensures
            final(self).wf(),
            r == old(self).subscribers(),
            final(self).subscribers() == old(self).subscribers() + 1,
            final(self).pending(r as int).len() == 0,
            forall|s: int|
                0 <= s < old(self).subscribers() ==> #[trigger] final(self).pending(s) == old(
                    self,
                ).pending(s),
    {
        let r = self.cursors.len();
        self.cursors.push(self.log.len());
        r
    }

    /// The oldest event that subscriber `s` has not read yet.
    pub fn peek(&self, s: usize) -> (r: Option<&T>)
        requires
            self.wf(),
            s < self.subscribers(),
        ensures
            self.pending(s as int).len() == 0 ==> r is None,
            self.pending(s as int).len() > 0 ==> r == Some(&self.pending(s as int)[0]),
    {
        let c = self.cursors[s];
        if c < self.log.len() {
            Some(&self.log[c])
        } else {
            None
        }
    }

    /// Marks the oldest unread event of subscriber `s` as read.
    pub fn advance(&mut self, s: usize)
        requires
            old(self).wf(),
            s < old(self).subscribers(),
        ensures
            final(self).wf(),
            final(self).subscribers() == old(self).subscribers(),
            final(self).pending(s as int) == if old(self).pending(s as int).len() == 0 {
                old(self).pending(s as int)
            } else {
                old(self).pending(s as int).drop_first()
            },
            forall|t: int|
                0 <= t < old(self).subscribers() && t != s ==> #[trigger] final(self).pending(t)
                    == old(self).pending(t),
    {
        let c = self.cursors[s];
        if c < self.log.len() {
            let ghost before = *self;
            self.cursors.set(s, c + 1);
            assert(self.pending(s as int) =~= before.pending(s as int).drop_first());
        }
    }

    /// Drops the events that every subscriber has read; what each subscriber
    /// has still to read is unchanged.
    pub fn compact(&mut self)
        requires
            old(self).wf(),
        ensures
            final(self).wf(),
            final(self).subscribers() == old(self).subscribers(),
            forall|s: int|
                0 <= s < old(self).subscribers() ==> #[trigger] final(self).pending(s) == old(
                    self,
                ).pending(s),
    {
        let n = self.cursors.len();
        let mut low: usize = self.log.len();
        let mut i: usize = 0;
        while i < n
            invariant
                n == self.cursors@.len(),
                0 <= i <= n,
                low <= self.log@.len(),
                forall|t: int| 0 <= t < i ==> low <= self.cursors@[t],
            decreases n - i,
        {
            if self.cursors[i] < low {
                low = self.cursors[i];
            }
            i = i + 1;
        }
        let ghost before = *self;
        let rest = self.log.split_off(low);
        self.log = rest;
        let mut i: usize = 0;
        while i < n
            invariant
                n == self.cursors@.len(),
                n == before.cursors@.len(),
                0 <= i <= n,
                self.log@ == before.log@.subrange(low as int, before.log@.len() as int),
                forall|t: int| 0 <= t < n ==> low <= #[trigger] before.cursors@[t] <= before.log@.len(),
                forall|t: int| 0 <= t < i ==> self.cursors@[t] == before.cursors@[t] - low,
                forall|t: int| i <= t < n ==> self.cursors@[t] == before.cursors@[t],
            decreases n - i,
        {
            let c = self.cursors[i];
            assert(c == before.cursors@[i as int]);
            self.cursors.set(i, c - low);
            i = i + 1;
        }
        assert forall|s: int| 0 <= s < before.subscribers() implies #[trigger] self.pending(s)
            == before.pending(s) by {
            assert(self.pending(s) =~= before.pending(s));
        }
    }
}

} // verus!
