//! The connection lifecycle as a state machine. The transport reports what
//! happened on the network (an event) and performs what the machine answers
//! (a list of actions): publishing status changes, dialling, bootstrap
//! requests, keep-alive, waiting out the backoff delay, giving up.

use vstd::prelude::*;
use crate::types::ConnectionStatus;

verus! {

/// Delay between keep-alive pings, in milliseconds.
pub const PING_INTERVAL_MS: u64 = 30000;

/// Consecutive failed attempts after which the transport gives up.
pub const MAX_RECONNECT_ATTEMPTS: u32 = 5;

/// First reconnection delay, in milliseconds.
pub const INITIAL_RECONNECT_DELAY_MS: u64 = 1000;

/// Ceiling of the reconnection delay, in milliseconds.
pub const MAX_RECONNECT_DELAY_MS: u64 = 30000;

/// How reconnection backs off. Delays are in milliseconds.
#[derive(Clone, Copy, Debug, PartialEq, Eq, Structural)]
pub struct ReconnectPolicy {
    pub max_attempts: u32,
    pub initial_delay: u64,
    pub max_delay: u64,
}

impl ReconnectPolicy {
    /// The first delay is positive and below the ceiling.
    pub open spec fn wf(&self) -> bool {
        0 < self.initial_delay <= self.max_delay && self.max_attempts < u32::MAX
    }

    /// Five attempts, delays from one second doubling up to thirty.
    pub fn standard() -> (r: Self)
        ensures
            r.wf(),
            r.max_attempts == MAX_RECONNECT_ATTEMPTS,
            r.initial_delay == INITIAL_RECONNECT_DELAY_MS,
            r.max_delay == MAX_RECONNECT_DELAY_MS,
    {
        ReconnectPolicy {
            max_attempts: MAX_RECONNECT_ATTEMPTS,
            initial_delay: INITIAL_RECONNECT_DELAY_MS,
            max_delay: MAX_RECONNECT_DELAY_MS,
        }
    }
}

/// Two to the power `n`.
pub open spec fn pow2(n: nat) -> nat
    decreases n,
{
    if n == 0 {
        1
    } else {
        2 * pow2((n - 1) as nat)
    }
}

/// The delay waited after `failures` consecutive failed attempts (at least
/// one): the first delay doubled once per earlier failure, capped.
pub open spec fn backoff_delay(p: ReconnectPolicy, failures: nat) -> int {
    let d = p.initial_delay * pow2((failures - 1) as nat);
    if d < p.max_delay {
        d
    } else {
        p.max_delay as int
    }
}

/// What the transport is asked to do, in order.
#[derive(Clone, Copy, Debug, PartialEq, Eq, Structural)]
pub enum LinkAction {
    /// Publish a connection status on the event bus.
    Publish(ConnectionStatus),
    /// Open a connection to the server.
    Dial,
    /// Send the subscribe-to-notifications request.
    SendSubscribe,
    /// Send the list-conversations request.
    SendListConversations,
    /// Start the periodic ping task.
    StartKeepAlive,
    /// Read and dispatch inbound messages until the connection ends.
    ReadMessages,
    /// Send a close frame on the live connection.
    SendClose,
    /// Wait this many milliseconds.
    Wait(u64),
    /// Stop; the connect call fails after this many attempts.
    GiveUp(u32),
    /// Stop; the connect call succeeds (shutdown was requested).
    Stop,
}

/// The state of a transport's connection.
#[derive(Clone, Copy, Debug, PartialEq, Eq, Structural)]
pub struct ConnectionMachine {
    pub policy: ReconnectPolicy,
    /// The last status published.
    pub status: ConnectionStatus,
    /// Consecutive failed attempts.
    pub attempts: u32,
    /// Delay to wait before the next attempt.
    pub delay: u64,
    /// A shutdown was requested.
    pub shutdown: bool,
    /// A connection is live.
    pub connected: bool,
    /// A connect call is in progress.
    pub running: bool,
}

/// After `connect`: publish Connecting and dial; ignored while a connect
/// call is already in progress.
pub open spec fn on_connect(m: ConnectionMachine) -> (ConnectionMachine, Seq<LinkAction>) {
    if m.running {
        (m, seq![])
    } else {
        (
            ConnectionMachine {
                status: ConnectionStatus::Connecting,
                attempts: 0,
                delay: m.policy.initial_delay,
                shutdown: false,
                running: true,
                ..m
            },
            seq![LinkAction::Publish(ConnectionStatus::Connecting), LinkAction::Dial],
        )
    }
}

/// After a successful handshake: publish Connected, reset the backoff, send
/// the two bootstrap requests, start the keep-alive, then read. When a
/// shutdown was requested meanwhile, close the new connection and stop.
pub open spec fn on_handshake(m: ConnectionMachine) -> (ConnectionMachine, Seq<LinkAction>) {
    if m.shutdown {
        (
            ConnectionMachine { connected: false, running: false, ..m },
            seq![LinkAction::SendClose, LinkAction::Stop],
        )
    } else {
        (
        ConnectionMachine {
            status: ConnectionStatus::Connected,
            attempts: 0,
            delay: m.policy.initial_delay,
            connected: true,
            ..m
        },
        seq![
            LinkAction::Publish(ConnectionStatus::Connected),
            LinkAction::SendSubscribe,
            LinkAction::SendListConversations,
            LinkAction::StartKeepAlive,
            LinkAction::ReadMessages,
        ],
        )
    }
}

/// The delay that follows `d` in the backoff.
pub open spec fn next_delay(p: ReconnectPolicy, d: u64) -> u64 {
    if d * 2 < p.max_delay {
        (d * 2) as u64
    } else {
        p.max_delay
    }
}

/// After a failed handshake or the end of the read loop. When the
/// connection ended because of a shutdown, stop quietly. Otherwise publish
/// Disconnected and count the failure; past the maximum give up; on a
/// shutdown stop; else publish Connecting, wait the current delay, double
/// it (capped) and dial again.
pub open spec fn on_lost(m: ConnectionMachine) -> (ConnectionMachine, Seq<LinkAction>) {
    if m.shutdown && m.status == ConnectionStatus::Disconnected {
        (ConnectionMachine { connected: false, running: false, ..m }, seq![LinkAction::Stop])
    } else {
        let attempts = (m.attempts + 1) as u32;
        let down = seq![LinkAction::Publish(ConnectionStatus::Disconnected)];
        if attempts > m.policy.max_attempts {
            (
                ConnectionMachine {
                    status: ConnectionStatus::Disconnected,
                    attempts,
                    delay: next_delay(m.policy, m.delay),
                    connected: false,
                    running: false,
                    ..m
                },
                down.push(LinkAction::GiveUp(m.policy.max_attempts)),
            )
        } else if m.shutdown {
            (
                ConnectionMachine {
                    status: ConnectionStatus::Disconnected,
                    attempts,
                    delay: next_delay(m.policy, m.delay),
                    connected: false,
                    running: false,
                    ..m
                },
                down.push(LinkAction::Stop),
            )
        } else {
            (
                ConnectionMachine {
                    status: ConnectionStatus::Connecting,
                    attempts,
                    delay: next_delay(m.policy, m.delay),
                    connected: false,
                    ..m
                },
                down + seq![
                    LinkAction::Publish(ConnectionStatus::Connecting),
                    LinkAction::Wait(m.delay),
                    LinkAction::Dial,
                ],
            )
        }
    }
}

/// After `disconnect`: request shutdown, close a live connection, and
/// publish Disconnected unless a shutdown was already requested.
pub open spec fn on_disconnect(m: ConnectionMachine) -> (ConnectionMachine, Seq<LinkAction>) {
    let close: Seq<LinkAction> = if m.connected {
        seq![LinkAction::SendClose]
    } else {
        seq![]
    };
    let publish: Seq<LinkAction> = if m.shutdown {
        seq![]
    } else {
        seq![LinkAction::Publish(ConnectionStatus::Disconnected)]
    };
    (
        ConnectionMachine {
            status: ConnectionStatus::Disconnected,
            shutdown: true,
            connected: false,
            ..m
        },
        close + publish,
    )
}

/// The number of times `actions` publishes status `s`.
pub open spec fn publications(actions: Seq<LinkAction>, s: ConnectionStatus) -> nat
    decreases actions.len(),
{
    if actions.len() == 0 {
        0
    } else {
        (if actions[0] == LinkAction::Publish(s) {
            1nat
        } else {
            0nat
        }) + publications(actions.drop_first(), s)
    }
}

/// The machine after `k` consecutive losses of the connection.
pub open spec fn after_losses(m: ConnectionMachine, k: nat) -> ConnectionMachine
    decreases k,
{
    if k == 0 {
        m
    } else {
        on_lost(after_losses(m, (k - 1) as nat)).0
    }
}

/// The number of requests `actions` sends before it starts reading.
pub open spec fn requests_before_read(actions: Seq<LinkAction>) -> nat
    decreases actions.len(),
{
    if actions.len() == 0 || actions[0] == LinkAction::ReadMessages {
        0
    } else if actions[0] == LinkAction::SendSubscribe || actions[0]
        == LinkAction::SendListConversations {
        1 + requests_before_read(actions.drop_first())
    } else {
        requests_before_read(actions.drop_first())
    }
}

impl ConnectionMachine {
    /// The backoff delay matches the number of failures so far; a connection
    /// is live exactly when Connected was the last status published, and only
    /// during a connect call; a requested shutdown has published Disconnected.
    pub open spec fn wf(&self) -> bool {
        &&& self.policy.wf()
        &&& self.attempts <= self.policy.max_attempts + 1
        &&& self.running ==> self.attempts <= self.policy.max_attempts
        &&& self.connected <==> self.status == ConnectionStatus::Connected
        &&& self.connected ==> self.running
        &&& self.shutdown ==> self.status == ConnectionStatus::Disconnected
        &&& self.attempts <= self.policy.max_attempts ==> self.delay == backoff_delay(
            self.policy,
            (self.attempts + 1) as nat,
        )
    }

    /// A disconnected machine with the given policy.
    pub fn new(policy: ReconnectPolicy) -> (r: Self)
        requires
            policy.wf(),
        ensures
            r.wf(),
            r.policy == policy,
            r.status == ConnectionStatus::Disconnected,
            r.attempts == 0,
            !r.connected,
            !r.running,
            !r.shutdown,
    {
        proof {
            lemma_backoff_start(policy);
        }
        ConnectionMachine {
            policy,
            status: ConnectionStatus::Disconnected,
            attempts: 0,
            delay: policy.initial_delay,
            shutdown: false,
            connected: false,
            running: false,
        }
    }

    /// Whether a connection is live.
    pub fn is_connected(&self) -> (r: bool)
        ensures
            r == self.connected,
            self.wf() ==> (r <==> self.status == ConnectionStatus::Connected),
    {
        self.connected
    }

    /// The transport was asked to connect.
    pub fn connect(&mut self) -> (r: Vec<LinkAction>)
        requires
            old(self).wf(),
        ensures
            final(self).wf(),
            (*final(self), r@) == on_connect(*old(self)),
    {
        if self.running {
            return Vec::new();
        }
        self.status = ConnectionStatus::Connecting;
        self.attempts = 0;
        self.delay = self.policy.initial_delay;
        self.shutdown = false;
        self.running = true;
        proof {
            lemma_backoff_start(self.policy);
        }
        let r = vec![LinkAction::Publish(ConnectionStatus::Connecting), LinkAction::Dial];
        assert(r@ =~= on_connect(*old(self)).1);
        r
    }

    /// The handshake with the server succeeded.
    pub fn handshake_succeeded(&mut self) -> (r: Vec<LinkAction>)
        requires
            old(self).wf(),
            old(self).running,
        ensures
            final(self).wf(),
            (*final(self), r@) == on_handshake(*old(self)),
    {
        if self.shutdown {
            self.connected = false;
            self.running = false;
            let r = vec![LinkAction::SendClose, LinkAction::Stop];
            assert(r@ =~= on_handshake(*old(self)).1);
            return r;
        }
        self.status = ConnectionStatus::Connected;
        self.attempts = 0;
        self.delay = self.policy.initial_delay;
        self.connected = true;
        proof {
            lemma_backoff_start(self.policy);
        }
        let r = vec![
            LinkAction::Publish(ConnectionStatus::Connected),
            LinkAction::SendSubscribe,
            LinkAction::SendListConversations,
            LinkAction::StartKeepAlive,
            LinkAction::ReadMessages,
        ];
        assert(r@ =~= on_handshake(*old(self)).1);
        r
    }

    /// The handshake failed, or the connection ended, during a connect call.
    pub fn connection_lost(&mut self) -> (r: Vec<LinkAction>)
        requires
            old(self).wf(),
            old(self).running,
        ensures
            final(self).wf(),
            (*final(self), r@) == on_lost(*old(self)),
    {
        let ghost m = *self;
        if self.shutdown && self.status == ConnectionStatus::Disconnected {
            self.connected = false;
            self.running = false;
            let r = vec![LinkAction::Stop];
            assert(r@ =~= on_lost(m).1);
            return r;
        }
        let attempts = self.attempts + 1;
        self.attempts = attempts;
        self.connected = false;
        let d = self.delay;
        self.delay = if d <= self.policy.max_delay / 2 && d * 2 < self.policy.max_delay {
            d * 2
        } else {
            self.policy.max_delay
        };
        proof {
            assert(self.delay == next_delay(m.policy, d));
            if attempts <= m.policy.max_attempts {
                lemma_backoff_step(m.policy, attempts as nat);
            }
        }
        let mut r = vec![LinkAction::Publish(ConnectionStatus::Disconnected)];
        if attempts > self.policy.max_attempts {
            self.status = ConnectionStatus::Disconnected;
            self.running = false;
            r.push(LinkAction::GiveUp(self.policy.max_attempts));
        } else if self.shutdown {
            self.status = ConnectionStatus::Disconnected;
            self.running = false;
            r.push(LinkAction::Stop);
        } else {
            self.status = ConnectionStatus::Connecting;
            r.push(LinkAction::Publish(ConnectionStatus::Connecting));
            r.push(LinkAction::Wait(d));
            r.push(LinkAction::Dial);
        }
        assert(r@ =~= on_lost(m).1);
        r
    }

    /// The transport was asked to disconnect.
    pub fn disconnect(&mut self) -> (r: Vec<LinkAction>)
        requires
            old(self).wf(),
        ensures
            final(self).wf(),
            (*final(self), r@) == on_disconnect(*old(self)),
    {
        let ghost m = *self;
        let mut r: Vec<LinkAction> = Vec::new();
        if self.connected {
            r.push(LinkAction::SendClose);
        }
        if !self.shutdown {
            r.push(LinkAction::Publish(ConnectionStatus::Disconnected));
        }
        self.status = ConnectionStatus::Disconnected;
        self.shutdown = true;
        self.connected = false;
        assert(r@ =~= on_disconnect(m).1);
        r
    }
}

/// The backoff starts at the first delay.
pub proof fn lemma_backoff_start(p: ReconnectPolicy)
    requires
        p.wf(),
    ensures
        backoff_delay(p, 1) == p.initial_delay,
{
    reveal_with_fuel(pow2, 1);
    assert(pow2(0) == 1);
    assert(p.initial_delay * pow2(0) == p.initial_delay);
}

/// Each failure doubles the delay of the one before, up to the ceiling.
pub proof fn lemma_backoff_step(p: ReconnectPolicy, failures: nat)
    requires
        p.wf(),
        failures >= 1,
    ensures
        backoff_delay(p, failures + 1) == if 2 * backoff_delay(p, failures) < p.max_delay {
            2 * backoff_delay(p, failures)
        } else {
            p.max_delay as int
        },
{
    let a = pow2((failures - 1) as nat);
    assert(pow2(failures) == 2 * a);
    let d = p.initial_delay * a;
    assert(p.initial_delay * pow2(failures) == 2 * d) by (nonlinear_arith)
        requires
            pow2(failures) == 2 * a,
            d == p.initial_delay * a,
    ;
}

/// Backoff: after a connect call, while attempts keep failing, the wait
/// before attempt `k + 1` (after the `k`-th failure, `k` at most the maximum)
/// is the first delay doubled `k - 1` times, capped at the ceiling.
pub proof fn backoff_law(m: ConnectionMachine, k: nat)
    requires
        m.wf(),
        !m.running,
        1 <= k <= m.policy.max_attempts,
    ensures
        on_lost(after_losses(on_connect(m).0, (k - 1) as nat)).1 == seq![
            LinkAction::Publish(ConnectionStatus::Disconnected),
            LinkAction::Publish(ConnectionStatus::Connecting),
            LinkAction::Wait(
                (if m.policy.initial_delay * pow2((k - 1) as nat) < m.policy.max_delay {
                    m.policy.initial_delay * pow2((k - 1) as nat)
                } else {
                    m.policy.max_delay as int
                }) as u64,
            ),
            LinkAction::Dial,
        ],
{
    let s0 = on_connect(m).0;
    lemma_backoff_start(m.policy);
    lemma_losses(s0, (k - 1) as nat);
    let sk = after_losses(s0, (k - 1) as nat);
    assert(on_lost(sk).1 =~= seq![LinkAction::Publish(ConnectionStatus::Disconnected)] + seq![
        LinkAction::Publish(ConnectionStatus::Connecting),
        LinkAction::Wait(sk.delay),
        LinkAction::Dial,
    ]);
}

/// While fewer failures than the maximum have happened since a connect call,
/// the machine keeps retrying with the delay of the backoff.
proof fn lemma_losses(s0: ConnectionMachine, j: nat)
    requires
        s0.wf(),
        s0.running,
        !s0.shutdown,
        s0.attempts == 0,
        s0.status == ConnectionStatus::Connecting,
        j < s0.policy.max_attempts,
    ensures
        after_losses(s0, j).wf(),
        after_losses(s0, j).running,
        !after_losses(s0, j).shutdown,
        after_losses(s0, j).attempts == j,
        after_losses(s0, j).status == ConnectionStatus::Connecting,
        after_losses(s0, j).policy == s0.policy,
        after_losses(s0, j).delay == backoff_delay(s0.policy, j + 1),
    decreases j,
{
    if j > 0 {
        lemma_losses(s0, (j - 1) as nat);
        let prev = after_losses(s0, (j - 1) as nat);
        lemma_backoff_step(s0.policy, j);
        assert(prev.delay * 2 < prev.policy.max_delay ==> next_delay(prev.policy, prev.delay)
            == prev.delay * 2);
    }
}

/// Disconnecting twice in a row (with no shutdown requested before): the
/// second call asks for nothing and changes nothing, Disconnected is
/// published exactly once, no failure is reported, and no connection is live.
pub proof fn disconnect_twice_law(m: ConnectionMachine)
    requires
        m.wf(),
        !m.shutdown,
    ensures
        on_disconnect(on_disconnect(m).0).1 == Seq::<LinkAction>::empty(),
        on_disconnect(on_disconnect(m).0).0 == on_disconnect(m).0,
        publications(
            on_disconnect(m).1 + on_disconnect(on_disconnect(m).0).1,
            ConnectionStatus::Disconnected,
        ) == 1,
        !on_disconnect(on_disconnect(m).0).0.connected,
{
    let (m1, a1) = on_disconnect(m);
    let (m2, a2) = on_disconnect(m1);
    assert(a2 =~= Seq::<LinkAction>::empty());
    assert(a1 + a2 =~= a1);
    reveal_with_fuel(publications, 3);
    if m.connected {
        assert(a1 =~= seq![
            LinkAction::SendClose,
            LinkAction::Publish(ConnectionStatus::Disconnected),
        ]);
        assert(a1.drop_first() =~= seq![LinkAction::Publish(ConnectionStatus::Disconnected)]);
        assert(a1.drop_first().drop_first() =~= Seq::<LinkAction>::empty());
    } else {
        assert(a1 =~= seq![LinkAction::Publish(ConnectionStatus::Disconnected)]);
        assert(a1.drop_first() =~= Seq::<LinkAction>::empty());
    }
}

/// Bootstrap: after a successful handshake, with no shutdown requested,
/// exactly two requests (subscribe, then list conversations) are sent before
/// any inbound message is read.
pub proof fn bootstrap_law(m: ConnectionMachine)
    requires
        !m.shutdown,
    ensures
        requests_before_read(on_handshake(m).1) == 2,
        on_handshake(m).1[1] == LinkAction::SendSubscribe,
        on_handshake(m).1[2] == LinkAction::SendListConversations,
        on_handshake(m).1.contains(LinkAction::ReadMessages),
{
    let a = on_handshake(m).1;
    reveal_with_fuel(requests_before_read, 6);
    assert(a.drop_first() =~= seq![
        LinkAction::SendSubscribe,
        LinkAction::SendListConversations,
        LinkAction::StartKeepAlive,
        LinkAction::ReadMessages,
    ]);
    assert(a.drop_first().drop_first() =~= seq![
        LinkAction::SendListConversations,
        LinkAction::StartKeepAlive,
        LinkAction::ReadMessages,
    ]);
    assert(a.drop_first().drop_first().drop_first() =~= seq![
        LinkAction::StartKeepAlive,
        LinkAction::ReadMessages,
    ]);
    assert(a.drop_first().drop_first().drop_first().drop_first() =~= seq![
        LinkAction::ReadMessages,
    ]);
    assert(a[4] == LinkAction::ReadMessages);
}

} // verus!
