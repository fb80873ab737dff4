//! Decisions of the secure listener: the accept loop's policy on each accept
//! result, and the life of one connection from accept to close.
use vstd::prelude::*;

verus! {

/// Where one accepted connection stands.
#[derive(Clone, Copy, Debug, PartialEq, Eq, Structural)]
pub enum ConnState {
    /// The socket is accepted; nothing has been read from it.
    Accepted,
    /// The TLS handshake is under way.
    Handshaking,
    /// The handshake has succeeded; no exchange has been completed yet.
    Established,
    /// HTTP exchanges are being served; `served` have been completed, in order.
    Serving { served: u64 },
    /// The socket is closed. Nothing leaves this state.
    Closed,
}

/// What happened on a connection.
#[derive(Clone, Copy, Debug, PartialEq, Eq, Structural)]
pub enum ConnEvent {
    /// The handling task has started on the connection.
    Started,
    /// The TLS handshake completed.
    HandshakeSucceeded,
    /// The TLS handshake failed (protocol error, client abort, timeout).
    HandshakeFailed,
    /// One request was answered on the connection.
    ExchangeCompleted,
    /// The peer closed the connection, or it was handed off after an upgrade.
    PeerClosed,
    /// Serving failed: a protocol violation on the stream.
    ServeFailed,
    /// The router failed while answering a request (it panicked or could not be reached).
    RouterFailed,
}

/// What the handling task does next.
#[derive(Clone, Copy, Debug, PartialEq, Eq, Structural)]
pub enum ConnAction {
    /// Drive the TLS handshake.
    Handshake,
    /// Serve HTTP over the established stream.
    Serve,
    /// Keep serving the same stream.
    KeepServing,
    /// Log a warning with the peer's address, then close the socket.
    WarnAndClose,
    /// Write a 500 (internal server error) response, log a warning, then close the socket.
    ServerErrorAndClose,
    /// Close the socket.
    Close,
    /// Nothing is left to do.
    Idle,
}

/// The transition table of a connection.
pub open spec fn conn_next(s: ConnState, e: ConnEvent) -> (ConnState, ConnAction) {
    match (s, e) {
        (ConnState::Closed, _) => (ConnState::Closed, ConnAction::Idle),
        (ConnState::Accepted, ConnEvent::Started) => (ConnState::Handshaking, ConnAction::Handshake),
        (ConnState::Handshaking, ConnEvent::HandshakeSucceeded) => (
            ConnState::Established,
            ConnAction::Serve,
        ),
        (ConnState::Handshaking, ConnEvent::HandshakeFailed) => (
            ConnState::Closed,
            ConnAction::WarnAndClose,
        ),
        (ConnState::Established, ConnEvent::ExchangeCompleted) => (
            ConnState::Serving { served: 1 },
            ConnAction::KeepServing,
        ),
        (ConnState::Serving { served }, ConnEvent::ExchangeCompleted) => (
            ConnState::Serving { served: if served < u64::MAX { (served + 1) as u64 } else { served } },
            ConnAction::KeepServing,
        ),
        (ConnState::Established, ConnEvent::PeerClosed) => (ConnState::Closed, ConnAction::Close),
        (ConnState::Serving { .. }, ConnEvent::PeerClosed) => (ConnState::Closed, ConnAction::Close),
        (ConnState::Established, ConnEvent::ServeFailed) => (
            ConnState::Closed,
            ConnAction::WarnAndClose,
        ),
        (ConnState::Serving { .. }, ConnEvent::ServeFailed) => (
            ConnState::Closed,
            ConnAction::WarnAndClose,
        ),
        (ConnState::Established, ConnEvent::RouterFailed) => (
            ConnState::Closed,
            ConnAction::ServerErrorAndClose,
        ),
        (ConnState::Serving { .. }, ConnEvent::RouterFailed) => (
            ConnState::Closed,
            ConnAction::ServerErrorAndClose,
        ),
        _ => (ConnState::Closed, ConnAction::WarnAndClose),
    }
}

/// The state reached, and the actions taken in order, over a run of events.
pub open spec fn conn_run(s: ConnState, events: Seq<ConnEvent>) -> (ConnState, Seq<ConnAction>)
    decreases events.len(),
{
    if events.len() == 0 {
        (s, Seq::empty())
    } else {
        let (s1, a) = conn_next(s, events[0]);
        let (s2, rest) = conn_run(s1, events.skip(1));
        (s2, seq![a] + rest)
    }
}

/// One accepted connection, owned by its handling task.
pub struct Connection {
    pub state: ConnState,
}

impl Connection {
    /// A connection that has just been accepted.
    pub fn new() -> (r: Connection)
        ensures
            r.state == ConnState::Accepted,
    {
        Connection { state: ConnState::Accepted }
    }

    /// Takes one event and returns what the task does next.
    pub fn handle(&mut self, event: ConnEvent) -> (r: ConnAction)
        ensures
            (final(self).state, r) == conn_next(old(self).state, event),
    {
        let (s, a) = match (self.state, event) {
            (ConnState::Closed, _) => (ConnState::Closed, ConnAction::Idle),
            (ConnState::Accepted, ConnEvent::Started) => (ConnState::Handshaking, ConnAction::Handshake),
            (ConnState::Handshaking, ConnEvent::HandshakeSucceeded) => (
                ConnState::Established,
                ConnAction::Serve,
            ),
            (ConnState::Handshaking, ConnEvent::HandshakeFailed) => (
                ConnState::Closed,
                ConnAction::WarnAndClose,
            ),
            (ConnState::Established, ConnEvent::ExchangeCompleted) => (
                ConnState::Serving { served: 1 },
                ConnAction::KeepServing,
            ),
            (ConnState::Serving { served }, ConnEvent::ExchangeCompleted) => (
                ConnState::Serving { served: if served < u64::MAX { served + 1 } else { served } },
                ConnAction::KeepServing,
            ),
            (ConnState::Established, ConnEvent::PeerClosed) => (ConnState::Closed, ConnAction::Close),
            (ConnState::Serving { .. }, ConnEvent::PeerClosed) => (ConnState::Closed, ConnAction::Close),
            (ConnState::Established, ConnEvent::ServeFailed) => (
                ConnState::Closed,
                ConnAction::WarnAndClose,
            ),
            (ConnState::Serving { .. }, ConnEvent::ServeFailed) => (
                ConnState::Closed,
                ConnAction::WarnAndClose,
            ),
            (ConnState::Established, ConnEvent::RouterFailed) => (
                ConnState::Closed,
                ConnAction::ServerErrorAndClose,
            ),
            (ConnState::Serving { .. }, ConnEvent::RouterFailed) => (
                ConnState::Closed,
                ConnAction::ServerErrorAndClose,
            ),
            _ => (ConnState::Closed, ConnAction::WarnAndClose),
        };
        self.state = s;
        a
    }

    /// Whether the socket has been closed.
    pub fn is_closed(&self) -> (r: bool)
        ensures
            r == (self.state == ConnState::Closed),
    {
        match self.state {
            ConnState::Closed => true,
            _ => false,
        }
    }
}

/// Why an accept failed.
#[derive(Clone, Copy, Debug, PartialEq, Eq, Structural)]
pub enum AcceptFailure {
    /// The operation would block (resource temporarily unavailable).
    WouldBlock,
    /// A signal interrupted the call.
    Interrupted,
    /// The peer aborted the connection before it was accepted.
    ConnectionAborted,
    /// The peer reset the connection before it was accepted.
    ConnectionReset,
    /// The call timed out.
    TimedOut,
    /// The process or the system ran out of descriptors or buffers for now.
    ResourceExhausted,
    /// Any other failure: the listening socket itself is unusable.
    ListenerBroken,
}

/// Whether an operating-system error code says that descriptors, buffers or
/// memory ran out for now: on Linux `ENOMEM` (12), `ENFILE` (23), `EMFILE` (24)
/// and `ENOBUFS` (105).
pub open spec fn is_exhaustion_code(code: i32) -> bool {
    code == 12 || code == 23 || code == 24 || code == 105
}

impl AcceptFailure {
    /// The failure for an accept error of no more specific kind, from its
    /// operating-system error code: a temporary exhaustion, or else a broken listener.
    pub fn from_os_code(code: Option<i32>) -> (r: AcceptFailure)
        ensures
            r == (if code is Some && is_exhaustion_code(code->0) {
                AcceptFailure::ResourceExhausted
            } else {
                AcceptFailure::ListenerBroken
            }),
    {
        match code {
            Some(c) => {
                if c == 12 || c == 23 || c == 24 || c == 105 {
                    AcceptFailure::ResourceExhausted
                } else {
                    AcceptFailure::ListenerBroken
                }
            },
            None => AcceptFailure::ListenerBroken,
        }
    }
}

/// The result of one accept on the secure listener.
#[derive(Clone, Copy, Debug, PartialEq, Eq, Structural)]
pub enum AcceptEvent {
    Accepted,
    Failed(AcceptFailure),
}

/// What the accept loop does next.
#[derive(Clone, Copy, Debug, PartialEq, Eq, Structural)]
pub enum AcceptAction {
    /// Spawn an independent handling task for the accepted connection, then accept again.
    Spawn,
    /// Accept again.
    Retry,
    /// The listener cannot go on: stop, which is fatal to the process.
    Stop,
}

/// A failure after which the listener can accept again.
pub open spec fn is_transient(f: AcceptFailure) -> bool {
    !(f is ListenerBroken)
}

/// The accept loop's state: whether it still runs, and how many connections it has handed out.
#[derive(Clone, Copy, Debug, PartialEq, Eq, Structural)]
pub struct Acceptor {
    pub running: bool,
    pub accepted: u64,
}

/// The accept loop's transition on one accept result.
pub open spec fn accept_next(a: Acceptor, e: AcceptEvent) -> (Acceptor, AcceptAction) {
    if !a.running {
        (a, AcceptAction::Stop)
    } else {
        match e {
            AcceptEvent::Accepted => (
                Acceptor {
                    running: true,
                    accepted: if a.accepted < u64::MAX { (a.accepted + 1) as u64 } else { a.accepted },
                },
                AcceptAction::Spawn,
            ),
            AcceptEvent::Failed(f) => if is_transient(f) {
                (a, AcceptAction::Retry)
            } else {
                (Acceptor { running: false, accepted: a.accepted }, AcceptAction::Stop)
            },
        }
    }
}

/// The loop's state, and the actions taken in order, over a run of accept results.
pub open spec fn accept_run(a: Acceptor, events: Seq<AcceptEvent>) -> (Acceptor, Seq<AcceptAction>)
    decreases events.len(),
{
    if events.len() == 0 {
        (a, Seq::empty())
    } else {
        let (a1, act) = accept_next(a, events[0]);
        let (a2, rest) = accept_run(a1, events.skip(1));
        (a2, seq![act] + rest)
    }
}

impl Acceptor {
    /// A loop that runs and has accepted nothing.
    pub fn new() -> (r: Acceptor)
        ensures
            r.running,
            r.accepted == 0,
    {
        Acceptor { running: true, accepted: 0 }
    }

    /// Takes one accept result and returns what the loop does next.
    pub fn on_accept(&mut self, event: AcceptEvent) -> (r: AcceptAction)
        ensures
            (*final(self), r) == accept_next(*old(self), event),
    {
        if !self.running {
            return AcceptAction::Stop;
        }
        match event {
            AcceptEvent::Accepted => {
                if self.accepted < u64::MAX {
                    self.accepted = self.accepted + 1;
                }
                AcceptAction::Spawn
            },
            AcceptEvent::Failed(AcceptFailure::ListenerBroken) => {
                self.running = false;
                AcceptAction::Stop
            },
            AcceptEvent::Failed(_) => AcceptAction::Retry,
        }
    }
}

/// A failed handshake closes only its own connection, with a warning, and is
/// never retried; the accept loop, which never sees a connection's outcome,
/// still spawns a task for the next connection it accepts.
pub proof fn lemma_bad_handshake_is_local(acceptor: Acceptor, e: ConnEvent)
    requires
        acceptor.running,
    ensures
        conn_next(ConnState::Handshaking, ConnEvent::HandshakeFailed) == (
            ConnState::Closed,
            ConnAction::WarnAndClose,
        ),
        conn_next(ConnState::Closed, e).0 == ConnState::Closed,
        accept_next(acceptor, AcceptEvent::Accepted).0.running,
        accept_next(acceptor, AcceptEvent::Accepted).1 == AcceptAction::Spawn,
{
}

/// Every one of `m` connections accepted by a running loop gets a handling
/// task of its own, one spawn per connection, and the loop keeps running.
pub proof fn lemma_each_accept_spawns(a: Acceptor, m: nat)
    requires
        a.running,
        a.accepted + m < u64::MAX,
    ensures
        accept_run(a, Seq::new(m, |i: int| AcceptEvent::Accepted)) == (
            Acceptor { running: true, accepted: (a.accepted + m) as u64 },
            Seq::new(m, |i: int| AcceptAction::Spawn),
        ),
    decreases m,
{
    let evs = Seq::new(m, |i: int| AcceptEvent::Accepted);
    if m == 0 {
        assert(Seq::new(0, |i: int| AcceptAction::Spawn) =~= Seq::<AcceptAction>::empty());
    } else {
        let a1 = Acceptor { running: true, accepted: (a.accepted + 1) as u64 };
        lemma_each_accept_spawns(a1, (m - 1) as nat);
        assert(evs[0] == AcceptEvent::Accepted);
        assert(accept_next(a, evs[0]) == (a1, AcceptAction::Spawn));
        assert(evs.skip(1) =~= Seq::new((m - 1) as nat, |i: int| AcceptEvent::Accepted));
        assert(seq![AcceptAction::Spawn] + Seq::new(
            (m - 1) as nat,
            |i: int| AcceptAction::Spawn,
        ) =~= Seq::new(m, |i: int| AcceptAction::Spawn));
    }
}

/// When the router fails on an open connection, a 500 response is written and
/// the connection is then closed, never left open.
pub proof fn lemma_router_failure_answers_500(s: ConnState)
    requires
        s is Established || s is Serving,
    ensures
        conn_next(s, ConnEvent::RouterFailed) == (ConnState::Closed, ConnAction::ServerErrorAndClose),
{
}

/// A transient accept failure never stops a running loop.
pub proof fn lemma_transient_failure_keeps_loop(acceptor: Acceptor, f: AcceptFailure)
    requires
        acceptor.running,
        is_transient(f),
    ensures
        accept_next(acceptor, AcceptEvent::Failed(f)) == (acceptor, AcceptAction::Retry),
{
}

/// On an established connection, `n` exchanges in a row are served one after
/// the other on the same connection: each is answered in turn, the connection
/// stays open, and its count of completed exchanges is `n`.
pub proof fn lemma_exchanges_in_order(n: nat)
    requires
        0 < n < u64::MAX,
    ensures
        conn_run(ConnState::Established, Seq::new(n, |i: int| ConnEvent::ExchangeCompleted)) == (
            ConnState::Serving { served: n as u64 },
            Seq::new(n, |i: int| ConnAction::KeepServing),
        ),
{
    let evs = Seq::new(n, |i: int| ConnEvent::ExchangeCompleted);
    let rest = Seq::new((n - 1) as nat, |i: int| ConnEvent::ExchangeCompleted);
    assert(evs[0] == ConnEvent::ExchangeCompleted);
    assert(evs.skip(1) =~= rest);
    lemma_serving_run((n - 1) as nat, 1);
    assert(conn_next(ConnState::Established, evs[0]) == (
        ConnState::Serving { served: 1 },
        ConnAction::KeepServing,
    ));
    assert(seq![ConnAction::KeepServing] + Seq::new(
        (n - 1) as nat,
        |i: int| ConnAction::KeepServing,
    ) =~= Seq::new(n, |i: int| ConnAction::KeepServing));
}

/// From `Serving { served: k }`, `m` more exchanges lead to `Serving { served: k + m }`.
proof fn lemma_serving_run(m: nat, k: nat)
    requires
        0 < k,
        k + m < u64::MAX,
    ensures
        conn_run(ConnState::Serving { served: k as u64 }, Seq::new(m, |i: int| ConnEvent::ExchangeCompleted)) == (
            ConnState::Serving { served: (k + m) as u64 },
            Seq::new(m, |i: int| ConnAction::KeepServing),
        ),
    decreases m,
{
    let evs = Seq::new(m, |i: int| ConnEvent::ExchangeCompleted);
    if m == 0 {
        assert(Seq::new(0, |i: int| ConnAction::KeepServing) =~= Seq::<ConnAction>::empty());
    } else {
        lemma_serving_run((m - 1) as nat, k + 1);
        assert(evs.skip(1) =~= Seq::new((m - 1) as nat, |i: int| ConnEvent::ExchangeCompleted));
        assert(seq![ConnAction::KeepServing] + Seq::new(
            (m - 1) as nat,
            |i: int| ConnAction::KeepServing,
        ) =~= Seq::new(m, |i: int| ConnAction::KeepServing));
    }
}

} // verus!
