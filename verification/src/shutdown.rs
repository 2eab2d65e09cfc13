//! Accept-loop decisions, the per-connection lifecycle, and the graceful
//! drain bookkeeping the shutdown coordinator keeps over the set of
//! in-flight connections.

use vstd::prelude::*;

verus! {

/// What one accept-loop iteration observed: the race between the shutdown
/// signal and the listener, or a transient accept failure.
#[derive(Clone, Copy, PartialEq, Eq, Structural, Debug)]
pub enum AcceptEvent {
    /// The shutdown signal completed first.
    Shutdown,
    /// The listener yielded a new connection.
    Connection,
    /// The listener reported an error for this iteration.
    AcceptError,
}

/// What the accept loop does next.
#[derive(Clone, Copy, PartialEq, Eq, Structural, Debug)]
pub enum AcceptAction {
    /// Stop intake and begin the graceful drain.
    StopAccepting,
    /// Hand the new connection to its own service task.
    Serve,
    /// Log and keep accepting: the one retried failure in the system.
    Retry,
}

/// The accept loop's decision for one iteration: the shutdown signal stops
/// intake, a fresh connection is served, and a transient accept error is
/// retried without aborting the server.
pub fn accept_step(ev: AcceptEvent) -> (a: AcceptAction)
    ensures
        (ev == AcceptEvent::Shutdown ==> a == AcceptAction::StopAccepting),
        (ev == AcceptEvent::Connection ==> a == AcceptAction::Serve),
        (ev == AcceptEvent::AcceptError ==> a == AcceptAction::Retry),
{
    match ev {
        AcceptEvent::Shutdown => AcceptAction::StopAccepting,
        AcceptEvent::Connection => AcceptAction::Serve,
        AcceptEvent::AcceptError => AcceptAction::Retry,
    }
}

/// Where one accepted connection stands.
#[derive(Clone, Copy, PartialEq, Eq, Structural, Debug)]
pub enum ConnState {
    /// The TLS server handshake is in progress.
    Handshaking,
    /// The HTTP driver is serving requests over the encrypted stream.
    Serving,
    /// Terminal: the connection's resources are released.
    Closed,
}

/// What happened to a connection since it was last looked at.
#[derive(Clone, Copy, PartialEq, Eq, Structural, Debug)]
pub enum ConnEvent {
    /// The TLS handshake succeeded.
    HandshakeOk,
    /// The TLS handshake failed: terminal for this connection, harmless to
    /// the server.
    HandshakeFailed,
    /// The HTTP driver finished: the peer closed, or a protocol or I/O
    /// error tore the connection down.
    DriverFinished,
}

/// The per-connection transition relation.
pub open spec fn conn_next(s: ConnState, ev: ConnEvent) -> ConnState {
    match s {
        ConnState::Handshaking => match ev {
            ConnEvent::HandshakeOk => ConnState::Serving,
            _ => ConnState::Closed,
        },
        ConnState::Serving => match ev {
            ConnEvent::DriverFinished => ConnState::Closed,
            _ => ConnState::Serving,
        },
        ConnState::Closed => ConnState::Closed,
    }
}

/// Advance one connection's lifecycle by one observed event.
pub fn conn_step(s: ConnState, ev: ConnEvent) -> (n: ConnState)
    ensures
        n == conn_next(s, ev),
{
    match s {
        ConnState::Handshaking => match ev {
            ConnEvent::HandshakeOk => ConnState::Serving,
            _ => ConnState::Closed,
        },
        ConnState::Serving => match ev {
            ConnEvent::DriverFinished => ConnState::Closed,
            _ => ConnState::Serving,
        },
        ConnState::Closed => ConnState::Closed,
    }
}

/// Law: a closed connection stays closed under every further event.
pub proof fn lemma_closed_is_terminal(ev: ConnEvent)
    ensures
        conn_next(ConnState::Closed, ev) == ConnState::Closed,
{
}

/// What the shutdown coordinator sees happen, one event at a time.
#[derive(Clone, Copy, PartialEq, Eq, Structural, Debug)]
pub enum DrainEvent {
    /// A new connection was accepted and entered the pending set.
    Opened,
    /// The shutdown signal fired: intake stops, nothing is cancelled.
    Signal,
    /// One in-flight connection reached its terminal state.
    Retired,
}

/// Whether an event can happen in a state: a connection is admitted only
/// while intake is open, and only an in-flight connection can retire.
pub open spec fn drain_valid(accepting: bool, pending: nat, ev: DrainEvent) -> bool {
    match ev {
        DrainEvent::Opened => accepting,
        DrainEvent::Signal => true,
        DrainEvent::Retired => pending > 0,
    }
}

/// The coordinator's state after one event.
pub open spec fn drain_next(accepting: bool, pending: nat, ev: DrainEvent) -> (bool, nat) {
    match ev {
        DrainEvent::Opened => (accepting, pending + 1),
        DrainEvent::Signal => (false, pending),
        DrainEvent::Retired => (accepting, (pending - 1) as nat),
    }
}

/// The coordinator's state after a whole sequence of events.
pub open spec fn drain_run(accepting: bool, pending: nat, evs: Seq<DrainEvent>) -> (bool, nat)
    decreases evs.len(),
{
    if evs.len() == 0 {
        (accepting, pending)
    } else {
        let next = drain_next(accepting, pending, evs.first());
        drain_run(next.0, next.1, evs.drop_first())
    }
}

/// Whether a whole sequence of events is possible from a state.
pub open spec fn drain_trace_valid(accepting: bool, pending: nat, evs: Seq<DrainEvent>) -> bool
    decreases evs.len(),
{
    evs.len() == 0 || {
        &&& drain_valid(accepting, pending, evs.first())
        &&& {
            let next = drain_next(accepting, pending, evs.first());
            drain_trace_valid(next.0, next.1, evs.drop_first())
        }
    }
}

/// Law: once intake has stopped, no possible sequence of further events
/// reopens it or grows the pending set — connections can only retire.  So a
/// wait for the pending count to reach zero, which is how `run` ends after
/// the signal, returns only after every one of the connections that were in
/// flight has reached its terminal state, and nothing is admitted meanwhile.
pub proof fn lemma_drain_monotone(pending: nat, evs: Seq<DrainEvent>)
    requires
        drain_trace_valid(false, pending, evs),
    ensures
        !drain_run(false, pending, evs).0,
        drain_run(false, pending, evs).1 <= pending,
    decreases evs.len(),
{
    if evs.len() > 0 {
        let next = drain_next(false, pending, evs.first());
        lemma_drain_monotone(next.1, evs.drop_first());
    }
}

/// The shutdown coordinator's live bookkeeping: whether intake is still
/// open, and how many accepted connections have not yet closed (the size of
/// the pending set).
pub struct ShutdownCoordinator {
    accepting: bool,
    pending: u64,
}

impl ShutdownCoordinator {
    /// Whether new connections are still admitted.
    pub closed spec fn is_accepting(&self) -> bool {
        self.accepting
    }

    /// How many connections are in flight.
    pub closed spec fn pending_count(&self) -> nat {
        self.pending as nat
    }

    /// A coordinator for a server that has not yet seen the signal and has
    /// no connections in flight.
    pub fn new() -> (r: Self)
        ensures
            r.is_accepting(),
            r.pending_count() == 0,
    {
        ShutdownCoordinator { accepting: true, pending: 0 }
    }

    /// Record an accepted connection.  Only callable while intake is open:
    /// after the signal, nothing may be admitted.
    pub fn connection_opened(&mut self)
        requires
            old(self).is_accepting(),
            old(self).pending_count() < u64::MAX,
        ensures
            (final(self).is_accepting(), final(self).pending_count()) == drain_next(
                old(self).is_accepting(),
                old(self).pending_count(),
                DrainEvent::Opened,
            ),
    {
        self.pending = self.pending + 1;
    }

    /// Record the shutdown signal: intake stops; in-flight connections are
    /// left to finish.
    pub fn signal_shutdown(&mut self)
        ensures
            (final(self).is_accepting(), final(self).pending_count()) == drain_next(
                old(self).is_accepting(),
                old(self).pending_count(),
                DrainEvent::Signal,
            ),
    {
        self.accepting = false;
    }

    /// Record that one in-flight connection reached its terminal state.
    pub fn connection_closed(&mut self)
        requires
            old(self).pending_count() > 0,
        ensures
            (final(self).is_accepting(), final(self).pending_count()) == drain_next(
                old(self).is_accepting(),
                old(self).pending_count(),
                DrainEvent::Retired,
            ),
    {
        self.pending = self.pending - 1;
    }

    /// Whether intake is still open, as an executable read.
    pub fn accepting(&self) -> (b: bool)
        ensures
            b == self.is_accepting(),
    {
        self.accepting
    }

    /// The size of the pending set, as an executable read.
    pub fn pending(&self) -> (n: u64)
        ensures
            n == self.pending_count(),
    {
        self.pending
    }

    /// Whether the graceful drain is complete: intake has stopped and every
    /// connection that was in flight has closed.  `run` reports success
    /// exactly then.
    pub fn drained(&self) -> (r: bool)
        ensures
            r == (!self.is_accepting() && self.pending_count() == 0),
    {
        !self.accepting && self.pending == 0
    }
}

} // verus!
