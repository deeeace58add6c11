//! Connection server: accepts connections and hands each one to a worker
//! from a bounded pool.
//!
//! This is the decision core of the accept loop.  The host side performs the
//! blocking calls (accept, TLS handshake, thread dispatch) and drives this
//! state machine: `accept_connection` when a connection is handed to a worker, and
//! `worker_done` when a worker finishes, cleanly or not.  The pool bound is
//! the system's only backpressure: a full pool blocks further accepted connections
//! until a worker frees up.  A per-connection failure is connection-scoped:
//! it never changes the listener's state or the other live connections.

use vstd::prelude::*;

verus! {

/// The listener's phase.  `Shutdown` is reached only on listener failure or
/// process termination, never from a per-connection failure.
#[derive(Debug, Clone, Copy, PartialEq, Eq, Structural)]
pub enum ServerPhase {
    Listening,
    Shutdown,
}

/// How one connection's serve loop ended.
#[derive(Debug, Clone, Copy, PartialEq, Eq, Structural)]
pub enum ConnOutcome {
    /// The peer closed the connection; normal termination.
    Clean,
    /// A protocol error was fatal to this connection.
    ProtocolFailure,
    /// The TLS negotiation failed for this connection attempt.
    HandshakeFailure,
}

/// The server's abstract state: a fixed pool bound and the number of
/// connections currently being served by workers.
pub struct ConnectionServer {
    pub pool_size: usize,
    pub active: usize,
    pub phase: ServerPhase,
}

/// The state after a worker finishes: one connection fewer is live, and
/// nothing else changes, whatever the outcome was.
pub open spec fn worker_done_spec(s: ConnectionServer, outcome: ConnOutcome) -> ConnectionServer {
    ConnectionServer { pool_size: s.pool_size, active: (s.active - 1) as usize, phase: s.phase }
}

impl ConnectionServer {
    /// Never more live connections than pool workers.
    pub open spec fn wf(&self) -> bool {
        &&& self.active <= self.pool_size
        &&& self.pool_size >= 1
    }

    /// A fresh server, listening with an empty pool.
    pub fn new(pool_size: usize) -> (r: ConnectionServer)
        requires
            pool_size >= 1,
        ensures
            r.wf(),
            r.phase == ServerPhase::Listening,
            r.active == 0,
            r.pool_size == pool_size,
    {
        ConnectionServer { pool_size, active: 0, phase: ServerPhase::Listening }
    }

    /// Whether a newly accepted connection may be handed to a worker now.
    /// When this is false the accept loop must block until `worker_done`:
    /// that blocking is the backpressure bound.
    pub fn can_accept(&self) -> (r: bool)
        ensures
            r == (self.phase == ServerPhase::Listening && self.active < self.pool_size),
    {
        match self.phase {
            ServerPhase::Listening => self.active < self.pool_size,
            ServerPhase::Shutdown => false,
        }
    }

    /// Hands one accepted connection to a pool worker.
    pub fn accept_connection(&mut self)
        requires
            old(self).wf(),
            old(self).phase == ServerPhase::Listening,
            old(self).active < old(self).pool_size,
        ensures
            final(self).wf(),
            final(self).active == old(self).active + 1,
            final(self).pool_size == old(self).pool_size,
            final(self).phase == old(self).phase,
    {
        self.active = self.active + 1;
    }

    /// A worker finished serving its connection.  The outcome — clean close,
    /// protocol failure, or handshake failure — does not influence the new
    /// state: failure is connection-scoped, not server-scoped.
    pub fn worker_done(&mut self, outcome: ConnOutcome)
        requires
            old(self).wf(),
            old(self).active >= 1,
        ensures
            final(self).wf(),
            *final(self) == worker_done_spec(*old(self), outcome),
            final(self).phase == old(self).phase,
            final(self).active == old(self).active - 1,
    {
        self.active = self.active - 1;
    }

    /// The listener itself failed: the terminal phase, unrelated to any
    /// single connection.
    pub fn listener_failed(&mut self)
        requires
            old(self).wf(),
        ensures
            final(self).wf(),
            final(self).phase == ServerPhase::Shutdown,
            final(self).active == old(self).active,
            final(self).pool_size == old(self).pool_size,
    {
        self.phase = ServerPhase::Shutdown;
    }
}

/// Backpressure bound: with a pool of size N, at most N connections are ever
/// being served at one instant; an (N+1)-th acceptance is only possible after
/// a worker finished, since `accept_connection` requires a free worker.
pub proof fn lemma_backpressure_bound(s: ConnectionServer)
    requires
        s.wf(),
    ensures
        s.active <= s.pool_size,
{
}

/// Connection isolation: a worker finishing with a failure leaves the server
/// in exactly the state a clean finish would, so sibling connections and the
/// listener are unaffected, and a worker is free again for a new accepted connection.
pub proof fn lemma_connection_isolation(s: ConnectionServer, outcome: ConnOutcome)
    requires
        s.wf(),
        s.active >= 1,
    ensures
        worker_done_spec(s, outcome) == worker_done_spec(s, ConnOutcome::Clean),
        worker_done_spec(s, outcome).phase == s.phase,
        worker_done_spec(s, outcome).pool_size == s.pool_size,
        worker_done_spec(s, outcome).active < s.pool_size,
{
}

} // verus!
