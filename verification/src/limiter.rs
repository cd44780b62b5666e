//! Connection-limit enforcement: backpressure on the accept loop.
//!
//! The limiter is the shared counter behind the outermost layer of the
//! accept pipeline.  A slot is acquired before a connection is accepted and
//! released when the connection's task ends, on every exit path: normal
//! completion, error, or forced abort.  While every slot is taken, further
//! accept attempts are delayed until a slot frees.

use vstd::prelude::*;

verus! {

/// The shared connection-limit counter: the configured maximum number of
/// concurrently active connections, and how many are active now.
pub struct ConnectionLimiter {
    /// The configured maximum number of concurrently active connections.
    pub limit: usize,
    /// The number of connections active at this moment.
    pub in_flight: usize,
}

/// Whether an acquire attempt succeeds in the given state: it does exactly
/// when a slot is free.
pub open spec fn spec_can_acquire(s: ConnectionLimiter) -> bool {
    s.in_flight < s.limit
}

impl ConnectionLimiter {
    /// The limiter's invariant: the number of concurrently active
    /// connections never exceeds the configured limit.
    pub open spec fn wf(&self) -> bool {
        self.in_flight <= self.limit
    }

    /// A fresh limiter with the configured maximum and no active
    /// connections.
    pub fn new(limit: usize) -> (s: ConnectionLimiter)
        ensures
            s.limit == limit,
            s.in_flight == 0,
            s.wf(),
    {
        ConnectionLimiter { limit, in_flight: 0 }
    }

    /// Attempts to take a slot for a new connection.  The attempt succeeds
    /// exactly when a slot is free; at capacity the state is unchanged and
    /// the caller must delay the accept until a slot frees.
    pub fn try_acquire(&mut self) -> (ok: bool)
        requires
            old(self).wf(),
        ensures
            final(self).wf(),
            final(self).limit == old(self).limit,
            ok == spec_can_acquire(*old(self)),
            ok ==> final(self).in_flight == old(self).in_flight + 1,
            !ok ==> final(self).in_flight == old(self).in_flight,
    {
        if self.in_flight < self.limit {
            self.in_flight = self.in_flight + 1;
            true
        } else {
            false
        }
    }

    /// Frees the slot of a connection whose task ended, whatever the exit
    /// path was.
    pub fn release(&mut self)
        requires
            old(self).wf(),
            old(self).in_flight > 0,
        ensures
            final(self).wf(),
            final(self).limit == old(self).limit,
            final(self).in_flight == old(self).in_flight - 1,
    {
        self.in_flight = self.in_flight - 1;
    }
}

/// Law: the connection-limit invariant.  In every well-formed limiter state
/// the number of concurrently active connections is at most the configured
/// limit, and both acquiring and releasing a slot preserve well-formedness,
/// so no sequence of accepts and closes ever exceeds the limit.
pub proof fn lemma_connection_limit_invariant(s: ConnectionLimiter)
    requires
        s.wf(),
    ensures
        s.in_flight <= s.limit,
{
}

/// Law: at capacity, a new accept attempt succeeds only after an existing
/// connection closes.  While every slot is taken no acquire succeeds; once
/// one connection releases its slot, the next acquire succeeds (for a
/// positive limit).
pub proof fn lemma_accept_waits_for_close(s: ConnectionLimiter)
    requires
        s.wf(),
        s.in_flight == s.limit,
    ensures
        !spec_can_acquire(s),
        s.limit > 0 ==> spec_can_acquire(
            ConnectionLimiter { limit: s.limit, in_flight: (s.in_flight - 1) as usize },
        ),
{
}

} // verus!
