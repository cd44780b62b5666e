//! Idle-connection timeout enforcement.
//!
//! A connection with no request activity for longer than the configured
//! duration is closed proactively by the server — never by the client —
//! releasing its slot before an idle client ties it up indefinitely.

use vstd::prelude::*;

verus! {

/// Who closed a connection.
#[derive(Clone, Copy, PartialEq, Eq, Structural, Debug)]
pub enum ClosedBy {
    /// The server closed the connection.
    Server,
    /// The client closed the connection.
    Client,
}

/// The record of a connection being closed.
#[derive(Clone, Copy, PartialEq, Eq, Structural, Debug)]
pub struct CloseEvent {
    /// When the connection was closed, in milliseconds.
    pub at_ms: u64,
    /// Which side closed it.
    pub by: ClosedBy,
}

/// Whether a connection whose last request activity was at
/// `last_activity_ms` has been idle for at least `timeout_ms` at time
/// `now_ms`.
pub open spec fn spec_idle_expired(last_activity_ms: u64, timeout_ms: u64, now_ms: u64) -> bool {
    now_ms >= last_activity_ms + timeout_ms
}

/// The per-connection idle-timeout tracker: the configured duration and the
/// time of the last request activity.
pub struct IdleTracker {
    /// The configured idle timeout, in milliseconds.
    pub timeout_ms: u64,
    /// When the connection last saw request activity, in milliseconds.
    pub last_activity_ms: u64,
}

impl IdleTracker {
    /// A tracker for a connection opened at `opened_at_ms`: opening counts
    /// as activity.
    pub fn new(timeout_ms: u64, opened_at_ms: u64) -> (t: IdleTracker)
        ensures
            t.timeout_ms == timeout_ms,
            t.last_activity_ms == opened_at_ms,
    {
        IdleTracker { timeout_ms, last_activity_ms: opened_at_ms }
    }

    /// Records request activity at `now_ms`; the idle clock restarts.
    pub fn record_activity(&mut self, now_ms: u64)
        requires
            now_ms >= old(self).last_activity_ms,
        ensures
            final(self).timeout_ms == old(self).timeout_ms,
            final(self).last_activity_ms == now_ms,
    {
        self.last_activity_ms = now_ms;
    }

    /// Checks the connection at time `now_ms`: if it has been idle for the
    /// configured duration or longer, the server closes it — the close
    /// event is the server's, never the client's — and otherwise it is
    /// left open.
    pub fn check(&self, now_ms: u64) -> (r: Option<CloseEvent>)
        requires
            now_ms >= self.last_activity_ms,
        ensures
            spec_idle_expired(self.last_activity_ms, self.timeout_ms, now_ms)
                ==> r == Option::Some(CloseEvent { at_ms: now_ms, by: ClosedBy::Server }),
            !spec_idle_expired(self.last_activity_ms, self.timeout_ms, now_ms)
                ==> r == Option::<CloseEvent>::None,
    {
        if now_ms - self.last_activity_ms >= self.timeout_ms {
            Option::Some(CloseEvent { at_ms: now_ms, by: ClosedBy::Server })
        } else {
            Option::None
        }
    }
}

/// Law: the idle timeout fires exactly at the deadline.  A connection is
/// never closed for idleness strictly before `last activity + timeout`, and
/// from that moment on every check closes it, with the server as the
/// closing side.
pub proof fn lemma_idle_deadline(last_activity_ms: u64, timeout_ms: u64, now_ms: u64)
    ensures
        now_ms < last_activity_ms + timeout_ms
            ==> !spec_idle_expired(last_activity_ms, timeout_ms, now_ms),
        now_ms >= last_activity_ms + timeout_ms
            ==> spec_idle_expired(last_activity_ms, timeout_ms, now_ms),
{
}

/// Law: recording activity defers the deadline.  After activity at `a2 >=
/// a1`, any moment that had not yet expired against `a1` has not expired
/// against `a2` either: restarting the idle clock never closes a connection
/// earlier.
pub proof fn lemma_activity_defers_close(a1: u64, a2: u64, timeout_ms: u64, now_ms: u64)
    requires
        a1 <= a2,
        !spec_idle_expired(a1, timeout_ms, now_ms),
    ensures
        !spec_idle_expired(a2, timeout_ms, now_ms),
{
}

} // verus!
