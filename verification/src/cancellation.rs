//! Cooperative request cancellation.
//!
//! Each request carries a cancellation token tied to its connection's
//! liveness: the token is set when the underlying connection is lost.  The
//! token never preempts running code — handler code polls or awaits it at
//! explicit suspension points and stops early once it observes the signal,
//! releasing whatever resources it holds.

use vstd::prelude::*;

verus! {

/// A cooperative, observable cancellation signal for one request's
/// lifetime.  Once set it stays set.
pub struct CancellationToken {
    /// Whether the signal has been raised.
    pub cancelled: bool,
}

impl CancellationToken {
    /// A fresh token: not cancelled.
    pub fn new() -> (t: CancellationToken)
        ensures
            !t.cancelled,
    {
        CancellationToken { cancelled: false }
    }

    /// Raises the signal; the connection behind the request was lost.  The
    /// signal only ever moves from unset to set.
    pub fn cancel(&mut self)
        ensures
            final(self).cancelled,
    {
        self.cancelled = true;
    }

    /// Observes the signal, as a handler does at a suspension point.
    pub fn is_cancelled(&self) -> (b: bool)
        ensures
            b == self.cancelled,
    {
        self.cancelled
    }
}

/// How a request's task ends.
#[derive(Clone, Copy, PartialEq, Eq, Structural, Debug)]
pub enum RequestEnd {
    /// The handler reached its end, after this many polling steps.
    Completed { polls: u64 },
    /// The handler observed the cancellation signal at this polling step
    /// and stopped early.
    Cancelled { at_poll: u64 },
}

/// How a cancellable handler run ends.  The handler needs `total_polls`
/// suspension points of work; `closed_after` says after how many completed
/// steps the connection was lost, if it was.  If the connection outlives
/// the work, the handler completes; otherwise the handler observes the
/// signal at the very next suspension point and stops there.
pub open spec fn spec_request_end(total_polls: u64, closed_after: Option<u64>) -> RequestEnd {
    match closed_after {
        Option::None => RequestEnd::Completed { polls: total_polls },
        Option::Some(c) => if c >= total_polls {
            RequestEnd::Completed { polls: total_polls }
        } else {
            RequestEnd::Cancelled { at_poll: c }
        },
    }
}

/// Runs one request's handler cooperatively: `total_polls` suspension
/// points of work, against a connection that is lost after `closed_after`
/// completed steps (if ever).  At every suspension point the token is
/// checked first; one unit of resource is held across each working step and
/// released again, on the normal path and on the cancelled path alike, so
/// the task ends holding nothing.  Returns how the request ended and how
/// many resources were still held at the end.
pub fn run_cancellable(total_polls: u64, closed_after: Option<u64>) -> (r: (RequestEnd, u64))
    ensures
        r.0 == spec_request_end(total_polls, closed_after),
        r.1 == 0,
{
    let mut token = CancellationToken::new();
    let mut resources_held: u64 = 0;
    let mut i: u64 = 0;
    while i < total_polls
        invariant
            i <= total_polls,
            resources_held == 0,
            !token.cancelled,
            match closed_after {
                Option::None => true,
                Option::Some(c) => i <= c,
            },
        decreases total_polls - i,
    {
        // The connection's liveness is observed at the suspension point:
        // the token is set as soon as the connection has been lost.
        let lost = match closed_after {
            Option::None => false,
            Option::Some(c) => i >= c,
        };
        if lost {
            token.cancel();
        }
        if token.is_cancelled() {
            return (RequestEnd::Cancelled { at_poll: i }, resources_held);
        }
        // One working step: take a resource, do the work, release it.
        resources_held = resources_held + 1;
        resources_held = resources_held - 1;
        i = i + 1;
    }
    (RequestEnd::Completed { polls: total_polls }, resources_held)
}

/// Law: cancellation is prompt.  If the connection is lost before the
/// handler finishes, the request ends cancelled at the very next polling
/// step after the loss — the signal becomes observable within one polling
/// interval.
pub proof fn lemma_cancellation_prompt(total_polls: u64, closed_after: u64)
    requires
        closed_after < total_polls,
    ensures
        spec_request_end(total_polls, Option::Some(closed_after))
            == (RequestEnd::Cancelled { at_poll: closed_after }),
{
}

/// Law: a live connection never cancels.  If the connection outlives the
/// handler's work — or is never lost at all — the request completes its full
/// work.
pub proof fn lemma_no_spurious_cancellation(total_polls: u64, closed_after: Option<u64>)
    requires
        match closed_after {
            Option::None => true,
            Option::Some(c) => c >= total_polls,
        },
    ensures
        spec_request_end(total_polls, closed_after)
            == (RequestEnd::Completed { polls: total_polls }),
{
}

} // verus!
