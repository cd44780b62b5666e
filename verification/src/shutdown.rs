//! Coordinated, graceful shutdown.
//!
//! The server lifecycle runs Running -> ShutdownRequested -> Draining ->
//! Terminated.  On the shutdown request the accept-loop task is aborted
//! immediately, so no further connections are accepted.  During draining,
//! each registered in-flight connection is given until the configured grace
//! period to finish naturally; whatever is still open after the grace period
//! is forcibly aborted.  Registered shutdown hooks each run exactly once;
//! hook failures are recorded and never stop the shutdown from progressing.

use vstd::prelude::*;

verus! {

/// The phases of the server lifecycle, in order.
#[derive(Clone, Copy, PartialEq, Eq, Structural, Debug)]
pub enum ShutdownState {
    /// Accept loop active, connections processed normally.
    Running,
    /// A shutdown signal arrived; the accept-loop task is aborted.
    ShutdownRequested,
    /// In-flight connections are given the grace period to finish.
    Draining,
    /// Connections still open past the grace period are forcibly aborted.
    Terminated,
}

/// How far along the lifecycle a state is; each transition moves exactly
/// one step forward and the lifecycle never moves backward.
pub open spec fn spec_phase(st: ShutdownState) -> int {
    match st {
        ShutdownState::Running => 0,
        ShutdownState::ShutdownRequested => 1,
        ShutdownState::Draining => 2,
        ShutdownState::Terminated => 3,
    }
}

/// Whether a new connection may be accepted in the given state: only while
/// the server is still running.
pub open spec fn spec_may_accept(st: ShutdownState) -> bool {
    st == ShutdownState::Running
}

/// How one in-flight connection ends during draining.
#[derive(Clone, Copy, PartialEq, Eq, Structural, Debug)]
pub enum ConnectionFate {
    /// The connection's pipeline finished naturally, at this offset (in
    /// milliseconds) after the shutdown signal.
    CompletedNormally { at_ms: u64 },
    /// The connection was still open when the grace period elapsed and was
    /// forcibly aborted at the grace deadline; its client observes a closed
    /// connection, not a response.
    ForciblyAborted { at_ms: u64 },
}

/// The fate of one connection that still needs `remaining_ms` of work when
/// shutdown is signalled, under the configured grace period: it completes
/// normally if it fits in the grace period and is forcibly aborted at the
/// deadline otherwise.
pub open spec fn spec_fate(remaining_ms: u64, grace_ms: u64) -> ConnectionFate {
    if remaining_ms <= grace_ms {
        ConnectionFate::CompletedNormally { at_ms: remaining_ms }
    } else {
        ConnectionFate::ForciblyAborted { at_ms: grace_ms }
    }
}

/// The moment, relative to the shutdown signal, at which a fate resolves.
pub open spec fn spec_fate_time(f: ConnectionFate) -> int {
    match f {
        ConnectionFate::CompletedNormally { at_ms } => at_ms as int,
        ConnectionFate::ForciblyAborted { at_ms } => at_ms as int,
    }
}

/// How long draining takes: the latest moment at which any in-flight
/// connection's fate resolves, and zero when none is in flight.
pub open spec fn spec_drain_duration(remaining_ms: Seq<u64>, grace_ms: u64) -> int
    decreases remaining_ms.len(),
{
    if remaining_ms.len() == 0 {
        0
    } else {
        let rest = spec_drain_duration(remaining_ms.drop_last(), grace_ms);
        let last = spec_fate_time(spec_fate(remaining_ms.last(), grace_ms));
        if last > rest {
            last
        } else {
            rest
        }
    }
}

/// The shutdown coordinator: the lifecycle phase and the configured grace
/// period.
pub struct ShutdownCoordinator {
    /// The current lifecycle phase.
    pub state: ShutdownState,
    /// How long draining waits for in-flight connections, in milliseconds.
    pub grace_period_ms: u64,
}

impl ShutdownCoordinator {
    /// A coordinator for a freshly started server.
    pub fn new(grace_period_ms: u64) -> (c: ShutdownCoordinator)
        ensures
            c.state == ShutdownState::Running,
            c.grace_period_ms == grace_period_ms,
    {
        ShutdownCoordinator { state: ShutdownState::Running, grace_period_ms }
    }

    /// Whether a new connection may be accepted right now.
    pub fn may_accept(&self) -> (b: bool)
        ensures
            b == spec_may_accept(self.state),
    {
        matches!(self.state, ShutdownState::Running)
    }

    /// The external shutdown signal arrived: the accept-loop task is to be
    /// aborted immediately (a hard cancel), and no further connections are
    /// accepted from this point on.
    pub fn request_shutdown(&mut self)
        requires
            old(self).state == ShutdownState::Running,
        ensures
            final(self).state == ShutdownState::ShutdownRequested,
            final(self).grace_period_ms == old(self).grace_period_ms,
            spec_phase(final(self).state) == spec_phase(old(self).state) + 1,
            !spec_may_accept(final(self).state),
    {
        self.state = ShutdownState::ShutdownRequested;
    }

    /// Draining begins: in-flight connections get the grace period to finish.
    pub fn begin_drain(&mut self)
        requires
            old(self).state == ShutdownState::ShutdownRequested,
        ensures
            final(self).state == ShutdownState::Draining,
            final(self).grace_period_ms == old(self).grace_period_ms,
            spec_phase(final(self).state) == spec_phase(old(self).state) + 1,
            !spec_may_accept(final(self).state),
    {
        self.state = ShutdownState::Draining;
    }

    /// Draining ended: whatever is still open has been forcibly aborted and
    /// the process may exit.
    pub fn terminate(&mut self)
        requires
            old(self).state == ShutdownState::Draining,
        ensures
            final(self).state == ShutdownState::Terminated,
            final(self).grace_period_ms == old(self).grace_period_ms,
            spec_phase(final(self).state) == spec_phase(old(self).state) + 1,
            !spec_may_accept(final(self).state),
    {
        self.state = ShutdownState::Terminated;
    }

    /// Resolves the fate of every in-flight connection at the shutdown
    /// signal: `remaining_ms[i]` is how much work connection `i` still
    /// needs.  Connections that fit in the grace period complete normally
    /// at their own finish time; the rest are forcibly aborted at the grace
    /// deadline.
    pub fn drain_fates(&self, remaining_ms: &Vec<u64>) -> (fates: Vec<ConnectionFate>)
        requires
            self.state == ShutdownState::Draining,
        ensures
            fates@.len() == remaining_ms@.len(),
            forall|i: int|
                0 <= i < remaining_ms@.len()
                    ==> fates@[i] == spec_fate(remaining_ms@[i], self.grace_period_ms),
    {
        let n = remaining_ms.len();
        let mut fates: Vec<ConnectionFate> = Vec::new();
        let mut i: usize = 0;
        while i < n
            invariant
                i <= n,
                n == remaining_ms@.len(),
                fates@.len() == i,
                forall|j: int|
                    0 <= j < i ==> fates@[j] == spec_fate(remaining_ms@[j], self.grace_period_ms),
            decreases n - i,
        {
            let r = remaining_ms[i];
            if r <= self.grace_period_ms {
                fates.push(ConnectionFate::CompletedNormally { at_ms: r });
            } else {
                fates.push(ConnectionFate::ForciblyAborted { at_ms: self.grace_period_ms });
            }
            i = i + 1;
        }
        fates
    }

    /// How long draining takes for the given in-flight connections: shutdown
    /// completes as soon as the last fate resolves, never later than the
    /// grace period.
    pub fn drain_duration(&self, remaining_ms: &Vec<u64>) -> (d: u64)
        requires
            self.state == ShutdownState::Draining,
        ensures
            d == spec_drain_duration(remaining_ms@, self.grace_period_ms),
            d <= self.grace_period_ms,
    {
        let n = remaining_ms.len();
        let mut d: u64 = 0;
        let mut i: usize = 0;
        while i < n
            invariant
                i <= n,
                n == remaining_ms@.len(),
                d == spec_drain_duration(remaining_ms@.take(i as int), self.grace_period_ms),
                d <= self.grace_period_ms,
            decreases n - i,
        {
            let r = remaining_ms[i];
            let t = if r <= self.grace_period_ms {
                r
            } else {
                self.grace_period_ms
            };
            if t > d {
                d = t;
            }
            assert(remaining_ms@.take(i + 1 as int).drop_last() =~= remaining_ms@.take(i as int));
            assert(remaining_ms@.take(i + 1 as int).last() == remaining_ms@[i as int]);
            i = i + 1;
        }
        assert(remaining_ms@.take(n as int) =~= remaining_ms@);
        d
    }
}

/// The outcome of one registered shutdown hook.
#[derive(Clone, Copy, PartialEq, Eq, Structural, Debug)]
pub enum HookState {
    /// Registered, not yet executed.
    Pending,
    /// Executed exactly once; a failed hook is recorded, never fatal.
    Ran { failed: bool },
}

/// How many hooks failed among the recorded outcomes.
pub open spec fn spec_count_failures(outcomes: Seq<bool>) -> int
    decreases outcomes.len(),
{
    if outcomes.len() == 0 {
        0
    } else {
        spec_count_failures(outcomes.drop_last()) + if outcomes.last() {
            1int
        } else {
            0int
        }
    }
}

/// The process-wide registry of asynchronous cleanup actions.  It is
/// append-only while the server is being set up and iterated exactly once
/// during shutdown.
pub struct ShutdownHooks {
    /// The state of each registered hook, in registration order.
    pub hooks: Vec<HookState>,
}

impl ShutdownHooks {
    /// An empty registry.
    pub fn new() -> (h: ShutdownHooks)
        ensures
            h.hooks@ =~= Seq::<HookState>::empty(),
    {
        ShutdownHooks { hooks: Vec::new() }
    }

    /// Registers one more cleanup action.  Registration only appends: the
    /// hooks already registered are untouched.
    pub fn push(&mut self)
        requires
            forall|i: int|
                0 <= i < old(self).hooks@.len() ==> old(self).hooks@[i] == HookState::Pending,
        ensures
            final(self).hooks@ =~= old(self).hooks@.push(HookState::Pending),
    {
        self.hooks.push(HookState::Pending);
    }

    /// Runs every registered hook exactly once; `outcomes[i]` records
    /// whether hook `i` failed.  A failed hook is logged by the caller and
    /// never stops the remaining hooks from running: afterwards every hook
    /// has run, whatever the outcomes were.  Returns how many hooks failed.
    pub fn run_all(&mut self, outcomes: &Vec<bool>) -> (failures: u64)
        requires
            outcomes@.len() == old(self).hooks@.len(),
            forall|i: int|
                0 <= i < old(self).hooks@.len() ==> old(self).hooks@[i] == HookState::Pending,
            old(self).hooks@.len() <= u64::MAX,
        ensures
            final(self).hooks@.len() == old(self).hooks@.len(),
            forall|i: int|
                0 <= i < final(self).hooks@.len()
                    ==> final(self).hooks@[i] == (HookState::Ran { failed: outcomes@[i] }),
            failures == spec_count_failures(outcomes@),
    {
        let n = self.hooks.len();
        let mut failures: u64 = 0;
        let mut i: usize = 0;
        while i < n
            invariant
                i <= n,
                n == self.hooks@.len(),
                n == outcomes@.len(),
                n <= u64::MAX,
                failures <= i,
                forall|j: int|
                    0 <= j < i ==> self.hooks@[j] == (HookState::Ran { failed: outcomes@[j] }),
                forall|j: int| i <= j < n ==> self.hooks@[j] == HookState::Pending,
                failures == spec_count_failures(outcomes@.take(i as int)),
            decreases n - i,
        {
            let failed = outcomes[i];
            self.hooks.set(i, HookState::Ran { failed });
            if failed {
                failures = failures + 1;
            }
            assert(outcomes@.take(i + 1 as int).drop_last() =~= outcomes@.take(i as int));
            assert(outcomes@.take(i + 1 as int).last() == outcomes@[i as int]);
            i = i + 1;
        }
        assert(outcomes@.take(n as int) =~= outcomes@);
        failures
    }
}

/// Law: after ShutdownRequested no new connections are accepted — in every
/// lifecycle phase past Running, and so in every later phase the lifecycle
/// can reach, acceptance is refused.
pub proof fn lemma_no_accept_after_shutdown(st: ShutdownState)
    requires
        spec_phase(st) >= spec_phase(ShutdownState::ShutdownRequested),
    ensures
        !spec_may_accept(st),
{
}

/// Law: every connection that finishes within the grace period completes
/// normally at its own finish time; any connection still open after the
/// grace period is forcibly aborted exactly at the grace deadline.
pub proof fn lemma_grace_period(remaining_ms: u64, grace_ms: u64)
    ensures
        remaining_ms <= grace_ms ==> spec_fate(remaining_ms, grace_ms)
            == (ConnectionFate::CompletedNormally { at_ms: remaining_ms }),
        remaining_ms > grace_ms ==> spec_fate(remaining_ms, grace_ms)
            == (ConnectionFate::ForciblyAborted { at_ms: grace_ms }),
        spec_fate_time(spec_fate(remaining_ms, grace_ms)) <= grace_ms,
{
}

/// Law: shutdown waits for the work, not for the grace period.  If every
/// in-flight connection finishes within `bound`, and `bound` is within the
/// grace period, draining completes within `bound` — in particular it never
/// takes longer than the grace period itself.
pub proof fn lemma_drain_waits_only_for_work(remaining_ms: Seq<u64>, grace_ms: u64, bound: u64)
    requires
        bound <= grace_ms,
        forall|i: int| 0 <= i < remaining_ms.len() ==> remaining_ms[i] <= bound,
    ensures
        spec_drain_duration(remaining_ms, grace_ms) <= bound,
    decreases remaining_ms.len(),
{
    if remaining_ms.len() > 0 {
        lemma_drain_waits_only_for_work(remaining_ms.drop_last(), grace_ms, bound);
    }
}

/// Law: draining never takes longer than the grace period.
pub proof fn lemma_drain_bounded_by_grace(remaining_ms: Seq<u64>, grace_ms: u64)
    ensures
        spec_drain_duration(remaining_ms, grace_ms) <= grace_ms,
    decreases remaining_ms.len(),
{
    if remaining_ms.len() > 0 {
        lemma_drain_bounded_by_grace(remaining_ms.drop_last(), grace_ms);
    }
}

} // verus!
