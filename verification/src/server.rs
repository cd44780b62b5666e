//! The server core: the decisions the accept loop and the lifecycle make.
//!
//! One dedicated task drives the accept loop: it asks this core whether to
//! accept the next connection, hands each accepted connection to an
//! independent concurrent task, and immediately loops.  The core decides —
//! from the lifecycle phase and the connection-limit counter — whether the
//! next accept proceeds, is delayed for backpressure, or stops because
//! shutdown was requested; the surrounding runtime performs the accept
//! itself, spawns the tasks, and reports each connection's end back here.

use vstd::prelude::*;
use crate::limiter::ConnectionLimiter;
use crate::limiter::spec_can_acquire;
use crate::shutdown::ConnectionFate;
use crate::shutdown::ShutdownCoordinator;
use crate::shutdown::ShutdownHooks;
use crate::shutdown::ShutdownState;
use crate::shutdown::HookState;
use crate::shutdown::spec_count_failures;
use crate::shutdown::spec_drain_duration;
use crate::shutdown::spec_fate;
use crate::shutdown::spec_may_accept;

verus! {

/// How one connection's task ended.  Errors here are isolated to the one
/// connection: they are recorded at diagnostic level and the task ends.
#[derive(Clone, Copy, PartialEq, Eq, Structural, Debug)]
pub enum ConnectionEnd {
    /// The connection's pipeline completed normally.
    Completed,
    /// An I/O failure on the transport.
    IoError,
    /// The TLS handshake failed; no other connection is affected.
    HandshakeFailed,
    /// The peer violated the protocol.
    ProtocolViolation,
    /// The server closed the connection for idleness.
    IdleTimedOut,
    /// The shutdown coordinator forcibly aborted the connection after the
    /// grace period.
    ForcedAbort,
}

/// What the accept loop does next.
#[derive(Clone, Copy, PartialEq, Eq, Structural, Debug)]
pub enum AcceptAction {
    /// Accept the next connection and spawn its handling task.
    Accept,
    /// At capacity: delay the accept until a connection closes.
    Delay,
    /// Shutdown was requested: the accept task stops; no further
    /// connection is accepted.
    Stop,
}

/// The TLS settings as the core consumes them: whether termination is
/// configured, and whether the certificate and private key were supplied.
#[derive(Clone, Copy, PartialEq, Eq, Structural, Debug)]
pub enum TlsConfig {
    /// No TLS termination: connections carry plaintext.
    Disabled,
    /// TLS termination: the handshake needs both a certificate and a
    /// private key.
    Enabled { has_certificate: bool, has_private_key: bool },
}

/// A startup error: fatal, and raised before any connection is accepted —
/// no partial pipeline is ever run.
#[derive(Clone, Copy, PartialEq, Eq, Structural, Debug)]
pub enum StartupError {
    /// The configured server header is not a valid header value.
    InvalidServerHeader,
    /// TLS is enabled but the certificate or the private key is missing.
    IncompleteTlsConfig,
}

/// The static configuration the core consumes at startup.
pub struct ServerConfig {
    /// The maximum number of concurrently active connections.
    pub connection_limit: usize,
    /// How long shutdown waits for in-flight connections, in milliseconds.
    pub grace_period_ms: u64,
    /// The idle-connection timeout, in milliseconds.
    pub idle_timeout_ms: u64,
    /// The route table: the set of registered endpoint identifiers.
    pub endpoints: Vec<u64>,
    /// The value of the server response header, as bytes.
    pub server_header: Vec<u8>,
    /// The TLS settings.
    pub tls: TlsConfig,
}

/// A valid header value: non-empty, and every byte is printable ASCII or
/// the space character.
pub open spec fn spec_valid_header_value(s: Seq<u8>) -> bool {
    s.len() > 0 && forall|i: int| 0 <= i < s.len() ==> 0x20 <= #[trigger] s[i] <= 0x7e
}

/// A usable TLS configuration: disabled, or enabled with both the
/// certificate and the private key present.
pub open spec fn spec_valid_tls(t: TlsConfig) -> bool {
    match t {
        TlsConfig::Disabled => true,
        TlsConfig::Enabled { has_certificate, has_private_key } => has_certificate
            && has_private_key,
    }
}

/// Checks that a configured header value is valid.
fn valid_header_value(v: &Vec<u8>) -> (ok: bool)
    ensures
        ok == spec_valid_header_value(v@),
{
    let n = v.len();
    let mut ok: bool = n > 0;
    let mut i: usize = 0;
    while i < n
        invariant
            i <= n,
            n == v@.len(),
            ok == (n > 0 && forall|j: int| 0 <= j < i ==> 0x20 <= #[trigger] v@[j] <= 0x7e),
        decreases n - i,
    {
        let b = v[i];
        if b < 0x20 || b > 0x7e {
            ok = false;
        }
        i = i + 1;
    }
    ok
}

/// The accept decision for a given lifecycle phase and limiter state: stop
/// once the server is no longer running, otherwise accept exactly when a
/// connection slot is free and delay when at capacity.
pub open spec fn spec_accept_action(st: ShutdownState, lim: ConnectionLimiter) -> AcceptAction {
    if !spec_may_accept(st) {
        AcceptAction::Stop
    } else if spec_can_acquire(lim) {
        AcceptAction::Accept
    } else {
        AcceptAction::Delay
    }
}

/// The server core's state: the connection-limit counter, the shutdown
/// coordinator, the shutdown-hook registry, the routing middleware's route
/// table, and the idle-timeout setting.
pub struct ServerCore {
    /// The shared connection-limit counter.
    pub limiter: ConnectionLimiter,
    /// The lifecycle coordinator.
    pub coordinator: ShutdownCoordinator,
    /// The process-wide shutdown-hook registry.
    pub hooks: ShutdownHooks,
    /// The route table, owned by the routing middleware from startup on:
    /// the endpoint set is moved in once at construction and the core
    /// offers no way to mutate it afterward.
    pub routes: Vec<u64>,
    /// The idle-connection timeout, in milliseconds.
    pub idle_timeout_ms: u64,
}

impl ServerCore {
    /// The core's invariant: the connection counter respects its limit.
    pub open spec fn wf(&self) -> bool {
        self.limiter.wf()
    }

    /// Starts the server core from its configuration.  Construction-time
    /// validation comes first: an invalid server-header value, or a TLS
    /// configuration missing its certificate or key, fails the whole
    /// startup immediately — no partial pipeline is ever run.  On success
    /// no connection is active, the lifecycle is Running, the endpoint set
    /// is moved out of the configuration into the routing state — a
    /// one-time ownership transfer — and the hook that aborts the
    /// accept-loop task at shutdown is registered as the first shutdown
    /// hook.
    pub fn start(config: ServerConfig) -> (r: Result<ServerCore, StartupError>)
        ensures
            r matches Result::Ok(s) ==> {
                &&& s.wf()
                &&& s.limiter.limit == config.connection_limit
                &&& s.limiter.in_flight == 0
                &&& s.coordinator.state == ShutdownState::Running
                &&& s.coordinator.grace_period_ms == config.grace_period_ms
                &&& s.routes@ =~= config.endpoints@
                &&& s.hooks.hooks@ =~= seq![HookState::Pending]
                &&& s.idle_timeout_ms == config.idle_timeout_ms
            },
            (r matches Result::Ok(s)) <==> (spec_valid_header_value(config.server_header@)
                && spec_valid_tls(config.tls)),
            !spec_valid_header_value(config.server_header@) ==> r == Result::<
                ServerCore,
                StartupError,
            >::Err(StartupError::InvalidServerHeader),
            spec_valid_header_value(config.server_header@) && !spec_valid_tls(config.tls)
                ==> r == Result::<ServerCore, StartupError>::Err(StartupError::IncompleteTlsConfig),
    {
        if !valid_header_value(&config.server_header) {
            return Result::Err(StartupError::InvalidServerHeader);
        }
        let tls_ok = match config.tls {
            TlsConfig::Disabled => true,
            TlsConfig::Enabled { has_certificate, has_private_key } => has_certificate
                && has_private_key,
        };
        if !tls_ok {
            return Result::Err(StartupError::IncompleteTlsConfig);
        }
        let mut hooks = ShutdownHooks::new();
        hooks.push();
        Result::Ok(
            ServerCore {
                limiter: ConnectionLimiter::new(config.connection_limit),
                coordinator: ShutdownCoordinator::new(config.grace_period_ms),
                hooks,
                routes: config.endpoints,
                idle_timeout_ms: config.idle_timeout_ms,
            },
        )
    }

    /// One step of the accept loop.  While running and below the limit the
    /// connection is accepted and its slot taken; at capacity the accept is
    /// delayed and nothing changes; once shutdown was requested the loop
    /// stops and nothing changes.  Everything but the connection counter is
    /// untouched.
    pub fn accept_step(&mut self) -> (a: AcceptAction)
        requires
            old(self).wf(),
        ensures
            final(self).wf(),
            a == spec_accept_action(old(self).coordinator.state, old(self).limiter),
            final(self).limiter.limit == old(self).limiter.limit,
            a == AcceptAction::Accept ==> final(self).limiter.in_flight == old(
                self,
            ).limiter.in_flight + 1,
            a != AcceptAction::Accept ==> final(self).limiter.in_flight == old(
                self,
            ).limiter.in_flight,
            final(self).coordinator == old(self).coordinator,
            final(self).hooks.hooks@ =~= old(self).hooks.hooks@,
            final(self).routes@ =~= old(self).routes@,
            final(self).idle_timeout_ms == old(self).idle_timeout_ms,
    {
        if !self.coordinator.may_accept() {
            AcceptAction::Stop
        } else if self.limiter.try_acquire() {
            AcceptAction::Accept
        } else {
            AcceptAction::Delay
        }
    }

    /// A connection's task ended with this outcome.  Whatever the outcome,
    /// its slot frees — on every exit path — so a delayed accept may now
    /// proceed, and nothing else in the core changes: a connection-level
    /// failure never propagates to the accept loop, the lifecycle, or any
    /// other connection.  Returns whether the end is worth a diagnostic
    /// (debug-level) record; no connection end is ever more severe.
    pub fn connection_ended(&mut self, end: ConnectionEnd) -> (diagnostic: bool)
        requires
            old(self).wf(),
            old(self).limiter.in_flight > 0,
        ensures
            final(self).wf(),
            final(self).limiter.limit == old(self).limiter.limit,
            final(self).limiter.in_flight == old(self).limiter.in_flight - 1,
            final(self).coordinator == old(self).coordinator,
            final(self).hooks.hooks@ =~= old(self).hooks.hooks@,
            final(self).routes@ =~= old(self).routes@,
            final(self).idle_timeout_ms == old(self).idle_timeout_ms,
            diagnostic == (end != ConnectionEnd::Completed),
    {
        self.connection_closed();
        !matches!(end, ConnectionEnd::Completed)
    }

    /// A connection's task ended — normally, on error, or by forced abort —
    /// and its slot frees, so a delayed accept may now proceed.
    pub fn connection_closed(&mut self)
        requires
            old(self).wf(),
            old(self).limiter.in_flight > 0,
        ensures
            final(self).wf(),
            final(self).limiter.limit == old(self).limiter.limit,
            final(self).limiter.in_flight == old(self).limiter.in_flight - 1,
            final(self).coordinator == old(self).coordinator,
            final(self).hooks.hooks@ =~= old(self).hooks.hooks@,
            final(self).routes@ =~= old(self).routes@,
            final(self).idle_timeout_ms == old(self).idle_timeout_ms,
    {
        self.limiter.release();
    }

    /// The external shutdown signal: the lifecycle leaves Running, so the
    /// very next accept step stops the accept loop.
    pub fn signal_shutdown(&mut self)
        requires
            old(self).wf(),
            old(self).coordinator.state == ShutdownState::Running,
        ensures
            final(self).wf(),
            final(self).coordinator.state == ShutdownState::ShutdownRequested,
            final(self).coordinator.grace_period_ms == old(self).coordinator.grace_period_ms,
            final(self).limiter == old(self).limiter,
            final(self).hooks.hooks@ =~= old(self).hooks.hooks@,
            final(self).routes@ =~= old(self).routes@,
            final(self).idle_timeout_ms == old(self).idle_timeout_ms,
            spec_accept_action(final(self).coordinator.state, final(self).limiter)
                == AcceptAction::Stop,
    {
        self.coordinator.request_shutdown();
    }

    /// Runs the coordinated shutdown after the signal: draining begins,
    /// every in-flight connection gets the grace period to finish — those
    /// that fit complete normally, the rest are forcibly aborted at the
    /// grace deadline — every registered hook runs exactly once whatever
    /// its outcome, and the lifecycle ends Terminated.  Returns each
    /// connection's fate, how long draining took (never more than the
    /// grace period), and how many hooks failed.
    pub fn run_shutdown(&mut self, remaining_ms: &Vec<u64>, hook_outcomes: &Vec<bool>) -> (r: (
        Vec<ConnectionFate>,
        u64,
        u64,
    ))
        requires
            old(self).wf(),
            old(self).coordinator.state == ShutdownState::ShutdownRequested,
            hook_outcomes@.len() == old(self).hooks.hooks@.len(),
            forall|i: int|
                0 <= i < old(self).hooks.hooks@.len() ==> old(self).hooks.hooks@[i]
                    == HookState::Pending,
            old(self).hooks.hooks@.len() <= u64::MAX,
        ensures
            final(self).wf(),
            final(self).coordinator.state == ShutdownState::Terminated,
            final(self).coordinator.grace_period_ms == old(self).coordinator.grace_period_ms,
            final(self).limiter == old(self).limiter,
            r.0@.len() == remaining_ms@.len(),
            forall|i: int|
                0 <= i < remaining_ms@.len() ==> r.0@[i] == spec_fate(
                    remaining_ms@[i],
                    old(self).coordinator.grace_period_ms,
                ),
            r.1 == spec_drain_duration(remaining_ms@, old(self).coordinator.grace_period_ms),
            r.1 <= old(self).coordinator.grace_period_ms,
            r.2 == spec_count_failures(hook_outcomes@),
            final(self).hooks.hooks@.len() == old(self).hooks.hooks@.len(),
            forall|i: int|
                0 <= i < final(self).hooks.hooks@.len() ==> final(self).hooks.hooks@[i]
                    == (HookState::Ran { failed: hook_outcomes@[i] }),
    {
        self.coordinator.begin_drain();
        let fates = self.coordinator.drain_fates(remaining_ms);
        let duration = self.coordinator.drain_duration(remaining_ms);
        let failures = self.hooks.run_all(hook_outcomes);
        self.coordinator.terminate();
        (fates, duration, failures)
    }
}

/// Law: once shutdown was requested, the accept loop only ever stops.  In
/// every lifecycle phase other than Running, whatever the limiter state,
/// the accept decision is Stop — no new connection is accepted.
pub proof fn lemma_stop_after_shutdown(st: ShutdownState, lim: ConnectionLimiter)
    requires
        st != ShutdownState::Running,
    ensures
        spec_accept_action(st, lim) == AcceptAction::Stop,
{
}

/// Law: backpressure at the limit.  While the server runs at capacity the
/// accept decision is Delay, and after one connection closes the decision
/// becomes Accept (for a positive limit): a delayed accept resolves only
/// once an existing connection closes, and then it does.
pub proof fn lemma_backpressure_resolves_on_close(lim: ConnectionLimiter)
    requires
        lim.wf(),
        lim.in_flight == lim.limit,
    ensures
        spec_accept_action(ShutdownState::Running, lim) == AcceptAction::Delay,
        lim.limit > 0 ==> spec_accept_action(
            ShutdownState::Running,
            ConnectionLimiter { limit: lim.limit, in_flight: (lim.in_flight - 1) as usize },
        ) == AcceptAction::Accept,
{
}

/// Law: the accept loop alone never breaks the connection limit.  An
/// accept step from a well-formed state leaves the counter at or below the
/// limit, whichever action it takes.
pub proof fn lemma_accept_preserves_limit(st: ShutdownState, lim: ConnectionLimiter)
    requires
        lim.wf(),
    ensures
        spec_accept_action(st, lim) == AcceptAction::Accept ==> lim.in_flight + 1 <= lim.limit,
{
}

} // verus!
