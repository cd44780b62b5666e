use witchcraft_server::server::AcceptAction;
use witchcraft_server::server::ConnectionEnd;
use witchcraft_server::server::ServerConfig;
use witchcraft_server::server::ServerCore;
use witchcraft_server::server::TlsConfig;
use witchcraft_server::shutdown::ConnectionFate;
use witchcraft_server::shutdown::HookState;
use witchcraft_server::shutdown::ShutdownState;

fn config(limit: usize) -> ServerConfig {
    ServerConfig {
        connection_limit: limit,
        grace_period_ms: 10_000,
        idle_timeout_ms: 2_000,
        endpoints: vec![1, 2, 3],
        server_header: b"witchcraft-server".to_vec(),
        tls: TlsConfig::Disabled,
    }
}

fn started(limit: usize) -> ServerCore {
    ServerCore::start(config(limit)).expect("the test configuration is valid")
}

#[test]
fn start_moves_routes_and_registers_abort_hook() {
    let s = started(8);
    assert_eq!(s.routes, vec![1, 2, 3]);
    assert_eq!(s.hooks.hooks, vec![HookState::Pending]);
    assert_eq!(s.limiter.limit, 8);
    assert_eq!(s.limiter.in_flight, 0);
    assert_eq!(s.coordinator.state, ShutdownState::Running);
    assert_eq!(s.coordinator.grace_period_ms, 10_000);
    assert_eq!(s.idle_timeout_ms, 2_000);
}

#[test]
fn accept_loop_with_limit_one_delays_until_close() {
    // Limit = 1: connection A is accepted, B's accept is delayed; only
    // after A closes does B's accept resolve.
    let mut s = started(1);
    assert_eq!(s.accept_step(), AcceptAction::Accept); // A
    assert_eq!(s.accept_step(), AcceptAction::Delay); // B must wait
    assert_eq!(s.accept_step(), AcceptAction::Delay); // still waiting
    s.connection_closed(); // A closes
    assert_eq!(s.accept_step(), AcceptAction::Accept); // B proceeds
    assert!(s.limiter.in_flight <= s.limiter.limit);
}

#[test]
fn accept_loop_stops_for_good_after_shutdown_signal() {
    let mut s = started(4);
    assert_eq!(s.accept_step(), AcceptAction::Accept);
    s.signal_shutdown();
    assert_eq!(s.coordinator.state, ShutdownState::ShutdownRequested);
    assert_eq!(s.accept_step(), AcceptAction::Stop);
    // A connection closing after the signal frees its slot but never
    // re-opens acceptance.
    s.connection_closed();
    assert_eq!(s.accept_step(), AcceptAction::Stop);
}

#[test]
fn connection_errors_stay_isolated_and_free_their_slot() {
    let mut s = started(2);
    assert_eq!(s.accept_step(), AcceptAction::Accept);
    assert_eq!(s.accept_step(), AcceptAction::Accept);
    // A handshake failure on one connection: diagnostic only, slot freed,
    // lifecycle and the other connection untouched.
    let diagnostic = s.connection_ended(ConnectionEnd::HandshakeFailed);
    assert!(diagnostic);
    assert_eq!(s.limiter.in_flight, 1);
    assert_eq!(s.coordinator.state, ShutdownState::Running);
    assert_eq!(s.accept_step(), AcceptAction::Accept);
    // A normal completion is not even diagnostic.
    let diagnostic = s.connection_ended(ConnectionEnd::Completed);
    assert!(!diagnostic);
    assert!(s.connection_ended(ConnectionEnd::IoError));
    assert_eq!(s.limiter.in_flight, 0);
}

#[test]
fn full_shutdown_sequence_drains_runs_hooks_and_terminates() {
    let mut s = started(4);
    assert_eq!(s.accept_step(), AcceptAction::Accept);
    assert_eq!(s.accept_step(), AcceptAction::Accept);
    s.signal_shutdown();
    // Two in-flight connections: one finishes in 4s (inside the 10s
    // grace), one needs 12s and is forcibly aborted at the deadline.
    let remaining = vec![4_000u64, 12_000];
    let hook_outcomes = vec![true]; // the lone hook fails; shutdown goes on
    let (fates, duration, failures) = s.run_shutdown(&remaining, &hook_outcomes);
    assert_eq!(
        fates,
        vec![
            ConnectionFate::CompletedNormally { at_ms: 4_000 },
            ConnectionFate::ForciblyAborted { at_ms: 10_000 },
        ]
    );
    assert_eq!(duration, 10_000);
    assert_eq!(failures, 1);
    assert_eq!(s.coordinator.state, ShutdownState::Terminated);
    assert_eq!(s.hooks.hooks, vec![HookState::Ran { failed: true }]);
}

#[test]
fn counter_never_exceeds_limit_across_a_busy_schedule() {
    let mut s = started(2);
    let mut accepted: u32 = 0;
    for step in 0..20 {
        match s.accept_step() {
            AcceptAction::Accept => accepted += 1,
            AcceptAction::Delay => {
                if s.limiter.in_flight > 0 {
                    s.connection_closed();
                }
            }
            AcceptAction::Stop => unreachable!(),
        }
        assert!(s.limiter.in_flight <= s.limiter.limit);
        if step == 15 {
            while s.limiter.in_flight > 0 {
                s.connection_closed();
            }
        }
    }
    assert!(accepted > 0);
}
