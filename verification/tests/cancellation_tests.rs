use witchcraft_server::cancellation::CancellationToken;
use witchcraft_server::cancellation::RequestEnd;
use witchcraft_server::cancellation::run_cancellable;

#[test]
fn token_starts_unset_and_stays_set_once_raised() {
    let mut t = CancellationToken::new();
    assert!(!t.is_cancelled());
    t.cancel();
    assert!(t.is_cancelled());
    t.cancel();
    assert!(t.is_cancelled());
}

#[test]
fn connection_lost_mid_request_cancels_at_next_poll() {
    // The connection is lost after 3 completed steps of a 10-step
    // handler: the signal is observed at poll 3 — within one polling
    // interval — and the task ends holding no resources.
    let (end, held) = run_cancellable(10, Some(3));
    assert_eq!(end, RequestEnd::Cancelled { at_poll: 3 });
    assert_eq!(held, 0);
}

#[test]
fn connection_lost_immediately_cancels_before_any_work() {
    let (end, held) = run_cancellable(10, Some(0));
    assert_eq!(end, RequestEnd::Cancelled { at_poll: 0 });
    assert_eq!(held, 0);
}

#[test]
fn live_connection_never_cancels() {
    let (end, held) = run_cancellable(10, None);
    assert_eq!(end, RequestEnd::Completed { polls: 10 });
    assert_eq!(held, 0);
}

#[test]
fn connection_outliving_the_handler_never_cancels() {
    let (end, held) = run_cancellable(10, Some(10));
    assert_eq!(end, RequestEnd::Completed { polls: 10 });
    assert_eq!(held, 0);
}

#[test]
fn zero_step_handler_completes_even_if_connection_closes() {
    let (end, held) = run_cancellable(0, Some(0));
    assert_eq!(end, RequestEnd::Completed { polls: 0 });
    assert_eq!(held, 0);
}
