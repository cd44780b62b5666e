use witchcraft_server::limiter::ConnectionLimiter;

#[test]
fn active_connections_never_exceed_limit() {
    let mut l = ConnectionLimiter::new(3);
    let mut peak: usize = 0;
    // Try to over-acquire; the counter must refuse past the limit.
    for _ in 0..10 {
        l.try_acquire();
        assert!(l.in_flight <= l.limit);
        if l.in_flight > peak {
            peak = l.in_flight;
        }
    }
    assert_eq!(peak, 3);
    assert_eq!(l.in_flight, 3);
}

#[test]
fn acquire_fails_exactly_at_capacity() {
    let mut l = ConnectionLimiter::new(2);
    assert!(l.try_acquire());
    assert!(l.try_acquire());
    assert!(!l.try_acquire());
    l.release();
    assert!(l.try_acquire());
    assert!(!l.try_acquire());
}

#[test]
fn limit_one_second_accept_resolves_only_after_close() {
    // Limit = 1: connection A holds the only slot, so B's accept is
    // delayed; once A closes, B's accept succeeds.
    let mut l = ConnectionLimiter::new(1);
    let a = l.try_acquire();
    assert!(a);
    let b_first_attempt = l.try_acquire();
    assert!(!b_first_attempt);
    l.release(); // A closes.
    let b_second_attempt = l.try_acquire();
    assert!(b_second_attempt);
    assert_eq!(l.in_flight, 1);
}

#[test]
fn zero_limit_accepts_nothing() {
    let mut l = ConnectionLimiter::new(0);
    assert!(!l.try_acquire());
    assert_eq!(l.in_flight, 0);
}
