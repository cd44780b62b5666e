use witchcraft_server::request::HandlerOutcome;
use witchcraft_server::request::Response;
use witchcraft_server::request::safety_net;
use witchcraft_server::request::serve_connection;

#[test]
fn panicking_handler_yields_structured_server_error() {
    let r = safety_net(HandlerOutcome::Panicked);
    assert_eq!(r, Response { status: 500, structured_error: true });
    assert!(500 <= r.status && r.status < 600);
}

#[test]
fn handler_error_becomes_structured_error_with_its_status() {
    let r = safety_net(HandlerOutcome::Failure { error_status: 404 });
    assert_eq!(r, Response { status: 404, structured_error: true });
    let r = safety_net(HandlerOutcome::Failure { error_status: 503 });
    assert_eq!(r, Response { status: 503, structured_error: true });
}

#[test]
fn successful_handler_passes_through() {
    let r = safety_net(HandlerOutcome::Success { status: 200 });
    assert_eq!(r, Response { status: 200, structured_error: false });
    let r = safety_net(HandlerOutcome::Success { status: 204 });
    assert_eq!(r, Response { status: 204, structured_error: false });
}

#[test]
fn panic_then_follow_up_request_on_same_connection_returns_200() {
    // An unconditionally panicking endpoint: the request gets a 5xx-class
    // structured error, and a follow-up request on the same connection
    // returns 200 — keep-alive is unaffected.
    let outcomes = vec![HandlerOutcome::Panicked, HandlerOutcome::Success { status: 200 }];
    let responses = serve_connection(&outcomes);
    assert_eq!(
        responses,
        vec![
            Response { status: 500, structured_error: true },
            Response { status: 200, structured_error: false },
        ]
    );
}

#[test]
fn failures_on_one_request_leave_the_others_untouched() {
    let outcomes = vec![
        HandlerOutcome::Success { status: 201 },
        HandlerOutcome::Failure { error_status: 429 },
        HandlerOutcome::Panicked,
        HandlerOutcome::Success { status: 200 },
    ];
    let responses = serve_connection(&outcomes);
    assert_eq!(
        responses,
        vec![
            Response { status: 201, structured_error: false },
            Response { status: 429, structured_error: true },
            Response { status: 500, structured_error: true },
            Response { status: 200, structured_error: false },
        ]
    );
}
