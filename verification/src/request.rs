//! The panic/error safety net around handler dispatch.
//!
//! The innermost layer of the request pipeline wraps only the handler
//! invocation: a handler that returns an error or panics is caught there,
//! logged, and translated into a well-formed structured error response.
//! The failure never unwinds past the metrics, logging and policy layers —
//! they still observe the outcome — and never ends the owning connection:
//! the connection stays reusable for subsequent requests.

use vstd::prelude::*;

verus! {

/// How one handler invocation ended.
#[derive(Clone, Copy, PartialEq, Eq, Structural, Debug)]
pub enum HandlerOutcome {
    /// The handler produced a response with this status.
    Success { status: u16 },
    /// The handler returned an error carrying this status.
    Failure { error_status: u16 },
    /// The handler panicked.
    Panicked,
}

/// The response the safety net hands outward for one request.
#[derive(Clone, Copy, PartialEq, Eq, Structural, Debug)]
pub struct Response {
    /// The HTTP status code.
    pub status: u16,
    /// Whether the body is a structured error document.
    pub structured_error: bool,
}

/// A well-formed response: its status is a valid HTTP status code.
pub open spec fn spec_wf_response(r: Response) -> bool {
    100 <= r.status < 600
}

/// A well-formed handler outcome: a success carries a valid status, and an
/// error carries a client- or server-error status.
pub open spec fn spec_wf_outcome(o: HandlerOutcome) -> bool {
    match o {
        HandlerOutcome::Success { status } => 100 <= status < 600,
        HandlerOutcome::Failure { error_status } => 400 <= error_status < 600,
        HandlerOutcome::Panicked => true,
    }
}

/// What the safety net returns for one handler outcome: a success passes
/// through; a returned error becomes a structured error response with the
/// error's status; a panic becomes a structured server-error response.
pub open spec fn spec_safety_net(o: HandlerOutcome) -> Response {
    match o {
        HandlerOutcome::Success { status } => Response { status, structured_error: false },
        HandlerOutcome::Failure { error_status } => Response {
            status: error_status,
            structured_error: true,
        },
        HandlerOutcome::Panicked => Response { status: 500, structured_error: true },
    }
}

/// Whether the connection stays open for further requests after this
/// outcome: the safety net itself never closes the connection — a caught
/// error or panic leaves keep-alive unaffected.
pub open spec fn spec_keeps_connection(o: HandlerOutcome) -> bool {
    true
}

/// The responses a connection's requests receive, one per handler outcome,
/// each the safety net's translation of its own outcome alone.
pub open spec fn spec_serve(outcomes: Seq<HandlerOutcome>) -> Seq<Response> {
    outcomes.map(|i: int, o: HandlerOutcome| spec_safety_net(o))
}

/// Catches one handler outcome and shapes the response: errors and panics
/// are converted, never propagated, and the result is always well-formed.
pub fn safety_net(o: HandlerOutcome) -> (r: Response)
    requires
        spec_wf_outcome(o),
    ensures
        r == spec_safety_net(o),
        spec_wf_response(r),
        spec_keeps_connection(o),
    {
    match o {
        HandlerOutcome::Success { status } => Response { status, structured_error: false },
        HandlerOutcome::Failure { error_status } => Response {
            status: error_status,
            structured_error: true,
        },
        HandlerOutcome::Panicked => Response { status: 500, structured_error: true },
    }
}

/// Serves a whole connection: each request's outcome passes through the
/// safety net independently, so every request gets a well-formed response
/// and no failure on one request affects any other request on the same
/// connection.
pub fn serve_connection(outcomes: &Vec<HandlerOutcome>) -> (rs: Vec<Response>)
    requires
        forall|i: int| 0 <= i < outcomes@.len() ==> spec_wf_outcome(outcomes@[i]),
    ensures
        rs@ =~= spec_serve(outcomes@),
        forall|i: int| 0 <= i < rs@.len() ==> spec_wf_response(#[trigger] rs@[i]),
{
    let n = outcomes.len();
    let mut rs: Vec<Response> = Vec::new();
    let mut i: usize = 0;
    while i < n
        invariant
            i <= n,
            n == outcomes@.len(),
            forall|j: int| 0 <= j < n ==> spec_wf_outcome(outcomes@[j]),
            rs@.len() == i,
            forall|j: int| 0 <= j < i ==> #[trigger] rs@[j] == spec_safety_net(outcomes@[j]),
            forall|j: int| 0 <= j < i ==> spec_wf_response(#[trigger] rs@[j]),
        decreases n - i,
    {
        let r = safety_net(outcomes[i]);
        rs.push(r);
        i = i + 1;
    }
    rs
}

/// Law: panic/error containment.  A panicking handler yields a well-formed
/// server-error structured response on its own request, and every other
/// request on the same connection receives exactly the response its own
/// outcome would have received anyway — keep-alive is unaffected.
pub proof fn lemma_panic_containment(outcomes: Seq<HandlerOutcome>, i: int)
    requires
        0 <= i < outcomes.len(),
        outcomes[i] == HandlerOutcome::Panicked,
    ensures
        spec_serve(outcomes)[i] == (Response { status: 500, structured_error: true }),
        spec_wf_response(spec_serve(outcomes)[i]),
        500 <= spec_serve(outcomes)[i].status < 600,
        forall|j: int|
            0 <= j < outcomes.len() ==> #[trigger] spec_serve(outcomes)[j]
                == spec_safety_net(outcomes[j]),
        spec_keeps_connection(outcomes[i]),
{
}

/// Law: the safety net never lets a failure escape.  For every well-formed
/// outcome the shaped response is well-formed, and an error or panic always
/// comes back as a structured error document.
pub proof fn lemma_safety_net_total(o: HandlerOutcome)
    requires
        spec_wf_outcome(o),
    ensures
        spec_wf_response(spec_safety_net(o)),
        !(o matches HandlerOutcome::Success { .. }) ==> spec_safety_net(o).structured_error,
        o matches HandlerOutcome::Panicked ==> 500 <= spec_safety_net(o).status < 600,
{
}

} // verus!
