//! Connection- and request-processing core of an HTTP(S) server framework.
//!
//! The library models the ordered, bidirectional middleware engine and the
//! three-tier pipeline (accept, connection, request) that wires cross-cutting
//! concerns around application request handlers, together with the
//! coordination logic of the server lifecycle: connection limiting with
//! backpressure, cooperative request cancellation, idle-connection timeouts,
//! the panic/error safety net around handlers, and graceful shutdown with a
//! grace period.  The surrounding runtime (the transport, the HTTP protocol
//! engine, the task scheduler) performs the I/O and drives these decisions.

pub mod pipeline;
pub mod limiter;
pub mod shutdown;
pub mod cancellation;
pub mod idle;
pub mod request;
pub mod server;
