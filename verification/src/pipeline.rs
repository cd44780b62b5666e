//! The middleware engine: ordered, bidirectional interception.
//!
//! A pipeline is an immutable, ordered sequence of middleware layers
//! terminating in a base unit-of-work.  Layers are declared in a fixed order
//! and form an "onion": the first-declared layer is outermost.  On the
//! inbound path a request traverses the layers in declaration order; on the
//! outbound path (response or error propagation) it traverses them in exactly
//! reversed order, and the terminal handler runs in between.

use vstd::prelude::*;

verus! {

/// The middleware layers of the server's three pipelines.
#[derive(Clone, Copy, PartialEq, Eq, Structural, Debug)]
pub enum Layer {
    // Request pipeline, in declaration order (outermost first).
    Routing,
    RequestId,
    TracePropagation,
    Spans,
    UnverifiedJwt,
    Mdc,
    WitchcraftMdc,
    RequestLog,
    AuditLog,
    Cancellation,
    Gzip,
    DeprecationHeader,
    KeepAliveHeader,
    ServerHeader,
    NoCaching,
    WebSecurity,
    TraceIdHeader,
    ServerMetrics,
    EndpointMetrics,
    EndpointHealth,
    ErrorLog,
    CatchUnwind,
    // Connection pipeline.
    PeerAddr,
    Tls,
    TlsMetrics,
    ClientCertificate,
    GracefulShutdown,
    IdleConnection,
    // Accept pipeline.
    ConnectionLimit,
    ConnectionMetrics,
}

/// One observable step of a pipeline invocation.
#[derive(Clone, Copy, PartialEq, Eq, Structural, Debug)]
pub enum PipelineEvent {
    /// A layer saw the input on the inbound path.
    Enter(Layer),
    /// The terminal unit-of-work ran.
    Handle,
    /// A layer saw the output on the outbound path.
    Exit(Layer),
}

/// The inbound half of a pipeline's trace: every layer entered, in
/// declaration order.
pub open spec fn inbound_of(layers: Seq<Layer>) -> Seq<PipelineEvent> {
    Seq::new(layers.len(), |i: int| PipelineEvent::Enter(layers[i]))
}

/// The outbound half of a pipeline's trace: every layer exited, in the
/// exact reverse of declaration order.
pub open spec fn outbound_of(layers: Seq<Layer>) -> Seq<PipelineEvent> {
    Seq::new(layers.len(), |i: int| PipelineEvent::Exit(layers[layers.len() - 1 - i]))
}

/// The complete trace of one pipeline invocation: inbound traversal,
/// terminal handler, outbound traversal.
pub open spec fn trace_of(layers: Seq<Layer>) -> Seq<PipelineEvent> {
    inbound_of(layers) + seq![PipelineEvent::Handle] + outbound_of(layers)
}

/// The trace of an invocation that layer `k` short-circuits (it rejects
/// the input without delegating, as the connection-limit layer does over
/// the limit): layers `0..=k` are entered, the response propagates back
/// out through the same layers in reverse, and nothing inside layer `k` —
/// the terminal handler included — ever runs.
pub open spec fn short_circuit_trace_of(layers: Seq<Layer>, k: int) -> Seq<PipelineEvent> {
    Seq::new((k + 1) as nat, |i: int| PipelineEvent::Enter(layers[i]))
        + Seq::new((k + 1) as nat, |i: int| PipelineEvent::Exit(layers[k - i]))
}

/// An immutable, ordered composition of middleware terminating in a base
/// unit-of-work.  Once built, the layer order never changes: the type offers
/// no mutating method.
pub struct Pipeline {
    layers: Vec<Layer>,
}

/// Assembles a pipeline from layers registered in declaration order; the
/// first layer given is outermost.
pub struct PipelineBuilder {
    layers: Vec<Layer>,
}

impl PipelineBuilder {
    /// An empty builder: no layers declared yet.
    pub fn new() -> (b: PipelineBuilder)
        ensures
            b@ =~= Seq::<Layer>::empty(),
    {
        PipelineBuilder { layers: Vec::new() }
    }

    /// The layers declared so far, in declaration order.
    pub closed spec fn view(&self) -> Seq<Layer> {
        self.layers@
    }

    /// Declares the next layer, one step further inside the onion.
    pub fn layer(self, l: Layer) -> (b: PipelineBuilder)
        ensures
            b@ =~= self@.push(l),
    {
        let mut layers = self.layers;
        layers.push(l);
        PipelineBuilder { layers }
    }

    /// Terminates the declaration with the base unit-of-work, collapsing the
    /// sequence into one composed pipeline whose order is fixed for good.
    pub fn service(self) -> (p: Pipeline)
        ensures
            p@ =~= self@,
    {
        Pipeline { layers: self.layers }
    }
}

impl Pipeline {
    /// The layer order of the pipeline, outermost first.
    pub closed spec fn view(&self) -> Seq<Layer> {
        self.layers@
    }

    /// How many layers the pipeline holds.
    pub fn len(&self) -> (n: usize)
        ensures
            n == self@.len(),
    {
        self.layers.len()
    }

    /// The trace of one invocation of the pipeline: each layer is entered in
    /// declaration order, the terminal handler runs once, and each layer is
    /// exited in reverse declaration order.
    pub fn execution_trace(&self) -> (t: Vec<PipelineEvent>)
        ensures
            t@ =~= trace_of(self@),
    {
        let n = self.layers.len();
        let mut t: Vec<PipelineEvent> = Vec::new();
        let mut i: usize = 0;
        while i < n
            invariant
                i <= n,
                n == self@.len(),
                t@ =~= inbound_of(self@).take(i as int),
            decreases n - i,
        {
            t.push(PipelineEvent::Enter(self.layers[i]));
            i = i + 1;
        }
        t.push(PipelineEvent::Handle);
        let mut j: usize = 0;
        while j < n
            invariant
                j <= n,
                n == self@.len(),
                t@ =~= inbound_of(self@) + seq![PipelineEvent::Handle]
                    + outbound_of(self@).take(j as int),
            decreases n - j,
        {
            t.push(PipelineEvent::Exit(self.layers[n - 1 - j]));
            j = j + 1;
        }
        assert(t@ =~= trace_of(self@));
        t
    }

    /// The trace of an invocation that layer `k` short-circuits: the
    /// layers outside it still observe the rejection on the outbound path,
    /// in exactly reversed order, and the terminal handler never runs.
    pub fn short_circuit_trace(&self, k: usize) -> (t: Vec<PipelineEvent>)
        requires
            k < self@.len(),
        ensures
            t@ =~= short_circuit_trace_of(self@, k as int),
    {
        let n = self.layers.len();
        let mut t: Vec<PipelineEvent> = Vec::new();
        let mut i: usize = 0;
        while i <= k
            invariant
                i <= k + 1,
                k < n,
                n == self@.len(),
                t@ =~= Seq::new(i as nat, |j: int| PipelineEvent::Enter(self@[j])),
            decreases k + 1 - i,
        {
            t.push(PipelineEvent::Enter(self.layers[i]));
            i = i + 1;
        }
        let mut j: usize = 0;
        while j <= k
            invariant
                j <= k + 1,
                k < n,
                n == self@.len(),
                t@ =~= Seq::new((k + 1) as nat, |m: int| PipelineEvent::Enter(self@[m]))
                    + Seq::new(j as nat, |m: int| PipelineEvent::Exit(self@[k - m])),
            decreases k + 1 - j,
        {
            t.push(PipelineEvent::Exit(self.layers[k - j]));
            j = j + 1;
        }
        assert(t@ =~= short_circuit_trace_of(self@, k as int));
        t
    }
}

/// Law: a short-circuiting layer keeps the onion shape and stops the
/// descent.  When layer `k` rejects without delegating, exactly the layers
/// up to and including `k` are entered, in declaration order; they are
/// exited in exactly reversed order; and no event of the trace is the
/// terminal handler — the handler never runs.
pub proof fn lemma_short_circuit(layers: Seq<Layer>, k: int)
    requires
        0 <= k < layers.len(),
    ensures
        short_circuit_trace_of(layers, k).len() == 2 * k + 2,
        forall|i: int|
            0 <= i <= k ==> #[trigger] short_circuit_trace_of(layers, k)[i]
                == PipelineEvent::Enter(layers[i]),
        forall|i: int|
            0 <= i <= k ==> #[trigger] short_circuit_trace_of(layers, k)[k + 1 + i]
                == PipelineEvent::Exit(layers[k - i]),
        forall|i: int|
            0 <= i < short_circuit_trace_of(layers, k).len()
                ==> #[trigger] short_circuit_trace_of(layers, k)[i] != PipelineEvent::Handle,
{
    assert forall|i: int|
        0 <= i < short_circuit_trace_of(layers, k).len() implies #[trigger] short_circuit_trace_of(
        layers,
        k,
    )[i] != PipelineEvent::Handle by {
        if i <= k {
            assert(short_circuit_trace_of(layers, k)[i] == PipelineEvent::Enter(layers[i]));
        } else {
            assert(short_circuit_trace_of(layers, k)[i] == PipelineEvent::Exit(
                layers[k - (i - k - 1)],
            ));
        }
    }
}

/// Law: for every pipeline construction, middleware execute inbound in
/// declared order and outbound in exactly reversed order, with the terminal
/// handler running exactly once in between.
pub proof fn lemma_onion_order(layers: Seq<Layer>)
    ensures
        trace_of(layers).len() == 2 * layers.len() + 1,
        forall|i: int|
            0 <= i < layers.len() ==> trace_of(layers)[i] == PipelineEvent::Enter(layers[i]),
        trace_of(layers)[layers.len() as int] == PipelineEvent::Handle,
        forall|i: int|
            0 <= i < layers.len() ==> #[trigger] trace_of(layers)[layers.len() + 1 + i]
                == PipelineEvent::Exit(layers[layers.len() - 1 - i]),
{
}

/// Law: the outbound traversal visits the same layers as the inbound
/// traversal, in exactly reversed order.
pub proof fn lemma_outbound_reverses_inbound(layers: Seq<Layer>, i: int)
    requires
        0 <= i < layers.len(),
    ensures
        outbound_of(layers)[i] == PipelineEvent::Exit(layers[layers.len() - 1 - i]),
        inbound_of(layers)[layers.len() - 1 - i]
            == PipelineEvent::Enter(layers[layers.len() - 1 - i]),
{
}

/// The request pipeline's declaration order: routing outermost, so route and
/// endpoint metadata exist before any endpoint-aware layer runs; correlation
/// and tracing early, so later layers' side effects can be correlated; the
/// panic/error safety net last, so it wraps only the handler invocation.
pub open spec fn request_layer_order() -> Seq<Layer> {
    seq![
        Layer::Routing,
        Layer::RequestId,
        Layer::TracePropagation,
        Layer::Spans,
        Layer::UnverifiedJwt,
        Layer::Mdc,
        Layer::WitchcraftMdc,
        Layer::RequestLog,
        Layer::AuditLog,
        Layer::Cancellation,
        Layer::Gzip,
        Layer::DeprecationHeader,
        Layer::KeepAliveHeader,
        Layer::ServerHeader,
        Layer::NoCaching,
        Layer::WebSecurity,
        Layer::TraceIdHeader,
        Layer::ServerMetrics,
        Layer::EndpointMetrics,
        Layer::EndpointHealth,
        Layer::ErrorLog,
        Layer::CatchUnwind,
    ]
}

/// The connection pipeline's declaration order: peer-address capture, then
/// TLS termination before any layer observes plaintext, then shutdown
/// registration and idle-timeout enforcement around the protocol engine.
pub open spec fn connection_layer_order() -> Seq<Layer> {
    seq![
        Layer::PeerAddr,
        Layer::Tls,
        Layer::TlsMetrics,
        Layer::ClientCertificate,
        Layer::GracefulShutdown,
        Layer::IdleConnection,
    ]
}

/// The accept pipeline's declaration order: connection-limit enforcement
/// outermost, so backpressure gates the raw accept call itself.
pub open spec fn accept_layer_order() -> Seq<Layer> {
    seq![Layer::ConnectionLimit, Layer::ConnectionMetrics]
}

/// Builds the pipeline that handles individual HTTP requests, each running
/// concurrently.
pub fn request_pipeline() -> (p: Pipeline)
    ensures
        p@ =~= request_layer_order(),
{
    PipelineBuilder::new()
        .layer(Layer::Routing)
        .layer(Layer::RequestId)
        .layer(Layer::TracePropagation)
        .layer(Layer::Spans)
        .layer(Layer::UnverifiedJwt)
        .layer(Layer::Mdc)
        .layer(Layer::WitchcraftMdc)
        .layer(Layer::RequestLog)
        .layer(Layer::AuditLog)
        .layer(Layer::Cancellation)
        .layer(Layer::Gzip)
        .layer(Layer::DeprecationHeader)
        .layer(Layer::KeepAliveHeader)
        .layer(Layer::ServerHeader)
        .layer(Layer::NoCaching)
        .layer(Layer::WebSecurity)
        .layer(Layer::TraceIdHeader)
        .layer(Layer::ServerMetrics)
        .layer(Layer::EndpointMetrics)
        .layer(Layer::EndpointHealth)
        .layer(Layer::ErrorLog)
        .layer(Layer::CatchUnwind)
        .service()
}

/// Builds the pipeline that handles individual TCP connections, each running
/// concurrently.
pub fn connection_pipeline() -> (p: Pipeline)
    ensures
        p@ =~= connection_layer_order(),
{
    PipelineBuilder::new()
        .layer(Layer::PeerAddr)
        .layer(Layer::Tls)
        .layer(Layer::TlsMetrics)
        .layer(Layer::ClientCertificate)
        .layer(Layer::GracefulShutdown)
        .layer(Layer::IdleConnection)
        .service()
}

/// Builds the pipeline that produces accepted TCP connections, running
/// serially.
pub fn accept_pipeline() -> (p: Pipeline)
    ensures
        p@ =~= accept_layer_order(),
{
    PipelineBuilder::new()
        .layer(Layer::ConnectionLimit)
        .layer(Layer::ConnectionMetrics)
        .service()
}

/// Law: routing runs before any endpoint-specific middleware, for every
/// request: in the request pipeline's trace the routing layer is entered
/// first, before every other layer's enter event, and no other layer is the
/// routing layer, so the routing decision is made exactly once.
pub proof fn lemma_routing_first()
    ensures
        request_layer_order()[0] == Layer::Routing,
        forall|i: int|
            1 <= i < request_layer_order().len()
                ==> #[trigger] request_layer_order()[i] != Layer::Routing,
        trace_of(request_layer_order())[0] == PipelineEvent::Enter(Layer::Routing),
{
}

/// Law: the panic/error safety net is the innermost layer of the request
/// pipeline: it is the last layer entered before the terminal handler runs,
/// so no failure from handler code escapes uncaught past any other layer.
pub proof fn lemma_safety_net_innermost()
    ensures
        request_layer_order().last() == Layer::CatchUnwind,
        trace_of(request_layer_order())[request_layer_order().len() - 1]
            == PipelineEvent::Enter(Layer::CatchUnwind),
        trace_of(request_layer_order())[request_layer_order().len() as int]
            == PipelineEvent::Handle,
{
}

/// Law: connection-limit enforcement is the outermost layer of the accept
/// pipeline, so backpressure gates the raw accept call.
pub proof fn lemma_connection_limit_outermost()
    ensures
        accept_layer_order()[0] == Layer::ConnectionLimit,
        trace_of(accept_layer_order())[0] == PipelineEvent::Enter(Layer::ConnectionLimit),
{
}

} // verus!
