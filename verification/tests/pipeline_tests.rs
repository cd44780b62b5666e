use witchcraft_server::pipeline::Layer;
use witchcraft_server::pipeline::Pipeline;
use witchcraft_server::pipeline::PipelineBuilder;
use witchcraft_server::pipeline::PipelineEvent;
use witchcraft_server::pipeline::accept_pipeline;
use witchcraft_server::pipeline::connection_pipeline;
use witchcraft_server::pipeline::request_pipeline;

fn trace(p: &Pipeline) -> Vec<PipelineEvent> {
    p.execution_trace()
}

#[test]
fn onion_order_inbound_declared_outbound_reversed() {
    // Instrumented pipeline of three layers: the recorded events must be
    // inbound in declaration order, then the handler, then outbound in
    // exactly reversed order.
    let p = PipelineBuilder::new()
        .layer(Layer::Routing)
        .layer(Layer::RequestLog)
        .layer(Layer::CatchUnwind)
        .service();
    let t = trace(&p);
    assert_eq!(
        t,
        vec![
            PipelineEvent::Enter(Layer::Routing),
            PipelineEvent::Enter(Layer::RequestLog),
            PipelineEvent::Enter(Layer::CatchUnwind),
            PipelineEvent::Handle,
            PipelineEvent::Exit(Layer::CatchUnwind),
            PipelineEvent::Exit(Layer::RequestLog),
            PipelineEvent::Exit(Layer::Routing),
        ]
    );
}

#[test]
fn empty_pipeline_runs_only_the_handler() {
    let p = PipelineBuilder::new().service();
    assert_eq!(trace(&p), vec![PipelineEvent::Handle]);
}

#[test]
fn routing_enters_first_and_only_once() {
    let p = request_pipeline();
    let t = trace(&p);
    assert_eq!(t[0], PipelineEvent::Enter(Layer::Routing));
    let routing_enters = t
        .iter()
        .filter(|e| **e == PipelineEvent::Enter(Layer::Routing))
        .count();
    assert_eq!(routing_enters, 1);
}

#[test]
fn safety_net_is_innermost_in_request_pipeline() {
    let p = request_pipeline();
    let t = trace(&p);
    let n = p.len();
    // The last layer entered before the handler, and the first exited
    // after it, is the panic/error safety net.
    assert_eq!(t[n - 1], PipelineEvent::Enter(Layer::CatchUnwind));
    assert_eq!(t[n], PipelineEvent::Handle);
    assert_eq!(t[n + 1], PipelineEvent::Exit(Layer::CatchUnwind));
}

#[test]
fn request_pipeline_declaration_order() {
    let p = request_pipeline();
    let t = trace(&p);
    assert_eq!(p.len(), 22);
    assert_eq!(t.len(), 45);
    assert_eq!(t[1], PipelineEvent::Enter(Layer::RequestId));
    assert_eq!(t[2], PipelineEvent::Enter(Layer::TracePropagation));
    assert_eq!(t[9], PipelineEvent::Enter(Layer::Cancellation));
    assert_eq!(t[44], PipelineEvent::Exit(Layer::Routing));
}

#[test]
fn connection_pipeline_declaration_order() {
    let p = connection_pipeline();
    let t = trace(&p);
    assert_eq!(p.len(), 6);
    assert_eq!(t[0], PipelineEvent::Enter(Layer::PeerAddr));
    assert_eq!(t[1], PipelineEvent::Enter(Layer::Tls));
    assert_eq!(t[5], PipelineEvent::Enter(Layer::IdleConnection));
    assert_eq!(t[6], PipelineEvent::Handle);
    assert_eq!(t[12], PipelineEvent::Exit(Layer::PeerAddr));
}

#[test]
fn over_limit_rejection_short_circuits_without_reaching_the_handler() {
    // The connection-limit layer (outermost in the accept pipeline)
    // rejects without delegating: nothing inside it runs, the handler
    // included, and the rejection leaves through the layers already
    // entered, in reverse.
    let p = accept_pipeline();
    let t = p.short_circuit_trace(0);
    assert_eq!(
        t,
        vec![
            PipelineEvent::Enter(Layer::ConnectionLimit),
            PipelineEvent::Exit(Layer::ConnectionLimit),
        ]
    );
    assert!(!t.contains(&PipelineEvent::Handle));
}

#[test]
fn mid_pipeline_short_circuit_unwinds_in_reverse() {
    let p = PipelineBuilder::new()
        .layer(Layer::Routing)
        .layer(Layer::Cancellation)
        .layer(Layer::CatchUnwind)
        .service();
    let t = p.short_circuit_trace(1);
    assert_eq!(
        t,
        vec![
            PipelineEvent::Enter(Layer::Routing),
            PipelineEvent::Enter(Layer::Cancellation),
            PipelineEvent::Exit(Layer::Cancellation),
            PipelineEvent::Exit(Layer::Routing),
        ]
    );
}

#[test]
fn connection_limit_is_outermost_in_accept_pipeline() {
    let p = accept_pipeline();
    let t = trace(&p);
    assert_eq!(t[0], PipelineEvent::Enter(Layer::ConnectionLimit));
    assert_eq!(
        t,
        vec![
            PipelineEvent::Enter(Layer::ConnectionLimit),
            PipelineEvent::Enter(Layer::ConnectionMetrics),
            PipelineEvent::Handle,
            PipelineEvent::Exit(Layer::ConnectionMetrics),
            PipelineEvent::Exit(Layer::ConnectionLimit),
        ]
    );
}
