use tracekit::export::{BatchExporter, OtelConfig, Protocol, Resource};
use tracekit::span::Span;
use tracekit::{config, Severity};

fn pair(k: &str, v: &str) -> (String, String) {
    (String::from(k), String::from(v))
}

fn closed_span(span_id: u64) -> Span {
    let mut s = Span::new_root(String::from("request"), 1, span_id);
    s.close();
    s
}

fn service_resource() -> Resource {
    Resource::from_detectors(&vec![
        vec![pair("service.name", "api")],
        vec![pair("os.type", "linux"), pair("process.pid", "4242")],
    ])
}

#[test]
fn resource_merge_keeps_priority_order() {
    let resource = Resource::from_detectors(&vec![
        vec![pair("service.name", "api")],
        vec![pair("service.name", "fallback"), pair("os.type", "linux")],
    ]);
    // every entry is kept, highest-priority detector first, so on a key
    // collision the first-registered entry is the one the mapping keeps
    assert_eq!(resource.attrs.len(), 3);
    assert_eq!(resource.attrs[0], pair("service.name", "api"));
    assert_eq!(resource.attrs[1], pair("service.name", "fallback"));
    assert_eq!(resource.attrs[2], pair("os.type", "linux"));
}

#[test]
fn resource_lookup_first_wins() {
    let resource = Resource::from_detectors(&vec![
        vec![pair("service.name", "api")],
        vec![pair("service.name", "fallback"), pair("os.type", "linux")],
    ]);
    assert_eq!(resource.lookup(&String::from("service.name")), Some(&String::from("api")));
    assert_eq!(resource.lookup(&String::from("os.type")), Some(&String::from("linux")));
    assert_eq!(resource.lookup(&String::from("host.name")), None);
}

#[test]
fn batching_flushes_at_threshold() {
    let config = OtelConfig { url: String::from("http://collector:4317"), protocol: Protocol::Grpc };
    let mut exporter = BatchExporter::new(config, service_resource(), 100);
    for i in 0..150u64 {
        exporter.enqueue(closed_span(i));
    }
    // the size threshold flushed exactly one full batch, without blocking
    assert_eq!(exporter.flushed.len(), 1);
    assert_eq!(exporter.flushed[0].spans.len(), 100);
    assert_eq!(exporter.buffer.len(), 50);

    // the shutdown flush ships the remainder
    exporter.flush();
    assert_eq!(exporter.flushed.len(), 2);
    assert_eq!(exporter.flushed[1].spans.len(), 50);
    assert_eq!(exporter.buffer.len(), 0);

    // both batches carry identical resource attributes
    assert_eq!(exporter.flushed[0].resource, exporter.flushed[1].resource);
    assert_eq!(exporter.flushed[0].resource[0], pair("service.name", "api"));

    // no span was lost, duplicated or reordered
    for (i, span) in exporter.flushed[0].spans.iter().enumerate() {
        assert_eq!(span.span_id, i as u64);
    }
    for (i, span) in exporter.flushed[1].spans.iter().enumerate() {
        assert_eq!(span.span_id, 100 + i as u64);
    }
}

#[test]
fn flush_on_empty_buffer_does_nothing() {
    let config = OtelConfig { url: String::from("http://collector:4318"), protocol: Protocol::HttpBinary };
    let mut exporter = BatchExporter::new(config, service_resource(), 10);
    exporter.flush();
    assert_eq!(exporter.flushed.len(), 0);
    exporter.enqueue(closed_span(1));
    exporter.flush();
    exporter.flush();
    assert_eq!(exporter.flushed.len(), 1);
    assert_eq!(exporter.flushed[0].spans.len(), 1);
}

#[test]
fn builder_configuration() {
    let builder = config();
    assert_eq!(builder.default_directive, Severity::Info);
    assert!(builder.opentelemetry.is_none());

    let builder = config()
        .default_directive(Severity::Debug)
        .opentelemetry(Protocol::Grpc, String::from("http://collector:4317"));
    assert_eq!(builder.default_directive, Severity::Debug);
    let otel = builder.opentelemetry.expect("exporter configured");
    assert_eq!(otel.protocol, Protocol::Grpc);
    assert_eq!(otel.url, "http://collector:4317");
}

#[test]
fn severity_directive_retention() {
    assert!(Severity::Info.retains(&Severity::Info));
    assert!(Severity::Info.retains(&Severity::Warn));
    assert!(Severity::Info.retains(&Severity::Error));
    assert!(!Severity::Info.retains(&Severity::Debug));
    assert!(!Severity::Warn.retains(&Severity::Trace));
    assert!(Severity::Trace.retains(&Severity::Debug));
}
