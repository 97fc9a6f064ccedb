//! End-to-end flows across the span factory, the pipeline hooks and the
//! exporter.

use tracekit::export::{BatchExporter, OtelConfig, Protocol, Resource};
use tracekit::graphql::{Document, GraphQL, Operation, OperationKind, ResolveInfo};
use tracekit::http::{Header, HttpRequest, HttpResponse, MakeSpan, OnRequest, OnResponse};

#[test]
fn traced_request_spans_one_inbound_trace() {
    let request = HttpRequest {
        method: String::from("POST"),
        path: String::from("/graphql"),
        scheme: String::from("https"),
        query: String::new(),
        version: String::from("HTTP/1.1"),
        headers: vec![Header {
            name: String::from("traceparent"),
            value: String::from("00-4bf92f3577b34da6a3ce929d0e0e4736-00f067aa0ba902b7-01"),
        }],
    };
    let mut root = MakeSpan.make_span(&request);
    OnRequest.on_request(&mut root);
    assert_eq!(root.trace_id, 0x4bf92f3577b34da6a3ce929d0e0e4736u128);
    assert_eq!(root.parent_span_id, Some(0x00f067aa0ba902b7u64));

    // every phase span lives in the same trace, nested by creation
    let extension = GraphQL.create();
    let parse = extension.parse_span(&root);
    let validation = extension.validation_span(&root);
    let execute = extension.execute_span(&root, Some(&String::from("GetUser")));
    let resolve = extension
        .resolve_span(
            &execute,
            &ResolveInfo {
                path: String::from("user"),
                parent_type: String::from("Query"),
                return_type: String::from("User"),
            },
        )
        .expect("a resolve span is owed outside the introspection subtree");
    for child in [&parse, &validation, &execute] {
        assert_eq!(child.trace_id, root.trace_id);
        assert_eq!(child.parent_span_id, Some(root.span_id));
    }
    assert_eq!(resolve.trace_id, root.trace_id);
    assert_eq!(resolve.parent_span_id, Some(execute.span_id));

    let response = HttpResponse { status: 200, headers: vec![] };
    OnResponse.on_response(&response, &mut root);
    assert!(root.error.is_none());
}

#[test]
fn introspection_query_is_redacted_and_unspanned() {
    let extension = GraphQL.create();
    let request = HttpRequest {
        method: String::from("POST"),
        path: String::from("/graphql"),
        scheme: String::from("https"),
        query: String::new(),
        version: String::from("HTTP/1.1"),
        headers: vec![],
    };
    let root = MakeSpan.make_span(&request);
    let mut parse = extension.parse_span(&root);
    let doc = Document {
        operations: vec![Operation {
            kind: OperationKind::Query,
            root_fields: vec![String::from("__schema")],
        }],
    };
    extension.record_parse_result(
        &mut parse,
        &doc,
        &String::from("{ __schema { types { name } } }"),
    );
    assert!(parse.attrs.iter().all(|(k, _)| k != "graphql.document"));

    // zero resolve spans for any field under __schema
    for path in ["__schema", "__schema.types", "__schema.types.name"] {
        let info = ResolveInfo {
            path: String::from(path),
            parent_type: String::from("__Schema"),
            return_type: String::from("__Type"),
        };
        assert!(extension.resolve_span(&root, &info).is_none());
    }
}

#[test]
fn closed_spans_flow_into_batches() {
    let request = HttpRequest {
        method: String::from("GET"),
        path: String::from("/health"),
        scheme: String::from("http"),
        query: String::new(),
        version: String::from("HTTP/1.1"),
        headers: vec![],
    };
    let resource = Resource::from_detectors(&vec![vec![(
        String::from("service.name"),
        String::from("api"),
    )]]);
    let config = OtelConfig { url: String::from("http://collector:4317"), protocol: Protocol::Grpc };
    let mut exporter = BatchExporter::new(config, resource, 2);
    let mut first = MakeSpan.make_span(&request);
    let mut second = MakeSpan.make_span(&request);
    first.close();
    second.close();
    exporter.enqueue(first);
    exporter.enqueue(second);
    assert_eq!(exporter.flushed.len(), 1);
    assert_eq!(exporter.flushed[0].spans.len(), 2);
    assert_eq!(exporter.buffer.len(), 0);
    assert!(exporter.flushed[0].spans.iter().all(|s| !s.is_open));
}
