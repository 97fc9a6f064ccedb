use tracekit::http::{
    FailureClass, Header, HttpRequest, HttpResponse, MakeSpan, OnFailure, OnRequest, OnResponse,
    lower_str, record_headers,
};
use tracekit::span::{AttrValue, ErrorKind, Span};
use tracekit::Severity;

fn header(name: &str, value: &str) -> Header {
    Header { name: String::from(name), value: String::from(value) }
}

fn request_with_headers(headers: Vec<Header>) -> HttpRequest {
    HttpRequest {
        method: String::from("GET"),
        path: String::from("/api/users"),
        scheme: String::from("https"),
        query: String::from("page=2"),
        version: String::from("HTTP/1.1"),
        headers,
    }
}

/// Last write wins: the value of the final attribute entry under `key`.
fn attr_of(span: &Span, key: &str) -> Option<AttrValue> {
    let mut found = None;
    for (k, v) in span.attrs.iter() {
        if k == key {
            found = Some(v.clone());
        }
    }
    found
}

#[test]
fn make_span_joins_inbound_trace() {
    let request = request_with_headers(vec![header(
        "traceparent",
        "00-0af7651916cd43dd8448eb211c80319c-b7ad6b7169203331-01",
    )]);
    let span = MakeSpan.make_span(&request);
    assert_eq!(span.trace_id, 0x0af7651916cd43dd8448eb211c80319cu128);
    assert_eq!(span.parent_span_id, Some(0xb7ad6b7169203331u64));
    assert_eq!(span.name, "request");
    assert!(span.is_open);
}

#[test]
fn make_span_malformed_header_starts_new_trace() {
    let request = request_with_headers(vec![header("traceparent", "00-bogus-bogus-01")]);
    let span = MakeSpan.make_span(&request);
    assert_eq!(span.parent_span_id, None);
    assert_ne!(span.trace_id, 0x0af7651916cd43dd8448eb211c80319cu128);
}

#[test]
fn make_span_records_request_metadata() {
    let request = request_with_headers(vec![
        header("User-Agent", "curl/8.0"),
        header("X-Custom-Header", "yes"),
    ]);
    let span = MakeSpan.make_span(&request);
    assert_eq!(attr_of(&span, "span.kind"), Some(AttrValue::Text(String::from("server"))));
    assert_eq!(
        attr_of(&span, "http.request.method"),
        Some(AttrValue::Text(String::from("GET")))
    );
    assert_eq!(attr_of(&span, "uri.path"), Some(AttrValue::Text(String::from("/api/users"))));
    assert_eq!(attr_of(&span, "uri.scheme"), Some(AttrValue::Text(String::from("https"))));
    assert_eq!(attr_of(&span, "uri.query"), Some(AttrValue::Text(String::from("page=2"))));
    assert_eq!(
        attr_of(&span, "network.protocol.version"),
        Some(AttrValue::Text(String::from("HTTP/1.1")))
    );
    assert_eq!(
        attr_of(&span, "user_agent.original"),
        Some(AttrValue::Text(String::from("curl/8.0")))
    );
    // every header is mirrored under a per-direction key, lowercased
    assert_eq!(
        attr_of(&span, "http.request.header.x-custom-header"),
        Some(AttrValue::Text(String::from("yes")))
    );
    assert_eq!(
        attr_of(&span, "http.request.header.user-agent"),
        Some(AttrValue::Text(String::from("curl/8.0")))
    );
    // a fresh random correlation id is always recorded
    match attr_of(&span, "id") {
        Some(AttrValue::Text(id)) => assert_eq!(id.len(), 36),
        other => panic!("expected a text id attribute, got {:?}", other),
    }
}

#[test]
fn fresh_request_ids_differ() {
    let a = tracekit::ids::fresh_request_id();
    let b = tracekit::ids::fresh_request_id();
    assert_eq!(a.len(), 36);
    assert_eq!(b.len(), 36);
    assert_ne!(a, b);
}

#[test]
fn lower_str_lowercases_ascii() {
    assert_eq!(lower_str("X-Custom-HEADER"), "x-custom-header");
    assert_eq!(lower_str("already-lower"), "already-lower");
    assert_eq!(lower_str(""), "");
}

#[test]
fn record_headers_uses_direction_and_lowercase() {
    let mut span = Span::new_root(String::from("request"), 1, 2);
    let headers = vec![header("Content-Type", "application/json")];
    record_headers("response", &headers, &mut span);
    assert_eq!(
        attr_of(&span, "http.response.header.content-type"),
        Some(AttrValue::Text(String::from("application/json")))
    );
}

#[test]
fn record_headers_last_write_wins() {
    let mut span = Span::new_root(String::from("request"), 1, 2);
    let headers = vec![header("X-Thing", "first"), header("x-thing", "second")];
    record_headers("request", &headers, &mut span);
    assert_eq!(
        attr_of(&span, "http.request.header.x-thing"),
        Some(AttrValue::Text(String::from("second")))
    );
}

#[test]
fn on_request_records_started_event() {
    let mut span = Span::new_root(String::from("request"), 1, 2);
    OnRequest.on_request(&mut span);
    assert_eq!(span.events.len(), 1);
    assert_eq!(span.events[0].message, "started processing request");
    assert_eq!(span.events[0].level, Severity::Info);
    assert_eq!(span.attrs.len(), 0);
}

#[test]
fn on_response_records_status_and_headers() {
    let mut span = Span::new_root(String::from("request"), 1, 2);
    let response = HttpResponse { status: 200, headers: vec![header("Content-Length", "42")] };
    OnResponse.on_response(&response, &mut span);
    assert_eq!(attr_of(&span, "http.response.status"), Some(AttrValue::Integer(200)));
    assert_eq!(
        attr_of(&span, "http.response.header.content-length"),
        Some(AttrValue::Text(String::from("42")))
    );
    assert_eq!(span.events.len(), 1);
    assert_eq!(span.events[0].message, "finished processing request");
    assert!(span.error.is_none());
}

#[test]
fn on_failure_classifies_client_error() {
    let mut span = Span::new_root(String::from("request"), 1, 2);
    OnFailure.on_failure(&FailureClass::StatusCode(404), &mut span);
    assert_eq!(span.error, Some(ErrorKind::ClientError));
    assert_eq!(attr_of(&span, "error"), Some(AttrValue::Boolean(true)));
    assert_eq!(
        attr_of(&span, "error.type"),
        Some(AttrValue::Text(String::from("client_error")))
    );
}

#[test]
fn on_failure_classifies_server_error() {
    let mut span = Span::new_root(String::from("request"), 1, 2);
    OnFailure.on_failure(&FailureClass::StatusCode(503), &mut span);
    assert_eq!(span.error, Some(ErrorKind::ServerError));
    assert_eq!(
        attr_of(&span, "error.type"),
        Some(AttrValue::Text(String::from("server_error")))
    );
}

#[test]
fn on_failure_classifies_internal_error() {
    let mut span = Span::new_root(String::from("request"), 1, 2);
    OnFailure.on_failure(&FailureClass::Error(String::from("connection reset")), &mut span);
    assert_eq!(span.error, Some(ErrorKind::InternalError));
    assert_eq!(
        attr_of(&span, "error.type"),
        Some(AttrValue::Text(String::from("internal_error")))
    );
}

#[test]
fn on_failure_never_overwrites_earlier_error() {
    let mut span = Span::new_root(String::from("request"), 1, 2);
    span.set_error(ErrorKind::Graphql);
    let attrs_before = span.attrs.clone();
    OnFailure.on_failure(&FailureClass::StatusCode(500), &mut span);
    // first writer wins: the nested classification stays
    assert_eq!(span.error, Some(ErrorKind::Graphql));
    assert_eq!(span.attrs, attrs_before);
    assert_eq!(
        attr_of(&span, "error.type"),
        Some(AttrValue::Text(String::from("graphql")))
    );
}
