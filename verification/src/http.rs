//! The HTTP span factory and lifecycle hooks: one root span per inbound
//! request, annotated with request metadata, parented on an inbound
//! trace context when one is present, and finalized with an outcome
//! classification that never overwrites an earlier error.

use vstd::prelude::*;

use crate::Severity;
use crate::context::{TraceParent, extract, traceparent_of, well_formed_traceparent};
use crate::ids::{fresh_request_id, fresh_span_id, fresh_trace_id};
use crate::span::{AttrData, AttrValue, ErrorKind, LogData, LogRecord, Span};
use crate::span::same_identity;

verus! {

/// One request or response header, as plain text.
#[derive(Debug, Clone, PartialEq, Eq)]
pub struct Header {
    pub name: String,
    pub value: String,
}

/// The request metadata the span factory reads.
#[derive(Debug, Clone)]
pub struct HttpRequest {
    pub method: String,
    pub path: String,
    pub scheme: String,
    pub query: String,
    pub version: String,
    pub headers: Vec<Header>,
}

/// The response metadata the lifecycle hooks read.
#[derive(Debug, Clone)]
pub struct HttpResponse {
    pub status: u16,
    pub headers: Vec<Header>,
}

/// ASCII lowercasing of one character.
pub open spec fn lower_char(c: char) -> char {
    if 'A' <= c && c <= 'Z' {
        ((c as u32) + 32) as char
    } else {
        c
    }
}

/// ASCII lowercasing of a string.
pub open spec fn lower_seq(s: Seq<char>) -> Seq<char> {
    s.map_values(|c: char| lower_char(c))
}

/// Relies on String::push: appends one character.
#[verifier::external_body]
fn push_char(s: &mut String, c: char)
    ensures
        final(s)@ == old(s)@.push(c),
{
    s.push(c);
}

/// ASCII-lowercase a string.
pub fn lower_str(s: &str) -> (r: String)
    ensures
        r@ == lower_seq(s@),
{
    let n = s.unicode_len();
    let mut r = String::new();
    let mut i: usize = 0;
    proof {
        assert(lower_seq(s@.take(0)) =~= Seq::<char>::empty());
    }
    while i < n
        invariant
            i <= n == s@.len(),
            r@ == lower_seq(s@.take(i as int)),
        decreases n - i,
    {
        let c = s.get_char(i);
        let low = if 'A' <= c && c <= 'Z' {
            (((c as u8)) + 32) as char
        } else {
            c
        };
        push_char(&mut r, low);
        proof {
            assert(lower_seq(s@.take(i + 1)) =~= lower_seq(s@.take(i as int)).push(
                lower_char(s@[i as int]),
            ));
        }
        i = i + 1;
    }
    proof {
        assert(s@.take(n as int) =~= s@);
    }
    r
}

/// The value of the first header whose lowercased name is `name`
/// (header names compare case-insensitively), or nothing.
pub open spec fn header_lookup(headers: Seq<Header>, name: Seq<char>) -> Option<Seq<char>>
    decreases headers.len(),
{
    if headers.len() == 0 {
        None
    } else if lower_seq(headers[0].name@) == name {
        Some(headers[0].value@)
    } else {
        header_lookup(headers.drop_first(), name)
    }
}

/// Links a forward scan to `header_lookup`.
proof fn lemma_header_lookup_at(headers: Seq<Header>, name: Seq<char>, i: int)
    requires
        0 <= i <= headers.len(),
        forall|j: int| 0 <= j < i ==> lower_seq(#[trigger] headers[j].name@) != name,
        i < headers.len() ==> lower_seq(headers[i].name@) == name,
    ensures
        header_lookup(headers, name) == if i < headers.len() {
            Some(headers[i].value@)
        } else {
            None::<Seq<char>>
        },
    decreases headers.len(),
{
    if headers.len() > 0 && i > 0 {
        lemma_header_lookup_at(headers.drop_first(), name, i - 1);
    }
}

/// Find the first header whose name matches `name` case-insensitively.
pub fn header_value<'a>(headers: &'a Vec<Header>, name: &String) -> (r: Option<&'a String>)
    ensures
        match r {
            Some(v) => header_lookup(headers@, name@) == Some(v@),
            None => header_lookup(headers@, name@) is None,
        },
{
    let n = headers.len();
    let mut i: usize = 0;
    while i < n
        invariant
            i <= n == headers@.len(),
            forall|j: int| 0 <= j < i ==> lower_seq(#[trigger] headers@[j].name@) != name@,
        decreases n - i,
    {
        let low = lower_str(headers[i].name.as_str());
        if low.eq(name) {
            proof {
                lemma_header_lookup_at(headers@, name@, i as int);
            }
            return Some(&headers[i].value);
        }
        i = i + 1;
    }
    proof {
        lemma_header_lookup_at(headers@, name@, n as int);
    }
    None
}

/// Attribute key under which a header is recorded for one direction.
pub open spec fn direction_key(direction: Seq<char>, name: Seq<char>) -> Seq<char> {
    "http."@ + direction + ".header."@ + lower_seq(name)
}

/// The attribute mapping after every header of `headers` is recorded
/// on top of `m`, in order, under its per-direction key.
pub open spec fn recorded_headers(
    m: Map<Seq<char>, AttrData>,
    direction: Seq<char>,
    headers: Seq<Header>,
) -> Map<Seq<char>, AttrData>
    decreases headers.len(),
{
    if headers.len() == 0 {
        m
    } else {
        recorded_headers(m, direction, headers.drop_last()).insert(
            direction_key(direction, headers.last().name@),
            AttrData::Text(headers.last().value@),
        )
    }
}

/// Record every header on the span under a per-direction attribute key
/// with the header name lowercased, favouring observability completeness
/// over a fixed allow-list.
pub fn record_headers(direction: &str, headers: &Vec<Header>, span: &mut Span)
    requires
        old(span).is_open,
    ensures
        final(span).attr_map() == recorded_headers(old(span).attr_map(), direction@, headers@),
        same_identity(*final(span), *old(span)),
        final(span).error == old(span).error,
        final(span).events == old(span).events,
        final(span).is_open,
{
    let ghost base = old(span).attr_map();
    let n = headers.len();
    let mut i: usize = 0;
    proof {
        assert(headers@.take(0) =~= Seq::<Header>::empty());
    }
    while i < n
        invariant
            i <= n == headers@.len(),
            span.is_open,
            same_identity(*span, *old(span)),
            span.error == old(span).error,
            span.events == old(span).events,
            span.attr_map() == recorded_headers(base, direction@, headers@.take(i as int)),
        decreases n - i,
    {
        let h = &headers[i];
        let mut key = String::from_str("http.");
        key.append(direction);
        key.append(".header.");
        let low = lower_str(h.name.as_str());
        key.append(low.as_str());
        proof {
            assert(key@ =~= direction_key(direction@, h.name@));
        }
        span.record(key, AttrValue::Text(h.value.clone()));
        proof {
            assert(headers@.take(i + 1).drop_last() =~= headers@.take(i as int));
        }
        i = i + 1;
    }
    proof {
        assert(headers@.take(n as int) =~= headers@);
    }
}

/// The attribute mapping of a freshly made root span, given the random
/// per-request correlation identifier that was drawn for it.
pub open spec fn make_span_attrs(request: HttpRequest, request_id: Seq<char>) -> Map<
    Seq<char>,
    AttrData,
> {
    let base = Map::<Seq<char>, AttrData>::empty().insert(
        "span.kind"@,
        AttrData::Text("server"@),
    ).insert("http.request.method"@, AttrData::Text(request.method@)).insert(
        "network.protocol.version"@,
        AttrData::Text(request.version@),
    ).insert("uri.path"@, AttrData::Text(request.path@)).insert(
        "uri.scheme"@,
        AttrData::Text(request.scheme@),
    ).insert("uri.query"@, AttrData::Text(request.query@)).insert(
        "id"@,
        AttrData::Text(request_id),
    );
    let with_ua = match header_lookup(request.headers@, "user-agent"@) {
        Some(ua) => base.insert("user_agent.original"@, AttrData::Text(ua)),
        None => base,
    };
    recorded_headers(with_ua, "request"@, request.headers@)
}

/// Whether a root span joined the trace named by the request's
/// trace-context header: with a well-formed header the span's trace and
/// parent are the inbound identifiers; otherwise the span starts a new,
/// unparented trace.
pub open spec fn joins_inbound_trace(s: Span, headers: Seq<Header>) -> bool {
    match header_lookup(headers, "traceparent"@) {
        Some(v) => match traceparent_of(v) {
            Some(tp) => s.trace_id == tp.trace_id && s.parent_span_id == Some(
                tp.parent_span_id,
            ),
            None => s.parent_span_id is None,
        },
        None => s.parent_span_id is None,
    }
}

/// For every request carrying a well-formed trace-context header, a root
/// span that joined the inbound trace carries exactly the header's trace
/// identifier as its own and the header's span identifier as its parent;
/// `make_span` ensures `joins_inbound_trace`, so this holds of every span
/// it creates.
pub proof fn inbound_trace_identity(s: Span, headers: Seq<Header>, v: Seq<char>)
    requires
        joins_inbound_trace(s, headers),
        header_lookup(headers, "traceparent"@) == Some(v),
        well_formed_traceparent(v),
    ensures
        s.trace_id == crate::context::hex_seq_val(v.subrange(3, 35)) as u128,
        s.parent_span_id == Some(crate::context::hex_seq_val(v.subrange(36, 52)) as u64),
{
}

/// Creates the root span for each inbound request.
#[derive(Clone, Copy, Debug)]
pub struct MakeSpan;

impl MakeSpan {
    /// Deterministic core of `make_span`: everything but the freshly
    /// drawn identifiers. With a well-formed inbound trace-context
    /// header the span continues that trace; otherwise it roots a new
    /// trace under `new_trace_id`.
    pub fn make_span_with_ids(
        request: &HttpRequest,
        request_id: String,
        new_trace_id: u128,
        span_id: u64,
    ) -> (s: Span)
        ensures
            s.name@ == "request"@,
            s.span_id == span_id,
            joins_inbound_trace(s, request.headers@),
            header_lookup(request.headers@, "traceparent"@) is None || traceparent_of(
                header_lookup(request.headers@, "traceparent"@)->Some_0,
            ) is None ==> s.trace_id == new_trace_id,
            s.attr_map() == make_span_attrs(*request, request_id@),
            s.error is None,
            s.event_log() == Seq::<LogData>::empty(),
            s.is_open,
    {
        let tp_name = String::from_str("traceparent");
        let bg_name = String::from_str("baggage");
        let tp_value = header_value(&request.headers, &tp_name);
        let bg_value = header_value(&request.headers, &bg_name);
        let tp_str: Option<&str> = match tp_value {
            Some(v) => Some(v.as_str()),
            None => None,
        };
        let bg_str: Option<&str> = match bg_value {
            Some(v) => Some(v.as_str()),
            None => None,
        };
        let context = extract(tp_str, bg_str);
        let parent: Option<TraceParent> = match context {
            Some(c) => c.parent,
            None => None,
        };
        let name = String::from_str("request");
        let mut span = match parent {
            Some(tp) => Span::new_with_parent(name, tp.trace_id, span_id, tp.parent_span_id),
            None => Span::new_root(name, new_trace_id, span_id),
        };
        span.record(String::from_str("span.kind"), AttrValue::Text(String::from_str("server")));
        span.record(
            String::from_str("http.request.method"),
            AttrValue::Text(request.method.clone()),
        );
        span.record(
            String::from_str("network.protocol.version"),
            AttrValue::Text(request.version.clone()),
        );
        span.record(String::from_str("uri.path"), AttrValue::Text(request.path.clone()));
        span.record(String::from_str("uri.scheme"), AttrValue::Text(request.scheme.clone()));
        span.record(String::from_str("uri.query"), AttrValue::Text(request.query.clone()));
        span.record(String::from_str("id"), AttrValue::Text(request_id));
        let ua_name = String::from_str("user-agent");
        match header_value(&request.headers, &ua_name) {
            Some(ua) => {
                span.record(
                    String::from_str("user_agent.original"),
                    AttrValue::Text(ua.clone()),
                );
            },
            None => {},
        }
        record_headers("request", &request.headers, &mut span);
        span
    }

    /// Create the root span for `request`: fresh random identifiers are
    /// drawn for correlation, and an inbound trace context, when well
    /// formed, becomes the span's parent.
    pub fn make_span(&self, request: &HttpRequest) -> (s: Span)
        ensures
            s.name@ == "request"@,
            joins_inbound_trace(s, request.headers@),
            (exists|rid: Seq<char>|
                rid.len() == 36 && s.attr_map() == make_span_attrs(*request, rid)),
            s.error is None,
            s.event_log() == Seq::<LogData>::empty(),
            s.is_open,
    {
        let request_id = fresh_request_id();
        let ghost rid = request_id@;
        let new_trace_id = fresh_trace_id();
        let span_id = fresh_span_id();
        let s = Self::make_span_with_ids(request, request_id, new_trace_id, span_id);
        proof {
            assert(rid.len() == 36 && s.attr_map() == make_span_attrs(*request, rid));
        }
        s
    }
}

/// Marks the start of request processing on the root span.
#[derive(Clone, Copy, Debug)]
pub struct OnRequest;

impl OnRequest {
    /// Record a "started processing" event; no other side effect.
    pub fn on_request(&self, span: &mut Span)
        requires
            old(span).is_open,
        ensures
            final(span).event_log() == old(span).event_log().push(
                (LogData {
                    level: Severity::Info,
                    message: "started processing request"@,
                    path: None,
                    locations: Seq::empty(),
                }),
            ),
            same_identity(*final(span), *old(span)),
            final(span).attrs == old(span).attrs,
            final(span).error == old(span).error,
            final(span).is_open,
    {
        let record = LogRecord {
            level: Severity::Info,
            message: String::from_str("started processing request"),
            path: None,
            locations: Vec::new(),
        };
        proof {
            assert(record@.locations =~= Seq::<crate::span::SourceLocation>::empty());
        }
        span.event(record);
    }
}

/// Records response metadata on the root span.
#[derive(Clone, Copy, Debug)]
pub struct OnResponse;

impl OnResponse {
    /// Record the numeric status code and the response headers, and a
    /// "finished processing" event. Does not close the span: closing is
    /// the creating scope's responsibility.
    pub fn on_response(&self, response: &HttpResponse, span: &mut Span)
        requires
            old(span).is_open,
        ensures
            final(span).attr_map() == recorded_headers(
                old(span).attr_map().insert(
                    "http.response.status"@,
                    AttrData::Integer(response.status as u64),
                ),
                "response"@,
                response.headers@,
            ),
            final(span).event_log() == old(span).event_log().push(
                (LogData {
                    level: Severity::Info,
                    message: "finished processing request"@,
                    path: None,
                    locations: Seq::empty(),
                }),
            ),
            same_identity(*final(span), *old(span)),
            final(span).error == old(span).error,
            final(span).is_open,
    {
        span.record(
            String::from_str("http.response.status"),
            AttrValue::Integer(response.status as u64),
        );
        record_headers("response", &response.headers, span);
        let record = LogRecord {
            level: Severity::Info,
            message: String::from_str("finished processing request"),
            path: None,
            locations: Vec::new(),
        };
        proof {
            assert(record@.locations =~= Seq::<crate::span::SourceLocation>::empty());
        }
        span.event(record);
    }
}

/// The outcome classification handed to the failure hook: a status code
/// in the failing range, or a transport-level error with its message.
#[derive(Debug, Clone, PartialEq, Eq)]
pub enum FailureClass {
    StatusCode(u16),
    Error(String),
}

/// Failure classification: client error for the 4xx range, server error
/// for any other failing status, internal error when the request could
/// not be completed at all.
pub open spec fn classify(class: FailureClass) -> ErrorKind {
    match class {
        FailureClass::StatusCode(status) => if 400 <= status < 500 {
            ErrorKind::ClientError
        } else {
            ErrorKind::ServerError
        },
        FailureClass::Error(_) => ErrorKind::InternalError,
    }
}

/// Classify one failure.
pub fn classify_failure(class: &FailureClass) -> (k: ErrorKind)
    ensures
        k == classify(*class),
{
    match class {
        FailureClass::StatusCode(status) => {
            if 400 <= *status && *status < 500 {
                ErrorKind::ClientError
            } else {
                ErrorKind::ServerError
            }
        },
        FailureClass::Error(_) => ErrorKind::InternalError,
    }
}

/// Finalizes the root span when the outcome was a failure.
#[derive(Clone, Copy, Debug)]
pub struct OnFailure;

impl OnFailure {
    /// Flag the span with the failure's classification — unless an error
    /// is already recorded: the first writer wins, so a nested phase's
    /// classification is never overwritten.
    pub fn on_failure(&self, class: &FailureClass, span: &mut Span)
        requires
            old(span).is_open,
        ensures
            old(span).error is Some ==> *final(span) == *old(span),
            old(span).error is None ==> {
                &&& final(span).error == Some(classify(*class))
                &&& final(span).attr_map() == old(span).attr_map().insert(
                    "error"@,
                    AttrData::Boolean(true),
                ).insert(
                    "error.type"@,
                    AttrData::Text(crate::span::error_kind_label(classify(*class))),
                )
                &&& same_identity(*final(span), *old(span))
                &&& final(span).events == old(span).events
                &&& final(span).is_open
            },
    {
        if span.error.is_some() {
            return ;
        }
        let kind = classify_failure(class);
        span.set_error(kind);
    }
}

} // verus!
