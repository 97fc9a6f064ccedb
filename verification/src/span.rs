//! The span model: a named, time-bounded unit of traced work with
//! attributes, structured events, and an error classification.
//!
//! Attributes form a mapping from key to scalar value where keys are
//! unique and the last write wins; the mapping is modelled by folding
//! the recorded list of writes into a `Map` over views.

use vstd::prelude::*;

use crate::Severity;

verus! {

/// A scalar attribute value.
#[derive(Debug, Clone, PartialEq, Eq)]
pub enum AttrValue {
    Text(String),
    Boolean(bool),
    Integer(u64),
}

/// Mathematical model of an attribute value.
pub enum AttrData {
    Text(Seq<char>),
    Boolean(bool),
    Integer(u64),
}

impl View for AttrValue {
    type V = AttrData;

    open spec fn view(&self) -> AttrData {
        match self {
            AttrValue::Text(s) => AttrData::Text(s@),
            AttrValue::Boolean(b) => AttrData::Boolean(*b),
            AttrValue::Integer(n) => AttrData::Integer(*n),
        }
    }
}

/// Classification of a span-level error.
#[derive(Debug, Clone, Copy, PartialEq, Eq, Structural)]
pub enum ErrorKind {
    ClientError,
    ServerError,
    InternalError,
    Graphql,
}

/// The textual label under which an error kind is recorded.
pub open spec fn error_kind_label(k: ErrorKind) -> Seq<char> {
    match k {
        ErrorKind::ClientError => "client_error"@,
        ErrorKind::ServerError => "server_error"@,
        ErrorKind::InternalError => "internal_error"@,
        ErrorKind::Graphql => "graphql"@,
    }
}

impl ErrorKind {
    /// The textual label of this error kind.
    pub fn label(&self) -> (r: String)
        ensures
            r@ == error_kind_label(*self),
    {
        match self {
            ErrorKind::ClientError => String::from_str("client_error"),
            ErrorKind::ServerError => String::from_str("server_error"),
            ErrorKind::InternalError => String::from_str("internal_error"),
            ErrorKind::Graphql => String::from_str("graphql"),
        }
    }
}

/// A position in the query text, for structured error records.
#[derive(Debug, Clone, Copy, PartialEq, Eq, Structural)]
pub struct SourceLocation {
    pub line: u64,
    pub column: u64,
}

/// A structured event emitted within a span's scope.
#[derive(Debug, Clone, PartialEq, Eq)]
pub struct LogRecord {
    pub level: Severity,
    pub message: String,
    /// Response path of a failed field resolution, when one is reported.
    pub path: Option<String>,
    /// Source locations of a failed field resolution.
    pub locations: Vec<SourceLocation>,
}

/// Mathematical model of a structured event.
pub struct LogData {
    pub level: Severity,
    pub message: Seq<char>,
    pub path: Option<Seq<char>>,
    pub locations: Seq<SourceLocation>,
}

impl View for LogRecord {
    type V = LogData;

    open spec fn view(&self) -> LogData {
        LogData {
            level: self.level,
            message: self.message@,
            path: match self.path {
                Some(p) => Some(p@),
                None => None,
            },
            locations: self.locations@,
        }
    }
}

/// The attribute mapping denoted by a list of writes: keys unique,
/// last write wins.
pub open spec fn attr_map_of(attrs: Seq<(String, AttrValue)>) -> Map<Seq<char>, AttrData>
    decreases attrs.len(),
{
    if attrs.len() == 0 {
        Map::empty()
    } else {
        attr_map_of(attrs.drop_last()).insert(attrs.last().0@, attrs.last().1@)
    }
}

/// A named, time-bounded unit of traced work. Spans form a tree per
/// logical request through `trace_id` and `parent_span_id`.
#[derive(Debug, Clone)]
pub struct Span {
    pub name: String,
    /// Identifier of the trace this span belongs to.
    pub trace_id: u128,
    /// Identifier of this span, unique within its trace.
    pub span_id: u64,
    /// Identifier of the parent span; `None` for a root span.
    pub parent_span_id: Option<u64>,
    /// Attribute writes, in order; see `attr_map_of`.
    pub attrs: Vec<(String, AttrValue)>,
    /// Error flag and classification; `None` while no error is recorded.
    pub error: Option<ErrorKind>,
    /// Structured events emitted within this span's scope, in order.
    pub events: Vec<LogRecord>,
    /// A span is open from creation until its scope exits; a closed
    /// span is immutable thereafter.
    pub is_open: bool,
}

/// Fields of a span that no recording operation may change.
pub open spec fn same_identity(a: Span, b: Span) -> bool {
    &&& a.name == b.name
    &&& a.trace_id == b.trace_id
    &&& a.span_id == b.span_id
    &&& a.parent_span_id == b.parent_span_id
}

/// Whether `child` nests under `parent` in the span tree.
pub open spec fn is_child_of(child: Span, parent: Span) -> bool {
    &&& child.trace_id == parent.trace_id
    &&& child.parent_span_id == Some(parent.span_id)
}

impl Span {
    /// The attribute mapping this span currently carries.
    pub open spec fn attr_map(self) -> Map<Seq<char>, AttrData> {
        attr_map_of(self.attrs@)
    }

    pub open spec fn has_attr(self, key: Seq<char>) -> bool {
        self.attr_map().contains_key(key)
    }

    pub open spec fn attr(self, key: Seq<char>) -> AttrData {
        self.attr_map()[key]
    }

    /// The events emitted in this span's scope, as their models.
    pub open spec fn event_log(self) -> Seq<LogData> {
        self.events@.map_values(|r: LogRecord| r@)
    }

    /// A freshly created span: open, no attributes, no events, no error.
    pub open spec fn is_fresh(self) -> bool {
        &&& self.attrs@ == Seq::<(String, AttrValue)>::empty()
        &&& self.attr_map() == Map::<Seq<char>, AttrData>::empty()
        &&& self.error is None
        &&& self.event_log() == Seq::<LogData>::empty()
        &&& self.is_open
    }

    /// Create a root span: no parent within this process's view.
    pub fn new_root(name: String, trace_id: u128, span_id: u64) -> (s: Span)
        ensures
            s.name == name,
            s.trace_id == trace_id,
            s.span_id == span_id,
            s.parent_span_id is None,
            s.is_fresh(),
    {
        let s = Span {
            name,
            trace_id,
            span_id,
            parent_span_id: None,
            attrs: Vec::new(),
            error: None,
            events: Vec::new(),
            is_open: true,
        };
        proof {
            assert(s.event_log() =~= Seq::<LogData>::empty());
        }
        s
    }

    /// Create a span parented on `parent_span_id` within trace `trace_id`:
    /// used for a root span that continues an externally propagated trace.
    pub fn new_with_parent(name: String, trace_id: u128, span_id: u64, parent_span_id: u64) -> (s:
        Span)
        ensures
            s.name == name,
            s.trace_id == trace_id,
            s.span_id == span_id,
            s.parent_span_id == Some(parent_span_id),
            s.is_fresh(),
    {
        let s = Span {
            name,
            trace_id,
            span_id,
            parent_span_id: Some(parent_span_id),
            attrs: Vec::new(),
            error: None,
            events: Vec::new(),
            is_open: true,
        };
        proof {
            assert(s.event_log() =~= Seq::<LogData>::empty());
        }
        s
    }

    /// Create a child span nested under `parent`. Nesting requires the
    /// parent to still be open: a child is created causally inside its
    /// parent's lifetime.
    pub fn child_of(parent: &Span, name: String, span_id: u64) -> (s: Span)
        requires
            parent.is_open,
        ensures
            is_child_of(s, *parent),
            s.name == name,
            s.span_id == span_id,
            s.is_fresh(),
    {
        let s = Span {
            name,
            trace_id: parent.trace_id,
            span_id,
            parent_span_id: Some(parent.span_id),
            attrs: Vec::new(),
            error: None,
            events: Vec::new(),
            is_open: true,
        };
        proof {
            assert(s.event_log() =~= Seq::<LogData>::empty());
        }
        s
    }

    /// Record one attribute: the mapping gains `key`, displacing any
    /// earlier write to the same key.
    pub fn record(&mut self, key: String, value: AttrValue)
        requires
            old(self).is_open,
        ensures
            final(self).attr_map() == old(self).attr_map().insert(key@, value@),
            final(self).attrs@ == old(self).attrs@.push((key, value)),
            same_identity(*final(self), *old(self)),
            final(self).error == old(self).error,
            final(self).events == old(self).events,
            final(self).is_open,
    {
        let ghost before = self.attrs@;
        self.attrs.push((key, value));
        proof {
            assert(self.attrs@.drop_last() =~= before);
        }
    }

    /// Emit a structured event within this span's scope.
    pub fn event(&mut self, record: LogRecord)
        requires
            old(self).is_open,
        ensures
            final(self).event_log() == old(self).event_log().push(record@),
            same_identity(*final(self), *old(self)),
            final(self).attrs == old(self).attrs,
            final(self).error == old(self).error,
            final(self).is_open,
    {
        let ghost before = self.events@;
        self.events.push(record);
        proof {
            assert(self.events@.map_values(|r: LogRecord| r@) =~= before.map_values(
                |r: LogRecord| r@,
            ).push(record@));
        }
    }

    /// Flag this span as failed with classification `kind`, recording the
    /// flag and the kind as attributes as well. First writer wins: callers
    /// that must not overwrite an earlier classification check `error`
    /// before calling.
    pub fn set_error(&mut self, kind: ErrorKind)
        requires
            old(self).is_open,
        ensures
            final(self).error == Some(kind),
            final(self).attr_map() == old(self).attr_map().insert(
                "error"@,
                AttrData::Boolean(true),
            ).insert("error.type"@, AttrData::Text(error_kind_label(kind))),
            same_identity(*final(self), *old(self)),
            final(self).events == old(self).events,
            final(self).is_open,
    {
        self.error = Some(kind);
        self.record(String::from_str("error"), AttrValue::Boolean(true));
        let label = kind.label();
        self.record(String::from_str("error.type"), AttrValue::Text(label));
    }

    /// Close this span: its end timestamp is fixed and it is immutable
    /// thereafter. Everything recorded up to this point is kept.
    pub fn close(&mut self)
        ensures
            !final(self).is_open,
            same_identity(*final(self), *old(self)),
            final(self).attrs == old(self).attrs,
            final(self).error == old(self).error,
            final(self).events == old(self).events,
    {
        self.is_open = false;
    }
}

} // verus!
