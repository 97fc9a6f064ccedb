//! Execution-pipeline instrumentation: one child span per phase of
//! query execution (parse, validation, execute, per-field resolve),
//! with phase-specific attributes, redaction of introspection traffic,
//! and demotion of expected field-level errors to warnings.

use vstd::prelude::*;

use crate::Severity;
use crate::ids::fresh_span_id;
use crate::span::{AttrData, AttrValue, ErrorKind, LogData, LogRecord, SourceLocation, Span};
use crate::span::{error_kind_label, is_child_of, same_identity};

verus! {

/// The kind of one operation of a parsed document.
#[derive(Debug, Clone, Copy, PartialEq, Eq, Structural)]
pub enum OperationKind {
    Query,
    Mutation,
    Subscription,
}

/// One operation of a parsed document: its kind and the names of the
/// fields its top-level selection set targets.
#[derive(Debug, Clone, PartialEq, Eq)]
pub struct Operation {
    pub kind: OperationKind,
    pub root_fields: Vec<String>,
}

/// A parsed document, as the instrumentation reads it: the operations
/// it defines.
#[derive(Debug, Clone, PartialEq, Eq)]
pub struct Document {
    pub operations: Vec<Operation>,
}

/// What the resolver hook learns about one field resolution: the field's
/// path in the response tree, its declaring type and its return type.
#[derive(Debug, Clone, PartialEq, Eq)]
pub struct ResolveInfo {
    pub path: String,
    pub parent_type: String,
    pub return_type: String,
}

/// A failed field resolution, as reported by the execution engine.
#[derive(Debug, Clone, PartialEq, Eq)]
pub struct ResolveError {
    pub message: String,
    pub locations: Vec<SourceLocation>,
    pub path: String,
}

/// Whether one operation is a query whose top-level selection set
/// targets the schema-metadata root field.
pub open spec fn op_targets_schema(op: Operation) -> bool {
    &&& op.kind is Query
    &&& exists|j: int|
        0 <= j < op.root_fields@.len() && (#[trigger] op.root_fields@[j])@ == "__schema"@
}

/// Whether a document is an introspection query: some query operation
/// selects the schema-metadata root field.
pub open spec fn is_introspection(doc: Document) -> bool {
    exists|i: int|
        0 <= i < doc.operations@.len() && op_targets_schema(#[trigger] doc.operations@[i])
}

/// Decide whether `doc` is an introspection query.
pub fn is_introspection_query(doc: &Document) -> (r: bool)
    ensures
        r == is_introspection(*doc),
{
    let schema_name = String::from_str("__schema");
    let n = doc.operations.len();
    let mut i: usize = 0;
    while i < n
        invariant
            i <= n == doc.operations@.len(),
            schema_name@ == "__schema"@,
            forall|k: int| 0 <= k < i ==> !op_targets_schema(#[trigger] doc.operations@[k]),
        decreases n - i,
    {
        let op = &doc.operations[i];
        if matches!(op.kind, OperationKind::Query) {
            let m = op.root_fields.len();
            let mut j: usize = 0;
            while j < m
                invariant
                    0 <= i < doc.operations@.len(),
                    *op == doc.operations@[i as int],
                    op.kind is Query,
                    j <= m == op.root_fields@.len(),
                    schema_name@ == "__schema"@,
                    forall|l: int|
                        0 <= l < j ==> (#[trigger] op.root_fields@[l])@ != "__schema"@,
                decreases m - j,
            {
                if op.root_fields[j].eq(&schema_name) {
                    proof {
                        let ghost witness = doc.operations@[i as int];
                        assert(witness.root_fields@[j as int]@ == "__schema"@);
                        assert(op_targets_schema(witness));
                    }
                    return true;
                }
                j = j + 1;
            }
        }
        i = i + 1;
    }
    false
}

/// Whether a field's response path lies under the introspection root.
pub open spec fn path_in_introspection(path: Seq<char>) -> bool {
    path.len() >= 8 && path.subrange(0, 8) == "__schema"@
}

/// Decide whether a response path lies under the introspection root.
pub fn path_starts_with_schema(path: &str) -> (r: bool)
    ensures
        r == path_in_introspection(path@),
{
    let prefix = "__schema";
    proof {
        reveal_strlit("__schema");
    }
    if path.unicode_len() < 8 {
        return false;
    }
    let mut j: usize = 0;
    while j < 8
        invariant
            j <= 8 <= path@.len(),
            prefix@ == "__schema"@,
            prefix@.len() == 8,
            forall|l: int| 0 <= l < j ==> path@[l] == "__schema"@[l],
        decreases 8 - j,
    {
        if path.get_char(j) != prefix.get_char(j) {
            proof {
                assert(path@.subrange(0, 8)[j as int] != "__schema"@[j as int]);
            }
            return false;
        }
        j = j + 1;
    }
    proof {
        assert(path@.subrange(0, 8) =~= "__schema"@);
    }
    true
}

/// The parse span's attributes after a successful parse: unchanged for
/// an introspection query, the rendered document recorded otherwise.
pub open spec fn parse_attrs(
    m: Map<Seq<char>, AttrData>,
    doc: Document,
    rendered: Seq<char>,
) -> Map<Seq<char>, AttrData> {
    if is_introspection(doc) {
        m
    } else {
        m.insert("graphql.document"@, AttrData::Text(rendered))
    }
}

/// For every introspection query, the parse span never gains the
/// document-text attribute; for every other successfully parsed
/// document, it always does, holding exactly the rendered document.
pub proof fn introspection_redaction(
    m: Map<Seq<char>, AttrData>,
    doc: Document,
    rendered: Seq<char>,
)
    requires
        !m.contains_key("graphql.document"@),
    ensures
        is_introspection(doc) ==> !parse_attrs(m, doc, rendered).contains_key(
            "graphql.document"@,
        ),
        !is_introspection(doc) ==> parse_attrs(m, doc, rendered).contains_key("graphql.document"@)
            && parse_attrs(m, doc, rendered)["graphql.document"@] == AttrData::Text(rendered),
{
}

/// For every successful validation, the complexity and depth attributes
/// are both present and hold exactly the recorded values, which are
/// non-negative integers; a failed validation records neither, so a span
/// that lacked them keeps lacking them.
pub proof fn validation_attributes(m: Map<Seq<char>, AttrData>, complexity: u64, depth: u64)
    ensures
        ({
            let after = m.insert("graphql.complexity"@, AttrData::Integer(complexity)).insert(
                "graphql.depth"@,
                AttrData::Integer(depth),
            );
            &&& after.contains_key("graphql.complexity"@)
            &&& after.contains_key("graphql.depth"@)
            &&& after["graphql.complexity"@] == AttrData::Integer(complexity)
            &&& after["graphql.depth"@] == AttrData::Integer(depth)
            &&& complexity >= 0 && depth >= 0
        }),
{
    reveal_strlit("graphql.complexity");
    reveal_strlit("graphql.depth");
    assert("graphql.complexity"@.len() == 18);
    assert("graphql.depth"@.len() == 13);
    assert("graphql.complexity"@ != "graphql.depth"@);
}

/// Factory registered with the execution engine: hands out the
/// instrumentation extension, one per execution.
#[derive(Clone, Copy, Debug)]
pub struct GraphQL;

impl GraphQL {
    /// Create the instrumentation extension.
    pub fn create(&self) -> (e: LoggingExtension)
        ensures
            e == (LoggingExtension {  }),
    {
        LoggingExtension {  }
    }
}

/// The per-execution lifecycle hooks: each phase opens a child span
/// under the caller's span and records its outcome on it.
#[derive(Clone, Copy, Debug)]
pub struct LoggingExtension;

impl LoggingExtension {
    /// Open the parse-phase span.
    pub fn parse_span(&self, parent: &Span) -> (s: Span)
        requires
            parent.is_open,
        ensures
            is_child_of(s, *parent),
            s.name@ == "parse"@,
            s.is_fresh(),
    {
        Span::child_of(parent, String::from_str("parse"), fresh_span_id())
    }

    /// Record a successful parse on the parse span: for an introspection
    /// query the document text is withheld, to keep large, low-value
    /// payloads out of telemetry; otherwise the rendered document is
    /// recorded. A parse failure records nothing and propagates to the
    /// caller unchanged.
    pub fn record_parse_result(&self, span: &mut Span, document: &Document, rendered: &String)
        requires
            old(span).is_open,
        ensures
            final(span).attr_map() == parse_attrs(old(span).attr_map(), *document, rendered@),
            same_identity(*final(span), *old(span)),
            final(span).error == old(span).error,
            final(span).events == old(span).events,
            final(span).is_open,
    {
        if !is_introspection_query(document) {
            span.record(String::from_str("graphql.document"), AttrValue::Text(rendered.clone()));
        }
    }

    /// Open the validation-phase span.
    pub fn validation_span(&self, parent: &Span) -> (s: Span)
        requires
            parent.is_open,
        ensures
            is_child_of(s, *parent),
            s.name@ == "validation"@,
            s.is_fresh(),
    {
        Span::child_of(parent, String::from_str("validation"), fresh_span_id())
    }

    /// Record a successful validation on the validation span: the
    /// computed complexity score and maximum nesting depth, for
    /// cost-based alerting. A failed validation records neither and the
    /// error propagates unchanged.
    pub fn record_validation_result(&self, span: &mut Span, complexity: u64, depth: u64)
        requires
            old(span).is_open,
        ensures
            final(span).attr_map() == old(span).attr_map().insert(
                "graphql.complexity"@,
                AttrData::Integer(complexity),
            ).insert("graphql.depth"@, AttrData::Integer(depth)),
            same_identity(*final(span), *old(span)),
            final(span).error == old(span).error,
            final(span).events == old(span).events,
            final(span).is_open,
    {
        span.record(String::from_str("graphql.complexity"), AttrValue::Integer(complexity));
        span.record(String::from_str("graphql.depth"), AttrValue::Integer(depth));
    }

    /// Open the execute-phase span, annotated with the operation name,
    /// or the empty string for an anonymous operation.
    pub fn execute_span(&self, parent: &Span, operation_name: Option<&String>) -> (s: Span)
        requires
            parent.is_open,
        ensures
            is_child_of(s, *parent),
            s.name@ == "execute"@,
            s.attr_map() == Map::<Seq<char>, AttrData>::empty().insert(
                "graphql.operation.name"@,
                AttrData::Text(
                    match operation_name {
                        Some(n) => n@,
                        None => Seq::<char>::empty(),
                    },
                ),
            ),
            s.error is None,
            s.event_log() == Seq::<LogData>::empty(),
            s.is_open,
    {
        let mut s = Span::child_of(parent, String::from_str("execute"), fresh_span_id());
        let name_attr = match operation_name {
            Some(n) => n.clone(),
            None => String::new(),
        };
        s.record(String::from_str("graphql.operation.name"), AttrValue::Text(name_attr));
        s
    }

    /// Open the resolve-phase span for one field — unless the field lies
    /// under the introspection root, whose subtree is not individually
    /// spanned: resolution then proceeds directly.
    pub fn resolve_span(&self, parent: &Span, info: &ResolveInfo) -> (r: Option<Span>)
        requires
            parent.is_open,
        ensures
            r is Some <==> !path_in_introspection(info.path@),
            match r {
                Some(s) => {
                    &&& is_child_of(s, *parent)
                    &&& s.name@ == "field"@
                    &&& s.attr_map() == Map::<Seq<char>, AttrData>::empty().insert(
                        "graphql.node.path"@,
                        AttrData::Text(info.path@),
                    ).insert("graphql.node.parent_type"@, AttrData::Text(info.parent_type@)).insert(
                        "graphql.node.return_type"@,
                        AttrData::Text(info.return_type@),
                    )
                    &&& s.error is None
                    &&& s.event_log() == Seq::<LogData>::empty()
                    &&& s.is_open
                },
                None => true,
            },
    {
        if path_starts_with_schema(info.path.as_str()) {
            return None;
        }
        let mut s = Span::child_of(parent, String::from_str("field"), fresh_span_id());
        s.record(String::from_str("graphql.node.path"), AttrValue::Text(info.path.clone()));
        s.record(
            String::from_str("graphql.node.parent_type"),
            AttrValue::Text(info.parent_type.clone()),
        );
        s.record(
            String::from_str("graphql.node.return_type"),
            AttrValue::Text(info.return_type.clone()),
        );
        Some(s)
    }

    /// Record a failed field resolution on its resolve span: the span is
    /// flagged as a `graphql`-kind error and the failure's message,
    /// locations and response path are emitted as a warning-level record
    /// — deliberately not escalated to an alarm-worthy failure, since
    /// field errors are typically caused by client input.
    pub fn record_resolve_error(&self, span: &mut Span, error: ResolveError)
        requires
            old(span).is_open,
        ensures
            final(span).error == Some(ErrorKind::Graphql),
            final(span).attr_map() == old(span).attr_map().insert(
                "error"@,
                AttrData::Boolean(true),
            ).insert("error.type"@, AttrData::Text(error_kind_label(ErrorKind::Graphql))),
            final(span).event_log() == old(span).event_log().push(
                (LogData {
                    level: Severity::Warn,
                    message: error.message@,
                    path: Some(error.path@),
                    locations: error.locations@,
                }),
            ),
            same_identity(*final(span), *old(span)),
            final(span).is_open,
    {
        span.set_error(ErrorKind::Graphql);
        span.event(
            LogRecord {
                level: Severity::Warn,
                message: error.message,
                path: Some(error.path),
                locations: error.locations,
            },
        );
    }
}

} // verus!
