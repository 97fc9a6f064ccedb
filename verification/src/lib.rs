//! Verified instrumentation pipeline for a staged query-execution server.
//!
//! The library models the span hierarchy created around request handling
//! (root span per request, one child span per execution phase), the
//! extraction of distributed trace context from inbound headers, the
//! classification of failures, and the batched export of closed spans.

use vstd::prelude::*;

pub mod context;
pub mod export;
pub mod graphql;
pub mod http;
pub mod ids;
pub mod span;

verus! {

/// Minimum severity directive: events below the configured level are
/// dropped before any attribute is recorded.
#[derive(Clone, Copy, Debug, PartialEq, Eq, Structural)]
pub enum Severity {
    Trace,
    Debug,
    Info,
    Warn,
    Error,
}

/// Rank of a severity level, for ordering; higher is more severe.
pub open spec fn severity_rank(s: Severity) -> int {
    match s {
        Severity::Trace => 0,
        Severity::Debug => 1,
        Severity::Info => 2,
        Severity::Warn => 3,
        Severity::Error => 4,
    }
}

impl Severity {
    /// An event of severity `event` is retained under directive `self`
    /// exactly when it is at least as severe as the directive.
    pub fn retains(&self, event: &Severity) -> (r: bool)
        ensures
            r == (severity_rank(*event) >= severity_rank(*self)),
    {
        let directive_rank: u8 = match self {
            Severity::Trace => 0,
            Severity::Debug => 1,
            Severity::Info => 2,
            Severity::Warn => 3,
            Severity::Error => 4,
        };
        let event_rank: u8 = match event {
            Severity::Trace => 0,
            Severity::Debug => 1,
            Severity::Info => 2,
            Severity::Warn => 3,
            Severity::Error => 4,
        };
        event_rank >= directive_rank
    }
}

/// Create a new logging configurator.
pub fn config() -> (b: Builder)
    ensures
        b.default_directive == Severity::Info,
        b.opentelemetry is None,
{
    Builder::default()
}

/// Configure options for logging and application tracing.
#[derive(Debug)]
pub struct Builder {
    pub default_directive: Severity,
    pub opentelemetry: Option<export::OtelConfig>,
}

impl Builder {
    /// Set the default directive being used.
    pub fn default_directive(self, directive: Severity) -> (b: Builder)
        ensures
            b.default_directive == directive,
            b.opentelemetry == self.opentelemetry,
    {
        Builder { default_directive: directive, ..self }
    }

    /// Configure the telemetry exporter.
    pub fn opentelemetry(self, protocol: export::Protocol, url: String) -> (b: Builder)
        ensures
            b.default_directive == self.default_directive,
            b.opentelemetry == Some(export::OtelConfig { url, protocol }),
    {
        Builder {
            opentelemetry: Some(export::OtelConfig { url, protocol }),
            ..self
        }
    }
}

impl Default for Builder {
    /// The initial configuration: informational severity, no exporter.
    fn default() -> (b: Builder)
        ensures
            b.default_directive == Severity::Info,
            b.opentelemetry is None,
    {
        Builder { default_directive: Severity::Info, opentelemetry: None }
    }
}

} // verus!
