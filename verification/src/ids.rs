//! Fresh identifiers for spans and traces, drawn from a random UUID.
//!
//! The values are random: nothing is promised of them beyond what the
//! generator documents, and no two calls are related.

use vstd::prelude::*;

verus! {

/// Relies on uuid::Uuid::new_v4: a fresh random identifier for a trace
/// started by this process.
#[verifier::external_body]
pub fn fresh_trace_id() -> (r: u128) {
    uuid::Uuid::new_v4().as_u128()
}

/// Relies on uuid::Uuid::new_v4: a fresh random identifier for one span.
#[verifier::external_body]
pub fn fresh_span_id() -> (r: u64) {
    uuid::Uuid::new_v4().as_u128() as u64
}

/// Relies on uuid::Uuid::new_v4 and its hyphenated textual form, which
/// is always 36 characters of ASCII hex digits and hyphens.
#[verifier::external_body]
pub fn fresh_request_id() -> (r: String)
    ensures
        r@.len() == 36,
{
    uuid::Uuid::new_v4().to_string()
}

} // verus!
