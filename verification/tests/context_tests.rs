use tracekit::context::{extract, parse_baggage, parse_traceparent};

#[test]
fn parse_traceparent_well_formed() {
    let tp = parse_traceparent("00-0af7651916cd43dd8448eb211c80319c-b7ad6b7169203331-01")
        .expect("well-formed header must parse");
    assert_eq!(tp.trace_id, 0x0af7651916cd43dd8448eb211c80319cu128);
    assert_eq!(tp.parent_span_id, 0xb7ad6b7169203331u64);
    assert_eq!(tp.flags, 0x01);
}

#[test]
fn parse_traceparent_rejects_malformed() {
    // wrong length
    assert!(parse_traceparent("00-abc-def-01").is_none());
    // uppercase hex digits are not part of the grammar
    assert!(parse_traceparent("00-0AF7651916CD43DD8448EB211C80319C-B7AD6B7169203331-01").is_none());
    // unknown version
    assert!(parse_traceparent("ff-0af7651916cd43dd8448eb211c80319c-b7ad6b7169203331-01").is_none());
    // all-zero trace id
    assert!(parse_traceparent("00-00000000000000000000000000000000-b7ad6b7169203331-01").is_none());
    // all-zero span id
    assert!(parse_traceparent("00-0af7651916cd43dd8448eb211c80319c-0000000000000000-01").is_none());
    // missing dash
    assert!(parse_traceparent("00x0af7651916cd43dd8448eb211c80319cxb7ad6b7169203331x01").is_none());
    // non-hex character in the trace id
    assert!(parse_traceparent("00-0af7651916cd43dd8448eb211c8031zc-b7ad6b7169203331-01").is_none());
}

#[test]
fn parse_baggage_entries() {
    let entries = parse_baggage("userId=alice,serverNode=DF28,isProduction=false");
    assert_eq!(entries.len(), 3);
    assert_eq!(entries[0].0, "userId");
    assert_eq!(entries[0].1, "alice");
    assert_eq!(entries[1].0, "serverNode");
    assert_eq!(entries[1].1, "DF28");
    assert_eq!(entries[2].0, "isProduction");
    assert_eq!(entries[2].1, "false");
}

#[test]
fn parse_baggage_drops_malformed_members() {
    let entries = parse_baggage("plainword,key=value");
    assert_eq!(entries.len(), 1);
    assert_eq!(entries[0].0, "key");
    assert_eq!(entries[0].1, "value");
    assert_eq!(parse_baggage("").len(), 0);
    assert_eq!(parse_baggage("nothing-here").len(), 0);
}

#[test]
fn extract_combines_best_effort() {
    // both headers present and well formed
    let ctx = extract(
        Some("00-0af7651916cd43dd8448eb211c80319c-b7ad6b7169203331-01"),
        Some("a=b"),
    )
    .expect("context expected");
    assert!(ctx.parent.is_some());
    assert_eq!(ctx.baggage.len(), 1);

    // baggage alone still yields a context, with no parent
    let ctx = extract(None, Some("a=b")).expect("context expected");
    assert!(ctx.parent.is_none());
    assert_eq!(ctx.baggage.len(), 1);

    // malformed trace context alone yields nothing
    assert!(extract(Some("garbage"), None).is_none());
    assert!(extract(None, None).is_none());

    // a malformed portion is absent, not an error
    let ctx = extract(
        Some("00-0af7651916cd43dd8448eb211c80319c-b7ad6b7169203331-01"),
        Some("no-equals-sign"),
    )
    .expect("context expected");
    assert!(ctx.parent.is_some());
    assert_eq!(ctx.baggage.len(), 0);
}
