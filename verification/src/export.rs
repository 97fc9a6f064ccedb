//! The telemetry export pipeline: an immutable resource descriptor
//! merged from detector outputs, and a batch exporter that accumulates
//! closed spans and hands them to the transport in order, one batch per
//! size threshold, without ever losing, duplicating or reordering a span.

use vstd::prelude::*;

use crate::context::pairs_view;
use crate::span::Span;

verus! {

/// The wire protocol of the exporter's transport. The choice affects
/// encoding only, never span content.
#[derive(Debug, Clone, Copy, PartialEq, Eq, Structural)]
pub enum Protocol {
    Grpc,
    HttpBinary,
}

/// Configuration for the exporter: the collector URL and the transport.
#[derive(Debug, Clone)]
pub struct OtelConfig {
    pub url: String,
    pub protocol: Protocol,
}

/// The mapping denoted by resource attributes, first-registered wins on
/// key collision.
pub open spec fn resource_map_of(attrs: Seq<(String, String)>) -> Map<Seq<char>, Seq<char>>
    decreases attrs.len(),
{
    if attrs.len() == 0 {
        Map::empty()
    } else {
        resource_map_of(attrs.drop_first()).insert(attrs[0].0@, attrs[0].1@)
    }
}

/// All entries of a priority-ordered list of detector outputs, highest
/// priority first.
pub open spec fn detector_entries(outputs: Seq<Vec<(String, String)>>) -> Seq<(String, String)>
    decreases outputs.len(),
{
    if outputs.len() == 0 {
        Seq::empty()
    } else {
        detector_entries(outputs.drop_last()) + outputs.last()@
    }
}

/// An immutable description of the running process and host, attached
/// identically to every exported span batch. Never mutated after
/// construction.
#[derive(Debug, Clone)]
pub struct Resource {
    /// Attribute entries in detector-priority order; on a key collision
    /// the first-registered entry wins (see `attr_map`).
    pub attrs: Vec<(String, String)>,
}

impl Resource {
    /// The merged attribute set this resource denotes.
    pub open spec fn attr_map(self) -> Map<Seq<char>, Seq<char>> {
        resource_map_of(self.attrs@)
    }

    /// Merge detector outputs, in priority order: the attribute set keeps
    /// every entry, and on a key collision the earliest detector's value
    /// wins.
    pub fn from_detectors(outputs: &Vec<Vec<(String, String)>>) -> (r: Resource)
        ensures
            r.attrs@ == detector_entries(outputs@),
            r.attr_map() == resource_map_of(detector_entries(outputs@)),
    {
        let mut attrs: Vec<(String, String)> = Vec::new();
        let n = outputs.len();
        let mut i: usize = 0;
        proof {
            assert(outputs@.take(0) =~= Seq::<Vec<(String, String)>>::empty());
        }
        while i < n
            invariant
                i <= n == outputs@.len(),
                attrs@ == detector_entries(outputs@.take(i as int)),
            decreases n - i,
        {
            let mut entries = copy_pairs(&outputs[i]);
            attrs.append(&mut entries);
            proof {
                assert(outputs@.take(i + 1).drop_last() =~= outputs@.take(i as int));
            }
            i = i + 1;
        }
        proof {
            assert(outputs@.take(n as int) =~= outputs@);
        }
        Resource { attrs }
    }

    /// Look an attribute up: on a key collision the first-registered
    /// entry — the highest-priority detector's — is the one returned.
    pub fn lookup<'a>(&'a self, key: &String) -> (r: Option<&'a String>)
        ensures
            match r {
                Some(v) => self.attr_map().contains_key(key@) && self.attr_map()[key@] == v@,
                None => !self.attr_map().contains_key(key@),
            },
    {
        let n = self.attrs.len();
        let mut i: usize = 0;
        while i < n
            invariant
                i <= n == self.attrs@.len(),
                forall|j: int| 0 <= j < i ==> (#[trigger] self.attrs@[j]).0@ != key@,
            decreases n - i,
        {
            if self.attrs[i].0.eq(key) {
                proof {
                    lemma_resource_first(self.attrs@, key@, i as int);
                }
                return Some(&self.attrs[i].1);
            }
            i = i + 1;
        }
        proof {
            lemma_resource_first(self.attrs@, key@, n as int);
        }
        None
    }
}

/// Links a forward scan to the first-wins mapping: the first entry under
/// a key is the one the mapping keeps.
proof fn lemma_resource_first(attrs: Seq<(String, String)>, key: Seq<char>, i: int)
    requires
        0 <= i <= attrs.len(),
        forall|j: int| 0 <= j < i ==> (#[trigger] attrs[j]).0@ != key,
        i < attrs.len() ==> attrs[i].0@ == key,
    ensures
        i < attrs.len() ==> resource_map_of(attrs).contains_key(key) && resource_map_of(attrs)[key]
            == attrs[i].1@,
        i == attrs.len() ==> !resource_map_of(attrs).contains_key(key),
    decreases attrs.len(),
{
    if attrs.len() > 0 && i > 0 {
        lemma_resource_first(attrs.drop_first(), key, i - 1);
    }
}

/// Copy a list of attribute entries.
fn copy_pairs(v: &Vec<(String, String)>) -> (r: Vec<(String, String)>)
    ensures
        r@ == v@,
{
    let mut r: Vec<(String, String)> = Vec::new();
    let n = v.len();
    let mut i: usize = 0;
    while i < n
        invariant
            i <= n == v@.len(),
            r@ == v@.take(i as int),
        decreases n - i,
    {
        let entry = &v[i];
        r.push((entry.0.clone(), entry.1.clone()));
        proof {
            assert(v@.take(i + 1) =~= v@.take(i as int).push(v@[i as int]));
        }
        i = i + 1;
    }
    proof {
        assert(v@.take(n as int) =~= v@);
    }
    r
}

/// One transmitted unit: the closed spans accumulated since the last
/// flush, together with the resource attributes they are enriched with.
#[derive(Debug, Clone)]
pub struct SpanBatch {
    pub resource: Vec<(String, String)>,
    pub spans: Vec<Span>,
}

/// Whether every span of a batch is closed.
pub open spec fn batch_closed(b: SpanBatch) -> bool {
    forall|j: int| 0 <= j < b.spans@.len() ==> !(#[trigger] b.spans@[j]).is_open
}

/// The spans of a sequence of batches, in transmission order.
pub open spec fn batch_spans(batches: Seq<SpanBatch>) -> Seq<Span>
    decreases batches.len(),
{
    if batches.len() == 0 {
        Seq::empty()
    } else {
        batch_spans(batches.drop_last()) + batches.last().spans@
    }
}

/// Accumulates closed spans and flushes them as batches: a flush is
/// triggered by the size threshold, or explicitly (timer or shutdown).
/// Enqueuing never waits on transmission: the flushed batches are handed
/// to the transport outside this model.
#[derive(Debug, Clone)]
pub struct BatchExporter {
    pub protocol: Protocol,
    pub endpoint: String,
    pub resource: Resource,
    /// Batch size threshold; reaching it flushes.
    pub threshold: usize,
    /// Closed spans accumulated since the last flush, in arrival order.
    pub buffer: Vec<Span>,
    /// Batches handed to the transport, in order.
    pub flushed: Vec<SpanBatch>,
}

/// Every span that entered the exporter, in arrival order: the flushed
/// batches followed by the spans still buffered.
pub open spec fn all_spans(e: BatchExporter) -> Seq<Span> {
    batch_spans(e.flushed@) + e.buffer@
}

/// Every batch a well-formed exporter has flushed carries identical
/// resource attributes: the exporter's own, fixed at construction.
pub proof fn batches_share_resource(e: BatchExporter, i: int, j: int)
    requires
        e.wf(),
        0 <= i < e.flushed@.len(),
        0 <= j < e.flushed@.len(),
    ensures
        e.flushed@[i].resource@ == e.flushed@[j].resource@,
{
}

impl BatchExporter {
    /// The exporter's internal discipline: the buffer never reaches the
    /// threshold, every flushed batch carries exactly the exporter's
    /// resource attributes, and only closed spans are held.
    pub open spec fn wf(self) -> bool {
        &&& self.threshold >= 1
        &&& self.buffer@.len() < self.threshold
        &&& forall|i: int|
            0 <= i < self.flushed@.len() ==> (#[trigger] self.flushed@[i]).resource@
                == self.resource.attrs@
        &&& forall|i: int| 0 <= i < self.flushed@.len() ==> batch_closed(#[trigger] self.flushed@[i])
        &&& forall|j: int| 0 <= j < self.buffer@.len() ==> !(#[trigger] self.buffer@[j]).is_open
    }

    /// Create an exporter for the configured transport, with the given
    /// resource and batch size threshold.
    pub fn new(config: OtelConfig, resource: Resource, threshold: usize) -> (e: BatchExporter)
        requires
            threshold >= 1,
        ensures
            e.wf(),
            e.protocol == config.protocol,
            e.endpoint == config.url,
            e.resource == resource,
            e.threshold == threshold,
            e.buffer@ == Seq::<Span>::empty(),
            e.flushed@ == Seq::<SpanBatch>::empty(),
    {
        BatchExporter {
            protocol: config.protocol,
            endpoint: config.url,
            resource,
            threshold,
            buffer: Vec::new(),
            flushed: Vec::new(),
        }
    }

    /// Hand one closed span to the exporter. The span is appended to the
    /// buffer; when the buffer reaches the threshold it becomes the next
    /// batch, enriched with the resource attributes. Never blocks on
    /// transmission, never loses, duplicates or reorders a span.
    pub fn enqueue(&mut self, span: Span)
        requires
            old(self).wf(),
            !span.is_open,
        ensures
            final(self).wf(),
            all_spans(*final(self)) == all_spans(*old(self)).push(span),
            final(self).protocol == old(self).protocol,
            final(self).endpoint == old(self).endpoint,
            final(self).resource == old(self).resource,
            final(self).threshold == old(self).threshold,
            old(self).buffer@.len() + 1 == old(self).threshold ==> {
                &&& final(self).buffer@ == Seq::<Span>::empty()
                &&& final(self).flushed@.len() == old(self).flushed@.len() + 1
                &&& final(self).flushed@.take(old(self).flushed@.len() as int) == old(
                    self,
                ).flushed@
                &&& final(self).flushed@.last().resource@ == old(self).resource.attrs@
                &&& final(self).flushed@.last().spans@ == old(self).buffer@.push(span)
            },
            old(self).buffer@.len() + 1 < old(self).threshold ==> {
                &&& final(self).buffer@ == old(self).buffer@.push(span)
                &&& final(self).flushed == old(self).flushed
            },
    {
        self.buffer.push(span);
        if self.buffer.len() == self.threshold {
            let resource = copy_pairs(&self.resource.attrs);
            let mut spans: Vec<Span> = Vec::new();
            core::mem::swap(&mut spans, &mut self.buffer);
            let ghost before = self.flushed@;
            self.flushed.push(SpanBatch { resource, spans });
            proof {
                assert(self.flushed@.drop_last() =~= before);
                assert(batch_spans(self.flushed@) =~= batch_spans(before) + old(
                    self,
                ).buffer@.push(span));
                assert(all_spans(*self) =~= all_spans(*old(self)).push(span));
                assert(self.flushed@.take(old(self).flushed@.len() as int) =~= old(
                    self,
                ).flushed@);
            }
        } else {
            proof {
                assert(all_spans(*self) =~= all_spans(*old(self)).push(span));
            }
        }
    }

    /// Flush whatever is buffered, if anything: triggered by the timer,
    /// or as the best-effort final flush on shutdown.
    pub fn flush(&mut self)
        requires
            old(self).wf(),
        ensures
            final(self).wf(),
            all_spans(*final(self)) == all_spans(*old(self)),
            final(self).buffer@ == Seq::<Span>::empty(),
            final(self).protocol == old(self).protocol,
            final(self).endpoint == old(self).endpoint,
            final(self).resource == old(self).resource,
            final(self).threshold == old(self).threshold,
            old(self).buffer@.len() == 0 ==> final(self).flushed == old(self).flushed,
            old(self).buffer@.len() > 0 ==> {
                &&& final(self).flushed@.len() == old(self).flushed@.len() + 1
                &&& final(self).flushed@.take(old(self).flushed@.len() as int) == old(
                    self,
                ).flushed@
                &&& final(self).flushed@.last().resource@ == old(self).resource.attrs@
                &&& final(self).flushed@.last().spans@ == old(self).buffer@
            },
    {
        if self.buffer.len() > 0 {
            let resource = copy_pairs(&self.resource.attrs);
            let mut spans: Vec<Span> = Vec::new();
            core::mem::swap(&mut spans, &mut self.buffer);
            let ghost before = self.flushed@;
            self.flushed.push(SpanBatch { resource, spans });
            proof {
                assert(self.flushed@.drop_last() =~= before);
                assert(batch_spans(self.flushed@) =~= batch_spans(before) + old(self).buffer@);
                assert(all_spans(*self) =~= all_spans(*old(self)));
                assert(self.flushed@.take(old(self).flushed@.len() as int) =~= old(
                    self,
                ).flushed@);
            }
        }
    }
}

} // verus!
