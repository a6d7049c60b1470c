//! The ingest pipeline: one worker owns the stream handle, feeds every read
//! chunk through the frame extractor, decodes each complete message, and
//! routes it by the header registry. Telemetry records come out stamped with
//! a monotonically increasing sample index owned by this state — never a
//! shared counter; debug-text records come out with their raw payload. What
//! cannot be framed yet stays buffered for the next chunk; messages without
//! a delimiter or with an unknown header are dropped.
//!
//! Reading the device and parsing numeric payloads into machine floats stay
//! with the caller: the pipeline itself is a pure function from the bytes
//! read to the routed records.

use vstd::prelude::*;
use crate::framer::FrameExtractor;
use crate::framer::messages;
use crate::framer::remainder;
use crate::decoder::decode;
use crate::decoder::has_delimiter;
use crate::decoder::header_of;
use crate::decoder::payload_of;
use crate::registry::HeaderKind;
use crate::registry::StreamId;
use crate::registry::lookup_header;
use crate::registry::spec_lookup;

verus! {

/// A routed record, at the specification level.
pub enum SpecEvent {
    /// A telemetry record: the stream its header names, the sample index
    /// stamped on it, and its still-unparsed payload bytes.
    Telemetry { stream: StreamId, index: int, payload: Seq<u8> },
    /// A debug-text record with its raw payload bytes.
    DebugText { payload: Seq<u8> },
}

/// A routed record handed to the caller: a telemetry sample still carrying
/// its payload bytes (numeric parsing is the caller's, per stream), or a
/// debug-text payload.
#[derive(Debug, PartialEq)]
pub enum IngestEvent {
    Telemetry { stream: StreamId, index: i64, payload: Vec<u8> },
    DebugText { payload: Vec<u8> },
}

impl View for IngestEvent {
    type V = SpecEvent;

    open spec fn view(&self) -> SpecEvent {
        match self {
            IngestEvent::Telemetry { stream, index, payload } => SpecEvent::Telemetry {
                stream: *stream,
                index: *index as int,
                payload: payload@,
            },
            IngestEvent::DebugText { payload } => SpecEvent::DebugText { payload: payload@ },
        }
    }
}

/// The views of a sequence of routed records.
pub open spec fn events_view(es: Seq<IngestEvent>) -> Seq<SpecEvent> {
    es.map(|i: int, e: IngestEvent| e@)
}

/// The sample index after stamping one more sample: it increases by one
/// until the counter's top, where it stays.
pub open spec fn sat_inc(index: int) -> int {
    if index < i64::MAX {
        index + 1
    } else {
        index
    }
}

/// How one framed message routes: nothing without a delimiter or for an
/// unknown header; a telemetry record stamped `index` for a registered
/// stream; a debug-text record for the debug header.
pub open spec fn route_message(m: Seq<u8>, index: int) -> Option<SpecEvent> {
    if !has_delimiter(m) {
        None
    } else {
        match spec_lookup(header_of(m)) {
            HeaderKind::Stream(id) => Some(
                SpecEvent::Telemetry { stream: id, index, payload: payload_of(m) },
            ),
            HeaderKind::Debug => Some(SpecEvent::DebugText { payload: payload_of(m) }),
            HeaderKind::Unknown => None,
        }
    }
}

/// The sample index left after routing one message.
pub open spec fn index_after_message(m: Seq<u8>, index: int) -> int {
    match route_message(m, index) {
        Some(SpecEvent::Telemetry { .. }) => sat_inc(index),
        _ => index,
    }
}

/// The records one message contributes: one or none.
pub open spec fn head_events(m: Seq<u8>, index: int) -> Seq<SpecEvent> {
    match route_message(m, index) {
        Some(e) => seq![e],
        None => Seq::<SpecEvent>::empty(),
    }
}

/// The records routed from a run of messages, in order, threading the
/// sample index through.
pub open spec fn route_all(ms: Seq<Seq<u8>>, index: int) -> Seq<SpecEvent>
    decreases ms.len(),
{
    if ms.len() == 0 {
        Seq::empty()
    } else {
        head_events(ms[0], index) + route_all(ms.drop_first(), index_after_message(ms[0], index))
    }
}

/// The sample index left after routing a run of messages.
pub open spec fn index_after_all(ms: Seq<Seq<u8>>, index: int) -> int
    decreases ms.len(),
{
    if ms.len() == 0 {
        index
    } else {
        index_after_all(ms.drop_first(), index_after_message(ms[0], index))
    }
}

/// Routing a single message yields just its contribution.
pub proof fn lemma_route_all_single(m: Seq<u8>, index: int)
    ensures
        route_all(seq![m], index) == head_events(m, index),
        index_after_all(seq![m], index) == index_after_message(m, index),
{
    reveal_with_fuel(route_all, 2);
    reveal_with_fuel(index_after_all, 2);
    assert(seq![m].drop_first() =~= Seq::<Seq<u8>>::empty());
    assert(head_events(m, index) + Seq::<SpecEvent>::empty() =~= head_events(m, index));
}

/// Routing distributes over splitting a message run: the records of `a + b`
/// are the records of `a` followed by those of `b` started at the index `a`
/// left behind.
pub proof fn lemma_route_all_concat(a: Seq<Seq<u8>>, b: Seq<Seq<u8>>, index: int)
    ensures
        route_all(a + b, index) == route_all(a, index) + route_all(b, index_after_all(a, index)),
        index_after_all(a + b, index) == index_after_all(b, index_after_all(a, index)),
    decreases a.len(),
{
    if a.len() == 0 {
        assert(a + b =~= b);
        assert(route_all(a, index) + route_all(b, index) =~= route_all(b, index));
    } else {
        assert((a + b)[0] == a[0]);
        assert((a + b).drop_first() =~= a.drop_first() + b);
        lemma_route_all_concat(a.drop_first(), b, index_after_message(a[0], index));
        assert(head_events(a[0], index) + (route_all(
            a.drop_first(),
            index_after_message(a[0], index),
        ) + route_all(b, index_after_all(a, index))) =~= route_all(a, index) + route_all(
            b,
            index_after_all(a, index),
        ));
    }
}

/// The ingest worker's state: the frame extractor's accumulator and the
/// sample index owned by this worker, stamped on each telemetry record.
pub struct IngestState {
    extractor: FrameExtractor,
    next_index: i64,
}

impl IngestState {
    /// The bytes read but not yet framed into a message.
    pub closed spec fn buffered(&self) -> Seq<u8> {
        self.extractor@
    }

    /// The index the next telemetry record will be stamped with.
    pub closed spec fn spec_next_index(&self) -> int {
        self.next_index as int
    }

    /// A fresh pipeline: nothing buffered, the sample counter at zero.
    pub fn new() -> (r: Self)
        ensures
            r.buffered() == Seq::<u8>::empty(),
            r.spec_next_index() == 0,
    {
        IngestState { extractor: FrameExtractor::new(), next_index: 0 }
    }

    /// Ingests one read chunk: frames it on top of what was buffered,
    /// routes every message completed by it, and buffers the unterminated
    /// tail. The records returned are exactly those routed from the newly
    /// complete messages, telemetry stamped with consecutive indices.
    #[verifier::loop_isolation(false)]
    pub fn ingest_chunk(&mut self, bytes: &[u8]) -> (events: Vec<IngestEvent>)
        ensures
            final(self).buffered() == remainder(old(self).buffered() + bytes@),
            events_view(events@) == route_all(
                messages(old(self).buffered() + bytes@),
                old(self).spec_next_index(),
            ),
            final(self).spec_next_index() == index_after_all(
                messages(old(self).buffered() + bytes@),
                old(self).spec_next_index(),
            ),
    {
        let ghost stream_bytes = self.extractor@ + bytes@;
        let ghost index0 = self.next_index as int;
        self.extractor.feed(bytes);
        let msgs = self.extractor.drain_messages();
        let ghost mseq = msgs@.map(|i: int, m: Vec<u8>| m@);
        let mut events: Vec<IngestEvent> = Vec::new();
        let mut i: usize = 0;
        while i < msgs.len()
            invariant
                i <= msgs@.len(),
                events_view(events@) == route_all(mseq.subrange(0, i as int), index0),
                self.next_index as int == index_after_all(mseq.subrange(0, i as int), index0),
                self.extractor@ == remainder(stream_bytes),
            decreases msgs@.len() - i,
        {
            let ghost done = mseq.subrange(0, i as int);
            let ghost cur = mseq[i as int];
            let ghost idx = self.next_index as int;
            proof {
                assert(mseq.subrange(0, i + 1) =~= done + seq![cur]);
                lemma_route_all_concat(done, seq![cur], index0);
                lemma_route_all_single(cur, idx);
            }
            let msg = &msgs[i];
            if let Some((header, payload)) = decode(msg.as_slice()) {
                match lookup_header(header.as_slice()) {
                    HeaderKind::Stream(id) => {
                        let ev = IngestEvent::Telemetry {
                            stream: id,
                            index: self.next_index,
                            payload,
                        };
                        proof {
                            assert(events_view(events@.push(ev)) =~= events_view(events@)
                                + seq![ev@]);
                        }
                        events.push(ev);
                        if self.next_index < i64::MAX {
                            self.next_index = self.next_index + 1;
                        }
                    },
                    HeaderKind::Debug => {
                        let ev = IngestEvent::DebugText { payload };
                        proof {
                            assert(events_view(events@.push(ev)) =~= events_view(events@)
                                + seq![ev@]);
                        }
                        events.push(ev);
                    },
                    HeaderKind::Unknown => {
                        proof {
                            assert(events_view(events@) + head_events(cur, idx) =~= events_view(
                                events@,
                            ));
                        }
                    },
                }
            } else {
                proof {
                    assert(events_view(events@) + head_events(cur, idx) =~= events_view(events@));
                }
            }
            i += 1;
        }
        proof {
            assert(mseq.subrange(0, mseq.len() as int) =~= mseq);
        }
        events
    }
}

} // verus!
