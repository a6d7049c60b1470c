//! The sliding sample window: an ordered buffer of `(ordering key, value)`
//! samples per telemetry stream, evicted from the front once older than a
//! fixed span behind the newest sample, and cleared whenever the ordering
//! key regresses — a regression signals a new session (device restart,
//! counter wrap).
//!
//! The ordering key is an integer: either a synthetic sample counter or a
//! fixed-point time offset, chosen once per deployment and never mixed
//! within one window. The value is carried opaquely (for measurements it is
//! the bit pattern of the decoded number); the window orders and evicts by
//! the key alone.

use vstd::prelude::*;
use std::collections::VecDeque;

verus! {

/// One plotted sample: `x` is the ordering key (sample index or time
/// offset), `y` the encoded measurement value, carried but never inspected.
#[derive(Clone, Copy, Debug, PartialEq, Eq, Structural)]
pub struct Measurement {
    pub x: i64,
    pub y: u64,
}

/// `s` with samples evicted from the front while they lie more than `span`
/// behind the ordering key `newest`.
pub open spec fn evict_front(s: Seq<Measurement>, newest: int, span: int) -> Seq<Measurement>
    decreases s.len(),
{
    if s.len() > 0 && (s[0].x as int) < newest - span {
        evict_front(s.drop_first(), newest, span)
    } else {
        s
    }
}

/// The retained contents after adding `m`: a regression (a key below the
/// newest retained key) clears the window first, then `m` is appended and
/// the front evicted by span.
pub open spec fn window_after_add(s: Seq<Measurement>, m: Measurement, span: int) -> Seq<
    Measurement,
> {
    let base = if s.len() > 0 && m.x < s.last().x {
        Seq::empty()
    } else {
        s
    };
    evict_front(base.push(m), m.x as int, span)
}

/// Samples sorted by ordering key, and the whole window no wider than
/// `span`: the invariant every sequence of `add` calls maintains.
pub open spec fn window_wf(s: Seq<Measurement>, span: int) -> bool {
    &&& forall|i: int, j: int| 0 <= i <= j < s.len() ==> s[i].x <= s[j].x
    &&& s.len() > 0 ==> s.last().x - s[0].x <= span
}

/// Eviction only drops a (possibly empty) prefix, and what it keeps ends
/// within `span` of `newest`.
proof fn lemma_evict_front(s: Seq<Measurement>, newest: int, span: int)
    ensures
        evict_front(s, newest, span).len() <= s.len(),
        forall|i: int|
            0 <= i < evict_front(s, newest, span).len() ==> evict_front(s, newest, span)[i] == s[i
                + (s.len() - evict_front(s, newest, span).len())],
        evict_front(s, newest, span).len() > 0 ==> (evict_front(s, newest, span)[0].x as int)
            >= newest - span,
    decreases s.len(),
{
    if s.len() > 0 && (s[0].x as int) < newest - span {
        lemma_evict_front(s.drop_first(), newest, span);
        assert(forall|i: int|
            0 <= i < s.drop_first().len() ==> s.drop_first()[i] == s[i + 1]);
    }
}

/// A fixed-span sliding window of samples, exclusively owned by the
/// consuming context that renders it. Its view is the retained sample
/// sequence, oldest first.
#[derive(Clone)]
pub struct MeasurementWindow {
    values: VecDeque<Measurement>,
    window_size: usize,
}

impl View for MeasurementWindow {
    type V = Seq<Measurement>;

    closed spec fn view(&self) -> Seq<Measurement> {
        self.values@
    }
}

impl MeasurementWindow {
    /// The configured span: the largest key distance the window retains.
    pub closed spec fn spec_window_size(&self) -> int {
        self.window_size as int
    }

    /// Builds an empty window that looks `window_size` key units behind the
    /// newest sample.
    pub fn new_with_look_behind(window_size: usize) -> (r: Self)
        ensures
            r@ == Seq::<Measurement>::empty(),
            r.spec_window_size() == window_size,
    {
        MeasurementWindow { values: VecDeque::new(), window_size }
    }

    /// The configured span.
    pub fn window_size(&self) -> (r: usize)
        ensures
            r == self.spec_window_size(),
    {
        self.window_size
    }

    /// Adds one sample: clears the window first when the sample's key
    /// regresses below the newest retained key, appends, then evicts from
    /// the front everything more than the span behind the new sample.
    /// Keeps the window well-formed — sorted by key, never wider than the
    /// span — and a regression leaves exactly the new sample.
    #[verifier::loop_isolation(false)]
    pub fn add(&mut self, measurement: Measurement)
        requires
            window_wf(old(self)@, old(self).spec_window_size()),
        ensures
            final(self)@ == window_after_add(
                old(self)@,
                measurement,
                old(self).spec_window_size(),
            ),
            final(self).spec_window_size() == old(self).spec_window_size(),
            window_wf(final(self)@, final(self).spec_window_size()),
            (old(self)@.len() > 0 && measurement.x < old(self)@.last().x) ==> final(self)@
                == seq![measurement],
    {
        let ghost span = self.window_size as int;
        if self.values.len() > 0 {
            let last = self.values[self.values.len() - 1];
            if measurement.x < last.x {
                self.values.clear();
            }
        }
        let ghost base = self.values@;
        self.values.push_back(measurement);
        let newest_x = measurement.x;
        proof {
            lemma_evict_front(base.push(measurement), newest_x as int, span);
        }
        while self.values.len() > 0 && (self.values[0].x as i128) < (newest_x as i128) - (
        self.window_size as i128)
            invariant
                self.window_size as int == span,
                evict_front(self.values@, newest_x as int, span) == evict_front(
                    base.push(measurement),
                    newest_x as int,
                    span,
                ),
                self.values@.len() > 0,
                self.values@.last() == measurement,
            decreases self.values@.len(),
        {
            proof {
                assert(self.values@.drop_first().last() == measurement);
                assert(forall|i: int|
                    0 <= i < self.values@.drop_first().len() ==> self.values@.drop_first()[i]
                        == self.values@[i + 1]);
            }
            self.values.pop_front();
        }
        proof {
            assert(self.values@ == evict_front(base.push(measurement), newest_x as int, span));
            lemma_evict_front(base.push(measurement), newest_x as int, span);
            assert(window_wf(self.values@, span)) by {
                let e = self.values@;
                let b = base.push(measurement);
                let off = b.len() - e.len();
                assert(forall|i: int, j: int| 0 <= i <= j < b.len() ==> b[i].x <= b[j].x);
                assert(forall|i: int, j: int| 0 <= i <= j < e.len() ==> e[i].x <= e[j].x) by {
                    assert(forall|i: int| 0 <= i < e.len() ==> e[i] == b[i + off]);
                }
                if e.len() > 0 {
                    assert(e.last() == b[e.len() - 1 + off]);
                    assert(e.last() == measurement);
                }
            }
        }
    }

    /// A consistent point-in-time copy of the retained samples, oldest
    /// first, for read-only rendering.
    pub fn snapshot(&self) -> (r: Vec<Measurement>)
        ensures
            r@ == self@,
    {
        let mut out: Vec<Measurement> = Vec::new();
        let mut i: usize = 0;
        while i < self.values.len()
            invariant
                i <= self.values@.len(),
                out@ == self.values@.subrange(0, i as int),
            decreases self.values@.len() - i,
        {
            out.push(self.values[i]);
            proof {
                assert(self.values@.subrange(0, i as int).push(self.values@[i as int])
                    =~= self.values@.subrange(0, i + 1));
            }
            i += 1;
        }
        proof {
            assert(self.values@.subrange(0, self.values@.len() as int) =~= self.values@);
        }
        out
    }

    /// The number of retained samples.
    pub fn len(&self) -> (r: usize)
        ensures
            r == self@.len(),
    {
        self.values.len()
    }
}

} // verus!
