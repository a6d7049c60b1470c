//! Frame extraction: turning a raw, possibly fragmented byte stream into
//! discrete messages, each terminated by a line feed.
//!
//! The accumulated-but-unframed bytes live in a [`FrameExtractor`]; its
//! mathematical view is the byte sequence still held. The functions
//! [`messages`] and [`remainder`] say, for any byte sequence, which complete
//! messages it contains and what is left once they are removed;
//! [`lemma_framing_chunk_invariant`] shows that framing does not depend on
//! how the stream was cut into read chunks.

use vstd::prelude::*;

verus! {

/// The message terminator: a line feed byte. No escaping exists, so every
/// occurrence ends a message.
pub const TERMINATOR: u8 = 10;

/// Index of the first occurrence of `target` in `s`, or `s.len()` if absent.
pub open spec fn first_at(s: Seq<u8>, target: u8) -> int
    decreases s.len(),
{
    if s.len() == 0 {
        0
    } else if s[0] == target {
        0
    } else {
        1 + first_at(s.drop_first(), target)
    }
}

/// The defining properties of [`first_at`]: it is in bounds, everything
/// before it differs from `target`, and it points at `target` when in range.
pub proof fn lemma_first_at(s: Seq<u8>, target: u8)
    ensures
        0 <= first_at(s, target) <= s.len(),
        forall|i: int| 0 <= i < first_at(s, target) ==> s[i] != target,
        first_at(s, target) < s.len() ==> s[first_at(s, target)] == target,
    decreases s.len(),
{
    if s.len() > 0 && s[0] != target {
        lemma_first_at(s.drop_first(), target);
        assert(forall|i: int| 0 <= i < first_at(s, target) ==> s[i] != target) by {
            assert forall|i: int| 0 <= i < first_at(s, target) implies s[i] != target by {
                if i > 0 {
                    assert(s.drop_first()[i - 1] == s[i]);
                }
            }
        }
        if first_at(s, target) < s.len() {
            assert(s.drop_first()[first_at(s, target) - 1] == s[first_at(s, target)]);
        }
    }
}

/// `first_at` looks only at the prefix up to the first hit: appending more
/// bytes either leaves the hit in place or shifts the search into the suffix.
pub proof fn lemma_first_at_concat(a: Seq<u8>, b: Seq<u8>, target: u8)
    ensures
        first_at(a + b, target) == if first_at(a, target) < a.len() {
            first_at(a, target)
        } else {
            a.len() + first_at(b, target)
        },
    decreases a.len(),
{
    lemma_first_at(a, target);
    if a.len() == 0 {
        assert(a + b =~= b);
    } else if (a + b)[0] == target {
    } else {
        lemma_first_at_concat(a.drop_first(), b, target);
        assert((a + b).drop_first() =~= a.drop_first() + b);
    }
}

/// Whether `s` holds at least one complete (terminated) message.
pub open spec fn has_frame(s: Seq<u8>) -> bool {
    first_at(s, TERMINATOR) < s.len()
}

/// The first complete message in `s`, terminator included.
pub open spec fn first_message(s: Seq<u8>) -> Seq<u8> {
    s.subrange(0, first_at(s, TERMINATOR) + 1)
}

/// What is left of `s` once its first complete message is removed.
pub open spec fn after_first(s: Seq<u8>) -> Seq<u8> {
    s.subrange(first_at(s, TERMINATOR) + 1, s.len() as int)
}

/// All complete messages held by `s`, in stream order, each with its
/// terminator.
pub open spec fn messages(s: Seq<u8>) -> Seq<Seq<u8>>
    decreases s.len(),
    via messages_decreases
{
    if has_frame(s) {
        seq![first_message(s)] + messages(after_first(s))
    } else {
        Seq::empty()
    }
}

#[via_fn]
proof fn messages_decreases(s: Seq<u8>) {
    lemma_first_at(s, TERMINATOR);
}

/// The unterminated tail of `s`: what remains in the accumulator after every
/// complete message has been taken.
pub open spec fn remainder(s: Seq<u8>) -> Seq<u8>
    decreases s.len(),
    via remainder_decreases
{
    if has_frame(s) {
        remainder(after_first(s))
    } else {
        s
    }
}

#[via_fn]
proof fn remainder_decreases(s: Seq<u8>) {
    lemma_first_at(s, TERMINATOR);
}

/// Framing is independent of chunking: the messages of a stream `a + b` are
/// the messages already complete in `a`, followed by the messages completed
/// once `b` arrives on top of `a`'s unterminated tail — so feeding a stream
/// byte by byte, or all at once, extracts the identical message sequence.
pub proof fn lemma_framing_chunk_invariant(a: Seq<u8>, b: Seq<u8>)
    ensures
        messages(a + b) == messages(a) + messages(remainder(a) + b),
        remainder(a + b) == remainder(remainder(a) + b),
    decreases a.len(),
{
    lemma_first_at(a, TERMINATOR);
    lemma_first_at_concat(a, b, TERMINATOR);
    if !has_frame(a) {
        assert(remainder(a) + b =~= a + b);
        assert(messages(a) + messages(a + b) =~= messages(a + b));
    } else {
        let t = first_at(a, TERMINATOR);
        assert(first_message(a + b) =~= first_message(a));
        assert(after_first(a + b) =~= after_first(a) + b);
        lemma_framing_chunk_invariant(after_first(a), b);
        assert(messages(a) =~= seq![first_message(a)] + messages(after_first(a)));
        assert(messages(a + b) =~= seq![first_message(a)] + messages(after_first(a) + b));
        assert(messages(a + b) =~= messages(a) + messages(remainder(a) + b));
    }
}

/// Reassembles newline-terminated messages from arbitrarily fragmented
/// reads. Bytes are appended with [`FrameExtractor::feed`] and complete
/// messages removed with [`FrameExtractor::try_take_message`]; the view of
/// the extractor is the byte sequence it still holds.
pub struct FrameExtractor {
    buffer: Vec<u8>,
}

impl View for FrameExtractor {
    type V = Seq<u8>;

    closed spec fn view(&self) -> Seq<u8> {
        self.buffer@
    }
}

/// Index of the first occurrence of `target` in `bytes`, or `bytes.len()`
/// when it does not occur.
pub fn find_first(bytes: &[u8], target: u8) -> (r: usize)
    ensures
        r == first_at(bytes@, target),
{
    proof {
        lemma_first_at(bytes@, target);
    }
    let mut i: usize = 0;
    while i < bytes.len()
        invariant
            i <= bytes@.len(),
            forall|j: int| 0 <= j < i ==> bytes@[j] != target,
            0 <= first_at(bytes@, target) <= bytes@.len(),
            forall|j: int| 0 <= j < first_at(bytes@, target) ==> bytes@[j] != target,
            first_at(bytes@, target) < bytes@.len() ==> bytes@[first_at(bytes@, target)]
                == target,
        decreases bytes@.len() - i,
    {
        if bytes[i] == target {
            return i;
        }
        i += 1;
    }
    i
}

impl FrameExtractor {
    /// A fresh extractor holding no bytes.
    pub fn new() -> (r: Self)
        ensures
            r@ == Seq::<u8>::empty(),
    {
        FrameExtractor { buffer: Vec::new() }
    }

    /// Appends newly read bytes to the accumulator. No bound is enforced on
    /// its growth: a stream that never emits a terminator grows it without
    /// limit.
    pub fn feed(&mut self, bytes: &[u8])
        ensures
            final(self)@ == old(self)@ + bytes@,
    {
        let ghost orig = self.buffer@;
        let mut i: usize = 0;
        while i < bytes.len()
            invariant
                i <= bytes@.len(),
                self.buffer@ == orig + bytes@.subrange(0, i as int),
            decreases bytes@.len() - i,
        {
            self.buffer.push(bytes[i]);
            proof {
                assert(orig + bytes@.subrange(0, i as int) + seq![bytes@[i as int]] =~= orig
                    + bytes@.subrange(0, i + 1));
            }
            i += 1;
        }
        proof {
            assert(bytes@.subrange(0, bytes@.len() as int) =~= bytes@);
        }
    }

    /// Removes and returns the bytes up to and including the first
    /// terminator, or returns nothing while no message is complete. After a
    /// `feed` this must be called repeatedly until it returns nothing, since
    /// one read may complete zero, one, or many messages.
    pub fn try_take_message(&mut self) -> (r: Option<Vec<u8>>)
        ensures
            has_frame(old(self)@) ==> (r matches Some(m) && m@ == first_message(old(self)@)
                && final(self)@ == after_first(old(self)@)),
            !has_frame(old(self)@) ==> r is None && final(self)@ == old(self)@,
    {
        proof {
            lemma_first_at(self.buffer@, TERMINATOR);
        }
        let end = find_first(self.buffer.as_slice(), TERMINATOR);
        if end == self.buffer.len() {
            None
        } else {
            let mut tail = self.buffer.split_off(end + 1);
            core::mem::swap(&mut self.buffer, &mut tail);
            Some(tail)
        }
    }

    /// Removes and returns every complete message now held, in stream order.
    pub fn drain_messages(&mut self) -> (r: Vec<Vec<u8>>)
        ensures
            r@.map(|i: int, m: Vec<u8>| m@) == messages(old(self)@),
            final(self)@ == remainder(old(self)@),
            !has_frame(final(self)@),
    {
        let ghost orig = self@;
        let mut out: Vec<Vec<u8>> = Vec::new();
        loop
            invariant_except_break
                out@.map(|i: int, m: Vec<u8>| m@) + messages(self@) == messages(orig),
                remainder(self@) == remainder(orig),
            ensures
                out@.map(|i: int, m: Vec<u8>| m@) == messages(orig),
                self@ == remainder(orig),
                !has_frame(self@),
            decreases self@.len(),
        {
            proof {
                lemma_first_at(self.buffer@, TERMINATOR);
            }
            match self.try_take_message() {
                Some(msg) => {
                    proof {
                        let f = |i: int, m: Vec<u8>| m@;
                        assert(out@.push(msg).map(f) =~= out@.map(f) + seq![msg@]);
                        assert(out@.map(f) + seq![msg@] + messages(self@) =~= out@.map(f) + (
                        seq![msg@] + messages(self@)));
                    }
                    out.push(msg);
                },
                None => {
                    proof {
                        assert(out@.map(|i: int, m: Vec<u8>| m@) + Seq::<Seq<u8>>::empty()
                            =~= out@.map(|i: int, m: Vec<u8>| m@));
                    }
                    break ;
                },
            }
        }
        out
    }
}

} // verus!
