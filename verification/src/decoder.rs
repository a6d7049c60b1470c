//! Message decoding: splitting a framed message into a routing header and a
//! payload at the first field delimiter, and parsing payloads as integers or
//! as text.
//!
//! A message with no delimiter carries no routing key and is dropped by the
//! caller. Numeric payloads are trimmed of ASCII whitespace and parsed as
//! decimal; a malformed payload drops the single record and nothing else.

use vstd::prelude::*;
use crate::framer::first_at;
use crate::framer::lemma_first_at;
use crate::framer::find_first;

verus! {

/// The field delimiter separating header from payload: a colon.
pub const FIELD_DELIMITER: u8 = 58;

/// Whether the message holds a field delimiter, and so a routing header.
pub open spec fn has_delimiter(m: Seq<u8>) -> bool {
    first_at(m, FIELD_DELIMITER) < m.len()
}

/// The routing header: everything before the first field delimiter.
pub open spec fn header_of(m: Seq<u8>) -> Seq<u8> {
    m.subrange(0, first_at(m, FIELD_DELIMITER))
}

/// The payload: everything after the first field delimiter, later
/// delimiter occurrences included.
pub open spec fn payload_of(m: Seq<u8>) -> Seq<u8> {
    m.subrange(first_at(m, FIELD_DELIMITER) + 1, m.len() as int)
}

/// Copies `bytes[from..to]` into a fresh vector.
pub fn bytes_range(bytes: &[u8], from: usize, to: usize) -> (r: Vec<u8>)
    requires
        from <= to <= bytes@.len(),
    ensures
        r@ == bytes@.subrange(from as int, to as int),
{
    let mut out: Vec<u8> = Vec::new();
    let mut i: usize = from;
    while i < to
        invariant
            from <= i <= to <= bytes@.len(),
            out@ == bytes@.subrange(from as int, i as int),
        decreases to - i,
    {
        out.push(bytes[i]);
        proof {
            assert(bytes@.subrange(from as int, i as int).push(bytes@[i as int])
                =~= bytes@.subrange(from as int, i + 1));
        }
        i += 1;
    }
    out
}

/// Splits a message on the first field delimiter into `(header, payload)`.
/// Returns nothing when no delimiter occurs: such a message has no routing
/// key and is discarded. Where the payload holds further delimiters they are
/// kept: only the first occurrence splits.
pub fn decode(message: &[u8]) -> (r: Option<(Vec<u8>, Vec<u8>)>)
    ensures
        has_delimiter(message@) ==> (r matches Some(hp) && hp.0@ == header_of(message@)
            && hp.1@ == payload_of(message@)),
        !has_delimiter(message@) ==> r is None,
{
    proof {
        lemma_first_at(message@, FIELD_DELIMITER);
    }
    let split = find_first(message, FIELD_DELIMITER);
    if split == message.len() {
        None
    } else {
        let header = bytes_range(message, 0, split);
        let payload = bytes_range(message, split + 1, message.len());
        Some((header, payload))
    }
}

/// ASCII whitespace, as trimmed from numeric payloads: space, tab, line
/// feed, vertical tab, form feed, carriage return.
pub open spec fn is_ascii_space(b: u8) -> bool {
    b == 32 || (9 <= b && b <= 13)
}

/// Count of leading ASCII whitespace bytes.
pub open spec fn leading_spaces(s: Seq<u8>) -> int
    decreases s.len(),
{
    if s.len() > 0 && is_ascii_space(s[0]) {
        1 + leading_spaces(s.drop_first())
    } else {
        0
    }
}

/// Count of trailing ASCII whitespace bytes.
pub open spec fn trailing_spaces(s: Seq<u8>) -> int
    decreases s.len(),
{
    if s.len() > 0 && is_ascii_space(s.last()) {
        1 + trailing_spaces(s.drop_last())
    } else {
        0
    }
}

/// `s` with leading and trailing ASCII whitespace removed. A sequence of
/// nothing but whitespace trims to the empty sequence.
pub open spec fn trimmed(s: Seq<u8>) -> Seq<u8> {
    if leading_spaces(s) == s.len() {
        Seq::empty()
    } else {
        s.subrange(leading_spaces(s), s.len() - trailing_spaces(s))
    }
}

/// The defining properties of [`leading_spaces`].
pub proof fn lemma_leading_spaces(s: Seq<u8>)
    ensures
        0 <= leading_spaces(s) <= s.len(),
        forall|i: int| 0 <= i < leading_spaces(s) ==> is_ascii_space(s[i]),
        leading_spaces(s) < s.len() ==> !is_ascii_space(s[leading_spaces(s)]),
    decreases s.len(),
{
    if s.len() > 0 && is_ascii_space(s[0]) {
        lemma_leading_spaces(s.drop_first());
        assert forall|i: int| 0 <= i < leading_spaces(s) implies is_ascii_space(s[i]) by {
            if i > 0 {
                assert(s.drop_first()[i - 1] == s[i]);
            }
        }
        if leading_spaces(s) < s.len() {
            assert(s.drop_first()[leading_spaces(s) - 1] == s[leading_spaces(s)]);
        }
    }
}

/// The defining properties of [`trailing_spaces`].
pub proof fn lemma_trailing_spaces(s: Seq<u8>)
    ensures
        0 <= trailing_spaces(s) <= s.len(),
        forall|i: int| s.len() - trailing_spaces(s) <= i < s.len() ==> is_ascii_space(s[i]),
        trailing_spaces(s) < s.len() ==> !is_ascii_space(s[s.len() - trailing_spaces(s) - 1]),
    decreases s.len(),
{
    if s.len() > 0 && is_ascii_space(s.last()) {
        lemma_trailing_spaces(s.drop_last());
        assert forall|i: int| s.len() - trailing_spaces(s) <= i < s.len() implies is_ascii_space(
            s[i],
        ) by {
            if i < s.len() - 1 {
                assert(s.drop_last()[i] == s[i]);
            }
        }
        if trailing_spaces(s) < s.len() {
            assert(s.drop_last()[s.len() - trailing_spaces(s) - 1] == s[s.len() - trailing_spaces(
                s,
            ) - 1]);
        }
    }
}

/// An ASCII decimal digit.
pub open spec fn is_digit(b: u8) -> bool {
    48 <= b && b <= 57
}

/// Whether every byte of `s` is a decimal digit.
pub open spec fn all_digits(s: Seq<u8>) -> bool {
    forall|i: int| 0 <= i < s.len() ==> is_digit(s[i])
}

/// The value of a run of decimal digits, most significant first.
pub open spec fn digits_value(s: Seq<u8>) -> int
    decreases s.len(),
{
    if s.len() == 0 {
        0
    } else {
        digits_value(s.drop_last()) * 10 + (s.last() - 48)
    }
}

/// Whether `s` is exactly an optional sign followed by one or more decimal
/// digits — the texts accepted by a strict, locale-free integer parse.
pub open spec fn is_int_literal(s: Seq<u8>) -> bool {
    if s.len() == 0 {
        false
    } else if s[0] == 43 || s[0] == 45 {
        s.len() > 1 && all_digits(s.drop_first())
    } else {
        all_digits(s)
    }
}

/// The signed value of an integer literal.
pub open spec fn int_value(s: Seq<u8>) -> int {
    if s.len() > 0 && s[0] == 45 {
        -digits_value(s.drop_first())
    } else if s.len() > 0 && s[0] == 43 {
        digits_value(s.drop_first())
    } else {
        digits_value(s)
    }
}

/// A digit run has a non-negative value.
pub proof fn lemma_digits_value_nonneg(s: Seq<u8>)
    requires
        all_digits(s),
    ensures
        digits_value(s) >= 0,
    decreases s.len(),
{
    if s.len() > 0 {
        assert(all_digits(s.drop_last()));
        lemma_digits_value_nonneg(s.drop_last());
    }
}

/// Extending a digit run to the right never lowers its value: the value of
/// any prefix bounds the value of the whole run from below.
pub proof fn lemma_digits_value_prefix_le(s: Seq<u8>, i: int)
    requires
        all_digits(s),
        0 <= i <= s.len(),
    ensures
        digits_value(s.subrange(0, i)) <= digits_value(s),
    decreases s.len() - i,
{
    if i < s.len() {
        lemma_digits_value_prefix_le(s, i + 1);
        let p = s.subrange(0, i + 1);
        assert(p.drop_last() =~= s.subrange(0, i));
        assert(all_digits(s.subrange(0, i)));
        lemma_digits_value_nonneg(s.subrange(0, i));
        assert(digits_value(p) == digits_value(s.subrange(0, i)) * 10 + (s[i] - 48));
    } else {
        assert(s.subrange(0, i) =~= s);
    }
}

} // verus!

verus! {

/// Each byte read as the character with the same code point: what lossy
/// UTF-8 decoding yields on pure-ASCII input.
pub open spec fn ascii_chars_of(s: Seq<u8>) -> Seq<char> {
    s.map(|i: int, b: u8| b as char)
}

/// The text that lossy UTF-8 decoding yields for a byte sequence: valid
/// UTF-8 runs are kept, invalid sequences are replaced. It depends on the
/// bytes alone; its exact shape is not restated here.
pub uninterp spec fn lossy_utf8(bytes: Seq<u8>) -> Seq<char>;

/// Payload parsers. Numeric payloads are trimmed of ASCII whitespace and
/// parsed as strict decimal text; text payloads are decoded as lossy UTF-8.
pub struct Parser {}

impl Parser {
    /// Parses a payload as a decimal integer: optional sign, then digits,
    /// with surrounding ASCII whitespace ignored. Returns nothing — dropping
    /// the record — when the trimmed payload is not exactly such a literal
    /// or its value does not fit.
    #[verifier::loop_isolation(false)]
    pub fn parse_int(buffer: &[u8]) -> (r: Option<i32>)
        ensures
            ({
                let t = trimmed(buffer@);
                if is_int_literal(t) && i32::MIN <= int_value(t) <= i32::MAX {
                    r == Some(int_value(t) as i32)
                } else {
                    r is None
                }
            }),
    {
        let ghost s = buffer@;
        proof {
            lemma_leading_spaces(s);
            lemma_trailing_spaces(s);
        }
        let len = buffer.len();
        let mut start: usize = 0;
        while start < len && (buffer[start] == 32 || (9 <= buffer[start] && buffer[start] <= 13))
            invariant
                0 <= start <= len == s.len(),
                forall|j: int| 0 <= j < start ==> is_ascii_space(s[j]),
            decreases len - start,
        {
            start += 1;
        }
        proof {
            assert(start == leading_spaces(s));
        }
        if start == len {
            return None;
        }
        let mut end: usize = len;
        while end > start && (buffer[end - 1] == 32 || (9 <= buffer[end - 1] && buffer[end - 1]
            <= 13))
            invariant
                start <= end <= len == s.len(),
                forall|j: int| end <= j < len ==> is_ascii_space(s[j]),
            decreases end,
        {
            end -= 1;
        }
        proof {
            assert(!is_ascii_space(s[start as int]));
            assert(trailing_spaces(s) < s.len());
            assert(start < s.len() - trailing_spaces(s));
            assert(end == s.len() - trailing_spaces(s));
            assert(trimmed(s) =~= s.subrange(start as int, end as int));
        }
        let ghost t = trimmed(s);
        let neg: bool = buffer[start] == 45;
        let digstart: usize = if buffer[start] == 43 || buffer[start] == 45 {
            start + 1
        } else {
            start
        };
        if digstart == end {
            // A bare sign, with no digits, is no literal.
            proof {
                if digstart > start {
                    assert(!is_int_literal(t));
                } else {
                    assert(!is_digit(t[0]));
                    assert(!is_int_literal(t));
                }
            }
            return None;
        }
        let ghost digits = s.subrange(digstart as int, end as int);
        proof {
            if digstart > start {
                assert(t.drop_first() =~= digits);
            } else {
                assert(t =~= digits);
            }
        }
        let mut mag: u64 = 0;
        let mut i: usize = digstart;
        while i < end
            invariant
                digstart <= i <= end <= s.len(),
                s == buffer@,
                digits == s.subrange(digstart as int, end as int),
                all_digits(s.subrange(digstart as int, i as int)),
                mag == digits_value(s.subrange(digstart as int, i as int)),
                mag <= 2147483648,
            decreases end - i,
        {
            let b = buffer[i];
            let ghost prefix = s.subrange(digstart as int, i as int);
            if b < 48 || b > 57 {
                // A non-digit inside the trimmed payload: not a literal.
                proof {
                    assert(digits[i - digstart] == s[i as int]);
                    assert(!all_digits(digits));
                    if digstart > start {
                        assert(!is_int_literal(t));
                    } else {
                        assert(!is_int_literal(t));
                    }
                }
                return None;
            }
            mag = mag * 10 + ((b - 48) as u64);
            proof {
                assert(s.subrange(digstart as int, i + 1).drop_last() =~= prefix);
            }
            i += 1;
            if mag > 2147483648 {
                // The magnitude already exceeds every i32; if the remaining
                // bytes are digits too, they can only raise it, and if they
                // are not, the payload is no literal at all.
                proof {
                    if is_int_literal(t) {
                        assert(all_digits(digits));
                        lemma_digits_value_prefix_le(digits, i - digstart);
                        assert(s.subrange(digstart as int, i as int) =~= digits.subrange(
                            0,
                            i - digstart,
                        ));
                        assert(digits_value(digits) > 2147483648);
                    }
                }
                return None;
            }
        }
        proof {
            assert(s.subrange(digstart as int, i as int) =~= digits);
        }
        if neg {
            proof {
                lemma_digits_value_nonneg(digits);
            }
            Some((-(mag as i64)) as i32)
        } else {
            if mag > 2147483647 {
                return None;
            }
            Some(mag as u32 as i32)
        }
    }

    /// Decodes a payload as text. Relies on `String::from_utf8_lossy`: the
    /// result is a function of the bytes alone, invalid UTF-8 sequences are
    /// replaced rather than failing, and pure-ASCII input decodes to the
    /// characters with the same code points.
    #[verifier::external_body]
    pub fn parse_string(buffer: &[u8]) -> (r: String)
        ensures
            r@ == lossy_utf8(buffer@),
            (forall|i: int| 0 <= i < buffer@.len() ==> buffer@[i] < 128) ==> r@ == ascii_chars_of(
                buffer@,
            ),
    {
        String::from_utf8_lossy(buffer).to_string()
    }
}

} // verus!
