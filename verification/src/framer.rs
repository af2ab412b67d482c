//! Request Framer: recognises delimited poll-request lines in the
//! subprocess's text output and extracts the requested device slot.
//!
//! A poll request is one whole line of the form `<DELIM>N<DELIM>\n`, where
//! `DELIM` is a reserved framing glyph and `N` is a base-10 non-negative
//! integer.  Any other line is not a request and must be forwarded verbatim.

use vstd::prelude::*;

verus! {

/// The reserved framing glyph (U+2609) that brackets a poll request.
pub open spec fn delimiter() -> char {
    '\u{2609}'
}

/// `c` is an ASCII decimal digit.
pub open spec fn is_ascii_digit(c: char) -> bool {
    48 <= c as int && c as int <= 57
}

/// Numeric value of an ASCII decimal digit.
pub open spec fn digit_value(c: char) -> int {
    c as int - 48
}

/// Every character of `s` is an ASCII decimal digit.
pub open spec fn all_ascii_digits(s: Seq<char>) -> bool {
    forall|i: int| 0 <= i < s.len() ==> is_ascii_digit(#[trigger] s[i])
}

/// Value of `s` read as a base-10 numeral, most significant digit first.
pub open spec fn decimal_value(s: Seq<char>) -> int
    decreases s.len(),
{
    if s.len() == 0 {
        0
    } else {
        decimal_value(s.drop_last()) * 10 + digit_value(s.last())
    }
}

/// `s` is a well-formed poll-request line: the delimiter glyph, at least one
/// decimal digit, the delimiter glyph again, and the line terminator, with
/// nothing else around them.
pub open spec fn is_request_line(s: Seq<char>) -> bool {
    &&& s.len() >= 4
    &&& s[0] == delimiter()
    &&& s[s.len() - 2] == delimiter()
    &&& s[s.len() - 1] == '\n'
    &&& all_ascii_digits(s.subrange(1, s.len() - 2))
}

/// The device slot demanded by a well-formed poll-request line.
pub open spec fn request_slot(s: Seq<char>) -> int {
    decimal_value(s.subrange(1, s.len() - 2))
}

/// The value of an all-digit numeral is non-negative.
pub proof fn lemma_decimal_value_nonneg(s: Seq<char>)
    requires
        all_ascii_digits(s),
    ensures
        decimal_value(s) >= 0,
    decreases s.len(),
{
    if s.len() > 0 {
        assert(all_ascii_digits(s.drop_last()));
        lemma_decimal_value_nonneg(s.drop_last());
        assert(is_ascii_digit(s.last()));
    }
}

/// Reading more digits of an all-digit numeral never lowers its value.
pub proof fn lemma_decimal_value_prefix_le(s: Seq<char>, k: int)
    requires
        all_ascii_digits(s),
        0 <= k <= s.len(),
    ensures
        decimal_value(s.subrange(0, k)) <= decimal_value(s),
    decreases s.len() - k,
{
    if k == s.len() {
        assert(s.subrange(0, k) =~= s);
    } else {
        let t = s.subrange(0, k + 1);
        assert(t.drop_last() =~= s.subrange(0, k));
        assert(all_ascii_digits(t.drop_last()));
        lemma_decimal_value_nonneg(t.drop_last());
        assert(is_ascii_digit(t.last()));
        assert(decimal_value(t) == decimal_value(s.subrange(0, k)) * 10 + digit_value(t.last()));
        assert(decimal_value(s.subrange(0, k)) <= decimal_value(t));
        lemma_decimal_value_prefix_le(s, k + 1);
    }
}

/// Parses one line of subprocess output, terminator included.  Yields the
/// requested device slot when the line is a well-formed poll request whose
/// slot fits the machine; yields `None` for every other line, which the
/// caller must forward unchanged.  A malformed or out-of-range request is
/// never an error: it classifies as "not a request".
pub fn request(line: &str) -> (r: Option<usize>)
    ensures
        match r {
            Some(slot) => is_request_line(line@) && slot == request_slot(line@),
            None => !is_request_line(line@) || request_slot(line@) > usize::MAX,
        },
{
    let n = line.unicode_len();
    if n < 4 {
        return None;
    }
    if line.get_char(0) != '\u{2609}' {
        return None;
    }
    if line.get_char(n - 2) != '\u{2609}' {
        return None;
    }
    if line.get_char(n - 1) != '\n' {
        return None;
    }
    let ghost middle = line@.subrange(1, n - 2);
    let mut slot: usize = 0;
    let mut i: usize = 1;
    while i < n - 2
        invariant
            4 <= n == line@.len(),
            1 <= i <= n - 2,
            middle == line@.subrange(1, n - 2),
            all_ascii_digits(line@.subrange(1, i as int)),
            slot == decimal_value(line@.subrange(1, i as int)),
        decreases n - i,
    {
        let c = line.get_char(i);
        let code = c as u32;
        if code < 48 || code > 57 {
            proof {
                assert(middle[i - 1] == line@[i as int]);
                assert(!all_ascii_digits(middle));
            }
            return None;
        }
        let digit = (code - 48) as usize;
        proof {
            let t = line@.subrange(1, i + 1);
            assert(t.drop_last() =~= line@.subrange(1, i as int));
            assert(t.last() == line@[i as int]);
            assert(decimal_value(t) == slot * 10 + digit);
            assert(t =~= middle.subrange(0, i as int));
            assert forall|j: int| 0 <= j < t.len() implies is_ascii_digit(#[trigger] t[j]) by {
                if j < t.len() - 1 {
                    assert(t[j] == t.drop_last()[j]);
                }
            }
        }
        let scaled = match slot.checked_mul(10) {
            Some(v) => v,
            None => {
                proof {
                    if is_request_line(line@) {
                        lemma_decimal_value_prefix_le(middle, i as int);
                        assert(decimal_value(middle.subrange(0, i as int)) == slot * 10 + digit);
                    }
                }
                return None;
            },
        };
        let next = match scaled.checked_add(digit) {
            Some(v) => v,
            None => {
                proof {
                    if is_request_line(line@) {
                        lemma_decimal_value_prefix_le(middle, i as int);
                        assert(decimal_value(middle.subrange(0, i as int)) == slot * 10 + digit);
                    }
                }
                return None;
            },
        };
        slot = next;
        i = i + 1;
    }
    proof {
        assert(line@.subrange(1, i as int) =~= middle);
        assert(is_request_line(line@));
        assert(request_slot(line@) == slot);
    }
    Some(slot)
}

} // verus!
