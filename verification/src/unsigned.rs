//! The grammar and value of unsigned integer fields.
//!
//! Diameters and the amplitude are entered as plain decimal digit strings:
//! no sign, no fractional part, and a value that fits in a `u32`.

use vstd::prelude::*;

use crate::chars::{all_digits, check_digit, digit_value, is_digit};

verus! {

/// A non-negative integer literal: one or more decimal digits, nothing else.
pub open spec fn is_uint_string(s: Seq<char>) -> bool {
    s.len() > 0 && all_digits(s)
}

/// The number a digit string denotes, read in base ten.
pub open spec fn uint_value(s: Seq<char>) -> int
    decreases s.len(),
{
    if s.len() == 0 {
        0
    } else {
        uint_value(s.drop_last()) * 10 + digit_value(s.last())
    }
}

/// `s` is a digit string whose value fits in a `u32`.
pub open spec fn parses_as_u32(s: Seq<char>) -> bool {
    is_uint_string(s) && uint_value(s) <= u32::MAX
}

/// Reading one more digit multiplies the prefix value by ten and adds the digit.
proof fn lemma_uint_value_step(s: Seq<char>, i: int)
    requires
        0 <= i < s.len(),
    ensures
        uint_value(s.take(i + 1)) == uint_value(s.take(i)) * 10 + digit_value(s[i]),
{
    assert(s.take(i + 1).drop_last() =~= s.take(i));
    assert(s.take(i + 1).last() == s[i]);
}

/// A digit string denotes a non-negative number.
proof fn lemma_uint_value_nonneg(s: Seq<char>)
    requires
        all_digits(s),
    ensures
        uint_value(s) >= 0,
    decreases s.len(),
{
    if s.len() > 0 {
        assert(all_digits(s.drop_last())) by {
            assert(forall|i: int|
                0 <= i < s.drop_last().len() ==> #[trigger] s.drop_last()[i] == s[i]);
        }
        lemma_uint_value_nonneg(s.drop_last());
        assert(is_digit(s.last()));
    }
}

/// In a digit string, every prefix denotes at most the whole string's value.
proof fn lemma_uint_prefix_le(s: Seq<char>, k: int)
    requires
        all_digits(s),
        0 <= k <= s.len(),
    ensures
        uint_value(s.take(k)) <= uint_value(s),
    decreases s.len() - k,
{
    if k == s.len() {
        assert(s.take(k) =~= s);
    } else {
        lemma_uint_value_step(s, k);
        assert(all_digits(s.take(k))) by {
            assert(forall|i: int| 0 <= i < k ==> #[trigger] s.take(k)[i] == s[i]);
        }
        lemma_uint_value_nonneg(s.take(k));
        assert(is_digit(s[k]));
        lemma_uint_prefix_le(s, k + 1);
    }
}

/// Parses a digit string into the `u32` it denotes.
///
/// Returns `None` exactly when the string is not a digit string or its value
/// does not fit in a `u32`.
pub fn parse_unsigned(s: &str) -> (r: Option<u32>)
    ensures
        r is Some <==> parses_as_u32(s@),
        r is Some ==> r->0 == uint_value(s@),
{
    let n = s.unicode_len();
    if n == 0 {
        return None;
    }
    let mut acc: u32 = 0;
    let mut i: usize = 0;
    while i < n
        invariant
            0 <= i <= n,
            n == s@.len(),
            forall|j: int| 0 <= j < i ==> is_digit(#[trigger] s@[j]),
            acc == uint_value(s@.take(i as int)),
        decreases n - i,
    {
        let c = s.get_char(i);
        if !check_digit(c) {
            assert(!is_uint_string(s@));
            return None;
        }
        let d: u32 = (c as u32) - 48;
        proof {
            lemma_uint_value_step(s@, i as int);
            assert(d == digit_value(s@[i as int]));
        }
        let next = match acc.checked_mul(10) {
            Some(m) => m.checked_add(d),
            None => None,
        };
        match next {
            Some(v) => {
                acc = v;
            },
            None => {
                proof {
                    if is_uint_string(s@) {
                        lemma_uint_prefix_le(s@, i as int + 1);
                    }
                }
                return None;
            },
        }
        i += 1;
    }
    proof {
        assert(s@.take(n as int) =~= s@);
    }
    Some(acc)
}

} // verus!
