//! The grammar of signed decimal fields.
//!
//! The frequency field is entered as a finite decimal literal: an optional
//! sign, then digits with at most one decimal point and at least one digit,
//! then an optional exponent part (`e` or `E`, an optional sign, and one or
//! more digits).  `"1"`, `"-2.5"`, `".5"`, `"5."` and `"1e5"` are literals;
//! `""`, `"."`, `"1e"` and `"1.2.3"` are not.

use vstd::prelude::*;

use crate::chars::{
    all_digits, check_digit, check_exp_marker, check_sign, is_digit, is_exp_marker, is_sign,
};

verus! {

/// `s` without its leading sign, if it has one.
pub open spec fn skip_sign(s: Seq<char>) -> Seq<char> {
    if s.len() > 0 && is_sign(s[0]) {
        s.drop_first()
    } else {
        s
    }
}

/// A character the mantissa may contain.
pub open spec fn is_mantissa_char(c: char) -> bool {
    is_digit(c) || c == '.'
}

/// Digits with at most one decimal point and at least one digit.
pub open spec fn is_mantissa(s: Seq<char>) -> bool {
    &&& s.len() > 0
    &&& forall|i: int| 0 <= i < s.len() ==> is_mantissa_char(#[trigger] s[i])
    &&& forall|i: int, j: int|
        0 <= i < s.len() && 0 <= j < s.len() && #[trigger] s[i] == '.' && #[trigger] s[j] == '.'
            ==> i == j
    &&& exists|i: int| 0 <= i < s.len() && is_digit(#[trigger] s[i])
}

/// What may follow the exponent marker: an optional sign, then digits.
pub open spec fn is_exp_suffix(s: Seq<char>) -> bool {
    skip_sign(s).len() > 0 && all_digits(skip_sign(s))
}

/// A finite decimal literal, the grammar of the frequency field.
pub open spec fn is_decimal_literal(s: Seq<char>) -> bool {
    let t = skip_sign(s);
    ||| is_mantissa(t)
    ||| exists|k: int|
        0 <= k < t.len() && is_exp_marker(#[trigger] t[k]) && is_mantissa(t.take(k))
            && is_exp_suffix(t.skip(k + 1))
}

/// Finds the first exponent marker at or after `start`.
fn find_exp_marker(s: &str, start: usize) -> (m: usize)
    requires
        start <= s@.len(),
    ensures
        start <= m <= s@.len(),
        forall|j: int| start <= j < m ==> !is_exp_marker(#[trigger] s@[j]),
        m < s@.len() ==> is_exp_marker(s@[m as int]),
{
    let n = s.unicode_len();
    let mut m = start;
    while m < n
        invariant
            start <= m <= n,
            n == s@.len(),
            forall|j: int| start <= j < m ==> !is_exp_marker(#[trigger] s@[j]),
        decreases n - m,
    {
        if check_exp_marker(s.get_char(m)) {
            return m;
        }
        m += 1;
    }
    m
}

/// Decides whether the characters of `s` from `from` to `to` form a mantissa.
#[verifier::loop_isolation(false)]
fn check_mantissa_range(s: &str, from: usize, to: usize) -> (r: bool)
    requires
        from <= to <= s@.len(),
    ensures
        r == is_mantissa(s@.subrange(from as int, to as int)),
{
    let ghost sub = s@.subrange(from as int, to as int);
    let mut saw_digit = false;
    let mut saw_dot = false;
    let ghost mut dot_at: int = 0;
    let mut i = from;
    while i < to
        invariant
            from <= i <= to <= s@.len(),
            forall|j: int| from <= j < i ==> is_mantissa_char(#[trigger] s@[j]),
            saw_digit <==> exists|j: int| from <= j < i && is_digit(#[trigger] s@[j]),
            saw_dot ==> from <= dot_at < i && s@[dot_at] == '.',
            forall|j: int| from <= j < i && #[trigger] s@[j] == '.' ==> saw_dot && j == dot_at,
        decreases to - i,
    {
        let c = s.get_char(i);
        if check_digit(c) {
            saw_digit = true;
        } else if c == '.' {
            if saw_dot {
                proof {
                    assert(sub[dot_at - from] == '.');
                    assert(sub[i - from] == '.');
                    assert(!is_mantissa(sub));
                }
                return false;
            }
            saw_dot = true;
            proof {
                dot_at = i as int;
            }
        } else {
            proof {
                assert(!is_mantissa_char(s@[i as int]));
                assert(sub[i - from] == s@[i as int]);
                assert(!is_mantissa(sub));
            }
            return false;
        }
        i += 1;
    }
    proof {
        if saw_digit {
            let j = choose|j: int| from <= j < to && is_digit(#[trigger] s@[j]);
            assert(sub[j - from] == s@[j]);
            assert(forall|q: int| 0 <= q < sub.len() ==> #[trigger] sub[q] == s@[q + from]);
            assert(is_mantissa(sub));
        } else {
            if to > from {
                assert(forall|q: int| 0 <= q < sub.len() ==> #[trigger] sub[q] == s@[q + from]);
                if exists|q: int| 0 <= q < sub.len() && is_digit(#[trigger] sub[q]) {
                    let q = choose|q: int| 0 <= q < sub.len() && is_digit(#[trigger] sub[q]);
                    assert(is_digit(s@[q + from]));
                    assert(false);
                }
            }
            assert(!is_mantissa(sub));
        }
    }
    saw_digit
}

/// Decides whether the characters of `s` from `from` onward form an
/// exponent suffix.
#[verifier::loop_isolation(false)]
fn check_exp_suffix(s: &str, from: usize) -> (r: bool)
    requires
        from <= s@.len(),
    ensures
        r == is_exp_suffix(s@.skip(from as int)),
{
    let ghost whole = s@.skip(from as int);
    let n = s.unicode_len();
    let mut i = from;
    if i < n && check_sign(s.get_char(i)) {
        i += 1;
    }
    let ghost u = s@.skip(i as int);
    proof {
        assert(skip_sign(whole) =~= u);
    }
    if i == n {
        proof {
            assert(u.len() == 0);
        }
        return false;
    }
    let mut j = i;
    while j < n
        invariant
            i <= j <= n,
            n == s@.len(),
            forall|q: int| i <= q < j ==> is_digit(#[trigger] s@[q]),
        decreases n - j,
    {
        if !check_digit(s.get_char(j)) {
            proof {
                assert(u[j - i] == s@[j as int]);
                assert(!all_digits(u));
            }
            return false;
        }
        j += 1;
    }
    proof {
        assert(forall|q: int| 0 <= q < u.len() ==> #[trigger] u[q] == s@[q + i]);
        assert(all_digits(u));
        assert(u.len() > 0);
    }
    true
}

/// Decides whether `s` is a finite decimal literal.
pub fn check_decimal(s: &str) -> (r: bool)
    ensures
        r == is_decimal_literal(s@),
{
    let n = s.unicode_len();
    if n == 0 {
        proof {
            assert(skip_sign(s@) =~= s@);
        }
        return false;
    }
    let start: usize = if check_sign(s.get_char(0)) {
        1
    } else {
        0
    };
    let ghost t = skip_sign(s@);
    proof {
        assert(t =~= s@.skip(start as int));
    }
    let m = find_exp_marker(s, start);
    if m == n {
        let r = check_mantissa_range(s, start, n);
        proof {
            assert(s@.subrange(start as int, n as int) =~= t);
            if exists|k: int|
                0 <= k < t.len() && is_exp_marker(#[trigger] t[k]) && is_mantissa(t.take(k))
                    && is_exp_suffix(t.skip(k + 1)) {
                let k = choose|k: int|
                    0 <= k < t.len() && is_exp_marker(#[trigger] t[k]) && is_mantissa(t.take(k))
                        && is_exp_suffix(t.skip(k + 1));
                assert(t[k] == s@[k + start]);
                assert(false);
            }
        }
        r
    } else {
        let mant_ok = check_mantissa_range(s, start, m);
        let exp_ok = if mant_ok {
            check_exp_suffix(s, m + 1)
        } else {
            false
        };
        let r = mant_ok && exp_ok;
        let ghost km = m - start;
        proof {
            assert(t.len() == n - start);
            assert(t[km] == s@[m as int]);
            assert(t.take(km) =~= s@.subrange(start as int, m as int));
            assert(t.skip(km + 1) =~= s@.skip(m + 1));
            // The marker at `m` is not a mantissa character, so the whole of
            // `t` is not a mantissa, and no other split position works.
            assert(!is_mantissa_char(t[km]));
            assert(!is_mantissa(t));
            if r {
                assert(0 <= km < t.len() && is_exp_marker(t[km]) && is_mantissa(t.take(km))
                    && is_exp_suffix(t.skip(km + 1)));
            } else {
                if exists|k: int|
                    0 <= k < t.len() && is_exp_marker(#[trigger] t[k]) && is_mantissa(t.take(k))
                        && is_exp_suffix(t.skip(k + 1)) {
                    let k = choose|k: int|
                        0 <= k < t.len() && is_exp_marker(#[trigger] t[k]) && is_mantissa(
                            t.take(k),
                        ) && is_exp_suffix(t.skip(k + 1));
                    assert(t[k] == s@[k + start]);
                    if k < km {
                        assert(!is_exp_marker(s@[k + start]));
                        assert(false);
                    } else if k > km {
                        assert(t.take(k)[km] == t[km]);
                        assert(!is_mantissa(t.take(k)));
                        assert(false);
                    } else {
                        assert(false);
                    }
                }
            }
        }
        r
    }
}

} // verus!
