//! Decimal text to fixed-point integers: prices and sizes are held in units
//! of 10^-8, identifiers as plain unsigned integers.
use vstd::prelude::*;
use crate::text::{split_on, split_spec, views};

verus! {

/// Fractional digits kept by the fixed-point representation.
pub const PRICE_DECIMALS: usize = 8;

/// One unit of a price or size in fixed point.
pub const PRICE_ONE: u64 = 100_000_000;

pub open spec fn is_digit(c: char) -> bool {
    '0' <= c && c <= '9'
}

pub open spec fn all_digits(s: Seq<char>) -> bool {
    forall|i: int| 0 <= i < s.len() ==> is_digit(#[trigger] s[i])
}

pub open spec fn digit_value(c: char) -> nat {
    (c as int - '0' as int) as nat
}

/// The value of a digit text, most significant digit first.
pub open spec fn digits_value(s: Seq<char>) -> nat
    decreases s.len(),
{
    if s.len() == 0 {
        0
    } else {
        digits_value(s.drop_last()) * 10 + digit_value(s.last())
    }
}

pub open spec fn pow10(n: nat) -> nat
    decreases n,
{
    if n == 0 {
        1
    } else {
        10 * pow10((n - 1) as nat)
    }
}

/// The value of a decimal text `I` or `I.F` (digits only, `F` at most
/// eight digits) in units of 10^-8.
pub open spec fn spec_fixed(s: Seq<char>) -> Option<nat> {
    let parts = split_spec(s, '.');
    if parts.len() == 1 && parts[0].len() > 0 && all_digits(parts[0]) {
        Some(digits_value(parts[0]) * pow10(8))
    } else if parts.len() == 2 && parts[0].len() > 0 && all_digits(parts[0]) && all_digits(parts[1])
        && parts[1].len() <= 8 {
        Some(digits_value(parts[0]) * pow10(8) + digits_value(parts[1]) * pow10((8 - parts[1].len()) as nat))
    } else {
        None
    }
}

/// A natural number that fits `u64`, else `None`.
pub open spec fn fits_u64(v: Option<nat>) -> Option<u64> {
    match v {
        Some(n) => if n <= u64::MAX {
            Some(n as u64)
        } else {
            None
        },
        None => None,
    }
}

/// A digit text never has a smaller value than any of its prefixes.
pub proof fn lemma_prefix_value_le(s: Seq<char>, k: int)
    requires
        0 <= k <= s.len(),
    ensures
        digits_value(s.subrange(0, k)) <= digits_value(s),
    decreases s.len(),
{
    if k < s.len() {
        lemma_prefix_value_le(s.drop_last(), k);
        assert(s.drop_last().subrange(0, k) =~= s.subrange(0, k));
    } else {
        assert(s.subrange(0, k) =~= s);
    }
}

/// Reads a non-empty digit text as an unsigned integer; `None` for any other
/// text or a value beyond `u64`.
pub fn parse_digits(s: &str) -> (r: Option<u64>)
    ensures
        r == (if s@.len() > 0 && all_digits(s@) { fits_u64(Some(digits_value(s@))) } else { None }),
{
    let n = s.unicode_len();
    if n == 0 {
        return None;
    }
    let mut acc: u64 = 0;
    let mut i: usize = 0;
    while i < n
        invariant
            n == s@.len(),
            i <= n,
            all_digits(s@.subrange(0, i as int)),
            acc as nat == digits_value(s@.subrange(0, i as int)),
        decreases n - i,
    {
        let c = s.get_char(i);
        let ghost pre = s@.subrange(0, i as int);
        let ghost next = s@.subrange(0, i + 1);
        assert(next.drop_last() =~= pre);
        if c < '0' || c > '9' {
            assert(!is_digit(s@[i as int]));
            return None;
        }
        let d = (c as u32 - '0' as u32) as u64;
        assert(d as nat == digit_value(c));
        assert(all_digits(next)) by {
            assert forall|j: int| 0 <= j < next.len() implies is_digit(#[trigger] next[j]) by {
                if j < i {
                    assert(next[j] == pre[j]);
                }
            }
        }
        let step = match acc.checked_mul(10) {
            Some(t) => t.checked_add(d),
            None => None,
        };
        match step {
            Some(v) => {
                acc = v;
            },
            None => {
                proof {
                    lemma_prefix_value_le(s@, i + 1);
                }
                return None;
            },
        }
        i = i + 1;
    }
    assert(s@.subrange(0, n as int) =~= s@);
    Some(acc)
}

fn scale_of(n: usize) -> (r: u64)
    requires
        n <= 8,
    ensures
        r == pow10(n as nat),
{
    proof {
        reveal_with_fuel(pow10, 9);
    }
    match n {
        0 => 1,
        1 => 10,
        2 => 100,
        3 => 1000,
        4 => 10000,
        5 => 100000,
        6 => 1000000,
        7 => 10000000,
        _ => 100000000,
    }
}

/// Reads a decimal text as a fixed-point value in units of 10^-8; `None`
/// for any other text, more than eight fractional digits, or a value beyond
/// `u64`.
pub fn parse_fixed(s: &str) -> (r: Option<u64>)
    ensures
        r == fits_u64(spec_fixed(s@)),
{
    let parts = split_on(s, '.');
    let ghost ps = split_spec(s@, '.');
    assert(views(parts@) == ps);
    assert(parts@.len() == ps.len());
    assert(forall|i: int| 0 <= i < parts@.len() ==> views(parts@)[i] == parts@[i]@);
    proof {
        reveal_with_fuel(pow10, 9);
    }
    let np = parts.len();
    if np == 1 {
        let whole = parse_digits(parts[0].as_str());
        match whole {
            Some(w) => {
                let r = w.checked_mul(PRICE_ONE);
                r
            },
            None => {
                proof {
                    if ps[0].len() > 0 && all_digits(ps[0]) {
                        assert(digits_value(ps[0]) * pow10(8) >= digits_value(ps[0])) by (nonlinear_arith)
                            requires pow10(8) == 100000000nat;
                    }
                }
                None
            },
        }
    } else if np == 2 {
        let flen = parts[1].unicode_len();
        if flen > PRICE_DECIMALS {
            return None;
        }
        let whole = match parse_digits(parts[0].as_str()) {
            Some(w) => w,
            None => {
                proof {
                    if ps[0].len() > 0 && all_digits(ps[0]) && all_digits(ps[1]) {
                        assert(digits_value(ps[0]) * pow10(8) >= digits_value(ps[0])) by (nonlinear_arith)
                            requires pow10(8) == 100000000nat;
                    }
                }
                return None;
            },
        };
        let frac: u64 = if flen == 0 {
            assert(all_digits(ps[1]));
            0
        } else {
            match parse_digits(parts[1].as_str()) {
                Some(f) => f,
                None => {
                    proof {
                        if all_digits(ps[1]) {
                            let sc = pow10((8 - ps[1].len()) as nat);
                            assert(sc >= 1) by {
                                reveal_with_fuel(pow10, 9);
                            }
                            assert(digits_value(ps[1]) * sc >= digits_value(ps[1])) by (nonlinear_arith)
                                requires sc >= 1;
                        }
                    }
                    return None;
                },
            }
        };
        let scale = scale_of(PRICE_DECIMALS - flen);
        let hi = whole.checked_mul(PRICE_ONE);
        let lo = frac.checked_mul(scale);
        match (hi, lo) {
            (Some(h), Some(l)) => h.checked_add(l),
            _ => None,
        }
    } else {
        None
    }
}

} // verus!
