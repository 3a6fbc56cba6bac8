//! Operation proportions of the key-value-store workload.
//!
//! The read/update/insert mix is kept in thousandths of the whole, so the
//! driver never computes with floating point.  A proportion token such as
//! `0.5` parses to `500`; the insert share is derived as the remainder
//! `1000 - read - update` and may be negative, since the driver deliberately
//! does not require `read + update <= 1`.

use vstd::prelude::*;
use vstd::slice::slice_subrange;

use crate::errors::ParseError;
use crate::numfmt::{dec_seq, digit_char};
use crate::strutil::{all_digits, dec_value, parse_usize};

verus! {

/// One whole, in the fixed-point unit of proportions.
pub const PROP_UNIT: u32 = 1000;

/// The index of the first `.` in `s`, or the length if there is none.
pub open spec fn dot_pos(s: Seq<char>) -> int
    decreases s.len(),
{
    if s.len() == 0 {
        0
    } else if s[0] == '.' {
        0
    } else {
        1 + dot_pos(s.drop_first())
    }
}

/// The integer-part characters of a proportion token.
pub open spec fn int_part(s: Seq<char>) -> Seq<char> {
    s.take(dot_pos(s))
}

/// The fractional-part characters of a proportion token (empty when there is
/// no `.`).
pub open spec fn frac_part(s: Seq<char>) -> Seq<char> {
    if dot_pos(s) < s.len() {
        s.skip(dot_pos(s) + 1)
    } else {
        Seq::empty()
    }
}

/// Whether the token has the shape of a decimal fraction: digits, at most
/// one `.`, and at least one digit somewhere.
pub open spec fn prop_shape_ok(s: Seq<char>) -> bool {
    &&& all_digits(int_part(s))
    &&& all_digits(frac_part(s))
    &&& int_part(s).len() + frac_part(s).len() >= 1
}

/// The scale factor that pads a fractional part out to three digits.
pub open spec fn frac_scale(len: int) -> int {
    if len == 0 {
        1000
    } else if len == 1 {
        100
    } else if len == 2 {
        10
    } else {
        1
    }
}

/// The value of the token in thousandths.
pub open spec fn prop_millis(s: Seq<char>) -> int {
    dec_value(int_part(s)) * 1000 + dec_value(frac_part(s)) * frac_scale(
        frac_part(s).len() as int,
    )
}

/// Basic bounds of `dot_pos`.
pub proof fn lemma_dot_pos(s: Seq<char>)
    ensures
        0 <= dot_pos(s) <= s.len(),
        forall|i: int| 0 <= i < dot_pos(s) ==> #[trigger] s[i] != '.',
        dot_pos(s) < s.len() ==> s[dot_pos(s)] == '.',
    decreases s.len(),
{
    if s.len() > 0 && s[0] != '.' {
        lemma_dot_pos(s.drop_first());
        assert forall|i: int| 0 <= i < dot_pos(s) implies #[trigger] s[i] != '.' by {
            if i > 0 {
                assert(s.drop_first()[i - 1] != '.');
            }
        }
        if dot_pos(s) < s.len() {
            assert(s.drop_first()[dot_pos(s) - 1] == '.');
        }
    }
}

/// A digit string of at most three characters denotes less than 1000.
proof fn lemma_dec_value_small(s: Seq<char>)
    requires
        all_digits(s),
        s.len() <= 3,
    ensures
        0 <= dec_value(s),
        dec_value(s) * frac_scale(s.len() as int) < 1000,
    decreases s.len(),
{
    crate::strutil::lemma_dec_value_nonneg(s);
    if s.len() > 0 {
        assert(all_digits(s.drop_last())) by {
            assert forall|i: int| 0 <= i < s.drop_last().len() implies crate::strutil::is_digit(
                #[trigger] s.drop_last()[i],
            ) by {
                assert(s.drop_last()[i] == s[i]);
            }
        }
        lemma_dec_value_small(s.drop_last());
        assert(crate::strutil::digit_val(s.last()) <= 9);
    }
}

/// Read a proportion token as thousandths.
///
/// A token is accepted exactly when it is a decimal fraction with at most
/// three fractional digits denoting a value between zero and one; it then
/// yields the value in thousandths.
#[verifier::loop_isolation(false)]
pub fn parse_proportion(cs: &[char]) -> (r: Result<u32, ParseError>)
    ensures
        r is Ok <==> cs@.len() > 0 && prop_shape_ok(cs@) && frac_part(cs@).len() <= 3
            && prop_millis(cs@) <= 1000,
        r is Ok ==> r->Ok_0 == prop_millis(cs@) && r->Ok_0 <= 1000,
        r == Err::<u32, ParseError>(ParseError::Empty) <==> cs@.len() == 0,
        r == Err::<u32, ParseError>(ParseError::BadDigit) <==> cs@.len() > 0 && !prop_shape_ok(
            cs@,
        ),
        r == Err::<u32, ParseError>(ParseError::TooPrecise) <==> prop_shape_ok(cs@)
            && frac_part(cs@).len() > 3,
        r == Err::<u32, ParseError>(ParseError::OutOfRange) <==> prop_shape_ok(cs@) && frac_part(
            cs@,
        ).len() <= 3 && prop_millis(cs@) > 1000,
{
    proof {
        lemma_dot_pos(cs@);
    }
    if cs.len() == 0 {
        return Err(ParseError::Empty);
    }
    // Locate the first dot.
    let mut dot: usize = 0;
    while dot < cs.len() && cs[dot] != '.'
        invariant
            0 <= dot <= cs@.len(),
            dot <= dot_pos(cs@),
            forall|i: int| 0 <= i < dot ==> #[trigger] cs@[i] != '.',
        decreases cs@.len() - dot,
    {
        proof {
            if dot_pos(cs@) == dot {
                assert(cs@[dot as int] == '.');
            }
        }
        dot = dot + 1;
    }
    proof {
        assert(dot == dot_pos(cs@)) by {
            if dot < dot_pos(cs@) {
                assert(cs@[dot as int] != '.');
            }
        }
    }
    let ip: &[char] = slice_subrange(cs, 0, dot);
    let fp: &[char] = if dot < cs.len() {
        slice_subrange(cs, dot + 1, cs.len())
    } else {
        slice_subrange(cs, cs.len(), cs.len())
    };
    proof {
        assert(ip@ =~= int_part(cs@));
        assert(fp@ =~= frac_part(cs@));
    }
    // Every character around the dot must be a digit, and there must be one.
    let mut i: usize = 0;
    while i < ip.len()
        invariant
            0 <= i <= ip@.len(),
            forall|j: int| 0 <= j < i ==> crate::strutil::is_digit(#[trigger] ip@[j]),
        decreases ip@.len() - i,
    {
        let cv: u32 = ip[i] as u32;
        if cv < 48 || cv > 57 {
            proof {
                assert(!crate::strutil::is_digit(int_part(cs@)[i as int]));
            }
            return Err(ParseError::BadDigit);
        }
        i = i + 1;
    }
    let mut i: usize = 0;
    while i < fp.len()
        invariant
            0 <= i <= fp@.len(),
            all_digits(ip@),
            forall|j: int| 0 <= j < i ==> crate::strutil::is_digit(#[trigger] fp@[j]),
        decreases fp@.len() - i,
    {
        let cv: u32 = fp[i] as u32;
        if cv < 48 || cv > 57 {
            proof {
                assert(!crate::strutil::is_digit(frac_part(cs@)[i as int]));
            }
            return Err(ParseError::BadDigit);
        }
        i = i + 1;
    }
    if ip.len() == 0 && fp.len() == 0 {
        return Err(ParseError::BadDigit);
    }
    if fp.len() > 3 {
        return Err(ParseError::TooPrecise);
    }
    proof {
        assert(all_digits(ip@));
        assert(all_digits(fp@));
        lemma_dec_value_small(fp@);
        crate::strutil::lemma_dec_value_nonneg(ip@);
    }
    // The fractional value in thousandths.
    let frac_raw: usize = match parse_usize(fp) {
        Ok(v) => v,
        Err(_) => {
            proof {
                assert(fp@.len() == 0);
            }
            0
        },
    };
    let scale: usize = if fp.len() == 0 {
        1000
    } else if fp.len() == 1 {
        100
    } else if fp.len() == 2 {
        10
    } else {
        1
    };
    let frac: usize = if fp.len() == 0 {
        0
    } else {
        frac_raw * scale
    };
    proof {
        assert(frac == dec_value(fp@) * frac_scale(fp@.len() as int));
    }
    // The integer part, bounded by one whole.
    let int_val: usize = match parse_usize(ip) {
        Ok(v) => v,
        Err(e) => {
            if ip.len() == 0 {
                0usize
            } else {
                // The integer part alone exceeds `usize`, so the proportion
                // certainly exceeds one whole.
                proof {
                    crate::strutil::lemma_digits_prefix_len(ip@);
                    assert(ip@.take(crate::strutil::digits_prefix_len(ip@)) =~= ip@);
                    assert(dec_value(ip@) > usize::MAX);
                    assert(dec_value(ip@) * 1000 > 1000) by (nonlinear_arith)
                        requires
                            dec_value(ip@) > usize::MAX,
                            usize::MAX >= 1,
                    ;
                }
                return Err(ParseError::OutOfRange);
            }
        },
    };
    if int_val > 1 {
        proof {
            assert(dec_value(ip@) * 1000 >= 2000) by (nonlinear_arith)
                requires
                    dec_value(ip@) >= 2,
            ;
        }
        return Err(ParseError::OutOfRange);
    }
    let total: usize = int_val * 1000 + frac;
    if total > 1000 {
        return Err(ParseError::OutOfRange);
    }
    Ok(total as u32)
}

/// Read a whole string as a proportion in thousandths.
pub fn parse_proportion_str(s: &str) -> (r: Result<u32, ParseError>)
    ensures
        r is Ok <==> s@.len() > 0 && prop_shape_ok(s@) && frac_part(s@).len() <= 3 && prop_millis(
            s@,
        ) <= 1000,
        r is Ok ==> r->Ok_0 == prop_millis(s@) && r->Ok_0 <= 1000,
        r == Err::<u32, ParseError>(ParseError::Empty) <==> s@.len() == 0,
        r == Err::<u32, ParseError>(ParseError::BadDigit) <==> s@.len() > 0 && !prop_shape_ok(s@),
        r == Err::<u32, ParseError>(ParseError::TooPrecise) <==> prop_shape_ok(s@) && frac_part(
            s@,
        ).len() > 3,
        r == Err::<u32, ParseError>(ParseError::OutOfRange) <==> prop_shape_ok(s@) && frac_part(
            s@,
        ).len() <= 3 && prop_millis(s@) > 1000,
{
    let cs = crate::strutil::str_chars(s);
    parse_proportion(cs.as_slice())
}

/// The decimal rendering of a non-negative count of thousandths: the whole
/// part, then the non-zero fractional digits.
pub open spec fn prop_seq_nonneg(m: int) -> Seq<char> {
    if m % 1000 == 0 {
        dec_seq((m / 1000) as nat)
    } else {
        dec_seq((m / 1000) as nat) + seq!['.'] + frac_seq(m % 1000)
    }
}

/// The decimal rendering of a proportion given in thousandths, with the
/// sign first, then the integer part, then the non-zero fractional digits.
pub open spec fn prop_seq(m: int) -> Seq<char> {
    if m < 0 {
        seq!['-'] + prop_seq_nonneg(-m)
    } else {
        prop_seq_nonneg(m)
    }
}

/// The fractional digits of a value in thousandths, trailing zeros dropped.
pub open spec fn frac_seq(f: int) -> Seq<char> {
    if f % 100 == 0 {
        seq![digit_char(f / 100)]
    } else if f % 10 == 0 {
        seq![digit_char(f / 100), digit_char((f / 10) % 10)]
    } else {
        seq![digit_char(f / 100), digit_char((f / 10) % 10), digit_char(f % 10)]
    }
}

/// Render a (possibly negative) count of thousandths as a decimal fraction.
pub fn prop_to_string(m: i64) -> (r: String)
    requires
        -1000000 <= m <= 1000000,
    ensures
        r@ == prop_seq(m as int),
{
    let neg: bool = m < 0;
    let a: u64 = if neg {
        (-m) as u64
    } else {
        m as u64
    };
    let whole = crate::numfmt::u64_to_string(a / 1000);
    let f: usize = (a % 1000) as usize;
    let mut r = if neg {
        proof {
            reveal_strlit("-");
        }
        let mut s = String::from_str("-");
        s.append(whole.as_str());
        s
    } else {
        whole
    };
    if f != 0 {
        proof {
            reveal_strlit(".");
        }
        r.append(".");
        let d1 = crate::numfmt::digit_str(f / 100);
        let d2 = crate::numfmt::digit_str((f / 10) % 10);
        let d3 = crate::numfmt::digit_str(f % 10);
        if f % 100 == 0 {
            r.append(d1);
        } else if f % 10 == 0 {
            r.append(d1);
            r.append(d2);
        } else {
            r.append(d1);
            r.append(d2);
            r.append(d3);
        }
        proof {
            assert(r@ =~= prop_seq(m as int));
        }
    } else {
        proof {
            assert(r@ =~= prop_seq(m as int));
        }
    }
    r
}

/// The insert share that remains after the read and update shares.
pub open spec fn spec_insert_millis(read: int, update: int) -> int {
    1000 - read - update
}

/// The insert proportion is the remainder of one whole; it may be negative,
/// since the read and update shares are not required to sum below one.
pub fn insert_millis(read: u32, update: u32) -> (r: i64)
    requires
        read <= 1000,
        update <= 1000,
    ensures
        r == spec_insert_millis(read as int, update as int),
{
    1000i64 - (read as i64) - (update as i64)
}

} // verus!
