//! Character-level utilities: turning a `&str` into its characters, reading
//! unsigned decimal numbers, and a lemma about concatenated sequences that
//! the naming policy builds on.

use vstd::prelude::*;
use vstd::std_specs::iter::IteratorSpec;

use crate::errors::ParseError;

verus! {

/// Whether `c` is a decimal digit.
pub open spec fn is_digit(c: char) -> bool {
    48 <= (c as u32) && (c as u32) <= 57
}

/// The numeric value of a digit character.
pub open spec fn digit_val(c: char) -> int {
    (c as u32) - 48
}

/// The number denoted by a digit string, most significant digit first.
pub open spec fn dec_value(s: Seq<char>) -> int
    decreases s.len(),
{
    if s.len() == 0 {
        0
    } else {
        dec_value(s.drop_last()) * 10 + digit_val(s.last())
    }
}

/// How many leading characters of `s` are decimal digits.
pub open spec fn digits_prefix_len(s: Seq<char>) -> int
    decreases s.len(),
{
    if s.len() == 0 || !is_digit(s[0]) {
        0
    } else {
        1 + digits_prefix_len(s.drop_first())
    }
}

/// Whether every character of `s` is a decimal digit.
pub open spec fn all_digits(s: Seq<char>) -> bool {
    forall|i: int| 0 <= i < s.len() ==> is_digit(#[trigger] s[i])
}

/// The leading-digit count never exceeds the length, counts only digits,
/// and reaches the length exactly when everything is a digit.
pub proof fn lemma_digits_prefix_len(s: Seq<char>)
    ensures
        0 <= digits_prefix_len(s) <= s.len(),
        forall|i: int| 0 <= i < digits_prefix_len(s) ==> is_digit(#[trigger] s[i]),
        digits_prefix_len(s) < s.len() ==> !is_digit(s[digits_prefix_len(s)]),
        (digits_prefix_len(s) == s.len()) <==> all_digits(s),
    decreases s.len(),
{
    if s.len() > 0 && is_digit(s[0]) {
        lemma_digits_prefix_len(s.drop_first());
        assert forall|i: int| 0 <= i < digits_prefix_len(s) implies is_digit(
            #[trigger] s[i],
        ) by {
            if i > 0 {
                assert(is_digit(s.drop_first()[i - 1]));
            }
        }
        if digits_prefix_len(s) < s.len() {
            assert(!is_digit(s.drop_first()[digits_prefix_len(s) - 1]));
        }
        if digits_prefix_len(s) == s.len() {
            assert forall|i: int| 0 <= i < s.len() implies is_digit(#[trigger] s[i]) by {}
        }
        if all_digits(s) {
            assert forall|i: int| 0 <= i < s.drop_first().len() implies is_digit(
                #[trigger] s.drop_first()[i],
            ) by {
                assert(s.drop_first()[i] == s[i + 1]);
            }
        }
    }
}

/// A digit string's value only grows as the string is extended.
pub proof fn lemma_dec_value_nonneg(s: Seq<char>)
    requires
        forall|i: int| 0 <= i < s.len() ==> is_digit(#[trigger] s[i]),
    ensures
        dec_value(s) >= 0,
    decreases s.len(),
{
    if s.len() > 0 {
        lemma_dec_value_nonneg(s.drop_last());
    }
}

/// The characters of `s`, in order.
pub fn str_chars(s: &str) -> (r: Vec<char>)
    ensures
        r@ == s@,
{
    broadcast use vstd::string::axiom_spec_iter;
    broadcast use vstd::string::next_postcondition;

    let mut it = s.chars();
    let mut out: Vec<char> = Vec::new();
    loop
        invariant
            out@ + it.remaining() == s@,
            it.decrease() is Some,
        ensures
            out@ == s@,
        decreases it.decrease()->0,
    {
        match it.next() {
            Some(c) => {
                out.push(c);
                proof {
                    assert(out@ + it.remaining() =~= s@);
                }
            },
            None => {
                proof {
                    assert(out@ + it.remaining() =~= out@);
                }
                break ;
            },
        }
    }
    out
}

/// Read a whole character slice as an unsigned decimal number.
///
/// The token is accepted exactly when it is non-empty, consists of digits
/// only, and denotes a value that fits in `usize`; each rejection names the
/// first obstacle the left-to-right scan meets.
pub fn parse_usize(cs: &[char]) -> (r: Result<usize, ParseError>)
    ensures
        r is Ok <==> cs@.len() > 0 && all_digits(cs@) && dec_value(cs@) <= usize::MAX,
        r is Ok ==> r->Ok_0 == dec_value(cs@),
        r == Err::<usize, ParseError>(ParseError::Empty) <==> cs@.len() == 0,
        r == Err::<usize, ParseError>(ParseError::Overflow) <==> cs@.len() > 0 && dec_value(
            cs@.take(digits_prefix_len(cs@)),
        ) > usize::MAX,
        r == Err::<usize, ParseError>(ParseError::BadDigit) <==> cs@.len() > 0
            && digits_prefix_len(cs@) < cs@.len() && dec_value(cs@.take(digits_prefix_len(cs@)))
            <= usize::MAX,
{
    proof {
        lemma_digits_prefix_len(cs@);
    }
    if cs.len() == 0 {
        return Err(ParseError::Empty);
    }
    let mut acc: usize = 0;
    let mut i: usize = 0;
    while i < cs.len()
        invariant
            0 <= i <= cs@.len(),
            i <= digits_prefix_len(cs@),
            acc == dec_value(cs@.take(i as int)),
            digits_prefix_len(cs@) <= cs@.len(),
            forall|j: int| 0 <= j < digits_prefix_len(cs@) ==> is_digit(#[trigger] cs@[j]),
            digits_prefix_len(cs@) < cs@.len() ==> !is_digit(cs@[digits_prefix_len(cs@)]),
            (digits_prefix_len(cs@) == cs@.len()) <==> all_digits(cs@),
        decreases cs@.len() - i,
    {
        let c = cs[i];
        let cv = c as u32;
        proof {
            assert(cs@.take(i as int + 1).drop_last() =~= cs@.take(i as int));
            assert(cs@.take(i as int + 1).last() == cs@[i as int]);
        }
        if cv < 48 || cv > 57 {
            proof {
                assert(digits_prefix_len(cs@) == i) by {
                    if digits_prefix_len(cs@) > i {
                        assert(is_digit(cs@[i as int]));
                    }
                }
            }
            return Err(ParseError::BadDigit);
        }
        let d = (cv - 48) as usize;
        let threshold = (usize::MAX - d) / 10;
        if acc > threshold {
            proof {
                assert(acc * 10 > usize::MAX - d) by {
                    assert(acc >= threshold + 1);
                    assert((threshold + 1) * 10 > usize::MAX - d) by {
                        assert(usize::MAX - d == threshold * 10 + (usize::MAX - d) % 10) by {
                            vstd::arithmetic::div_mod::lemma_fundamental_div_mod(
                                usize::MAX - d,
                                10,
                            );
                        }
                    }
                    assert(acc * 10 >= (threshold + 1) * 10) by (nonlinear_arith)
                        requires
                            acc >= threshold + 1,
                    ;
                }
                assert(dec_value(cs@.take(i as int + 1)) > usize::MAX);
                assert(i + 1 <= digits_prefix_len(cs@)) by {
                    if digits_prefix_len(cs@) == i {
                        assert(!is_digit(cs@[i as int]));
                    }
                }
                lemma_dec_value_monotone(cs@, i as int + 1, digits_prefix_len(cs@));
                assert(cs@.take(cs@.len() as int) =~= cs@);
            }
            return Err(ParseError::Overflow);
        }
        proof {
            assert(acc * 10 + d <= usize::MAX) by {
                assert(acc <= threshold);
                assert(threshold * 10 <= usize::MAX - d) by {
                    vstd::arithmetic::div_mod::lemma_fundamental_div_mod(usize::MAX - d, 10);
                }
                assert(acc * 10 <= threshold * 10) by (nonlinear_arith)
                    requires
                        acc <= threshold,
                ;
            }
            assert(i + 1 <= digits_prefix_len(cs@)) by {
                if digits_prefix_len(cs@) == i {
                    assert(!is_digit(cs@[i as int]));
                }
            }
        }
        acc = acc * 10 + d;
        i = i + 1;
    }
    proof {
        assert(cs@.take(i as int) =~= cs@);
        assert(all_digits(cs@));
    }
    Ok(acc)
}

/// Extending a digit prefix never shrinks its value.
pub proof fn lemma_dec_value_monotone(s: Seq<char>, i: int, j: int)
    requires
        0 <= i <= j <= s.len(),
        forall|k: int| 0 <= k < j ==> is_digit(#[trigger] s[k]),
    ensures
        dec_value(s.take(i)) <= dec_value(s.take(j)),
    decreases j - i,
{
    if i < j {
        lemma_dec_value_monotone(s, i, j - 1);
        assert(s.take(j).drop_last() =~= s.take(j - 1));
        assert(s.take(j).last() == s[j - 1]);
        lemma_dec_value_nonneg_take(s, j - 1);
        assert(dec_value(s.take(j)) == dec_value(s.take(j - 1)) * 10 + digit_val(s[j - 1]));
        assert(dec_value(s.take(j - 1)) * 10 >= dec_value(s.take(j - 1))) by (nonlinear_arith)
            requires
                dec_value(s.take(j - 1)) >= 0,
        ;
    }
}

proof fn lemma_dec_value_nonneg_take(s: Seq<char>, i: int)
    requires
        0 <= i <= s.len(),
        forall|k: int| 0 <= k < i ==> is_digit(#[trigger] s[k]),
    ensures
        dec_value(s.take(i)) >= 0,
{
    assert forall|k: int| 0 <= k < s.take(i).len() implies is_digit(
        #[trigger] s.take(i)[k],
    ) by {
        assert(s.take(i)[k] == s[k]);
    }
    lemma_dec_value_nonneg(s.take(i));
}

/// Read a whole string as an unsigned decimal number.
pub fn parse_usize_str(s: &str) -> (r: Result<usize, ParseError>)
    ensures
        r is Ok <==> s@.len() > 0 && all_digits(s@) && dec_value(s@) <= usize::MAX,
        r is Ok ==> r->Ok_0 == dec_value(s@),
        r == Err::<usize, ParseError>(ParseError::Empty) <==> s@.len() == 0,
        r == Err::<usize, ParseError>(ParseError::Overflow) <==> s@.len() > 0 && dec_value(
            s@.take(digits_prefix_len(s@)),
        ) > usize::MAX,
        r == Err::<usize, ParseError>(ParseError::BadDigit) <==> s@.len() > 0 && digits_prefix_len(
            s@,
        ) < s@.len() && dec_value(s@.take(digits_prefix_len(s@))) <= usize::MAX,
{
    let cs = str_chars(s);
    parse_usize(cs.as_slice())
}

/// The error that rejects a token as an unsigned decimal `u32`, if any.
///
/// It mirrors a left-to-right scan: an empty token, then a leading digit
/// prefix that already exceeds the machine word, then a stray non-digit,
/// then a value beyond `u32`.
pub open spec fn u32_token_err(s: Seq<char>) -> Option<ParseError> {
    if s.len() == 0 {
        Some(ParseError::Empty)
    } else if dec_value(s.take(digits_prefix_len(s))) > usize::MAX {
        Some(ParseError::Overflow)
    } else if digits_prefix_len(s) < s.len() {
        Some(ParseError::BadDigit)
    } else if dec_value(s) > u32::MAX {
        Some(ParseError::Overflow)
    } else {
        None
    }
}

/// Read a whole character slice as a `u32`.
pub fn parse_u32(cs: &[char]) -> (r: Result<u32, ParseError>)
    ensures
        r is Ok <==> u32_token_err(cs@) is None,
        r is Ok ==> r->Ok_0 == dec_value(cs@),
        r is Err ==> u32_token_err(cs@) == Some(r->Err_0),
{
    proof {
        lemma_digits_prefix_len(cs@);
        if all_digits(cs@) {
            assert(cs@.take(digits_prefix_len(cs@)) =~= cs@);
        }
    }
    match parse_usize(cs) {
        Ok(v) => {
            if v > u32::MAX as usize {
                Err(ParseError::Overflow)
            } else {
                Ok(v as u32)
            }
        },
        Err(e) => Err(e),
    }
}

/// Relies on std's `String::push`: it appends exactly the given character.
#[verifier::external_body]
pub(crate) fn push_char(s: &mut String, c: char)
    ensures
        final(s)@ == old(s)@.push(c),
{
    s.push(c);
}

/// The string holding exactly the given characters.
pub fn chars_to_string(cs: &[char]) -> (r: String)
    ensures
        r@ == cs@,
{
    let mut r = String::new();
    let mut i: usize = 0;
    while i < cs.len()
        invariant
            0 <= i <= cs@.len(),
            r@ == cs@.take(i as int),
        decreases cs@.len() - i,
    {
        push_char(&mut r, cs[i]);
        proof {
            assert(cs@.take(i as int).push(cs@[i as int]) =~= cs@.take(i as int + 1));
        }
        i = i + 1;
    }
    proof {
        assert(cs@.take(i as int) =~= cs@);
    }
    r
}

/// Whether two strings hold the same characters.
pub fn str_eq(a: &str, b: &str) -> (r: bool)
    ensures
        r <==> a@ == b@,
{
    let av = str_chars(a);
    let bv = str_chars(b);
    if av.len() != bv.len() {
        proof {
            assert(a@.len() != b@.len());
        }
        return false;
    }
    let mut i: usize = 0;
    while i < av.len()
        invariant
            0 <= i <= av@.len(),
            av@.len() == bv@.len(),
            av@ == a@,
            bv@ == b@,
            forall|j: int| 0 <= j < i ==> av@[j] == bv@[j],
        decreases av@.len() - i,
    {
        if av[i] != bv[i] {
            proof {
                assert(a@[i as int] != b@[i as int]);
            }
            return false;
        }
        i = i + 1;
    }
    proof {
        assert(a@ =~= b@);
    }
    true
}

/// The views of a list of strings.
pub open spec fn str_views(ts: Seq<String>) -> Seq<Seq<char>> {
    ts.map_values(|t: String| t@)
}

/// If two sequences wrapped in the same prefix and suffix are equal, the
/// middles are equal.
pub proof fn lemma_concat_middle_injective(
    p: Seq<char>,
    m1: Seq<char>,
    m2: Seq<char>,
    s: Seq<char>,
)
    requires
        p + m1 + s == p + m2 + s,
    ensures
        m1 == m2,
{
    assert((p + m1 + s).len() == p.len() + m1.len() + s.len());
    assert((p + m2 + s).len() == p.len() + m2.len() + s.len());
    assert(m1.len() == m2.len());
    assert forall|i: int| 0 <= i < m1.len() implies m1[i] == m2[i] by {
        assert((p + m1 + s)[p.len() + i] == m1[i]);
        assert((p + m2 + s)[p.len() + i] == m2[i]);
    }
    assert(m1 =~= m2);
}

} // verus!
