//! Rewriting the kernel command line in the persisted boot configuration.
//!
//! The command line is modelled as a sequence of tokens.  Preparing a run
//! first strips every token this driver manages (memory-map reservations,
//! the tiering switch, the CPU cap) and then appends the tokens the
//! configuration asks for.  Stripping exactly what is appended makes the
//! rewrite idempotent: applying it twice leaves the same command line as
//! applying it once.

use vstd::prelude::*;

use crate::config::MemRegion;
use crate::numfmt::{dec_seq, digit_char, usize_to_string};
use crate::strutil::{all_digits, digits_prefix_len, is_digit, lemma_digits_prefix_len, str_chars};

verus! {

/// Whether `c` is one of the size units a memory-map token may carry.
pub open spec fn is_unit_char(c: char) -> bool {
    c == 'K' || c == 'M' || c == 'G'
}

/// Whether position `k` splits `t` as `memmap=<digits><unit>!<digits><unit>`,
/// with `k` at the first unit.
pub open spec fn memmap_split_at(t: Seq<char>, k: int) -> bool {
    &&& 7 <= k
    &&& k + 3 <= t.len()
    &&& all_digits(t.subrange(7, k))
    &&& is_unit_char(t[k])
    &&& t[k + 1] == '!'
    &&& all_digits(t.subrange(k + 2, t.len() - 1))
    &&& is_unit_char(t[t.len() - 1])
}

/// Whether `t` is a memory-map reservation token.
pub open spec fn is_memmap_token(t: Seq<char>) -> bool {
    &&& t.len() >= 7
    &&& t.take(7) == "memmap="@
    &&& exists|k: int| #[trigger] memmap_split_at(t, k)
}

/// Whether `t` is a CPU-cap token, `maxcpus=` followed by digits.
pub open spec fn is_maxcpus_token(t: Seq<char>) -> bool {
    &&& t.len() >= 8
    &&& t.take(8) == "maxcpus="@
    &&& all_digits(t.skip(8))
}

/// Whether the driver manages `t`: it is stripped before every run and only
/// re-added when the configuration asks for it.
pub open spec fn is_managed_token(t: Seq<char>) -> bool {
    ||| is_memmap_token(t)
    ||| t == "do_tpp"@
    ||| is_maxcpus_token(t)
}

/// A run of digits ends where the first non-digit stands.
proof fn lemma_digit_run_end(s: Seq<char>, a: int, k: int)
    requires
        0 <= a <= k < s.len(),
        all_digits(s.subrange(a, k)),
        !is_digit(s[k]),
    ensures
        k == a + digits_prefix_len(s.skip(a)),
{
    lemma_digits_prefix_len(s.skip(a));
    let d = digits_prefix_len(s.skip(a));
    assert forall|i: int| 0 <= i < k - a implies is_digit(#[trigger] s.skip(a)[i]) by {
        assert(s.subrange(a, k)[i] == s.skip(a)[i]);
    }
    if d < k - a {
        assert(is_digit(s.skip(a)[d]));
        assert(!is_digit(s.skip(a)[d]));
    }
    if d > k - a {
        assert(is_digit(s.skip(a)[k - a]));
        assert(s.skip(a)[k - a] == s[k]);
    }
}

/// Whether `t` starts with `memmap=`.
fn starts_with_memmap(t: &[char]) -> (r: bool)
    ensures
        r <==> t@.len() >= 7 && t@.take(7) == "memmap="@,
{
    proof {
        reveal_strlit("memmap=");
    }
    if t.len() < 7 {
        return false;
    }
    let r = t[0] == 'm' && t[1] == 'e' && t[2] == 'm' && t[3] == 'm' && t[4] == 'a' && t[5] == 'p'
        && t[6] == '=';
    proof {
        if r {
            assert(t@.take(7) =~= "memmap="@);
        } else {
            assert(t@.take(7) != "memmap="@) by {
                if t@.take(7) == "memmap="@ {
                    assert(t@.take(7)[0] == t@[0]);
                    assert(t@.take(7)[1] == t@[1]);
                    assert(t@.take(7)[2] == t@[2]);
                    assert(t@.take(7)[3] == t@[3]);
                    assert(t@.take(7)[4] == t@[4]);
                    assert(t@.take(7)[5] == t@[5]);
                    assert(t@.take(7)[6] == t@[6]);
                }
            }
        }
    }
    r
}

/// Whether `t` starts with `maxcpus=`.
fn starts_with_maxcpus(t: &[char]) -> (r: bool)
    ensures
        r <==> t@.len() >= 8 && t@.take(8) == "maxcpus="@,
{
    proof {
        reveal_strlit("maxcpus=");
    }
    if t.len() < 8 {
        return false;
    }
    let r = t[0] == 'm' && t[1] == 'a' && t[2] == 'x' && t[3] == 'c' && t[4] == 'p' && t[5] == 'u'
        && t[6] == 's' && t[7] == '=';
    proof {
        if r {
            assert(t@.take(8) =~= "maxcpus="@);
        } else {
            assert(t@.take(8) != "maxcpus="@) by {
                if t@.take(8) == "maxcpus="@ {
                    assert(t@.take(8)[0] == t@[0]);
                    assert(t@.take(8)[1] == t@[1]);
                    assert(t@.take(8)[2] == t@[2]);
                    assert(t@.take(8)[3] == t@[3]);
                    assert(t@.take(8)[4] == t@[4]);
                    assert(t@.take(8)[5] == t@[5]);
                    assert(t@.take(8)[6] == t@[6]);
                    assert(t@.take(8)[7] == t@[7]);
                }
            }
        }
    }
    r
}

/// Whether `c` is a decimal digit.
fn is_digit_exec(c: char) -> (r: bool)
    ensures
        r <==> is_digit(c),
{
    let cv: u32 = c as u32;
    48 <= cv && cv <= 57
}

/// Whether `c` is a size unit.
fn is_unit_exec(c: char) -> (r: bool)
    ensures
        r <==> is_unit_char(c),
{
    c == 'K' || c == 'M' || c == 'G'
}

/// Whether `t` is a memory-map reservation token.
#[verifier::loop_isolation(false)]
pub fn is_memmap_token_exec(t: &[char]) -> (r: bool)
    ensures
        r <==> is_memmap_token(t@),
{
    if !starts_with_memmap(t) {
        return false;
    }
    // The first unit must stand where the leading digit run ends.
    let mut i: usize = 7;
    while i < t.len() && is_digit_exec(t[i])
        invariant
            7 <= i <= t@.len(),
            forall|j: int| 7 <= j < i ==> is_digit(#[trigger] t@[j]),
        decreases t@.len() - i,
    {
        i = i + 1;
    }
    proof {
        if exists|k: int| memmap_split_at(t@, k) {
            let k = choose|k: int| memmap_split_at(t@, k);
            assert forall|j: int| 0 <= j < k - 7 implies is_digit(
                #[trigger] t@.subrange(7, k)[j],
            ) by {}
            lemma_digit_run_end(t@, 7, k);
        }
        if i < t@.len() {
            lemma_digit_run_end(t@, 7, i as int);
        }
    }
    if i >= t.len() || t.len() - i < 3 {
        return false;
    }
    if !is_unit_exec(t[i]) {
        return false;
    }
    if t[i + 1] != '!' {
        return false;
    }
    // The final unit must close the token right after the second digit run.
    let mut j: usize = i + 2;
    while j < t.len() && is_digit_exec(t[j])
        invariant
            i + 2 <= j <= t@.len(),
            forall|l: int| i + 2 <= l < j ==> is_digit(#[trigger] t@[l]),
        decreases t@.len() - j,
    {
        j = j + 1;
    }
    proof {
        if j < t@.len() {
            lemma_digit_run_end(t@, i as int + 2, j as int);
        }
        if exists|k: int| memmap_split_at(t@, k) {
            let k = choose|k: int| memmap_split_at(t@, k);
            lemma_digit_run_end(t@, 7, k);
            assert(k == i);
            assert(!is_digit(t@[t@.len() - 1]));
            assert forall|l: int| 0 <= l < t@.len() - 1 - (k + 2) implies is_digit(
                #[trigger] t@.subrange(k + 2, t@.len() - 1)[l],
            ) by {}
            lemma_digit_run_end(t@, k + 2, t@.len() - 1);
        }
    }
    if j >= t.len() || t.len() - j != 1 {
        return false;
    }
    if !is_unit_exec(t[j]) {
        return false;
    }
    proof {
        assert(t@.subrange(7, i as int) =~= t@.subrange(7, i as int));
        assert(all_digits(t@.subrange(7, i as int))) by {
            assert forall|l: int| 0 <= l < i - 7 implies is_digit(
                #[trigger] t@.subrange(7, i as int)[l],
            ) by {
                assert(t@.subrange(7, i as int)[l] == t@[7 + l]);
            }
        }
        assert(all_digits(t@.subrange(i as int + 2, t@.len() - 1))) by {
            assert forall|l: int| 0 <= l < t@.len() - 1 - (i + 2) implies is_digit(
                #[trigger] t@.subrange(i as int + 2, t@.len() - 1)[l],
            ) by {
                assert(t@.subrange(i as int + 2, t@.len() - 1)[l] == t@[i + 2 + l]);
            }
        }
        assert(memmap_split_at(t@, i as int));
    }
    true
}

/// Whether `t` is the tiering switch.
fn is_tpp_token_exec(t: &[char]) -> (r: bool)
    ensures
        r <==> t@ == "do_tpp"@,
{
    proof {
        reveal_strlit("do_tpp");
    }
    if t.len() != 6 {
        return false;
    }
    let r = t[0] == 'd' && t[1] == 'o' && t[2] == '_' && t[3] == 't' && t[4] == 'p' && t[5] == 'p';
    proof {
        if r {
            assert(t@ =~= "do_tpp"@);
        } else {
            assert(t@ != "do_tpp"@) by {
                if t@ == "do_tpp"@ {
                    assert(t@[0] == 'd' && t@[1] == 'o' && t@[2] == '_' && t@[3] == 't' && t@[4]
                        == 'p' && t@[5] == 'p');
                }
            }
        }
    }
    r
}

/// Whether `t` is a CPU-cap token.
#[verifier::loop_isolation(false)]
pub fn is_maxcpus_token_exec(t: &[char]) -> (r: bool)
    ensures
        r <==> is_maxcpus_token(t@),
{
    if !starts_with_maxcpus(t) {
        return false;
    }
    let mut i: usize = 8;
    while i < t.len()
        invariant
            8 <= i <= t@.len(),
            forall|j: int| 8 <= j < i ==> is_digit(#[trigger] t@[j]),
        decreases t@.len() - i,
    {
        if !is_digit_exec(t[i]) {
            proof {
                assert(t@.skip(8)[i - 8] == t@[i as int]);
            }
            return false;
        }
        i = i + 1;
    }
    proof {
        assert(all_digits(t@.skip(8))) by {
            assert forall|l: int| 0 <= l < t@.skip(8).len() implies is_digit(
                #[trigger] t@.skip(8)[l],
            ) by {
                assert(t@.skip(8)[l] == t@[8 + l]);
            }
        }
    }
    true
}

/// Whether the driver manages `t`.
pub fn is_managed_token_exec(t: &[char]) -> (r: bool)
    ensures
        r <==> is_managed_token(t@),
{
    is_memmap_token_exec(t) || is_tpp_token_exec(t) || is_maxcpus_token_exec(t)
}

/// The views of a token list.
pub open spec fn token_views(ts: Seq<String>) -> Seq<Seq<char>> {
    ts.map_values(|t: String| t@)
}

/// What stripping leaves: every token the driver does not manage, in order.
pub open spec fn spec_strip(vs: Seq<Seq<char>>) -> Seq<Seq<char>> {
    vs.filter(|v: Seq<char>| !is_managed_token(v))
}

/// Remove every managed token from the command line, keeping the rest in
/// order.
pub fn strip_boot_tokens(tokens: &Vec<String>) -> (r: Vec<String>)
    ensures
        token_views(r@) == spec_strip(token_views(tokens@)),
{
    broadcast use vstd::prelude::Seq::lemma_filter_push;

    let mut out: Vec<String> = Vec::new();
    let mut i: usize = 0;
    while i < tokens.len()
        invariant
            0 <= i <= tokens@.len(),
            token_views(out@) == spec_strip(token_views(tokens@.take(i as int))),
        decreases tokens@.len() - i,
    {
        let cs = str_chars(tokens[i].as_str());
        let keep = !is_managed_token_exec(cs.as_slice());
        let ghost prev = out@;
        let ghost x = tokens@[i as int]@;
        let ghost base = token_views(tokens@.take(i as int));
        proof {
            broadcast use vstd::prelude::Seq::lemma_filter_push;

            assert(token_views(tokens@.take(i as int + 1)) =~= base.push(x));
            assert(spec_strip(base.push(x)) == if !is_managed_token(x) {
                spec_strip(base).push(x)
            } else {
                spec_strip(base)
            });
        }
        if keep {
            out.push(tokens[i].clone());
            proof {
                assert(token_views(out@) =~= token_views(prev).push(x));
            }
        }
        proof {
            assert(token_views(out@) == spec_strip(token_views(tokens@.take(i as int + 1))));
        }
        i = i + 1;
    }
    proof {
        assert(tokens@.take(tokens@.len() as int) =~= tokens@);
    }
    out
}

/// The memory-map token reserving `r`, sizes in gigabytes.
pub open spec fn memmap_token_seq(r: MemRegion) -> Seq<char> {
    "memmap="@ + dec_seq(r.size as nat) + seq!['G', '!'] + dec_seq(r.start as nat) + seq!['G']
}

/// Render the memory-map token for one region.
pub fn memmap_token_string(r: &MemRegion) -> (s: String)
    ensures
        s@ == memmap_token_seq(*r),
{
    proof {
        reveal_strlit("memmap=");
        reveal_strlit("G!");
        reveal_strlit("G");
    }
    let mut s = String::from_str("memmap=");
    let sz = usize_to_string(r.size);
    s.append(sz.as_str());
    s.append("G!");
    let st = usize_to_string(r.start);
    s.append(st.as_str());
    s.append("G");
    proof {
        assert(s@ =~= memmap_token_seq(*r));
    }
    s
}

/// Every character of a decimal rendering is a digit.
pub proof fn lemma_dec_seq_all_digits(n: nat)
    ensures
        all_digits(dec_seq(n)),
    decreases n,
{
    if n < 10 {
        assert(is_digit(digit_char(n as int)));
        assert forall|i: int| 0 <= i < dec_seq(n).len() implies is_digit(
            #[trigger] dec_seq(n)[i],
        ) by {}
    } else {
        lemma_dec_seq_all_digits(n / 10);
        assert(is_digit(digit_char((n % 10) as int)));
        assert forall|i: int| 0 <= i < dec_seq(n).len() implies is_digit(
            #[trigger] dec_seq(n)[i],
        ) by {
            if i < dec_seq(n / 10).len() {
                assert(dec_seq(n)[i] == dec_seq(n / 10)[i]);
            }
        }
    }
}

/// The token rendered for a region is one the stripping step removes.
pub proof fn lemma_memmap_token_managed(r: MemRegion)
    ensures
        is_managed_token(memmap_token_seq(r)),
{
    reveal_strlit("memmap=");
    let t = memmap_token_seq(r);
    let a = dec_seq(r.size as nat);
    let b = dec_seq(r.start as nat);
    crate::numfmt::lemma_dec_seq_len(r.size as nat);
    crate::numfmt::lemma_dec_seq_len(r.start as nat);
    lemma_dec_seq_all_digits(r.size as nat);
    lemma_dec_seq_all_digits(r.start as nat);
    let k = 7 + a.len() as int;
    assert(t.len() == 7 + a.len() + 2 + b.len() + 1);
    assert(t.take(7) =~= "memmap="@);
    assert(t.subrange(7, k) =~= a);
    assert(t[k] == 'G');
    assert(t[k + 1] == '!');
    assert(t.subrange(k + 2, t.len() - 1) =~= b);
    assert(t[t.len() - 1] == 'G');
    assert(memmap_split_at(t, k));
}

/// The CPU-cap token the tiering path appends is managed.
pub proof fn lemma_maxcpus_token_managed()
    ensures
        is_managed_token("maxcpus=8"@),
{
    reveal_strlit("maxcpus=8");
    reveal_strlit("maxcpus=");
    let t = "maxcpus=8"@;
    assert(t.take(8) =~= "maxcpus="@);
    assert(t.skip(8) =~= seq!['8']);
    assert(is_digit('8'));
    assert(all_digits(t.skip(8))) by {
        assert forall|l: int| 0 <= l < t.skip(8).len() implies is_digit(
            #[trigger] t.skip(8)[l],
        ) by {
            assert(t.skip(8)[l] == '8');
        }
    }
    assert(is_maxcpus_token(t));
}

/// The tokens one configuration appends after stripping: the reservations,
/// then (for tiering) the switch and the CPU cap.
pub open spec fn appended_tokens(dram: Option<MemRegion>, pmem: Option<MemRegion>, tpp: bool) -> Seq<
    Seq<char>,
> {
    (match dram {
        Some(d) => match pmem {
            Some(p) => seq![memmap_token_seq(d), memmap_token_seq(p)],
            None => seq![memmap_token_seq(d)],
        },
        None => Seq::empty(),
    }) + (if tpp {
        seq!["do_tpp"@, "maxcpus=8"@]
    } else {
        Seq::empty()
    })
}

/// What one rewrite leaves: the unmanaged tokens, then the appended ones.
pub open spec fn spec_apply(
    vs: Seq<Seq<char>>,
    dram: Option<MemRegion>,
    pmem: Option<MemRegion>,
    tpp: bool,
) -> Seq<Seq<char>> {
    spec_strip(vs) + appended_tokens(dram, pmem, tpp)
}

/// Strip the managed tokens and append what the configuration asks for.
/// The memory reservations go in only when a DRAM region anchors them; the
/// tiering switch brings the CPU cap with it.
pub fn apply_boot_config(
    tokens: &Vec<String>,
    dram: Option<MemRegion>,
    pmem: Option<MemRegion>,
    tpp: bool,
) -> (r: Vec<String>)
    ensures
        token_views(r@) == spec_apply(token_views(tokens@), dram, pmem, tpp),
{
    let mut out = strip_boot_tokens(tokens);
    let ghost stripped = token_views(out@);
    match dram {
        Some(d) => {
            out.push(memmap_token_string(&d));
            match pmem {
                Some(p) => {
                    out.push(memmap_token_string(&p));
                },
                None => {},
            }
        },
        None => {},
    }
    if tpp {
        proof {
            reveal_strlit("do_tpp");
            reveal_strlit("maxcpus=8");
        }
        out.push(String::from_str("do_tpp"));
        out.push(String::from_str("maxcpus=8"));
    }
    proof {
        assert(token_views(out@) =~= spec_apply(token_views(tokens@), dram, pmem, tpp));
    }
    out
}

/// Stripping an empty token list leaves an empty token list.
proof fn lemma_strip_empty()
    ensures
        spec_strip(Seq::<Seq<char>>::empty()) == Seq::<Seq<char>>::empty(),
{
    reveal_with_fuel(Seq::<_>::filter, 2);
}

/// Stripping removes a managed token standing alone.
proof fn lemma_strip_managed_singleton(x: Seq<char>)
    requires
        is_managed_token(x),
    ensures
        spec_strip(seq![x]) == Seq::<Seq<char>>::empty(),
{
    broadcast use vstd::prelude::Seq::lemma_filter_push;

    lemma_strip_empty();
    assert(seq![x] =~= Seq::<Seq<char>>::empty().push(x));
    assert(spec_strip(Seq::<Seq<char>>::empty().push(x)) == spec_strip(
        Seq::<Seq<char>>::empty(),
    ));
}

/// Filtering twice with one predicate filters once.
proof fn lemma_filter_idempotent(vs: Seq<Seq<char>>)
    ensures
        spec_strip(spec_strip(vs)) == spec_strip(vs),
    decreases vs.len(),
{
    broadcast use vstd::prelude::Seq::lemma_filter_push;

    if vs.len() == 0 {
        lemma_strip_empty();
    } else {
        let d = vs.drop_last();
        let x = vs.last();
        lemma_filter_idempotent(d);
        assert(d.push(x) =~= vs);
        assert(spec_strip(d.push(x)) == if !is_managed_token(x) {
            spec_strip(d).push(x)
        } else {
            spec_strip(d)
        });
        if !is_managed_token(x) {
            assert(spec_strip(spec_strip(d).push(x)) == spec_strip(spec_strip(d)).push(x));
        }
    }
}

/// Every appended token is managed, so a second strip removes exactly them.
proof fn lemma_appended_all_managed(dram: Option<MemRegion>, pmem: Option<MemRegion>, tpp: bool)
    ensures
        spec_strip(appended_tokens(dram, pmem, tpp)) == Seq::<Seq<char>>::empty(),
{
    broadcast use vstd::prelude::Seq::lemma_filter_push;
    broadcast use vstd::prelude::Seq::filter_distributes_over_add;

    lemma_strip_empty();
    if dram is Some {
        lemma_memmap_token_managed(dram->0);
        lemma_strip_managed_singleton(memmap_token_seq(dram->0));
    }
    if pmem is Some {
        lemma_memmap_token_managed(pmem->0);
        lemma_strip_managed_singleton(memmap_token_seq(pmem->0));
    }
    lemma_maxcpus_token_managed();
    lemma_strip_managed_singleton("maxcpus=8"@);
    lemma_strip_managed_singleton("do_tpp"@);
    let front = match dram {
        Some(d) => match pmem {
            Some(p) => seq![memmap_token_seq(d), memmap_token_seq(p)],
            None => seq![memmap_token_seq(d)],
        },
        None => Seq::<Seq<char>>::empty(),
    };
    let back = if tpp {
        seq!["do_tpp"@, "maxcpus=8"@]
    } else {
        Seq::<Seq<char>>::empty()
    };
    assert(spec_strip(front) =~= Seq::<Seq<char>>::empty()) by {
        if dram is Some && pmem is Some {
            assert(front =~= seq![memmap_token_seq(dram->0)] + seq![memmap_token_seq(pmem->0)]);
            assert(spec_strip(
                seq![memmap_token_seq(dram->0)] + seq![memmap_token_seq(pmem->0)],
            ) == spec_strip(seq![memmap_token_seq(dram->0)]) + spec_strip(
                seq![memmap_token_seq(pmem->0)],
            ));
        }
    }
    assert(spec_strip(back) =~= Seq::<Seq<char>>::empty()) by {
        if tpp {
            assert(back =~= seq!["do_tpp"@] + seq!["maxcpus=8"@]);
            assert(spec_strip(seq!["do_tpp"@] + seq!["maxcpus=8"@]) == spec_strip(
                seq!["do_tpp"@],
            ) + spec_strip(seq!["maxcpus=8"@]));
        }
    }
    assert(spec_strip(front + back) == spec_strip(front) + spec_strip(back));
    assert(appended_tokens(dram, pmem, tpp) == front + back);
    assert(spec_strip(appended_tokens(dram, pmem, tpp)) =~= Seq::<Seq<char>>::empty());
}

/// Re-applying the boot-configuration rewrite with the same configuration
/// changes nothing: no tokens accumulate across repeated runs.
pub proof fn lemma_apply_idempotent(
    vs: Seq<Seq<char>>,
    dram: Option<MemRegion>,
    pmem: Option<MemRegion>,
    tpp: bool,
)
    ensures
        spec_apply(spec_apply(vs, dram, pmem, tpp), dram, pmem, tpp) == spec_apply(
            vs,
            dram,
            pmem,
            tpp,
        ),
{
    broadcast use vstd::prelude::Seq::filter_distributes_over_add;

    lemma_filter_idempotent(vs);
    lemma_appended_all_managed(dram, pmem, tpp);
    assert(spec_strip(spec_strip(vs) + appended_tokens(dram, pmem, tpp)) == spec_strip(
        spec_strip(vs),
    ) + spec_strip(appended_tokens(dram, pmem, tpp)));
    assert(spec_apply(spec_apply(vs, dram, pmem, tpp), dram, pmem, tpp) =~= spec_apply(
        vs,
        dram,
        pmem,
        tpp,
    ));
}

} // verus!
