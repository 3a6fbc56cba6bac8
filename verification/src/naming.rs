//! The naming policy for output files.
//!
//! Every file an experiment run produces is named from the experiment name,
//! the workload, the run's timestamp and a per-purpose suffix.  The name is
//! a pure function of those inputs, so two constructions from the same
//! configuration and timestamp agree byte for byte; and because the decimal
//! rendering of the timestamp is injective, two runs that differ only in
//! their timestamp never collide.

use vstd::prelude::*;

use crate::config::{Config, Workload};
use crate::numfmt::{dec_seq, u64_to_string};
use crate::strutil::lemma_concat_middle_injective;

verus! {

/// The short name of a workload, used in file names.
pub open spec fn workload_token(w: Workload) -> Seq<char> {
    match w {
        Workload::Spec2017Mcf => "mcf"@,
        Workload::Spec2017Xalancbmk => "xalancbmk"@,
        Workload::Spec2017Xz { .. } => "xz"@,
        Workload::Spec2017CactuBSSN => "cactubssn"@,
        Workload::Canneal { .. } => "canneal"@,
        Workload::AllocTest { .. } => "alloctest"@,
        Workload::Gups { .. } => "gups"@,
        Workload::PagewalkCoherence { .. } => "pagewalk_coherence"@,
        Workload::Memcached { .. } => "memcached"@,
        Workload::Graph500 { .. } => "graph500"@,
        Workload::Stream { .. } => "stream"@,
    }
}

/// The short name of a workload.
pub fn workload_token_str(w: &Workload) -> (r: &'static str)
    ensures
        r@ == workload_token(*w),
{
    match w {
        Workload::Spec2017Mcf => "mcf",
        Workload::Spec2017Xalancbmk => "xalancbmk",
        Workload::Spec2017Xz { .. } => "xz",
        Workload::Spec2017CactuBSSN => "cactubssn",
        Workload::Canneal { .. } => "canneal",
        Workload::AllocTest { .. } => "alloctest",
        Workload::Gups { .. } => "gups",
        Workload::PagewalkCoherence { .. } => "pagewalk_coherence",
        Workload::Memcached { .. } => "memcached",
        Workload::Graph500 { .. } => "graph500",
        Workload::Stream { .. } => "stream",
    }
}

/// What stands before the timestamp in every file name.
pub open spec fn name_prefix(exp: Seq<char>, w: Workload) -> Seq<char> {
    exp + seq!['-'] + workload_token(w) + seq!['-']
}

/// The full name of one output file: experiment name, workload token,
/// timestamp and per-purpose suffix.
pub open spec fn file_name_seq(exp: Seq<char>, w: Workload, ts: nat, suffix: Seq<char>) -> Seq<
    char,
> {
    name_prefix(exp, w) + dec_seq(ts) + (seq!['.'] + suffix)
}

/// Naming is deterministic: the same configuration, timestamp and purpose
/// always name the same file.
pub proof fn lemma_file_name_deterministic(
    exp1: Seq<char>,
    w1: Workload,
    ts1: nat,
    suffix1: Seq<char>,
    exp2: Seq<char>,
    w2: Workload,
    ts2: nat,
    suffix2: Seq<char>,
)
    requires
        exp1 == exp2,
        w1 == w2,
        ts1 == ts2,
        suffix1 == suffix2,
    ensures
        file_name_seq(exp1, w1, ts1, suffix1) == file_name_seq(exp2, w2, ts2, suffix2),
{
}

/// Naming is collision-free across timestamps: two runs that differ in
/// their timestamp never name the same file for the same purpose.
pub proof fn lemma_file_name_timestamp_distinct(
    exp: Seq<char>,
    w: Workload,
    ts1: nat,
    ts2: nat,
    suffix: Seq<char>,
)
    requires
        ts1 != ts2,
    ensures
        file_name_seq(exp, w, ts1, suffix) != file_name_seq(exp, w, ts2, suffix),
{
    if file_name_seq(exp, w, ts1, suffix) == file_name_seq(exp, w, ts2, suffix) {
        lemma_concat_middle_injective(
            name_prefix(exp, w),
            dec_seq(ts1),
            dec_seq(ts2),
            seq!['.'] + suffix,
        );
        crate::numfmt::lemma_dec_seq_injective(ts1, ts2);
    }
}

/// The name of the output file for the given purpose.
pub fn gen_file_name(c: &Config, suffix: &str) -> (r: String)
    ensures
        r@ == file_name_seq(c.exp@, c.workload, c.timestamp as nat, suffix@),
{
    proof {
        reveal_strlit("-");
        reveal_strlit(".");
    }
    let mut r = c.exp.clone();
    r.append("-");
    r.append(workload_token_str(&c.workload));
    r.append("-");
    let ts = u64_to_string(c.timestamp);
    r.append(ts.as_str());
    r.append(".");
    r.append(suffix);
    proof {
        assert(r@ =~= file_name_seq(c.exp@, c.workload, c.timestamp as nat, suffix@));
    }
    r
}

/// The standard per-run files: the workload's own output, the persisted
/// parameters, the timing summary, and the simulation log.
pub fn gen_standard_names(c: &Config) -> (r: (String, String, String, String))
    ensures
        r.0@ == file_name_seq(c.exp@, c.workload, c.timestamp as nat, "out"@),
        r.1@ == file_name_seq(c.exp@, c.workload, c.timestamp as nat, "params"@),
        r.2@ == file_name_seq(c.exp@, c.workload, c.timestamp as nat, "time"@),
        r.3@ == file_name_seq(c.exp@, c.workload, c.timestamp as nat, "sim"@),
{
    (
        gen_file_name(c, "out"),
        gen_file_name(c, "params"),
        gen_file_name(c, "time"),
        gen_file_name(c, "sim"),
    )
}

} // verus!
