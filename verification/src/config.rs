//! The declarative configuration model of an experiment run.
//!
//! A [`Config`] captures every independent axis of one experiment: the
//! workload and its intrinsic parameters, the memory backend under test, the
//! physical memory reservations, tracing and monitoring toggles, and the run
//! identity.  It is built once from validated command-line input and read by
//! every later stage.

use vstd::prelude::*;
use vstd::arithmetic::power2::pow2;
use vstd::slice::slice_subrange;

use crate::errors::{ConfigError, ParseError};
use crate::strutil::{all_digits, dec_value, parse_u32, str_eq, u32_token_err};

verus! {

/// Which probe the pagewalk-coherence microbenchmark runs.
#[derive(Clone, Copy, Debug, PartialEq, Eq, Structural)]
pub enum PagewalkCoherenceMode {
    Speculation,
    Coherence,
}

/// The input size of the canneal benchmark.
#[derive(Clone, Copy, Debug, PartialEq, Eq, Structural)]
pub enum CannealWorkload {
    Small,
    Medium,
    Large,
    Native,
}

/// The memory-management filesystem under test.
#[derive(Clone, Copy, Debug, PartialEq, Eq, Structural)]
pub enum Mmfs {
    /// A plain DAX-mounted ext4.
    Ext4,
    /// The basic in-kernel filesystem, with the number of pages it reserves.
    BasicMmfs { num_pages: usize },
    /// The two-tier filesystem spanning DRAM and PMEM.
    TieredMmfs,
    /// The contiguous-allocation filesystem.
    ContigMmfs,
    /// The bandwidth-aware filesystem, steered by per-node weights.
    BandwidthMmfs,
}

/// A physical memory reservation, in gigabytes.
#[derive(Clone, Copy, Debug, PartialEq, Eq, Structural)]
pub struct MemRegion {
    /// Length of the region in GB.
    pub size: usize,
    /// Offset of the region's first byte in GB.
    pub start: usize,
}

/// A relative allocation weight for one NUMA node.
#[derive(Clone, Copy, Debug, PartialEq, Eq, Structural)]
pub struct NodeWeight {
    pub nid: u32,
    pub weight: u32,
}

/// The benchmark to run, with its intrinsic parameters.
#[derive(Clone, Copy, Debug, PartialEq, Eq, Structural)]
pub enum Workload {
    Spec2017Mcf,
    Spec2017Xalancbmk,
    Spec2017Xz { size: usize },
    Spec2017CactuBSSN,
    Canneal { workload: CannealWorkload },
    AllocTest { size: usize, num_allocs: usize, threads: usize, populate: bool },
    Gups { threads: usize, exp: usize, hot_exp: Option<usize>, move_hot: bool, num_updates: usize },
    PagewalkCoherence { mode: PagewalkCoherenceMode },
    /// The key-value-store workload; the proportions are in thousandths.
    Memcached { size: usize, op_count: usize, read_prop: u32, update_prop: u32 },
    Graph500 { size: usize },
    Stream { threads: usize },
}

/// Everything one experiment run depends on.  Built once, persisted, then
/// read-only.
#[derive(Debug, Clone)]
pub struct Config {
    /// The experiment family name.
    pub exp: String,
    pub workload: Workload,
    pub perf_stat: bool,
    pub perf_periodic: bool,
    pub perf_counters: Vec<String>,
    pub disable_thp: bool,
    pub disable_aslr: bool,
    pub mm_fault_tracker: bool,
    pub mmap_tracker: bool,
    pub flame_graph: bool,
    pub smaps_periodic: bool,
    pub tmmfs_stats_periodic: bool,
    pub tmmfs_active_list_periodic: bool,
    pub lock_stat: bool,
    /// The memory-management filesystem, when one is selected.
    pub fbmm: Option<Mmfs>,
    /// Whether the kernel tiering feature is selected instead.
    pub tpp: bool,
    pub dram_region: Option<MemRegion>,
    pub pmem_region: Option<MemRegion>,
    pub node_weights: Vec<NodeWeight>,
    pub numactl: bool,
    pub badger_trap: bool,
    pub migrate_task_int: Option<usize>,
    pub numa_scan_size: Option<usize>,
    pub numa_scan_delay: Option<usize>,
    pub numa_scan_period_min: Option<usize>,
    /// Huge pages to reserve, in GB.
    pub hugetlb: Option<usize>,
    /// Pages to allocate on a DAX pte fault.
    pub pte_fault_size: Option<usize>,
    pub thp_temporal_zero: bool,
    pub no_fpm_fix: bool,
    pub no_pmem_write_zeroes: bool,
    pub track_pfn_insert: bool,
    pub mark_inode_dirty: bool,
    pub ext4_metadata: bool,
    pub no_prealloc: bool,
    pub username: String,
    pub host: String,
    /// A snapshot of the research settings found on the remote.
    pub remote_research_settings: Vec<(String, String)>,
    /// Seconds since the epoch when the run was configured.
    pub timestamp: u64,
}

/// The index of the first `:` in `s`, or the length if there is none.
pub open spec fn colon_pos(s: Seq<char>) -> int
    decreases s.len(),
{
    if s.len() == 0 {
        0
    } else if s[0] == ':' {
        0
    } else {
        1 + colon_pos(s.drop_first())
    }
}

/// Basic bounds of `colon_pos`.
pub proof fn lemma_colon_pos(s: Seq<char>)
    ensures
        0 <= colon_pos(s) <= s.len(),
        forall|i: int| 0 <= i < colon_pos(s) ==> #[trigger] s[i] != ':',
        colon_pos(s) < s.len() ==> s[colon_pos(s)] == ':',
    decreases s.len(),
{
    if s.len() > 0 && s[0] != ':' {
        lemma_colon_pos(s.drop_first());
        assert forall|i: int| 0 <= i < colon_pos(s) implies #[trigger] s[i] != ':' by {
            if i > 0 {
                assert(s.drop_first()[i - 1] != ':');
            }
        }
        if colon_pos(s) < s.len() {
            assert(s.drop_first()[colon_pos(s) - 1] == ':');
        }
    }
}

/// The node-id characters of a node-weight token.
pub open spec fn nw_nid_part(s: Seq<char>) -> Seq<char> {
    s.take(colon_pos(s))
}

/// The weight characters of a node-weight token.
pub open spec fn nw_weight_part(s: Seq<char>) -> Seq<char> {
    s.skip(colon_pos(s) + 1)
}

/// Read a node-weight token of the shape `<node-id>:<weight>`.
///
/// The token is accepted exactly when a `:` is present and both sides read
/// as decimal `u32` values; a missing separator and each malformed side are
/// reported as the corresponding parse error, the node-id side first.
#[verifier::loop_isolation(false)]
pub fn parse_node_weight(cs: &[char]) -> (r: Result<NodeWeight, ParseError>)
    ensures
        r is Ok <==> colon_pos(cs@) < cs@.len() && u32_token_err(nw_nid_part(cs@)) is None
            && u32_token_err(nw_weight_part(cs@)) is None,
        r is Ok ==> r->Ok_0 == (NodeWeight {
            nid: dec_value(nw_nid_part(cs@)) as u32,
            weight: dec_value(nw_weight_part(cs@)) as u32,
        }),
        r == Err::<NodeWeight, ParseError>(ParseError::MissingSeparator) <==> colon_pos(cs@)
            == cs@.len(),
        colon_pos(cs@) < cs@.len() && u32_token_err(nw_nid_part(cs@)) is Some ==> r == Err::<
            NodeWeight,
            ParseError,
        >(u32_token_err(nw_nid_part(cs@))->0),
        colon_pos(cs@) < cs@.len() && u32_token_err(nw_nid_part(cs@)) is None && u32_token_err(
            nw_weight_part(cs@),
        ) is Some ==> r == Err::<NodeWeight, ParseError>(u32_token_err(nw_weight_part(cs@))->0),
{
    proof {
        lemma_colon_pos(cs@);
    }
    let mut sep: usize = 0;
    while sep < cs.len() && cs[sep] != ':'
        invariant
            0 <= sep <= cs@.len(),
            sep <= colon_pos(cs@),
        decreases cs@.len() - sep,
    {
        sep = sep + 1;
    }
    proof {
        assert(sep == colon_pos(cs@)) by {
            if sep < colon_pos(cs@) {
                assert(cs@[sep as int] != ':');
            }
        }
    }
    if sep == cs.len() {
        return Err(ParseError::MissingSeparator);
    }
    let nid_part: &[char] = slice_subrange(cs, 0, sep);
    let weight_part: &[char] = slice_subrange(cs, sep + 1, cs.len());
    proof {
        assert(nid_part@ =~= nw_nid_part(cs@));
        assert(weight_part@ =~= nw_weight_part(cs@));
    }
    let nid = match parse_u32(nid_part) {
        Ok(v) => v,
        Err(e) => {
            return Err(e);
        },
    };
    let weight = match parse_u32(weight_part) {
        Ok(v) => v,
        Err(e) => {
            return Err(e);
        },
    };
    Ok(NodeWeight { nid, weight })
}

/// The DRAM reservation: the requested size, starting where requested or at
/// the conventional 4 GB mark where physical RAM begins.
pub fn resolve_dram_region(size: usize, start: Option<usize>) -> (r: MemRegion)
    ensures
        r.size == size,
        start is Some ==> r.start == start->0,
        start is None ==> r.start == 4,
{
    match start {
        Some(s) => MemRegion { size, start: s },
        None => MemRegion { size, start: 4 },
    }
}

/// The PMEM reservation.  Without an explicit start it begins where the
/// DRAM region ends, so the two reservations abut; a PMEM region with
/// neither an explicit start nor a DRAM region to anchor it is rejected.
pub fn resolve_pmem_region(dram: Option<MemRegion>, size: usize, start: Option<usize>) -> (r:
    Result<MemRegion, ConfigError>)
    requires
        dram is Some ==> dram->0.size + dram->0.start <= usize::MAX,
    ensures
        start is Some ==> r == Ok::<MemRegion, ConfigError>(
            MemRegion { size, start: start->0 },
        ),
        start is None && dram is Some ==> r == Ok::<MemRegion, ConfigError>(
            MemRegion { size, start: (dram->0.size + dram->0.start) as usize },
        ),
        start is None && dram is None ==> r == Err::<MemRegion, ConfigError>(
            ConfigError::PmemNeedsDram,
        ),
{
    match start {
        Some(s) => Ok(MemRegion { size, start: s }),
        None => match dram {
            Some(d) => Ok(MemRegion { size, start: d.size + d.start }),
            None => Err(ConfigError::PmemNeedsDram),
        },
    }
}

/// The default number of GUPS updates: an eighth of the workload size.
pub fn gups_default_updates(exp: usize) -> (r: usize)
    requires
        exp < usize::BITS,
    ensures
        r == pow2(exp as nat) / 8,
{
    proof {
        vstd::arithmetic::power2::lemma_pow2_pos(exp as nat);
        vstd::bits::lemma_usize_pow2_no_overflow(exp as nat);
        vstd::bits::lemma_usize_shl_is_mul(1, exp);
    }
    (1usize << exp) / 8
}

/// The key-value-store workload, with the documented defaults: a thousand
/// operations, and an even read/update split.
pub fn memcached_workload(
    size: usize,
    op_count: Option<usize>,
    read_prop: Option<u32>,
    update_prop: Option<u32>,
) -> (r: Workload)
    ensures
        r == (Workload::Memcached {
            size,
            op_count: if op_count is Some {
                op_count->0
            } else {
                1000
            },
            read_prop: if read_prop is Some {
                read_prop->0
            } else {
                500
            },
            update_prop: if update_prop is Some {
                update_prop->0
            } else {
                500
            },
        }),
{
    Workload::Memcached {
        size,
        op_count: match op_count {
            Some(v) => v,
            None => 1000,
        },
        read_prop: match read_prop {
            Some(v) => v,
            None => 500,
        },
        update_prop: match update_prop {
            Some(v) => v,
            None => 500,
        },
    }
}

/// The GUPS workload, defaulting the update count to an eighth of the
/// workload size.
pub fn gups_workload(
    threads: usize,
    exp: usize,
    hot_exp: Option<usize>,
    move_hot: bool,
    num_updates: Option<usize>,
) -> (r: Workload)
    requires
        exp < usize::BITS,
    ensures
        r == (Workload::Gups {
            threads,
            exp,
            hot_exp,
            move_hot,
            num_updates: if num_updates is Some {
                num_updates->0
            } else {
                (pow2(exp as nat) / 8) as usize
            },
        }),
{
    let num_updates = match num_updates {
        Some(v) => v,
        None => gups_default_updates(exp),
    };
    Workload::Gups { threads, exp, hot_exp, move_hot, num_updates }
}

/// The SPEC 2017 workload named by the command line, or `None` for a name
/// outside the supported set.
pub fn spec17_workload(which: &str, size: usize) -> (r: Option<Workload>)
    ensures
        which@ == "mcf"@ ==> r == Some(Workload::Spec2017Mcf),
        which@ == "xalancbmk"@ ==> r == Some(Workload::Spec2017Xalancbmk),
        which@ == "xz"@ ==> r == Some(Workload::Spec2017Xz { size }),
        which@ == "cactubssn"@ ==> r == Some(Workload::Spec2017CactuBSSN),
        which@ != "mcf"@ && which@ != "xalancbmk"@ && which@ != "xz"@ && which@ != "cactubssn"@
            ==> r is None,
{
    proof {
        reveal_strlit("mcf");
        reveal_strlit("xalancbmk");
        reveal_strlit("xz");
        reveal_strlit("cactubssn");
        // The four names differ pairwise: three have different lengths, and
        // the two nine-character ones differ in their first character.
        assert("mcf"@.len() == 3);
        assert("xz"@.len() == 2);
        assert("xalancbmk"@.len() == 9);
        assert("cactubssn"@.len() == 9);
        assert("cactubssn"@[0] == 'c');
        assert("xalancbmk"@[0] == 'x');
        assert("cactubssn"@ != "xalancbmk"@);
    }
    if str_eq(which, "mcf") {
        Some(Workload::Spec2017Mcf)
    } else if str_eq(which, "xalancbmk") {
        Some(Workload::Spec2017Xalancbmk)
    } else if str_eq(which, "xz") {
        Some(Workload::Spec2017Xz { size })
    } else if str_eq(which, "cactubssn") {
        Some(Workload::Spec2017CactuBSSN)
    } else {
        None
    }
}

/// Whether `c` may appear in a kernel configuration option name.
pub open spec fn is_config_char(c: char) -> bool {
    ||| 48 <= (c as u32) <= 57
    ||| 65 <= (c as u32) <= 90
    ||| 97 <= (c as u32) <= 122
    ||| c == '_'
}

/// Read a kernel configuration option of the shape `+NAME` or `-NAME`.
///
/// The leading sign tells whether the option is enabled; the name must be
/// non-empty and consist of ASCII alphanumerics and underscores.
#[verifier::loop_isolation(false)]
pub fn parse_config_option(cs: &[char]) -> (r: Result<(Vec<char>, bool), ParseError>)
    ensures
        r is Ok <==> cs@.len() >= 2 && (cs@[0] == '+' || cs@[0] == '-') && (forall|i: int|
            1 <= i < cs@.len() ==> is_config_char(#[trigger] cs@[i])),
        r is Ok ==> r->Ok_0.0@ == cs@.drop_first() && (r->Ok_0.1 <==> cs@[0] == '+'),
        r == Err::<(Vec<char>, bool), ParseError>(ParseError::Empty) <==> cs@.len() == 0 || (
        cs@.len() == 1 && (cs@[0] == '+' || cs@[0] == '-')),
        r == Err::<(Vec<char>, bool), ParseError>(ParseError::BadPrefix) <==> cs@.len() >= 1
            && cs@[0] != '+' && cs@[0] != '-',
        r == Err::<(Vec<char>, bool), ParseError>(ParseError::BadConfigChar) <==> cs@.len() >= 2
            && (cs@[0] == '+' || cs@[0] == '-') && !(forall|i: int|
            1 <= i < cs@.len() ==> is_config_char(#[trigger] cs@[i])),
{
    if cs.len() == 0 {
        return Err(ParseError::Empty);
    }
    let sign = cs[0];
    if sign != '+' && sign != '-' {
        return Err(ParseError::BadPrefix);
    }
    if cs.len() == 1 {
        return Err(ParseError::Empty);
    }
    let mut name: Vec<char> = Vec::new();
    let mut i: usize = 1;
    while i < cs.len()
        invariant
            1 <= i <= cs@.len(),
            name@ =~= cs@.subrange(1, i as int),
            forall|j: int| 1 <= j < i ==> is_config_char(#[trigger] cs@[j]),
        decreases cs@.len() - i,
    {
        let c = cs[i];
        let cv: u32 = c as u32;
        let ok = (48 <= cv && cv <= 57) || (65 <= cv && cv <= 90) || (97 <= cv && cv <= 122) || c
            == '_';
        if !ok {
            proof {
                assert(!is_config_char(cs@[i as int]));
            }
            return Err(ParseError::BadConfigChar);
        }
        name.push(c);
        i = i + 1;
    }
    proof {
        assert(name@ =~= cs@.drop_first());
    }
    Ok((name, sign == '+'))
}

} // verus!
