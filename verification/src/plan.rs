//! The execution plan: the layered command prefix, the background
//! collectors, and the per-workload bookkeeping tables.
//!
//! The command prefix is built as an ordered list of wrapper specifications
//! composed by one function, so the order the layers wrap each other in is a
//! property of the plan itself: the performance-counter wrapper is the
//! outermost layer and the fault-injection wrapper the innermost, right
//! around the workload, so that only the workload's own statistics are
//! attributed to it.

use vstd::prelude::*;

use crate::config::{Config, Workload};
use crate::numfmt::{dec_seq, usize_to_string};
use crate::strutil::str_views;

verus! {

/// The period, in seconds, of every periodic collector.
pub const PERIOD: usize = 10;

/// The process name each workload runs under, used to attach monitors.
pub open spec fn spec_proc_name(w: Workload) -> Seq<char> {
    match w {
        Workload::AllocTest { .. } => "alloc_test"@,
        Workload::Canneal { .. } => "canneal"@,
        Workload::Spec2017Mcf => "mcf_s"@,
        Workload::Spec2017Xalancbmk => "xalancbmk_s"@,
        Workload::Spec2017Xz { .. } => "xz_s"@,
        Workload::Spec2017CactuBSSN => "cactuBSSN_s"@,
        Workload::Gups { .. } => "gups"@,
        Workload::PagewalkCoherence { .. } => "paging"@,
        Workload::Memcached { .. } => "memcached"@,
        Workload::Graph500 { .. } => "graph500_refere"@,
        Workload::Stream { .. } => "stream"@,
    }
}

/// The process name each workload runs under.
pub fn proc_name(w: &Workload) -> (r: &'static str)
    ensures
        r@ == spec_proc_name(*w),
{
    match w {
        Workload::AllocTest { .. } => "alloc_test",
        Workload::Canneal { .. } => "canneal",
        Workload::Spec2017Mcf => "mcf_s",
        Workload::Spec2017Xalancbmk => "xalancbmk_s",
        Workload::Spec2017Xz { .. } => "xz_s",
        Workload::Spec2017CactuBSSN => "cactuBSSN_s",
        Workload::Gups { .. } => "gups",
        Workload::PagewalkCoherence { .. } => "paging",
        Workload::Memcached { .. } => "memcached",
        Workload::Graph500 { .. } => "graph500_refere",
        Workload::Stream { .. } => "stream",
    }
}

/// How many cores each workload is pinned to.
pub open spec fn spec_num_pin_cores(w: Workload) -> int {
    match w {
        Workload::Spec2017Mcf => 4,
        Workload::Spec2017Xz { .. } => 4,
        Workload::Spec2017Xalancbmk => 4,
        Workload::Spec2017CactuBSSN => 16,
        Workload::Gups { threads, .. } => threads as int,
        Workload::AllocTest { threads, .. } => threads as int,
        Workload::Stream { threads } => threads as int,
        _ => 1,
    }
}

/// How many cores the workload is pinned to; decided before the first draw
/// from the allocator.
pub fn num_pin_cores(w: &Workload) -> (r: usize)
    ensures
        r == spec_num_pin_cores(*w),
{
    match w {
        Workload::Spec2017Mcf => 4,
        Workload::Spec2017Xz { .. } => 4,
        Workload::Spec2017Xalancbmk => 4,
        Workload::Spec2017CactuBSSN => 16,
        Workload::Gups { threads, .. } => *threads,
        Workload::AllocTest { threads, .. } => *threads,
        Workload::Stream { threads } => *threads,
        _ => 1,
    }
}

/// The comma-separated rendering of a core list.
pub open spec fn cores_seq(s: Seq<usize>) -> Seq<char>
    decreases s.len(),
{
    if s.len() == 0 {
        Seq::empty()
    } else if s.len() == 1 {
        dec_seq(s[0] as nat)
    } else {
        cores_seq(s.drop_last()) + seq![','] + dec_seq(s.last() as nat)
    }
}

/// Render a core list for `taskset`, comma-separated.
pub fn cores_to_string(cores: &Vec<usize>) -> (r: String)
    ensures
        r@ == cores_seq(cores@),
{
    let mut r = String::new();
    let mut i: usize = 0;
    while i < cores.len()
        invariant
            0 <= i <= cores@.len(),
            r@ == cores_seq(cores@.take(i as int)),
        decreases cores@.len() - i,
    {
        if i > 0 {
            proof {
                reveal_strlit(",");
            }
            r.append(",");
        }
        let n = usize_to_string(cores[i]);
        r.append(n.as_str());
        proof {
            assert(cores@.take(i as int + 1).drop_last() =~= cores@.take(i as int));
            assert(cores@.take(i as int + 1).last() == cores@[i as int]);
            assert(r@ =~= cores_seq(cores@.take(i as int + 1)));
        }
        i = i + 1;
    }
    proof {
        assert(cores@.take(cores@.len() as int) =~= cores@);
    }
    r
}

/// One layer of the command prefix.
#[derive(Debug, Clone)]
pub enum WrapperSpec {
    /// Sample hardware counters around the whole command.
    PerfStat { stat_file: String, counters: Vec<String>, cores: String, periodic: bool },
    /// Record stacks for a flame graph.
    FlameGraph { cores: String, record_file: String },
    /// Bind all allocation to NUMA node zero.
    Numactl,
    /// Redirect the workload's memory mapping through the selected backend.
    Fbmm { bmks_dir: String, user_home: String },
    /// Count the workload's TLB misses; the innermost layer, so only the
    /// workload's own faults are attributed.
    BadgerTrap { bmks_dir: String },
}

/// The `-e` arguments naming the counters to record.
pub open spec fn counters_seq(cs: Seq<Seq<char>>) -> Seq<char>
    decreases cs.len(),
{
    if cs.len() == 0 {
        Seq::empty()
    } else {
        counters_seq(cs.drop_last()) + " -e "@ + cs.last()
    }
}

/// The text one wrapper contributes to the command prefix.
pub open spec fn wrapper_text(w: WrapperSpec) -> Seq<char> {
    match w {
        WrapperSpec::PerfStat { stat_file, counters, cores, periodic } => {
            "sudo perf stat -o "@ + stat_file@ + counters_seq(str_views(counters@)) + " -C "@
                + cores@ + (if periodic {
                " -I "@ + dec_seq((PERIOD * 1000) as nat)
            } else {
                Seq::empty()
            }) + " -- "@
        },
        WrapperSpec::FlameGraph { cores, record_file } => {
            "sudo perf record -a -C "@ + cores@ + " -g -F 1999 -o "@ + record_file@ + " "@
        },
        WrapperSpec::Numactl => "numactl --membind=0 "@,
        WrapperSpec::Fbmm { bmks_dir, user_home } => {
            "sudo "@ + bmks_dir@ + "/fbmm_wrapper \""@ + user_home@ + "/daxtmp/\" "@
        },
        WrapperSpec::BadgerTrap { bmks_dir } => bmks_dir@ + "/badger-trap command "@,
    }
}

/// Render the `-e` counter arguments.
fn counters_to_string(counters: &Vec<String>) -> (r: String)
    ensures
        r@ == counters_seq(str_views(counters@)),
{
    proof {
        reveal_strlit(" -e ");
    }
    let mut r = String::new();
    let mut i: usize = 0;
    while i < counters.len()
        invariant
            0 <= i <= counters@.len(),
            r@ == counters_seq(str_views(counters@.take(i as int))),
        decreases counters@.len() - i,
    {
        r.append(" -e ");
        r.append(counters[i].as_str());
        proof {
            assert(str_views(counters@.take(i as int + 1)).drop_last() =~= str_views(
                counters@.take(i as int),
            ));
            assert(str_views(counters@.take(i as int + 1)).last() == counters@[i as int]@);
            assert(r@ =~= counters_seq(str_views(counters@.take(i as int + 1))));
        }
        i = i + 1;
    }
    proof {
        assert(counters@.take(counters@.len() as int) =~= counters@);
    }
    r
}

/// Render the text of one wrapper.
pub fn wrapper_text_string(w: &WrapperSpec) -> (r: String)
    ensures
        r@ == wrapper_text(*w),
{
    match w {
        WrapperSpec::PerfStat { stat_file, counters, cores, periodic } => {
            proof {
                reveal_strlit("sudo perf stat -o ");
                reveal_strlit(" -C ");
                reveal_strlit(" -I ");
                reveal_strlit(" -- ");
            }
            let mut r = String::from_str("sudo perf stat -o ");
            r.append(stat_file.as_str());
            let cnt = counters_to_string(counters);
            r.append(cnt.as_str());
            r.append(" -C ");
            r.append(cores.as_str());
            if *periodic {
                r.append(" -I ");
                let ms = usize_to_string(PERIOD * 1000);
                r.append(ms.as_str());
            }
            r.append(" -- ");
            proof {
                assert(r@ =~= wrapper_text(*w));
            }
            r
        },
        WrapperSpec::FlameGraph { cores, record_file } => {
            proof {
                reveal_strlit("sudo perf record -a -C ");
                reveal_strlit(" -g -F 1999 -o ");
                reveal_strlit(" ");
            }
            let mut r = String::from_str("sudo perf record -a -C ");
            r.append(cores.as_str());
            r.append(" -g -F 1999 -o ");
            r.append(record_file.as_str());
            r.append(" ");
            proof {
                assert(r@ =~= wrapper_text(*w));
            }
            r
        },
        WrapperSpec::Numactl => {
            let r = String::from_str("numactl --membind=0 ");
            proof {
                assert(r@ =~= wrapper_text(*w));
            }
            r
        },
        WrapperSpec::Fbmm { bmks_dir, user_home } => {
            proof {
                reveal_strlit("sudo ");
                reveal_strlit("/fbmm_wrapper \"");
                reveal_strlit("/daxtmp/\" ");
            }
            let mut r = String::from_str("sudo ");
            r.append(bmks_dir.as_str());
            r.append("/fbmm_wrapper \"");
            r.append(user_home.as_str());
            r.append("/daxtmp/\" ");
            proof {
                assert(r@ =~= wrapper_text(*w));
            }
            r
        },
        WrapperSpec::BadgerTrap { bmks_dir } => {
            proof {
                reveal_strlit("/badger-trap command ");
            }
            let mut r = bmks_dir.clone();
            r.append("/badger-trap command ");
            proof {
                assert(r@ =~= wrapper_text(*w));
            }
            r
        },
    }
}

/// The texts of the wrappers a configuration asks for, outermost first:
/// counter sampling, then flame-graph recording, then NUMA binding, then the
/// backend interception, and the fault-injection wrapper always last.
pub open spec fn spec_wrapper_texts(
    c: Config,
    perf_stat_file: Seq<char>,
    perf_record_file: Seq<char>,
    cores: Seq<char>,
    bmks_dir: Seq<char>,
    user_home: Seq<char>,
) -> Seq<Seq<char>> {
    (if c.perf_stat {
        seq![
            "sudo perf stat -o "@ + perf_stat_file + counters_seq(str_views(c.perf_counters@))
                + " -C "@ + cores + (if c.perf_periodic {
                " -I "@ + dec_seq((PERIOD * 1000) as nat)
            } else {
                Seq::empty()
            }) + " -- "@,
        ]
    } else {
        Seq::empty()
    }) + (if c.flame_graph {
        seq!["sudo perf record -a -C "@ + cores + " -g -F 1999 -o "@ + perf_record_file + " "@]
    } else {
        Seq::empty()
    }) + (if c.numactl {
        seq!["numactl --membind=0 "@]
    } else {
        Seq::empty()
    }) + (if c.fbmm is Some {
        seq!["sudo "@ + bmks_dir + "/fbmm_wrapper \""@ + user_home + "/daxtmp/\" "@]
    } else {
        Seq::empty()
    }) + (if c.badger_trap {
        seq![bmks_dir + "/badger-trap command "@]
    } else {
        Seq::empty()
    })
}

/// The whole command prefix: the wrapper texts in order, concatenated.
pub open spec fn spec_compose(ts: Seq<Seq<char>>) -> Seq<char>
    decreases ts.len(),
{
    if ts.len() == 0 {
        Seq::empty()
    } else {
        spec_compose(ts.drop_last()) + ts.last()
    }
}

/// Build the wrapper list for a configuration and compose it into the
/// command prefix, in one fixed order.
pub fn build_cmd_prefix(
    c: &Config,
    perf_stat_file: &str,
    perf_record_file: &str,
    cores: &str,
    bmks_dir: &str,
    user_home: &str,
) -> (r: String)
    ensures
        r@ == spec_compose(
            spec_wrapper_texts(
                *c,
                perf_stat_file@,
                perf_record_file@,
                cores@,
                bmks_dir@,
                user_home@,
            ),
        ),
{
    let ghost all = spec_wrapper_texts(
        *c,
        perf_stat_file@,
        perf_record_file@,
        cores@,
        bmks_dir@,
        user_home@,
    );
    let mut ws: Vec<WrapperSpec> = Vec::new();
    if c.perf_stat {
        ws.push(
            WrapperSpec::PerfStat {
                stat_file: String::from_str(perf_stat_file),
                counters: c.perf_counters.clone(),
                cores: String::from_str(cores),
                periodic: c.perf_periodic,
            },
        );
    }
    if c.flame_graph {
        ws.push(
            WrapperSpec::FlameGraph {
                cores: String::from_str(cores),
                record_file: String::from_str(perf_record_file),
            },
        );
    }
    if c.numactl {
        ws.push(WrapperSpec::Numactl);
    }
    if c.fbmm.is_some() {
        ws.push(
            WrapperSpec::Fbmm {
                bmks_dir: String::from_str(bmks_dir),
                user_home: String::from_str(user_home),
            },
        );
    }
    if c.badger_trap {
        ws.push(WrapperSpec::BadgerTrap { bmks_dir: String::from_str(bmks_dir) });
    }
    proof {
        assert(ws@.map_values(|w: WrapperSpec| wrapper_text(w)) =~= all);
    }
    let mut r = String::new();
    let mut i: usize = 0;
    while i < ws.len()
        invariant
            0 <= i <= ws@.len(),
            ws@.map_values(|w: WrapperSpec| wrapper_text(w)) == all,
            r@ == spec_compose(all.take(i as int)),
        decreases ws@.len() - i,
    {
        let t = wrapper_text_string(&ws[i]);
        r.append(t.as_str());
        proof {
            assert(all.take(i as int + 1).drop_last() =~= all.take(i as int));
            assert(all.take(i as int + 1).last() == wrapper_text(ws@[i as int]));
            assert(r@ =~= spec_compose(all.take(i as int + 1)));
        }
        i = i + 1;
    }
    proof {
        assert(all.take(all.len() as int) =~= all);
        assert(ws@.len() == all.len());
    }
    r
}

/// The fault-injection wrapper stands last in every plan that asks for it,
/// so only the workload's own statistics land in its counts.
pub proof fn lemma_badger_trap_is_innermost(
    c: Config,
    perf_stat_file: Seq<char>,
    perf_record_file: Seq<char>,
    cores: Seq<char>,
    bmks_dir: Seq<char>,
    user_home: Seq<char>,
)
    requires
        c.badger_trap,
    ensures
        spec_wrapper_texts(c, perf_stat_file, perf_record_file, cores, bmks_dir, user_home).last()
            == bmks_dir + "/badger-trap command "@,
{
}

/// One background collector: a remote process that samples a pseudo-file on
/// a fixed period and appends to its own output file.
#[derive(Debug, Clone)]
pub struct Collector {
    pub name: String,
    /// Sampling period in seconds.
    pub period: usize,
    pub cmd: String,
    /// The collector has started once this file exists.
    pub ensure_started: String,
}

/// The shell command of the periodic smaps snapshot.
pub open spec fn smaps_cmd_seq(proc_name: Seq<char>, smaps_file: Seq<char>) -> Seq<char> {
    "((sudo cat /proc/`pgrep -x "@ + proc_name + "  | sort -n | head -n1`/smaps) || echo none) | tee -a "@
        + smaps_file
}

/// The shell command of the periodic backend statistics snapshot.
pub open spec fn tmmfs_stats_cmd_seq(out_file: Seq<char>) -> Seq<char> {
    "(cat /sys/fs/tieredmmfs/stats || echo wait) | tee -a "@ + out_file
}

/// The shell command of the periodic active-list snapshot.
pub open spec fn tmmfs_active_cmd_seq(out_file: Seq<char>) -> Seq<char> {
    "(cat /sys/fs/tieredmmfs/active_list || echo wait) | tee -a "@ + out_file
}

/// Build the background collectors a configuration asks for: the smaps
/// snapshot, the backend statistics, and the backend active list, the last
/// on a triple period because of its volume.
pub fn build_collectors(
    c: &Config,
    proc_name_str: &str,
    smaps_file: &str,
    tmmfs_stats_file: &str,
    tmmfs_active_file: &str,
) -> (r: Vec<Collector>)
    ensures
        r@.len() == (if c.smaps_periodic {
            1int
        } else {
            0int
        }) + (if c.tmmfs_stats_periodic {
            1int
        } else {
            0int
        }) + (if c.tmmfs_active_list_periodic {
            1int
        } else {
            0int
        }),
        c.smaps_periodic ==> r@[0].cmd@ == smaps_cmd_seq(proc_name_str@, smaps_file@)
            && r@[0].period == PERIOD && r@[0].ensure_started@ == smaps_file@,
        c.tmmfs_stats_periodic ==> exists|i: int|
            0 <= i < r@.len() && (#[trigger] r@[i]).cmd@ == tmmfs_stats_cmd_seq(tmmfs_stats_file@)
                && r@[i].period == PERIOD && r@[i].ensure_started@ == tmmfs_stats_file@,
        c.tmmfs_active_list_periodic ==> r@.last().cmd@ == tmmfs_active_cmd_seq(
            tmmfs_active_file@,
        ) && r@.last().period == 3 * PERIOD && r@.last().ensure_started@ == tmmfs_active_file@,
{
    let mut r: Vec<Collector> = Vec::new();
    if c.smaps_periodic {
        proof {
            reveal_strlit("((sudo cat /proc/`pgrep -x ");
            reveal_strlit("  | sort -n | head -n1`/smaps) || echo none) | tee -a ");
        }
        let mut cmd = String::from_str("((sudo cat /proc/`pgrep -x ");
        cmd.append(proc_name_str);
        cmd.append("  | sort -n | head -n1`/smaps) || echo none) | tee -a ");
        cmd.append(smaps_file);
        proof {
            assert(cmd@ =~= smaps_cmd_seq(proc_name_str@, smaps_file@));
        }
        r.push(
            Collector {
                name: String::from_str("smaps"),
                period: PERIOD,
                cmd,
                ensure_started: String::from_str(smaps_file),
            },
        );
    }
    if c.tmmfs_stats_periodic {
        proof {
            reveal_strlit("(cat /sys/fs/tieredmmfs/stats || echo wait) | tee -a ");
        }
        let mut cmd = String::from_str("(cat /sys/fs/tieredmmfs/stats || echo wait) | tee -a ");
        cmd.append(tmmfs_stats_file);
        proof {
            assert(cmd@ =~= tmmfs_stats_cmd_seq(tmmfs_stats_file@));
        }
        r.push(
            Collector {
                name: String::from_str("tieredmmfs_stats"),
                period: PERIOD,
                cmd,
                ensure_started: String::from_str(tmmfs_stats_file),
            },
        );
    }
    if c.tmmfs_active_list_periodic {
        proof {
            reveal_strlit("(cat /sys/fs/tieredmmfs/active_list || echo wait) | tee -a ");
        }
        let mut cmd = String::from_str(
            "(cat /sys/fs/tieredmmfs/active_list || echo wait) | tee -a ",
        );
        cmd.append(tmmfs_active_file);
        proof {
            assert(cmd@ =~= tmmfs_active_cmd_seq(tmmfs_active_file@));
        }
        r.push(
            Collector {
                name: String::from_str("tieredmmfs_active_list"),
                period: 3 * PERIOD,
                cmd,
                ensure_started: String::from_str(tmmfs_active_file),
            },
        );
    }
    proof {
        if c.tmmfs_stats_periodic {
            let i = if c.smaps_periodic {
                1int
            } else {
                0int
            };
            assert((#[trigger] r@[i]).cmd@ == tmmfs_stats_cmd_seq(tmmfs_stats_file@) && r@[i].period
                == PERIOD && r@[i].ensure_started@ == tmmfs_stats_file@);
        }
    }
    r
}

} // verus!
