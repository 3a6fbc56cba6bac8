//! Provisioning the selected memory backend, and the kernel tunables.
//!
//! When a memory-management filesystem is selected, its mount point is
//! prepared, the filesystem is formatted or its module inserted and mounted,
//! and the single global switch is enabled last.  The per-optimization
//! tunables are written only when the tiering feature is not active: they
//! exist only on the non-tiering kernel.

use vstd::prelude::*;

use crate::config::{Config, Mmfs, NodeWeight};
use crate::numfmt::{dec_seq, u32_to_string, usize_to_string};
use crate::strutil::str_views;

verus! {

/// The rendering of a mount option boolean.
pub open spec fn bool_seq(b: bool) -> Seq<char> {
    if b {
        "true"@
    } else {
        "false"@
    }
}

/// The command writing one node's allocation weight.
pub open spec fn spec_weight_cmd(w: NodeWeight) -> Seq<char> {
    "echo "@ + dec_seq(w.weight as nat) + " | sudo tee /sys/fs/bwmmfs*/node"@ + dec_seq(
        w.nid as nat,
    ) + "/weight"@
}

/// The per-node weight commands, in the order the weights were given.
pub open spec fn spec_weight_cmds(ws: Seq<NodeWeight>) -> Seq<Seq<char>> {
    ws.map_values(|w: NodeWeight| spec_weight_cmd(w))
}

/// The filesystem-specific format, insert and mount commands.
pub open spec fn spec_mount_cmds(fs: Mmfs, c: Config, kernel_path: Seq<char>) -> Seq<Seq<char>> {
    match fs {
        Mmfs::Ext4 => seq![
            "sudo mkfs.ext4 /dev/pmem0"@,
            "sudo tune2fs -O ^has_journal /dev/pmem0"@,
        ] + (if !c.ext4_metadata {
            seq!["sudo tune2fs -O ^metadata_csum /dev/pmem0"@]
        } else {
            Seq::empty()
        }) + seq!["sudo mount -o dax /dev/pmem0 daxtmp/"@],
        Mmfs::BasicMmfs { num_pages } => seq![
            "sudo insmod "@ + kernel_path + "/BasicMMFS/basicmmfs.ko"@,
            "sudo mount -t BasicMMFS BasicMMFS -o numpages="@ + dec_seq(num_pages as nat)
                + " daxtmp/"@,
        ],
        Mmfs::TieredMmfs => seq![
            "sudo insmod "@ + kernel_path + "/TieredMMFS/tieredmmfs.ko"@,
            "sudo mount -t TieredMMFS -o slowmem=/dev/pmem1 -o basepage="@ + bool_seq(
                c.disable_thp,
            ) + " /dev/pmem0 daxtmp/"@,
        ] + (match c.migrate_task_int {
            Some(i) => seq![
                "echo "@ + dec_seq(i as nat) + " | sudo tee /sys/fs/tieredmmfs/migrate_task_int"@,
            ],
            None => Seq::empty(),
        }),
        Mmfs::ContigMmfs => seq![
            "sudo insmod "@ + kernel_path + "/ContigMMFS/contigmmfs.ko"@,
            "sudo mount -t ContigMMFS ContigMMFS daxtmp/"@,
        ],
        Mmfs::BandwidthMmfs => seq![
            "sudo insmod "@ + kernel_path + "/BandwidthMMFS/bandwidth.ko"@,
            "sudo mount -t BandwidthMMFS BandwidthMMFS daxtmp/"@,
        ] + spec_weight_cmds(c.node_weights@),
    }
}

/// The whole backend-provisioning sequence: prepare the mount point, bring
/// the filesystem up, hand the mount point to the user, and enable the
/// global switch last.
pub open spec fn spec_backend_cmds(c: Config, kernel_path: Seq<char>) -> Seq<Seq<char>> {
    match c.fbmm {
        None => Seq::empty(),
        Some(fs) => seq!["mkdir -p ./daxtmp/"@] + spec_mount_cmds(fs, c, kernel_path) + seq![
            "sudo chown -R $USER daxtmp/"@,
            "echo 1 | sudo tee /sys/kernel/mm/fbmm/state"@,
        ],
    }
}

/// Build the backend-provisioning commands of a configuration.
pub fn backend_setup_commands(c: &Config, kernel_path: &str) -> (r: Vec<String>)
    ensures
        str_views(r@) == spec_backend_cmds(*c, kernel_path@),
{
    proof {
        reveal_strlit("mkdir -p ./daxtmp/");
        reveal_strlit("sudo mkfs.ext4 /dev/pmem0");
        reveal_strlit("sudo tune2fs -O ^has_journal /dev/pmem0");
        reveal_strlit("sudo tune2fs -O ^metadata_csum /dev/pmem0");
        reveal_strlit("sudo mount -o dax /dev/pmem0 daxtmp/");
        reveal_strlit("sudo insmod ");
        reveal_strlit("/BasicMMFS/basicmmfs.ko");
        reveal_strlit("sudo mount -t BasicMMFS BasicMMFS -o numpages=");
        reveal_strlit(" daxtmp/");
        reveal_strlit("/TieredMMFS/tieredmmfs.ko");
        reveal_strlit("sudo mount -t TieredMMFS -o slowmem=/dev/pmem1 -o basepage=");
        reveal_strlit("true");
        reveal_strlit("false");
        reveal_strlit(" /dev/pmem0 daxtmp/");
        reveal_strlit("echo ");
        reveal_strlit(" | sudo tee /sys/fs/tieredmmfs/migrate_task_int");
        reveal_strlit("/ContigMMFS/contigmmfs.ko");
        reveal_strlit("sudo mount -t ContigMMFS ContigMMFS daxtmp/");
        reveal_strlit("/BandwidthMMFS/bandwidth.ko");
        reveal_strlit("sudo mount -t BandwidthMMFS BandwidthMMFS daxtmp/");
        reveal_strlit(" | sudo tee /sys/fs/bwmmfs*/node");
        reveal_strlit("/weight");
        reveal_strlit("sudo chown -R $USER daxtmp/");
        reveal_strlit("echo 1 | sudo tee /sys/kernel/mm/fbmm/state");
    }
    let mut r: Vec<String> = Vec::new();
    let fs = match &c.fbmm {
        None => {
            proof {
                assert(str_views(r@) =~= spec_backend_cmds(*c, kernel_path@));
            }
            return r;
        },
        Some(fs) => *fs,
    };
    r.push(String::from_str("mkdir -p ./daxtmp/"));
    match fs {
        Mmfs::Ext4 => {
            r.push(String::from_str("sudo mkfs.ext4 /dev/pmem0"));
            r.push(String::from_str("sudo tune2fs -O ^has_journal /dev/pmem0"));
            if !c.ext4_metadata {
                r.push(String::from_str("sudo tune2fs -O ^metadata_csum /dev/pmem0"));
            }
            r.push(String::from_str("sudo mount -o dax /dev/pmem0 daxtmp/"));
        },
        Mmfs::BasicMmfs { num_pages } => {
            let mut ins = String::from_str("sudo insmod ");
            ins.append(kernel_path);
            ins.append("/BasicMMFS/basicmmfs.ko");
            proof {
                assert(ins@ =~= "sudo insmod "@ + kernel_path@ + "/BasicMMFS/basicmmfs.ko"@);
            }
            r.push(ins);
            let mut mnt = String::from_str("sudo mount -t BasicMMFS BasicMMFS -o numpages=");
            let np = usize_to_string(num_pages);
            mnt.append(np.as_str());
            mnt.append(" daxtmp/");
            proof {
                assert(mnt@ =~= "sudo mount -t BasicMMFS BasicMMFS -o numpages="@ + dec_seq(
                    num_pages as nat,
                ) + " daxtmp/"@);
            }
            r.push(mnt);
        },
        Mmfs::TieredMmfs => {
            let mut ins = String::from_str("sudo insmod ");
            ins.append(kernel_path);
            ins.append("/TieredMMFS/tieredmmfs.ko");
            proof {
                assert(ins@ =~= "sudo insmod "@ + kernel_path@ + "/TieredMMFS/tieredmmfs.ko"@);
            }
            r.push(ins);
            let mut mnt = String::from_str(
                "sudo mount -t TieredMMFS -o slowmem=/dev/pmem1 -o basepage=",
            );
            if c.disable_thp {
                mnt.append("true");
            } else {
                mnt.append("false");
            }
            mnt.append(" /dev/pmem0 daxtmp/");
            proof {
                assert(mnt@ =~= "sudo mount -t TieredMMFS -o slowmem=/dev/pmem1 -o basepage="@
                    + bool_seq(c.disable_thp) + " /dev/pmem0 daxtmp/"@);
            }
            r.push(mnt);
            match c.migrate_task_int {
                Some(i) => {
                    let mut mig = String::from_str("echo ");
                    let iv = usize_to_string(i);
                    mig.append(iv.as_str());
                    mig.append(" | sudo tee /sys/fs/tieredmmfs/migrate_task_int");
                    proof {
                        assert(mig@ =~= "echo "@ + dec_seq(i as nat)
                            + " | sudo tee /sys/fs/tieredmmfs/migrate_task_int"@);
                    }
                    r.push(mig);
                },
                None => {},
            }
        },
        Mmfs::ContigMmfs => {
            let mut ins = String::from_str("sudo insmod ");
            ins.append(kernel_path);
            ins.append("/ContigMMFS/contigmmfs.ko");
            proof {
                assert(ins@ =~= "sudo insmod "@ + kernel_path@ + "/ContigMMFS/contigmmfs.ko"@);
            }
            r.push(ins);
            r.push(String::from_str("sudo mount -t ContigMMFS ContigMMFS daxtmp/"));
        },
        Mmfs::BandwidthMmfs => {
            let mut ins = String::from_str("sudo insmod ");
            ins.append(kernel_path);
            ins.append("/BandwidthMMFS/bandwidth.ko");
            proof {
                assert(ins@ =~= "sudo insmod "@ + kernel_path@ + "/BandwidthMMFS/bandwidth.ko"@);
            }
            r.push(ins);
            r.push(String::from_str("sudo mount -t BandwidthMMFS BandwidthMMFS daxtmp/"));
            let ghost before = str_views(r@);
            let mut i: usize = 0;
            while i < c.node_weights.len()
                invariant
                    0 <= i <= c.node_weights@.len(),
                    str_views(r@) == before + spec_weight_cmds(c.node_weights@.take(i as int)),
                decreases c.node_weights@.len() - i,
            {
                let w = c.node_weights[i];
                let mut wc = String::from_str("echo ");
                let wv = u32_to_string(w.weight);
                wc.append(wv.as_str());
                wc.append(" | sudo tee /sys/fs/bwmmfs*/node");
                let nv = u32_to_string(w.nid);
                wc.append(nv.as_str());
                wc.append("/weight");
                proof {
                    assert(wc@ =~= spec_weight_cmd(c.node_weights@[i as int]));
                }
                let ghost prev_views = str_views(r@);
                let ghost wc_view = wc@;
                r.push(wc);
                proof {
                    assert(str_views(r@) =~= prev_views.push(wc_view));
                    assert(c.node_weights@.take(i as int + 1) =~= c.node_weights@.take(
                        i as int,
                    ).push(c.node_weights@[i as int]));
                    assert(spec_weight_cmds(c.node_weights@.take(i as int + 1))
                        =~= spec_weight_cmds(c.node_weights@.take(i as int)).push(
                        spec_weight_cmd(c.node_weights@[i as int]),
                    ));
                    assert(str_views(r@) =~= before + spec_weight_cmds(
                        c.node_weights@.take(i as int + 1),
                    ));
                }
                i = i + 1;
            }
            proof {
                assert(c.node_weights@.take(c.node_weights@.len() as int) =~= c.node_weights@);
            }
        },
    }
    proof {
        assert(str_views(r@) =~= seq!["mkdir -p ./daxtmp/"@] + spec_mount_cmds(
            fs,
            *c,
            kernel_path@,
        ));
    }
    let ghost pre_tail = str_views(r@);
    r.push(String::from_str("sudo chown -R $USER daxtmp/"));
    r.push(String::from_str("echo 1 | sudo tee /sys/kernel/mm/fbmm/state"));
    proof {
        assert(str_views(r@) =~= pre_tail + seq![
            "sudo chown -R $USER daxtmp/"@,
            "echo 1 | sudo tee /sys/kernel/mm/fbmm/state"@,
        ]);
        assert(str_views(r@) =~= spec_backend_cmds(*c, kernel_path@));
    }
    r
}

/// The tiering tunables, written only when the tiering feature is active.
pub open spec fn spec_tpp_cmds(c: Config) -> Seq<Seq<char>> {
    seq![
        "sudo sysctl kernel.numa_balancing=2"@,
        "echo 1 | sudo tee /sys/kernel/mm/numa/demotion_enabled"@,
    ] + (match c.numa_scan_size {
        Some(v) => seq![
            "echo "@ + dec_seq(v as nat) + " | sudo tee /proc/sys/kernel/numa_balancing_scan_size_MB"@,
        ],
        None => Seq::empty(),
    }) + (match c.numa_scan_delay {
        Some(v) => seq![
            "echo "@ + dec_seq(v as nat) + " | sudo tee /proc/sys/kernel/numa_balancing_scan_delay_ms"@,
        ],
        None => Seq::empty(),
    }) + (match c.numa_scan_period_min {
        Some(v) => seq![
            "echo "@ + dec_seq(v as nat) + " | sudo tee /proc/sys/kernel/numa_balancing_scan_period_min_ms"@,
        ],
        None => Seq::empty(),
    })
}

/// The per-optimization tunables of the non-tiering kernel.
pub open spec fn spec_opt_cmds(c: Config) -> Seq<Seq<char>> {
    (match c.pte_fault_size {
        Some(v) => seq![
            "echo "@ + dec_seq(v as nat) + " | sudo tee /sys/kernel/mm/fbmm/pte_fault_size"@,
        ],
        None => Seq::empty(),
    }) + (if c.thp_temporal_zero {
        seq!["echo 0 | sudo tee /sys/kernel/mm/fbmm/nt_huge_page_zero"@]
    } else {
        Seq::empty()
    }) + (if c.no_fpm_fix {
        seq!["echo 0 | sudo tee /sys/kernel/mm/fbmm/follow_page_mask_fix"@]
    } else {
        Seq::empty()
    }) + (if c.no_pmem_write_zeroes {
        seq!["echo 0 | sudo tee /sys/kernel/mm/fbmm/pmem_write_zeroes"@]
    } else {
        Seq::empty()
    }) + (if c.track_pfn_insert {
        seq!["echo 1 | sudo tee /sys/kernel/mm/fbmm/track_pfn_insert"@]
    } else {
        Seq::empty()
    }) + (if c.mark_inode_dirty {
        seq!["echo 1 | sudo tee /sys/kernel/mm/fbmm/mark_inode_dirty"@]
    } else {
        Seq::empty()
    }) + (if c.no_prealloc {
        seq!["echo 0 | sudo tee /sys/kernel/mm/fbmm/prealloc_map_populate"@]
    } else {
        Seq::empty()
    })
}

/// The kernel tuning commands: the tiering path writes the NUMA-balancing
/// tunables, every other path writes the per-optimization toggles, which
/// exist only on the non-tiering kernel.
pub open spec fn spec_tuning_cmds(c: Config) -> Seq<Seq<char>> {
    if c.tpp {
        spec_tpp_cmds(c)
    } else {
        spec_opt_cmds(c)
    }
}

/// Build the tiering tunable commands.
#[verifier::rlimit(60)]
fn tpp_tuning_commands(c: &Config) -> (r: Vec<String>)
    requires
        c.tpp,
    ensures
        str_views(r@) == spec_tpp_cmds(*c),
{
    proof {
        reveal_strlit("sudo sysctl kernel.numa_balancing=2");
        reveal_strlit("echo 1 | sudo tee /sys/kernel/mm/numa/demotion_enabled");
        reveal_strlit("echo ");
        reveal_strlit(" | sudo tee /proc/sys/kernel/numa_balancing_scan_size_MB");
        reveal_strlit(" | sudo tee /proc/sys/kernel/numa_balancing_scan_delay_ms");
        reveal_strlit(" | sudo tee /proc/sys/kernel/numa_balancing_scan_period_min_ms");
    }
    let mut r: Vec<String> = Vec::new();
    let ghost g1 = seq![
        "sudo sysctl kernel.numa_balancing=2"@,
        "echo 1 | sudo tee /sys/kernel/mm/numa/demotion_enabled"@,
    ];
    let ghost g2 = g1 + (match c.numa_scan_size {
        Some(v) => seq![
            "echo "@ + dec_seq(v as nat)
                + " | sudo tee /proc/sys/kernel/numa_balancing_scan_size_MB"@,
        ],
        None => Seq::<Seq<char>>::empty(),
    });
    let ghost g3 = g2 + (match c.numa_scan_delay {
        Some(v) => seq![
            "echo "@ + dec_seq(v as nat)
                + " | sudo tee /proc/sys/kernel/numa_balancing_scan_delay_ms"@,
        ],
        None => Seq::<Seq<char>>::empty(),
    });
    let ghost g4 = g3 + (match c.numa_scan_period_min {
        Some(v) => seq![
            "echo "@ + dec_seq(v as nat)
                + " | sudo tee /proc/sys/kernel/numa_balancing_scan_period_min_ms"@,
        ],
        None => Seq::<Seq<char>>::empty(),
    });
    r.push(String::from_str("sudo sysctl kernel.numa_balancing=2"));
    r.push(String::from_str("echo 1 | sudo tee /sys/kernel/mm/numa/demotion_enabled"));
    proof {
        assert(str_views(r@) =~= g1);
    }
    match c.numa_scan_size {
        Some(v) => {
            let mut s = String::from_str("echo ");
            let sv = usize_to_string(v);
            s.append(sv.as_str());
            s.append(" | sudo tee /proc/sys/kernel/numa_balancing_scan_size_MB");
            proof {
                assert(s@ =~= "echo "@ + dec_seq(v as nat)
                    + " | sudo tee /proc/sys/kernel/numa_balancing_scan_size_MB"@);
            }
            r.push(s);
        },
        None => {},
    }
    proof {
        assert(str_views(r@) =~= g2);
    }
    match c.numa_scan_delay {
        Some(v) => {
            let mut s = String::from_str("echo ");
            let sv = usize_to_string(v);
            s.append(sv.as_str());
            s.append(" | sudo tee /proc/sys/kernel/numa_balancing_scan_delay_ms");
            proof {
                assert(s@ =~= "echo "@ + dec_seq(v as nat)
                    + " | sudo tee /proc/sys/kernel/numa_balancing_scan_delay_ms"@);
            }
            r.push(s);
        },
        None => {},
    }
    proof {
        assert(str_views(r@) =~= g3);
    }
    match c.numa_scan_period_min {
        Some(v) => {
            let mut s = String::from_str("echo ");
            let sv = usize_to_string(v);
            s.append(sv.as_str());
            s.append(" | sudo tee /proc/sys/kernel/numa_balancing_scan_period_min_ms");
            proof {
                assert(s@ =~= "echo "@ + dec_seq(v as nat)
                    + " | sudo tee /proc/sys/kernel/numa_balancing_scan_period_min_ms"@);
            }
            r.push(s);
        },
        None => {},
    }
    proof {
        assert(str_views(r@) =~= g4);
        assert(g4 == spec_tpp_cmds(*c));
    }
    r
}

/// Build the per-optimization tunable commands of the non-tiering kernel.
#[verifier::rlimit(60)]
fn opt_tuning_commands(c: &Config) -> (r: Vec<String>)
    ensures
        str_views(r@) == spec_opt_cmds(*c),
{
    proof {
        reveal_strlit("echo ");
        reveal_strlit(" | sudo tee /sys/kernel/mm/fbmm/pte_fault_size");
        reveal_strlit("echo 0 | sudo tee /sys/kernel/mm/fbmm/nt_huge_page_zero");
        reveal_strlit("echo 0 | sudo tee /sys/kernel/mm/fbmm/follow_page_mask_fix");
        reveal_strlit("echo 0 | sudo tee /sys/kernel/mm/fbmm/pmem_write_zeroes");
        reveal_strlit("echo 1 | sudo tee /sys/kernel/mm/fbmm/track_pfn_insert");
        reveal_strlit("echo 1 | sudo tee /sys/kernel/mm/fbmm/mark_inode_dirty");
        reveal_strlit("echo 0 | sudo tee /sys/kernel/mm/fbmm/prealloc_map_populate");
    }
    let mut r: Vec<String> = Vec::new();
    let ghost h1 = match c.pte_fault_size {
        Some(v) => seq![
            "echo "@ + dec_seq(v as nat) + " | sudo tee /sys/kernel/mm/fbmm/pte_fault_size"@,
        ],
        None => Seq::<Seq<char>>::empty(),
    };
    let ghost h2 = h1 + (if c.thp_temporal_zero {
        seq!["echo 0 | sudo tee /sys/kernel/mm/fbmm/nt_huge_page_zero"@]
    } else {
        Seq::<Seq<char>>::empty()
    });
    let ghost h3 = h2 + (if c.no_fpm_fix {
        seq!["echo 0 | sudo tee /sys/kernel/mm/fbmm/follow_page_mask_fix"@]
    } else {
        Seq::<Seq<char>>::empty()
    });
    let ghost h4 = h3 + (if c.no_pmem_write_zeroes {
        seq!["echo 0 | sudo tee /sys/kernel/mm/fbmm/pmem_write_zeroes"@]
    } else {
        Seq::<Seq<char>>::empty()
    });
    let ghost h5 = h4 + (if c.track_pfn_insert {
        seq!["echo 1 | sudo tee /sys/kernel/mm/fbmm/track_pfn_insert"@]
    } else {
        Seq::<Seq<char>>::empty()
    });
    let ghost h6 = h5 + (if c.mark_inode_dirty {
        seq!["echo 1 | sudo tee /sys/kernel/mm/fbmm/mark_inode_dirty"@]
    } else {
        Seq::<Seq<char>>::empty()
    });
    let ghost h7 = h6 + (if c.no_prealloc {
        seq!["echo 0 | sudo tee /sys/kernel/mm/fbmm/prealloc_map_populate"@]
    } else {
        Seq::<Seq<char>>::empty()
    });
    match c.pte_fault_size {
        Some(v) => {
            let mut s = String::from_str("echo ");
            let sv = usize_to_string(v);
            s.append(sv.as_str());
            s.append(" | sudo tee /sys/kernel/mm/fbmm/pte_fault_size");
            proof {
                assert(s@ =~= "echo "@ + dec_seq(v as nat)
                    + " | sudo tee /sys/kernel/mm/fbmm/pte_fault_size"@);
            }
            r.push(s);
        },
        None => {},
    }
    proof {
        assert(str_views(r@) =~= h1);
    }
    if c.thp_temporal_zero {
        r.push(String::from_str("echo 0 | sudo tee /sys/kernel/mm/fbmm/nt_huge_page_zero"));
    }
    proof {
        assert(str_views(r@) =~= h2);
    }
    if c.no_fpm_fix {
        r.push(String::from_str("echo 0 | sudo tee /sys/kernel/mm/fbmm/follow_page_mask_fix"));
    }
    proof {
        assert(str_views(r@) =~= h3);
    }
    if c.no_pmem_write_zeroes {
        r.push(String::from_str("echo 0 | sudo tee /sys/kernel/mm/fbmm/pmem_write_zeroes"));
    }
    proof {
        assert(str_views(r@) =~= h4);
    }
    if c.track_pfn_insert {
        r.push(String::from_str("echo 1 | sudo tee /sys/kernel/mm/fbmm/track_pfn_insert"));
    }
    proof {
        assert(str_views(r@) =~= h5);
    }
    if c.mark_inode_dirty {
        r.push(String::from_str("echo 1 | sudo tee /sys/kernel/mm/fbmm/mark_inode_dirty"));
    }
    proof {
        assert(str_views(r@) =~= h6);
    }
    if c.no_prealloc {
        r.push(String::from_str("echo 0 | sudo tee /sys/kernel/mm/fbmm/prealloc_map_populate"));
    }
    proof {
        assert(str_views(r@) =~= h7);
        assert(h7 == spec_opt_cmds(*c));
    }
    r
}

/// Build the kernel tuning commands of a configuration.
pub fn tuning_commands(c: &Config) -> (r: Vec<String>)
    ensures
        str_views(r@) == spec_tuning_cmds(*c),
{
    if c.tpp {
        tpp_tuning_commands(c)
    } else {
        opt_tuning_commands(c)
    }
}

} // verus!
