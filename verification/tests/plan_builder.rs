use runner::config::{Config, Mmfs, Workload};
use runner::plan::{
    build_cmd_prefix, build_collectors, cores_to_string, num_pin_cores, proc_name, PERIOD,
};

fn plan_config() -> Config {
    Config {
        exp: "fom_exp".to_string(),
        workload: Workload::Stream { threads: 2 },
        perf_stat: false,
        perf_periodic: false,
        perf_counters: vec![],
        disable_thp: false,
        disable_aslr: false,
        mm_fault_tracker: false,
        mmap_tracker: false,
        flame_graph: false,
        smaps_periodic: false,
        tmmfs_stats_periodic: false,
        tmmfs_active_list_periodic: false,
        lock_stat: false,
        fbmm: None,
        tpp: false,
        dram_region: None,
        pmem_region: None,
        node_weights: vec![],
        numactl: false,
        badger_trap: false,
        migrate_task_int: None,
        numa_scan_size: None,
        numa_scan_delay: None,
        numa_scan_period_min: None,
        hugetlb: None,
        pte_fault_size: None,
        thp_temporal_zero: false,
        no_fpm_fix: false,
        no_pmem_write_zeroes: false,
        track_pfn_insert: false,
        mark_inode_dirty: false,
        ext4_metadata: false,
        no_prealloc: false,
        username: "user".to_string(),
        host: "host:22".to_string(),
        remote_research_settings: vec![],
        timestamp: 0,
    }
}

#[test]
fn process_names_follow_the_workload() {
    assert_eq!(proc_name(&Workload::Stream { threads: 1 }), "stream");
    assert_eq!(proc_name(&Workload::Spec2017Mcf), "mcf_s");
    assert_eq!(proc_name(&Workload::Graph500 { size: 20 }), "graph500_refere");
    assert_eq!(
        proc_name(&Workload::Memcached { size: 4, op_count: 1000, read_prop: 500, update_prop: 500 }),
        "memcached"
    );
}

#[test]
fn pin_core_counts_follow_the_workload() {
    assert_eq!(num_pin_cores(&Workload::Spec2017Mcf), 4);
    assert_eq!(num_pin_cores(&Workload::Spec2017CactuBSSN), 16);
    assert_eq!(
        num_pin_cores(&Workload::Gups {
            threads: 6,
            exp: 30,
            hot_exp: None,
            move_hot: false,
            num_updates: 1,
        }),
        6
    );
    assert_eq!(num_pin_cores(&Workload::Canneal { workload: runner::config::CannealWorkload::Small }), 1);
}

#[test]
fn cores_render_comma_separated() {
    assert_eq!(cores_to_string(&vec![]), "");
    assert_eq!(cores_to_string(&vec![3]), "3");
    assert_eq!(cores_to_string(&vec![0, 1, 12]), "0,1,12");
}

#[test]
fn an_empty_plan_has_an_empty_prefix() {
    let c = plan_config();
    assert_eq!(build_cmd_prefix(&c, "stat", "rec", "0,1", "/bmks", "/home/u"), "");
}

#[test]
fn the_layers_wrap_in_the_documented_order() {
    let mut c = plan_config();
    c.perf_stat = true;
    c.perf_counters = vec!["dTLB-load-misses".to_string()];
    c.flame_graph = true;
    c.numactl = true;
    c.fbmm = Some(Mmfs::Ext4);
    c.badger_trap = true;
    let p = build_cmd_prefix(&c, "/r/stat", "/tmp/perf.data", "0,1", "/bmks", "/home/u");
    assert_eq!(
        p,
        "sudo perf stat -o /r/stat -e dTLB-load-misses -C 0,1 -- \
         sudo perf record -a -C 0,1 -g -F 1999 -o /tmp/perf.data \
         numactl --membind=0 \
         sudo /bmks/fbmm_wrapper \"/home/u/daxtmp/\" \
         /bmks/badger-trap command "
    );
    // The fault-injection wrapper is the innermost layer.
    assert!(p.ends_with("/bmks/badger-trap command "));
}

#[test]
fn periodic_counter_sampling_takes_the_fixed_interval() {
    let mut c = plan_config();
    c.perf_stat = true;
    c.perf_periodic = true;
    let p = build_cmd_prefix(&c, "/r/stat", "rec", "2", "/bmks", "/home/u");
    assert_eq!(p, "sudo perf stat -o /r/stat -C 2 -I 10000 -- ");
}

#[test]
fn collectors_follow_the_toggles() {
    let mut c = plan_config();
    c.smaps_periodic = true;
    c.tmmfs_stats_periodic = true;
    c.tmmfs_active_list_periodic = true;
    let cs = build_collectors(&c, "stream", "/r/smaps", "/r/tstats", "/r/tactive");
    assert_eq!(cs.len(), 3);
    assert_eq!(cs[0].name, "smaps");
    assert_eq!(cs[0].period, PERIOD);
    assert_eq!(
        cs[0].cmd,
        "((sudo cat /proc/`pgrep -x stream  | sort -n | head -n1`/smaps) || echo none) | tee -a /r/smaps"
    );
    assert_eq!(cs[0].ensure_started, "/r/smaps");
    assert_eq!(cs[1].cmd, "(cat /sys/fs/tieredmmfs/stats || echo wait) | tee -a /r/tstats");
    assert_eq!(cs[2].cmd, "(cat /sys/fs/tieredmmfs/active_list || echo wait) | tee -a /r/tactive");
    assert_eq!(cs[2].period, 3 * PERIOD);

    let none = build_collectors(&plan_config(), "stream", "a", "b", "c");
    assert!(none.is_empty());
}
