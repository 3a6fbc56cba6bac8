use runner::config::{
    gups_default_updates, gups_workload, memcached_workload, resolve_dram_region,
    resolve_pmem_region, Config, MemRegion, Workload,
};
use runner::errors::ConfigError;
use runner::naming::{gen_file_name, gen_standard_names};

fn naming_config(timestamp: u64) -> Config {
    Config {
        exp: "fom_exp".to_string(),
        workload: Workload::Gups {
            threads: 4,
            exp: 30,
            hot_exp: None,
            move_hot: false,
            num_updates: 1000,
        },
        perf_stat: false,
        perf_periodic: false,
        perf_counters: vec![],
        disable_thp: false,
        disable_aslr: false,
        mm_fault_tracker: false,
        mmap_tracker: false,
        flame_graph: false,
        smaps_periodic: false,
        tmmfs_stats_periodic: false,
        tmmfs_active_list_periodic: false,
        lock_stat: false,
        fbmm: None,
        tpp: false,
        dram_region: None,
        pmem_region: None,
        node_weights: vec![],
        numactl: false,
        badger_trap: false,
        migrate_task_int: None,
        numa_scan_size: None,
        numa_scan_delay: None,
        numa_scan_period_min: None,
        hugetlb: None,
        pte_fault_size: None,
        thp_temporal_zero: false,
        no_fpm_fix: false,
        no_pmem_write_zeroes: false,
        track_pfn_insert: false,
        mark_inode_dirty: false,
        ext4_metadata: false,
        no_prealloc: false,
        username: "user".to_string(),
        host: "host:22".to_string(),
        remote_research_settings: vec![],
        timestamp,
    }
}

#[test]
fn file_names_are_deterministic() {
    let c = naming_config(1700000000);
    assert_eq!(gen_file_name(&c, "gups"), gen_file_name(&c, "gups"));
    assert_eq!(gen_file_name(&c, "gups"), "fom_exp-gups-1700000000.gups");
}

#[test]
fn file_names_differ_when_only_the_timestamp_differs() {
    let a = naming_config(1700000000);
    let b = naming_config(1700000001);
    assert_ne!(gen_file_name(&a, "gups"), gen_file_name(&b, "gups"));
    assert_ne!(gen_file_name(&a, "runtime"), gen_file_name(&b, "runtime"));
}

#[test]
fn standard_names_carry_their_suffixes() {
    let c = naming_config(42);
    let (out, params, time, sim) = gen_standard_names(&c);
    assert_eq!(out, "fom_exp-gups-42.out");
    assert_eq!(params, "fom_exp-gups-42.params");
    assert_eq!(time, "fom_exp-gups-42.time");
    assert_eq!(sim, "fom_exp-gups-42.sim");
}

#[test]
fn dram_region_defaults_to_the_four_gigabyte_mark() {
    assert_eq!(resolve_dram_region(8, None), MemRegion { size: 8, start: 4 });
    assert_eq!(resolve_dram_region(8, Some(2)), MemRegion { size: 8, start: 2 });
}

#[test]
fn pmem_region_defaults_to_the_end_of_dram() {
    let dram = MemRegion { size: 8, start: 4 };
    assert_eq!(
        resolve_pmem_region(Some(dram), 16, None),
        Ok(MemRegion { size: 16, start: 12 })
    );
    assert_eq!(
        resolve_pmem_region(Some(dram), 16, Some(32)),
        Ok(MemRegion { size: 16, start: 32 })
    );
    assert_eq!(
        resolve_pmem_region(None, 16, None),
        Err(ConfigError::PmemNeedsDram)
    );
}

#[test]
fn gups_updates_default_to_an_eighth_of_the_size() {
    assert_eq!(gups_default_updates(30), (1usize << 30) / 8);
    assert_eq!(gups_default_updates(3), 1);
    let w = gups_workload(2, 10, None, false, None);
    assert_eq!(
        w,
        Workload::Gups { threads: 2, exp: 10, hot_exp: None, move_hot: false, num_updates: 128 }
    );
}

#[test]
fn memcached_defaults_are_even_read_update_halves() {
    let w = memcached_workload(4, None, None, None);
    assert_eq!(
        w,
        Workload::Memcached { size: 4, op_count: 1000, read_prop: 500, update_prop: 500 }
    );
}
