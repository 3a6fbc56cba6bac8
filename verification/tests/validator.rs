use runner::config::{Config, MemRegion, Mmfs, NodeWeight, Workload};
use runner::errors::ConfigError;
use runner::validate::validate;

fn base_config() -> Config {
    Config {
        exp: "fom_exp".to_string(),
        workload: Workload::Stream { threads: 1 },
        perf_stat: false,
        perf_periodic: false,
        perf_counters: vec![],
        disable_thp: false,
        disable_aslr: false,
        mm_fault_tracker: false,
        mmap_tracker: false,
        flame_graph: false,
        smaps_periodic: false,
        tmmfs_stats_periodic: false,
        tmmfs_active_list_periodic: false,
        lock_stat: false,
        fbmm: None,
        tpp: false,
        dram_region: None,
        pmem_region: None,
        node_weights: vec![],
        numactl: false,
        badger_trap: false,
        migrate_task_int: None,
        numa_scan_size: None,
        numa_scan_delay: None,
        numa_scan_period_min: None,
        hugetlb: None,
        pte_fault_size: None,
        thp_temporal_zero: false,
        no_fpm_fix: false,
        no_pmem_write_zeroes: false,
        track_pfn_insert: false,
        mark_inode_dirty: false,
        ext4_metadata: false,
        no_prealloc: false,
        username: "user".to_string(),
        host: "host:22".to_string(),
        remote_research_settings: vec![],
        timestamp: 0,
    }
}

#[test]
fn a_plain_configuration_is_valid() {
    assert_eq!(validate(&base_config()), Ok(()));
}

#[test]
fn at_most_one_backend() {
    let mut c = base_config();
    c.fbmm = Some(Mmfs::Ext4);
    c.tpp = true;
    c.dram_region = Some(MemRegion { size: 8, start: 4 });
    assert_eq!(validate(&c), Err(ConfigError::BackendConflict));
}

#[test]
fn tiering_rejects_a_huge_page_reservation() {
    let mut c = base_config();
    c.tpp = true;
    c.dram_region = Some(MemRegion { size: 8, start: 4 });
    c.hugetlb = Some(4);
    assert_eq!(validate(&c), Err(ConfigError::HugetlbWithBackend));
}

#[test]
fn tiering_rejects_the_temporal_zero_optimization() {
    let mut c = base_config();
    c.tpp = true;
    c.dram_region = Some(MemRegion { size: 8, start: 4 });
    c.thp_temporal_zero = true;
    assert_eq!(validate(&c), Err(ConfigError::TemporalZeroWithBackend));
}

#[test]
fn a_filesystem_backend_rejects_hugetlb_and_temporal_zero_too() {
    let mut c = base_config();
    c.fbmm = Some(Mmfs::Ext4);
    c.hugetlb = Some(4);
    assert_eq!(validate(&c), Err(ConfigError::HugetlbWithBackend));
    let mut c = base_config();
    c.fbmm = Some(Mmfs::Ext4);
    c.thp_temporal_zero = true;
    assert_eq!(validate(&c), Err(ConfigError::TemporalZeroWithBackend));
}

#[test]
fn temporal_zero_needs_transparent_huge_pages() {
    let mut c = base_config();
    c.thp_temporal_zero = true;
    c.disable_thp = true;
    assert_eq!(validate(&c), Err(ConfigError::TemporalZeroWithoutThp));
}

#[test]
fn the_tiered_filesystem_needs_both_regions() {
    let mut c = base_config();
    c.fbmm = Some(Mmfs::TieredMmfs);
    assert_eq!(validate(&c), Err(ConfigError::TieredNeedsDram));
    c.dram_region = Some(MemRegion { size: 8, start: 4 });
    assert_eq!(validate(&c), Err(ConfigError::TieredNeedsPmem));
    c.pmem_region = Some(MemRegion { size: 16, start: 12 });
    assert_eq!(validate(&c), Ok(()));
}

#[test]
fn tiering_needs_a_dram_region() {
    let mut c = base_config();
    c.tpp = true;
    assert_eq!(validate(&c), Err(ConfigError::TppNeedsDram));
    c.dram_region = Some(MemRegion { size: 8, start: 4 });
    assert_eq!(validate(&c), Ok(()));
}

#[test]
fn node_weights_need_the_bandwidth_filesystem() {
    let mut c = base_config();
    c.node_weights = vec![NodeWeight { nid: 0, weight: 2 }];
    assert_eq!(validate(&c), Err(ConfigError::WeightsNeedBandwidthFs));
    c.fbmm = Some(Mmfs::BandwidthMmfs);
    assert_eq!(validate(&c), Ok(()));
}
