use runner::backend::{backend_setup_commands, tuning_commands};
use runner::config::{Config, MemRegion, Mmfs, NodeWeight, Workload};

fn backend_config() -> Config {
    Config {
        exp: "fom_exp".to_string(),
        workload: Workload::Stream { threads: 1 },
        perf_stat: false,
        perf_periodic: false,
        perf_counters: vec![],
        disable_thp: false,
        disable_aslr: false,
        mm_fault_tracker: false,
        mmap_tracker: false,
        flame_graph: false,
        smaps_periodic: false,
        tmmfs_stats_periodic: false,
        tmmfs_active_list_periodic: false,
        lock_stat: false,
        fbmm: None,
        tpp: false,
        dram_region: None,
        pmem_region: None,
        node_weights: vec![],
        numactl: false,
        badger_trap: false,
        migrate_task_int: None,
        numa_scan_size: None,
        numa_scan_delay: None,
        numa_scan_period_min: None,
        hugetlb: None,
        pte_fault_size: None,
        thp_temporal_zero: false,
        no_fpm_fix: false,
        no_pmem_write_zeroes: false,
        track_pfn_insert: false,
        mark_inode_dirty: false,
        ext4_metadata: false,
        no_prealloc: false,
        username: "user".to_string(),
        host: "host:22".to_string(),
        remote_research_settings: vec![],
        timestamp: 0,
    }
}

#[test]
fn no_backend_means_no_provisioning() {
    assert!(backend_setup_commands(&backend_config(), "kernel/").is_empty());
}

#[test]
fn ext4_is_formatted_mounted_and_enabled_last() {
    let mut c = backend_config();
    c.fbmm = Some(Mmfs::Ext4);
    let cmds = backend_setup_commands(&c, "kernel/");
    assert_eq!(
        cmds,
        vec![
            "mkdir -p ./daxtmp/".to_string(),
            "sudo mkfs.ext4 /dev/pmem0".to_string(),
            "sudo tune2fs -O ^has_journal /dev/pmem0".to_string(),
            "sudo tune2fs -O ^metadata_csum /dev/pmem0".to_string(),
            "sudo mount -o dax /dev/pmem0 daxtmp/".to_string(),
            "sudo chown -R $USER daxtmp/".to_string(),
            "echo 1 | sudo tee /sys/kernel/mm/fbmm/state".to_string(),
        ]
    );
    // Keeping the ext4 metadata skips the checksum opt-out.
    c.ext4_metadata = true;
    let cmds = backend_setup_commands(&c, "kernel/");
    assert!(!cmds.iter().any(|s| s.contains("metadata_csum")));
}

#[test]
fn the_tiered_filesystem_mounts_both_tiers() {
    let mut c = backend_config();
    c.fbmm = Some(Mmfs::TieredMmfs);
    c.disable_thp = true;
    c.migrate_task_int = Some(50);
    let cmds = backend_setup_commands(&c, "kernel/");
    assert_eq!(cmds[1], "sudo insmod kernel//TieredMMFS/tieredmmfs.ko");
    assert_eq!(
        cmds[2],
        "sudo mount -t TieredMMFS -o slowmem=/dev/pmem1 -o basepage=true /dev/pmem0 daxtmp/"
    );
    assert_eq!(cmds[3], "echo 50 | sudo tee /sys/fs/tieredmmfs/migrate_task_int");
}

#[test]
fn the_bandwidth_filesystem_writes_its_node_weights() {
    let mut c = backend_config();
    c.fbmm = Some(Mmfs::BandwidthMmfs);
    c.node_weights = vec![
        NodeWeight { nid: 0, weight: 3 },
        NodeWeight { nid: 2, weight: 5 },
    ];
    let cmds = backend_setup_commands(&c, "kernel/");
    assert_eq!(cmds[1], "sudo insmod kernel//BandwidthMMFS/bandwidth.ko");
    assert_eq!(cmds[2], "sudo mount -t BandwidthMMFS BandwidthMMFS daxtmp/");
    assert_eq!(cmds[3], "echo 3 | sudo tee /sys/fs/bwmmfs*/node0/weight");
    assert_eq!(cmds[4], "echo 5 | sudo tee /sys/fs/bwmmfs*/node2/weight");
    assert_eq!(cmds.last().unwrap(), "echo 1 | sudo tee /sys/kernel/mm/fbmm/state");
}

#[test]
fn the_basic_filesystem_reserves_its_pages() {
    let mut c = backend_config();
    c.fbmm = Some(Mmfs::BasicMmfs { num_pages: 4096 });
    let cmds = backend_setup_commands(&c, "kernel/");
    assert_eq!(cmds[2], "sudo mount -t BasicMMFS BasicMMFS -o numpages=4096 daxtmp/");
}

#[test]
fn tiering_writes_the_numa_balancing_tunables() {
    let mut c = backend_config();
    c.tpp = true;
    c.dram_region = Some(MemRegion { size: 8, start: 4 });
    c.numa_scan_size = Some(256);
    c.numa_scan_delay = Some(1000);
    c.numa_scan_period_min = Some(100);
    // A toggle of the other kernel must not leak into the tiering path.
    c.no_prealloc = true;
    let cmds = tuning_commands(&c);
    assert_eq!(
        cmds,
        vec![
            "sudo sysctl kernel.numa_balancing=2".to_string(),
            "echo 1 | sudo tee /sys/kernel/mm/numa/demotion_enabled".to_string(),
            "echo 256 | sudo tee /proc/sys/kernel/numa_balancing_scan_size_MB".to_string(),
            "echo 1000 | sudo tee /proc/sys/kernel/numa_balancing_scan_delay_ms".to_string(),
            "echo 100 | sudo tee /proc/sys/kernel/numa_balancing_scan_period_min_ms".to_string(),
        ]
    );
}

#[test]
fn the_non_tiering_path_writes_the_optimization_toggles() {
    let mut c = backend_config();
    c.pte_fault_size = Some(16);
    c.thp_temporal_zero = true;
    c.no_fpm_fix = true;
    c.no_pmem_write_zeroes = true;
    c.track_pfn_insert = true;
    c.mark_inode_dirty = true;
    c.no_prealloc = true;
    let cmds = tuning_commands(&c);
    assert_eq!(
        cmds,
        vec![
            "echo 16 | sudo tee /sys/kernel/mm/fbmm/pte_fault_size".to_string(),
            "echo 0 | sudo tee /sys/kernel/mm/fbmm/nt_huge_page_zero".to_string(),
            "echo 0 | sudo tee /sys/kernel/mm/fbmm/follow_page_mask_fix".to_string(),
            "echo 0 | sudo tee /sys/kernel/mm/fbmm/pmem_write_zeroes".to_string(),
            "echo 1 | sudo tee /sys/kernel/mm/fbmm/track_pfn_insert".to_string(),
            "echo 1 | sudo tee /sys/kernel/mm/fbmm/mark_inode_dirty".to_string(),
            "echo 0 | sudo tee /sys/kernel/mm/fbmm/prealloc_map_populate".to_string(),
        ]
    );
    assert!(tuning_commands(&backend_config()).is_empty());
}
