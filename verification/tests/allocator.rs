use runner::errors::ExhaustedError;
use runner::taskset::{CpuInfo, Interleaving, TasksetCtx};

fn cpu(id: usize, node: usize, primary: bool) -> CpuInfo {
    CpuInfo { id, node, primary }
}

#[test]
fn a_simple_allocator_counts_up_and_exhausts() {
    let mut t = TasksetCtx::simple(3);
    assert_eq!(t.next(), Ok(0));
    assert_eq!(t.next(), Ok(1));
    assert_eq!(t.next(), Ok(2));
    assert_eq!(t.next(), Err(ExhaustedError));
    assert_eq!(t.next(), Err(ExhaustedError));
}

#[test]
fn draws_are_pairwise_distinct() {
    let cpus = vec![
        cpu(0, 0, true),
        cpu(1, 0, false),
        cpu(2, 1, true),
        cpu(3, 1, false),
        cpu(4, 0, true),
    ];
    let mut t = TasksetCtx::from_topology(&cpus, Interleaving::Sequential, false);
    let mut seen = Vec::new();
    while let Ok(c) = t.next() {
        assert!(!seen.contains(&c));
        seen.push(c);
    }
    assert_eq!(seen.len(), 5);
}

#[test]
fn sequential_interleaving_walks_the_nodes_in_order() {
    let cpus = vec![
        cpu(0, 1, true),
        cpu(1, 0, true),
        cpu(2, 1, true),
        cpu(3, 0, true),
    ];
    let mut t = TasksetCtx::from_topology(&cpus, Interleaving::Sequential, false);
    assert_eq!(t.next(), Ok(1));
    assert_eq!(t.next(), Ok(3));
    assert_eq!(t.next(), Ok(0));
    assert_eq!(t.next(), Ok(2));
    assert_eq!(t.next(), Err(ExhaustedError));
}

#[test]
fn skipping_hyperthreads_narrows_the_eligible_cores() {
    let cpus = vec![
        cpu(0, 0, true),
        cpu(1, 0, false),
        cpu(2, 1, true),
        cpu(3, 1, false),
    ];
    let mut t = TasksetCtx::from_topology(&cpus, Interleaving::Sequential, true);
    assert_eq!(t.next(), Ok(0));
    assert_eq!(t.next(), Ok(2));
    assert_eq!(t.next(), Err(ExhaustedError));
}

#[test]
fn simple_interleaving_keeps_the_given_order() {
    let cpus = vec![
        cpu(5, 1, true),
        cpu(3, 0, true),
        cpu(7, 2, true),
    ];
    let mut t = TasksetCtx::from_topology(&cpus, Interleaving::Simple, false);
    assert_eq!(t.next(), Ok(5));
    assert_eq!(t.next(), Ok(3));
    assert_eq!(t.next(), Ok(7));
    assert_eq!(t.next(), Err(ExhaustedError));
}

#[test]
fn a_batch_request_beyond_the_topology_is_exhaustion() {
    let cpus = vec![cpu(0, 0, true), cpu(1, 0, true)];
    let mut t = TasksetCtx::from_topology(&cpus, Interleaving::Sequential, false);
    assert_eq!(t.take_cores(3), Err(ExhaustedError));
    let mut t = TasksetCtx::from_topology(&cpus, Interleaving::Sequential, false);
    assert_eq!(t.take_cores(2), Ok(vec![0, 1]));
}
