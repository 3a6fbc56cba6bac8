use runner::workloads::{
    alloc_test_cmd, graph500_cmd, gups_cmd, kvs_action, kvs_kill_cmd, kvs_poll_cmd, kvs_step,
    memcached_record_count, pagewalk_cmds, runtime_echo_cmd, stream_cmd,
    ycsb_workload_properties, KvsAction, KvsPhase,
};

#[test]
fn the_runtime_file_holds_one_non_negative_integer() {
    let cmd = runtime_echo_cmd(5321, "/r/runtime");
    assert_eq!(cmd, "echo 5321 > /r/runtime");
    let written = cmd.strip_prefix("echo ").unwrap().split(' ').next().unwrap();
    assert!(!written.is_empty() && written.chars().all(|c| c.is_ascii_digit()));
}

#[test]
fn alloc_test_runs_with_its_documented_argument_order() {
    let c = alloc_test_cmd("0,1", "PREFIX ", 1024, 2, 4, true, "/r/alloctest", "/bmks");
    assert_eq!(
        c.cmd,
        "sudo taskset -c 0,1 PREFIX  ./alloc_test 1024 2 4 populate | sudo tee /r/alloctest"
    );
    assert_eq!(c.cwd.as_deref(), Some("/bmks"));
    let c = alloc_test_cmd("0", "", 8, 1, 1, false, "/r/alloctest", "/bmks");
    assert_eq!(c.cmd, "sudo taskset -c 0  ./alloc_test 8 1 1  | sudo tee /r/alloctest");
}

#[test]
fn gups_picks_the_hotset_binary_when_a_hot_set_is_given() {
    let c = gups_cmd("0", "", 4, 30, Some(28), true, 1000, "/r/gups", "/gups");
    assert_eq!(
        c.cmd,
        "sudo taskset -c 0  ./gups-hotset-move 4 1000 30 8 28 1 | tee /r/gups"
    );
    let c = gups_cmd("0", "", 4, 30, None, false, 1000, "/r/gups", "/gups");
    assert_eq!(c.cmd, "sudo taskset -c 0  ./gups 4 1000 30 8 | tee /r/gups");
    assert_eq!(c.cwd.as_deref(), Some("/gups"));
}

#[test]
fn the_pagewalk_probe_builds_loads_then_runs() {
    let cs = pagewalk_cmds(3, "", true, "/r/coherence", "/coh");
    assert_eq!(cs.len(), 3);
    assert_eq!(cs[0].cmd, "make");
    assert_eq!(cs[1].cmd, "sudo insmod ./pgmod.ko");
    assert_eq!(cs[2].cmd, "sudo taskset -c 3  ./paging --mode 1 | tee /r/coherence");
    assert!(cs.iter().all(|c| c.cwd.as_deref() == Some("/coh")));
    let cs = pagewalk_cmds(3, "", false, "/r/coherence", "/coh");
    assert_eq!(cs[2].cmd, "sudo taskset -c 3  ./paging --mode 0 | tee /r/coherence");
}

#[test]
fn graph500_and_stream_run_under_their_pins() {
    let g = graph500_cmd(2, "", 20, "/r/graph500", "/g500");
    assert_eq!(g.cmd, "sudo taskset -c 2  ./graph500_reference_bfs_sssp 20 | tee /r/graph500");
    let s = stream_cmd("0,1", "", "/r/stream", "/bmks");
    assert_eq!(s.cmd, "sudo taskset -c 0,1  ./stream | tee /r/stream");
}

#[test]
fn the_record_count_leaves_a_gigabyte_of_room() {
    // Four gigabytes of cache, less one, at 1350 bytes a record.
    assert_eq!(memcached_record_count(4), ((4 - 1) << 30) / 1350);
    assert_eq!(memcached_record_count(4), 2386092);
    assert_eq!(memcached_record_count(1), 0);
}

#[test]
fn the_default_mix_has_no_inserts() {
    let props = ycsb_workload_properties(2386092, 1000, true, 500, 500);
    assert_eq!(
        props,
        vec![
            "recordcount=2386092".to_string(),
            "operationcount=1000".to_string(),
            "requestdistribution=zipfian".to_string(),
            "readproportion=0.5".to_string(),
            "updateproportion=0.5".to_string(),
            "insertproportion=0".to_string(),
        ]
    );
}

#[test]
fn an_uneven_mix_keeps_its_insert_share() {
    let props = ycsb_workload_properties(10, 10, false, 300, 200);
    assert_eq!(props[2], "requestdistribution=uniform");
    assert_eq!(props[3], "readproportion=0.3");
    assert_eq!(props[4], "updateproportion=0.2");
    assert_eq!(props[5], "insertproportion=0.5");
}

#[test]
fn the_kvs_protocol_runs_its_phases_in_order() {
    // The end-to-end shape: start, load, run, kill, poll until dead, settle.
    let mut p = KvsPhase::StartServer;
    assert_eq!(kvs_action(&p), KvsAction::StartServer);
    p = kvs_step(&p, true);
    assert_eq!(p, KvsPhase::Load);
    assert_eq!(kvs_action(&p), KvsAction::RunLoad);
    p = kvs_step(&p, true);
    assert_eq!(p, KvsPhase::Run);
    assert_eq!(kvs_action(&p), KvsAction::RunMix);
    p = kvs_step(&p, true);
    assert_eq!(p, KvsPhase::KillServer);
    p = kvs_step(&p, true);
    assert_eq!(p, KvsPhase::PollDead);
    // The server answers twice more, then dies.
    p = kvs_step(&p, true);
    assert_eq!(p, KvsPhase::PollDead);
    p = kvs_step(&p, true);
    assert_eq!(p, KvsPhase::PollDead);
    p = kvs_step(&p, false);
    assert_eq!(p, KvsPhase::Settle);
    assert_eq!(kvs_action(&p), KvsAction::Sleep { secs: 20 });
    p = kvs_step(&p, true);
    assert_eq!(p, KvsPhase::Done);
    assert_eq!(kvs_action(&p), KvsAction::Finish);
}

#[test]
fn a_failed_phase_aborts_the_kvs_run() {
    assert_eq!(kvs_step(&KvsPhase::StartServer, false), KvsPhase::Failed);
    assert_eq!(kvs_step(&KvsPhase::Load, false), KvsPhase::Failed);
    assert_eq!(kvs_step(&KvsPhase::Run, false), KvsPhase::Failed);
    assert_eq!(kvs_step(&KvsPhase::KillServer, false), KvsPhase::Failed);
    assert_eq!(kvs_action(&KvsPhase::Failed), KvsAction::Abort);
    assert_eq!(kvs_step(&KvsPhase::Failed, true), KvsPhase::Failed);
}

#[test]
fn the_kvs_shutdown_commands_target_the_server() {
    assert_eq!(kvs_kill_cmd(), "sudo pkill -INT memcached");
    assert_eq!(
        kvs_poll_cmd("/bmks/memcached"),
        "/bmks/memcached/scripts/memcached-tool localhost:11211"
    );
}
