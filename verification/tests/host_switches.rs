use runner::config::CannealWorkload;
use runner::sequencer::{aslr_command, thp_commands};
use runner::workloads::{canneal_cmd, kvs_server_cmd, spec17_cmd, ycsb_client_cmd, ycsb_props_file_cmd};

#[test]
fn thp_switches_follow_the_toggle() {
    let on = thp_commands(false);
    assert_eq!(on[0], "echo always | sudo tee /sys/kernel/mm/transparent_hugepage/enabled");
    assert_eq!(on[1], "echo always | sudo tee /sys/kernel/mm/transparent_hugepage/defrag");
    assert_eq!(
        on[2],
        "echo 1 | sudo tee /sys/kernel/mm/transparent_hugepage/khugepaged/defrag"
    );
    let off = thp_commands(true);
    assert_eq!(off[0], "echo never | sudo tee /sys/kernel/mm/transparent_hugepage/enabled");
    assert_eq!(
        off[2],
        "echo 0 | sudo tee /sys/kernel/mm/transparent_hugepage/khugepaged/defrag"
    );
}

#[test]
fn aslr_follows_the_toggle() {
    assert_eq!(aslr_command(true), "echo 0 | sudo tee /proc/sys/kernel/randomize_va_space");
    assert_eq!(aslr_command(false), "echo 2 | sudo tee /proc/sys/kernel/randomize_va_space");
}

#[test]
fn canneal_runs_the_input_of_its_size() {
    let c = canneal_cmd(2, "", CannealWorkload::Small, "/home/u/parsec-3.0/");
    assert_eq!(c.cmd, "sudo taskset -c 2  ./canneal 1 15000 2000 100000.nets 6000");
    assert_eq!(
        c.cwd.as_deref(),
        Some("/home/u/parsec-3.0/pkgs/kernels/canneal/inst/amd64-linux.gcc/bin/")
    );
    let c = canneal_cmd(2, "", CannealWorkload::Native, "/home/u/parsec-3.0/");
    assert!(c.cmd.contains("2500000.nets"));
}

#[test]
fn spec_runs_under_all_its_pins() {
    let c = spec17_cmd("0,1,2,3", "P ", "mcf", "/bmks/spec2017/");
    assert_eq!(c.cmd, "sudo taskset -c 0,1,2,3 P  ./run-spec17 mcf");
    assert_eq!(c.cwd.as_deref(), Some("/bmks/spec2017/"));
}

#[test]
fn the_kvs_server_gets_the_whole_cache() {
    let c = kvs_server_cmd(0, "W ", "/bmks/memcached/", 4);
    assert_eq!(c, "taskset -c 0 W /bmks/memcached/memcached -m 4096 -d -u $USER");
}

#[test]
fn the_property_file_holds_one_line_per_property() {
    let props = vec!["recordcount=10".to_string(), "operationcount=5".to_string()];
    assert_eq!(
        ycsb_props_file_cmd(&props, "/tmp/wkld"),
        "printf 'recordcount=10\\noperationcount=5' > /tmp/wkld"
    );
}

#[test]
fn the_client_loads_then_runs_the_mix() {
    assert_eq!(
        ycsb_client_cmd(true, Some(5), "/tmp/wkld", None),
        "taskset -c 5 ./bin/ycsb load memcached -s -P /tmp/wkld -p memcached.hosts=localhost:11211"
    );
    assert_eq!(
        ycsb_client_cmd(false, None, "/tmp/wkld", Some("/r/ycsb")),
        "./bin/ycsb run memcached -s -P /tmp/wkld -p memcached.hosts=localhost:11211 | tee /r/ycsb"
    );
}
