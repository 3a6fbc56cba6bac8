//! The workload runner: the exact invocation of each benchmark, and the
//! multi-phase protocol of the key-value-store workload.
//!
//! Every builder returns the full remote command line, with the resolved
//! command prefix already layered in front of the binary; the caller runs it,
//! measures the wall-clock duration, and writes the duration file with
//! [`runtime_echo_cmd`].

use vstd::prelude::*;
use vstd::arithmetic::power2::pow2;

use crate::numfmt::{dec_seq, u64_to_string, usize_to_string};
use crate::proportion::{insert_millis, prop_seq, prop_to_string};

verus! {

/// A command to run on the remote host, with its working directory.
#[derive(Debug, Clone)]
pub struct RemoteCmd {
    pub cmd: String,
    pub cwd: Option<String>,
}

/// The command writing the measured duration, in milliseconds, to the
/// runtime file; the file then holds a single non-negative integer.
pub fn runtime_echo_cmd(millis: u64, runtime_file: &str) -> (r: String)
    ensures
        r@ == "echo "@ + dec_seq(millis as nat) + " > "@ + runtime_file@,
{
    proof {
        reveal_strlit("echo ");
        reveal_strlit(" > ");
    }
    let mut r = String::from_str("echo ");
    let ms = u64_to_string(millis);
    r.append(ms.as_str());
    r.append(" > ");
    r.append(runtime_file);
    proof {
        assert(r@ =~= "echo "@ + dec_seq(millis as nat) + " > "@ + runtime_file@);
    }
    r
}

/// The allocation benchmark: sizes, counts and threads in their documented
/// order, with `populate` as the trailing mode argument.
pub fn alloc_test_cmd(
    cores: &str,
    cmd_prefix: &str,
    size: usize,
    num_allocs: usize,
    threads: usize,
    populate: bool,
    out_file: &str,
    bmks_dir: &str,
) -> (r: RemoteCmd)
    ensures
        r.cmd@ == "sudo taskset -c "@ + cores@ + " "@ + cmd_prefix@ + " ./alloc_test "@ + dec_seq(
            size as nat,
        ) + " "@ + dec_seq(num_allocs as nat) + " "@ + dec_seq(threads as nat) + " "@ + (if populate {
            "populate"@
        } else {
            ""@
        }) + " | sudo tee "@ + out_file@,
        r.cwd is Some && r.cwd->0@ == bmks_dir@,
{
    proof {
        reveal_strlit("sudo taskset -c ");
        reveal_strlit(" ");
        reveal_strlit(" ./alloc_test ");
        reveal_strlit("populate");
        reveal_strlit("");
        reveal_strlit(" | sudo tee ");
    }
    let mut cmd = String::from_str("sudo taskset -c ");
    cmd.append(cores);
    cmd.append(" ");
    cmd.append(cmd_prefix);
    cmd.append(" ./alloc_test ");
    let s = usize_to_string(size);
    cmd.append(s.as_str());
    cmd.append(" ");
    let n = usize_to_string(num_allocs);
    cmd.append(n.as_str());
    cmd.append(" ");
    let t = usize_to_string(threads);
    cmd.append(t.as_str());
    cmd.append(" ");
    if populate {
        cmd.append("populate");
    } else {
        cmd.append("");
    }
    cmd.append(" | sudo tee ");
    cmd.append(out_file);
    proof {
        assert(cmd@ =~= "sudo taskset -c "@ + cores@ + " "@ + cmd_prefix@ + " ./alloc_test "@
            + dec_seq(size as nat) + " "@ + dec_seq(num_allocs as nat) + " "@ + dec_seq(
            threads as nat,
        ) + " "@ + (if populate {
            "populate"@
        } else {
            ""@
        }) + " | sudo tee "@ + out_file@);
    }
    RemoteCmd { cmd, cwd: Some(String::from_str(bmks_dir)) }
}

/// The GUPS benchmark; with a hot set it runs the hotset-moving binary with
/// the hot-set exponent and the move switch appended.
pub fn gups_cmd(
    cores: &str,
    cmd_prefix: &str,
    threads: usize,
    exp: usize,
    hot_exp: Option<usize>,
    move_hot: bool,
    num_updates: usize,
    out_file: &str,
    gups_dir: &str,
) -> (r: RemoteCmd)
    ensures
        hot_exp is Some ==> r.cmd@ == "sudo taskset -c "@ + cores@ + " "@ + cmd_prefix@
            + " ./gups-hotset-move "@ + dec_seq(threads as nat) + " "@ + dec_seq(
            num_updates as nat,
        ) + " "@ + dec_seq(exp as nat) + " 8 "@ + dec_seq(hot_exp->0 as nat) + " "@ + (if move_hot {
            "1"@
        } else {
            "0"@
        }) + " | tee "@ + out_file@,
        hot_exp is None ==> r.cmd@ == "sudo taskset -c "@ + cores@ + " "@ + cmd_prefix@
            + " ./gups "@ + dec_seq(threads as nat) + " "@ + dec_seq(num_updates as nat) + " "@
            + dec_seq(exp as nat) + " 8 | tee "@ + out_file@,
        r.cwd is Some && r.cwd->0@ == gups_dir@,
{
    proof {
        reveal_strlit("sudo taskset -c ");
        reveal_strlit(" ");
        reveal_strlit(" ./gups-hotset-move ");
        reveal_strlit(" ./gups ");
        reveal_strlit(" 8 ");
        reveal_strlit(" 8 | tee ");
        reveal_strlit("1");
        reveal_strlit("0");
        reveal_strlit(" | tee ");
    }
    let mut cmd = String::from_str("sudo taskset -c ");
    cmd.append(cores);
    cmd.append(" ");
    cmd.append(cmd_prefix);
    match hot_exp {
        Some(h) => {
            cmd.append(" ./gups-hotset-move ");
            let t = usize_to_string(threads);
            cmd.append(t.as_str());
            cmd.append(" ");
            let u = usize_to_string(num_updates);
            cmd.append(u.as_str());
            cmd.append(" ");
            let e = usize_to_string(exp);
            cmd.append(e.as_str());
            cmd.append(" 8 ");
            let he = usize_to_string(h);
            cmd.append(he.as_str());
            cmd.append(" ");
            if move_hot {
                cmd.append("1");
            } else {
                cmd.append("0");
            }
            cmd.append(" | tee ");
            cmd.append(out_file);
            proof {
                assert(cmd@ =~= "sudo taskset -c "@ + cores@ + " "@ + cmd_prefix@
                    + " ./gups-hotset-move "@ + dec_seq(threads as nat) + " "@ + dec_seq(
                    num_updates as nat,
                ) + " "@ + dec_seq(exp as nat) + " 8 "@ + dec_seq(h as nat) + " "@ + (if move_hot {
                    "1"@
                } else {
                    "0"@
                }) + " | tee "@ + out_file@);
            }
        },
        None => {
            cmd.append(" ./gups ");
            let t = usize_to_string(threads);
            cmd.append(t.as_str());
            cmd.append(" ");
            let u = usize_to_string(num_updates);
            cmd.append(u.as_str());
            cmd.append(" ");
            let e = usize_to_string(exp);
            cmd.append(e.as_str());
            cmd.append(" 8 | tee ");
            cmd.append(out_file);
            proof {
                assert(cmd@ =~= "sudo taskset -c "@ + cores@ + " "@ + cmd_prefix@ + " ./gups "@
                    + dec_seq(threads as nat) + " "@ + dec_seq(num_updates as nat) + " "@ + dec_seq(
                    exp as nat,
                ) + " 8 | tee "@ + out_file@);
            }
        },
    }
    RemoteCmd { cmd, cwd: Some(String::from_str(gups_dir)) }
}

/// The pagewalk-coherence probe: build the module, insert it, then run the
/// probe in the requested mode.
pub fn pagewalk_cmds(
    core: usize,
    cmd_prefix: &str,
    coherence_mode: bool,
    out_file: &str,
    coherence_dir: &str,
) -> (r: Vec<RemoteCmd>)
    ensures
        r@.len() == 3,
        r@[0].cmd@ == "make"@,
        r@[1].cmd@ == "sudo insmod ./pgmod.ko"@,
        r@[2].cmd@ == "sudo taskset -c "@ + dec_seq(core as nat) + " "@ + cmd_prefix@
            + " ./paging --mode "@ + (if coherence_mode {
            "1"@
        } else {
            "0"@
        }) + " | tee "@ + out_file@,
        forall|i: int| 0 <= i < 3 ==> (#[trigger] r@[i]).cwd is Some && r@[i].cwd->0@
            == coherence_dir@,
{
    proof {
        reveal_strlit("make");
        reveal_strlit("sudo insmod ./pgmod.ko");
        reveal_strlit("sudo taskset -c ");
        reveal_strlit(" ");
        reveal_strlit(" ./paging --mode ");
        reveal_strlit("1");
        reveal_strlit("0");
        reveal_strlit(" | tee ");
    }
    let mut run = String::from_str("sudo taskset -c ");
    let c = usize_to_string(core);
    run.append(c.as_str());
    run.append(" ");
    run.append(cmd_prefix);
    run.append(" ./paging --mode ");
    if coherence_mode {
        run.append("1");
    } else {
        run.append("0");
    }
    run.append(" | tee ");
    run.append(out_file);
    proof {
        assert(run@ =~= "sudo taskset -c "@ + dec_seq(core as nat) + " "@ + cmd_prefix@
            + " ./paging --mode "@ + (if coherence_mode {
            "1"@
        } else {
            "0"@
        }) + " | tee "@ + out_file@);
    }
    let mut r: Vec<RemoteCmd> = Vec::new();
    r.push(
        RemoteCmd { cmd: String::from_str("make"), cwd: Some(String::from_str(coherence_dir)) },
    );
    r.push(
        RemoteCmd {
            cmd: String::from_str("sudo insmod ./pgmod.ko"),
            cwd: Some(String::from_str(coherence_dir)),
        },
    );
    r.push(RemoteCmd { cmd: run, cwd: Some(String::from_str(coherence_dir)) });
    r
}

/// The graph500 benchmark.
pub fn graph500_cmd(
    core: usize,
    cmd_prefix: &str,
    size: usize,
    out_file: &str,
    graph500_dir: &str,
) -> (r: RemoteCmd)
    ensures
        r.cmd@ == "sudo taskset -c "@ + dec_seq(core as nat) + " "@ + cmd_prefix@
            + " ./graph500_reference_bfs_sssp "@ + dec_seq(size as nat) + " | tee "@ + out_file@,
        r.cwd is Some && r.cwd->0@ == graph500_dir@,
{
    proof {
        reveal_strlit("sudo taskset -c ");
        reveal_strlit(" ");
        reveal_strlit(" ./graph500_reference_bfs_sssp ");
        reveal_strlit(" | tee ");
    }
    let mut cmd = String::from_str("sudo taskset -c ");
    let c = usize_to_string(core);
    cmd.append(c.as_str());
    cmd.append(" ");
    cmd.append(cmd_prefix);
    cmd.append(" ./graph500_reference_bfs_sssp ");
    let s = usize_to_string(size);
    cmd.append(s.as_str());
    cmd.append(" | tee ");
    cmd.append(out_file);
    proof {
        assert(cmd@ =~= "sudo taskset -c "@ + dec_seq(core as nat) + " "@ + cmd_prefix@
            + " ./graph500_reference_bfs_sssp "@ + dec_seq(size as nat) + " | tee "@ + out_file@);
    }
    RemoteCmd { cmd, cwd: Some(String::from_str(graph500_dir)) }
}

/// The STREAM microbenchmark.
pub fn stream_cmd(cores: &str, cmd_prefix: &str, out_file: &str, bmks_dir: &str) -> (r: RemoteCmd)
    ensures
        r.cmd@ == "sudo taskset -c "@ + cores@ + " "@ + cmd_prefix@ + " ./stream | tee "@
            + out_file@,
        r.cwd is Some && r.cwd->0@ == bmks_dir@,
{
    proof {
        reveal_strlit("sudo taskset -c ");
        reveal_strlit(" ");
        reveal_strlit(" ./stream | tee ");
    }
    let mut cmd = String::from_str("sudo taskset -c ");
    cmd.append(cores);
    cmd.append(" ");
    cmd.append(cmd_prefix);
    cmd.append(" ./stream | tee ");
    cmd.append(out_file);
    proof {
        assert(cmd@ =~= "sudo taskset -c "@ + cores@ + " "@ + cmd_prefix@ + " ./stream | tee "@
            + out_file@);
    }
    RemoteCmd { cmd, cwd: Some(String::from_str(bmks_dir)) }
}

/// The input file of each canneal workload size.
pub open spec fn spec_canneal_input(w: crate::config::CannealWorkload) -> Seq<char> {
    match w {
        crate::config::CannealWorkload::Small => "100000.nets"@,
        crate::config::CannealWorkload::Medium => "200000.nets"@,
        crate::config::CannealWorkload::Large => "400000.nets"@,
        crate::config::CannealWorkload::Native => "2500000.nets"@,
    }
}

/// The canneal benchmark, with the input of the chosen size.
pub fn canneal_cmd(
    core: usize,
    cmd_prefix: &str,
    workload: crate::config::CannealWorkload,
    parsec_dir: &str,
) -> (r: RemoteCmd)
    ensures
        r.cmd@ == "sudo taskset -c "@ + dec_seq(core as nat) + " "@ + cmd_prefix@
            + " ./canneal 1 15000 2000 "@ + spec_canneal_input(workload) + " 6000"@,
        r.cwd is Some && r.cwd->0@ == parsec_dir@
            + "pkgs/kernels/canneal/inst/amd64-linux.gcc/bin/"@,
{
    proof {
        reveal_strlit("sudo taskset -c ");
        reveal_strlit(" ");
        reveal_strlit(" ./canneal 1 15000 2000 ");
        reveal_strlit("100000.nets");
        reveal_strlit("200000.nets");
        reveal_strlit("400000.nets");
        reveal_strlit("2500000.nets");
        reveal_strlit(" 6000");
        reveal_strlit("pkgs/kernels/canneal/inst/amd64-linux.gcc/bin/");
    }
    let mut cmd = String::from_str("sudo taskset -c ");
    let c = usize_to_string(core);
    cmd.append(c.as_str());
    cmd.append(" ");
    cmd.append(cmd_prefix);
    cmd.append(" ./canneal 1 15000 2000 ");
    match workload {
        crate::config::CannealWorkload::Small => cmd.append("100000.nets"),
        crate::config::CannealWorkload::Medium => cmd.append("200000.nets"),
        crate::config::CannealWorkload::Large => cmd.append("400000.nets"),
        crate::config::CannealWorkload::Native => cmd.append("2500000.nets"),
    }
    cmd.append(" 6000");
    let mut cwd = String::from_str(parsec_dir);
    cwd.append("pkgs/kernels/canneal/inst/amd64-linux.gcc/bin/");
    proof {
        assert(cmd@ =~= "sudo taskset -c "@ + dec_seq(core as nat) + " "@ + cmd_prefix@
            + " ./canneal 1 15000 2000 "@ + spec_canneal_input(workload) + " 6000"@);
        assert(cwd@ =~= parsec_dir@ + "pkgs/kernels/canneal/inst/amd64-linux.gcc/bin/"@);
    }
    RemoteCmd { cmd, cwd: Some(cwd) }
}

/// A SPEC 2017 benchmark, run through the workspace's runner script under
/// the pinned cores.
pub fn spec17_cmd(cores: &str, cmd_prefix: &str, which: &str, spec_dir: &str) -> (r: RemoteCmd)
    ensures
        r.cmd@ == "sudo taskset -c "@ + cores@ + " "@ + cmd_prefix@ + " ./run-spec17 "@ + which@,
        r.cwd is Some && r.cwd->0@ == spec_dir@,
{
    proof {
        reveal_strlit("sudo taskset -c ");
        reveal_strlit(" ");
        reveal_strlit(" ./run-spec17 ");
    }
    let mut cmd = String::from_str("sudo taskset -c ");
    cmd.append(cores);
    cmd.append(" ");
    cmd.append(cmd_prefix);
    cmd.append(" ./run-spec17 ");
    cmd.append(which);
    proof {
        assert(cmd@ =~= "sudo taskset -c "@ + cores@ + " "@ + cmd_prefix@ + " ./run-spec17 "@
            + which@);
    }
    RemoteCmd { cmd, cwd: Some(String::from_str(spec_dir)) }
}

/// The command that starts the key-value server: pinned to its core,
/// wrapped in the command prefix, with a cache of the workload size.
pub fn kvs_server_cmd(core: usize, cmd_prefix: &str, memcached_dir: &str, size_gb: usize) -> (r:
    String)
    requires
        size_gb * 1024 <= usize::MAX,
    ensures
        r@ == "taskset -c "@ + dec_seq(core as nat) + " "@ + cmd_prefix@ + memcached_dir@
            + "memcached -m "@ + dec_seq((size_gb * 1024) as nat) + " -d -u $USER"@,
{
    proof {
        reveal_strlit("taskset -c ");
        reveal_strlit(" ");
        reveal_strlit("memcached -m ");
        reveal_strlit(" -d -u $USER");
    }
    let mut r = String::from_str("taskset -c ");
    let c = usize_to_string(core);
    r.append(c.as_str());
    r.append(" ");
    r.append(cmd_prefix);
    r.append(memcached_dir);
    r.append("memcached -m ");
    let mb = usize_to_string(size_gb * 1024);
    r.append(mb.as_str());
    r.append(" -d -u $USER");
    proof {
        assert(r@ =~= "taskset -c "@ + dec_seq(core as nat) + " "@ + cmd_prefix@ + memcached_dir@
            + "memcached -m "@ + dec_seq((size_gb * 1024) as nat) + " -d -u $USER"@);
    }
    r
}

/// The property lines joined for a single `printf` into the workload file.
pub open spec fn spec_props_joined(vs: Seq<Seq<char>>) -> Seq<char>
    decreases vs.len(),
{
    if vs.len() == 0 {
        Seq::empty()
    } else if vs.len() == 1 {
        vs[0]
    } else {
        spec_props_joined(vs.drop_last()) + "\\n"@ + vs.last()
    }
}

/// The command writing the workload property file for the client.
pub fn ycsb_props_file_cmd(props: &Vec<String>, path: &str) -> (r: String)
    ensures
        r@ == "printf '"@ + spec_props_joined(crate::strutil::str_views(props@)) + "' > "@
            + path@,
{
    proof {
        reveal_strlit("printf '");
        reveal_strlit("\\n");
        reveal_strlit("' > ");
    }
    let mut r = String::from_str("printf '");
    let mut i: usize = 0;
    while i < props.len()
        invariant
            0 <= i <= props@.len(),
            r@ == "printf '"@ + spec_props_joined(crate::strutil::str_views(props@.take(i as int))),
        decreases props@.len() - i,
    {
        if i > 0 {
            r.append("\\n");
        }
        r.append(props[i].as_str());
        proof {
            assert(crate::strutil::str_views(props@.take(i as int + 1)).drop_last()
                =~= crate::strutil::str_views(props@.take(i as int)));
            assert(crate::strutil::str_views(props@.take(i as int + 1)).last()
                == props@[i as int]@);
            assert(r@ =~= "printf '"@ + spec_props_joined(
                crate::strutil::str_views(props@.take(i as int + 1)),
            ));
        }
        i = i + 1;
    }
    proof {
        assert(props@.take(props@.len() as int) =~= props@);
    }
    r.append("' > ");
    r.append(path);
    proof {
        assert(r@ =~= "printf '"@ + spec_props_joined(crate::strutil::str_views(props@)) + "' > "@
            + path@);
    }
    r
}

/// The client invocation for the load or run phase, pinned to the client
/// core when one was available, and teeing the run phase's output.
pub fn ycsb_client_cmd(
    load_phase: bool,
    client_core: Option<usize>,
    props_path: &str,
    out_file: Option<&str>,
) -> (r: String)
    ensures
        r@ == (if client_core is Some {
            "taskset -c "@ + dec_seq(client_core->0 as nat) + " "@
        } else {
            Seq::empty()
        }) + "./bin/ycsb "@ + (if load_phase {
            "load"@
        } else {
            "run"@
        }) + " memcached -s -P "@ + props_path@ + " -p memcached.hosts=localhost:11211"@ + (
        if out_file is Some {
            " | tee "@ + out_file->0@
        } else {
            Seq::empty()
        }),
{
    proof {
        reveal_strlit("taskset -c ");
        reveal_strlit(" ");
        reveal_strlit("./bin/ycsb ");
        reveal_strlit("load");
        reveal_strlit("run");
        reveal_strlit(" memcached -s -P ");
        reveal_strlit(" -p memcached.hosts=localhost:11211");
        reveal_strlit(" | tee ");
    }
    let mut r = String::new();
    match client_core {
        Some(c) => {
            r.append("taskset -c ");
            let cs = usize_to_string(c);
            r.append(cs.as_str());
            r.append(" ");
        },
        None => {},
    }
    r.append("./bin/ycsb ");
    if load_phase {
        r.append("load");
    } else {
        r.append("run");
    }
    r.append(" memcached -s -P ");
    r.append(props_path);
    r.append(" -p memcached.hosts=localhost:11211");
    match out_file {
        Some(f) => {
            r.append(" | tee ");
            r.append(f);
        },
        None => {},
    }
    proof {
        assert(r@ =~= (if client_core is Some {
            "taskset -c "@ + dec_seq(client_core->0 as nat) + " "@
        } else {
            Seq::empty()
        }) + "./bin/ycsb "@ + (if load_phase {
            "load"@
        } else {
            "run"@
        }) + " memcached -s -P "@ + props_path@ + " -p memcached.hosts=localhost:11211"@ + (
        if out_file is Some {
            " | tee "@ + out_file->0@
        } else {
            Seq::empty()
        }));
    }
    r
}

/// How many records the key-value store is loaded with: the workload size
/// less one gigabyte of wiggle room, divided by the empirical record size.
pub fn memcached_record_count(size_gb: usize) -> (r: usize)
    requires
        1 <= size_gb,
        (size_gb - 1) * 1073741824 <= usize::MAX,
    ensures
        r == (size_gb - 1) * 1073741824 / 1350,
{
    proof {
        vstd::arithmetic::power2::lemma2_to64();
        vstd::bits::lemma_usize_pow2_no_overflow(30);
        vstd::bits::lemma_usize_shl_is_mul((size_gb - 1) as usize, 30);
        assert(pow2(30) == 1073741824);
    }
    ((size_gb - 1) << 30usize) / 1350
}

/// The property lines handed to the load and run phases of the key-value
/// workload.  The insert share is what remains after reads and updates.
pub fn ycsb_workload_properties(
    record_count: usize,
    op_count: usize,
    zipfian: bool,
    read_millis: u32,
    update_millis: u32,
) -> (r: Vec<String>)
    requires
        read_millis <= 1000,
        update_millis <= 1000,
    ensures
        r@.len() == 6,
        r@[0]@ == "recordcount="@ + dec_seq(record_count as nat),
        r@[1]@ == "operationcount="@ + dec_seq(op_count as nat),
        r@[2]@ == "requestdistribution="@ + (if zipfian {
            "zipfian"@
        } else {
            "uniform"@
        }),
        r@[3]@ == "readproportion="@ + prop_seq(read_millis as int),
        r@[4]@ == "updateproportion="@ + prop_seq(update_millis as int),
        r@[5]@ == "insertproportion="@ + prop_seq(1000 - read_millis - update_millis),
{
    proof {
        reveal_strlit("recordcount=");
        reveal_strlit("operationcount=");
        reveal_strlit("requestdistribution=");
        reveal_strlit("zipfian");
        reveal_strlit("uniform");
        reveal_strlit("readproportion=");
        reveal_strlit("updateproportion=");
        reveal_strlit("insertproportion=");
    }
    let mut r: Vec<String> = Vec::new();
    let mut l0 = String::from_str("recordcount=");
    let rc = usize_to_string(record_count);
    l0.append(rc.as_str());
    r.push(l0);
    let mut l1 = String::from_str("operationcount=");
    let oc = usize_to_string(op_count);
    l1.append(oc.as_str());
    r.push(l1);
    let mut l2 = String::from_str("requestdistribution=");
    if zipfian {
        l2.append("zipfian");
    } else {
        l2.append("uniform");
    }
    r.push(l2);
    let mut l3 = String::from_str("readproportion=");
    let rp = prop_to_string(read_millis as i64);
    l3.append(rp.as_str());
    r.push(l3);
    let mut l4 = String::from_str("updateproportion=");
    let up = prop_to_string(update_millis as i64);
    l4.append(up.as_str());
    r.push(l4);
    let mut l5 = String::from_str("insertproportion=");
    let ins = insert_millis(read_millis, update_millis);
    let ip = prop_to_string(ins);
    l5.append(ip.as_str());
    r.push(l5);
    r
}

/// The phases of the key-value-store workload, in protocol order.
#[derive(Clone, Copy, Debug, PartialEq, Eq, Structural)]
pub enum KvsPhase {
    /// The server is being started.
    StartServer,
    /// The records are being bulk-loaded.
    Load,
    /// The read/update/insert mix is running.
    Run,
    /// The server is being told to stop.
    KillServer,
    /// The driver polls until the server is confirmed dead.
    PollDead,
    /// A fixed settle delay after the server died.
    Settle,
    /// The workload is complete.
    Done,
    /// A phase failed and the run is aborted.
    Failed,
}

/// What the driver does in each phase.
#[derive(Clone, Copy, Debug, PartialEq, Eq, Structural)]
pub enum KvsAction {
    /// Start the server process.
    StartServer,
    /// Run the bulk load.
    RunLoad,
    /// Run the operation mix.
    RunMix,
    /// Send the interrupt that stops the server.
    KillServer,
    /// Probe whether the server still answers.
    PollServer,
    /// Sleep for the given number of seconds.
    Sleep { secs: u64 },
    /// Nothing remains to do.
    Finish,
    /// Surface the failure to the caller.
    Abort,
}

/// The action each phase performs.
pub open spec fn spec_kvs_action(p: KvsPhase) -> KvsAction {
    match p {
        KvsPhase::StartServer => KvsAction::StartServer,
        KvsPhase::Load => KvsAction::RunLoad,
        KvsPhase::Run => KvsAction::RunMix,
        KvsPhase::KillServer => KvsAction::KillServer,
        KvsPhase::PollDead => KvsAction::PollServer,
        KvsPhase::Settle => KvsAction::Sleep { secs: 20 },
        KvsPhase::Done => KvsAction::Finish,
        KvsPhase::Failed => KvsAction::Abort,
    }
}

/// The action to perform in phase `p`.
pub fn kvs_action(p: &KvsPhase) -> (r: KvsAction)
    ensures
        r == spec_kvs_action(*p),
{
    match p {
        KvsPhase::StartServer => KvsAction::StartServer,
        KvsPhase::Load => KvsAction::RunLoad,
        KvsPhase::Run => KvsAction::RunMix,
        KvsPhase::KillServer => KvsAction::KillServer,
        KvsPhase::PollDead => KvsAction::PollServer,
        KvsPhase::Settle => KvsAction::Sleep { secs: 20 },
        KvsPhase::Done => KvsAction::Finish,
        KvsPhase::Failed => KvsAction::Abort,
    }
}

/// The next phase, given whether the action succeeded.  A failing phase
/// aborts the run, with one exception: the death poll succeeds overall
/// exactly when the probe stops answering, so there a failure moves the
/// protocol forward and a success repeats the poll.
pub open spec fn spec_kvs_step(p: KvsPhase, ok: bool) -> KvsPhase {
    match p {
        KvsPhase::StartServer => if ok {
            KvsPhase::Load
        } else {
            KvsPhase::Failed
        },
        KvsPhase::Load => if ok {
            KvsPhase::Run
        } else {
            KvsPhase::Failed
        },
        KvsPhase::Run => if ok {
            KvsPhase::KillServer
        } else {
            KvsPhase::Failed
        },
        KvsPhase::KillServer => if ok {
            KvsPhase::PollDead
        } else {
            KvsPhase::Failed
        },
        KvsPhase::PollDead => if ok {
            KvsPhase::PollDead
        } else {
            KvsPhase::Settle
        },
        KvsPhase::Settle => KvsPhase::Done,
        KvsPhase::Done => KvsPhase::Done,
        KvsPhase::Failed => KvsPhase::Failed,
    }
}

/// Advance the key-value protocol by one observed outcome.
pub fn kvs_step(p: &KvsPhase, ok: bool) -> (r: KvsPhase)
    ensures
        r == spec_kvs_step(*p, ok),
        r == KvsPhase::Done ==> *p == KvsPhase::Settle || *p == KvsPhase::Done,
{
    match p {
        KvsPhase::StartServer => if ok {
            KvsPhase::Load
        } else {
            KvsPhase::Failed
        },
        KvsPhase::Load => if ok {
            KvsPhase::Run
        } else {
            KvsPhase::Failed
        },
        KvsPhase::Run => if ok {
            KvsPhase::KillServer
        } else {
            KvsPhase::Failed
        },
        KvsPhase::KillServer => if ok {
            KvsPhase::PollDead
        } else {
            KvsPhase::Failed
        },
        KvsPhase::PollDead => if ok {
            KvsPhase::PollDead
        } else {
            KvsPhase::Settle
        },
        KvsPhase::Settle => KvsPhase::Done,
        KvsPhase::Done => KvsPhase::Done,
        KvsPhase::Failed => KvsPhase::Failed,
    }
}

/// The interrupt that stops the key-value server.
pub fn kvs_kill_cmd() -> (r: String)
    ensures
        r@ == "sudo pkill -INT memcached"@,
{
    String::from_str("sudo pkill -INT memcached")
}

/// The probe that answers while the key-value server is still alive.
pub fn kvs_poll_cmd(memcached_dir: &str) -> (r: String)
    ensures
        r@ == memcached_dir@ + "/scripts/memcached-tool localhost:11211"@,
{
    proof {
        reveal_strlit("/scripts/memcached-tool localhost:11211");
    }
    let mut r = String::from_str(memcached_dir);
    r.append("/scripts/memcached-tool localhost:11211");
    proof {
        assert(r@ =~= memcached_dir@ + "/scripts/memcached-tool localhost:11211"@);
    }
    r
}

} // verus!
