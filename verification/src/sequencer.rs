//! The host-preparation sequencer.
//!
//! Before any workload runs, the boot configuration is rewritten, the host
//! rebooted and reconnected to, and a fixed set of post-reboot commands
//! applied.  Every boot-configuration edit happens before the reboot; the
//! reconnect loop retries for as long as it takes and only a successful
//! identity check ends it.

use vstd::prelude::*;

use crate::bootcfg::memmap_token_seq;
use crate::config::MemRegion;
use crate::numfmt::dec_seq;
use crate::strutil::is_digit;

verus! {

/// The escaped form of `s`: every character that is not an ASCII
/// alphanumeric is preceded by a backslash, so the whole token survives the
/// remote shell unchanged.
pub open spec fn spec_escape(s: Seq<char>) -> Seq<char>
    decreases s.len(),
{
    if s.len() == 0 {
        Seq::empty()
    } else {
        spec_escape(s.drop_last()) + (if is_ascii_alphanumeric(s.last()) {
            seq![s.last()]
        } else {
            seq!['\\', s.last()]
        })
    }
}

/// Whether `c` is an ASCII letter or digit.
pub open spec fn is_ascii_alphanumeric(c: char) -> bool {
    ||| is_digit(c)
    ||| 65 <= (c as u32) <= 90
    ||| 97 <= (c as u32) <= 122
}

/// Relies on `spurs_util::escape_for_bash`: it copies the string, putting a
/// backslash before every character that is not an ASCII alphanumeric.
#[verifier::external_body]
fn escape_for_bash(s: &str) -> (r: String)
    ensures
        r@ == spec_escape(s@),
{
    spurs_util::escape_for_bash(s)
}

/// The command that persists the configuration snapshot: the serialized
/// parameters, escaped for the remote shell, written to the parameters file.
pub fn params_write_command(params_json: &str, params_path: &str) -> (r: String)
    ensures
        r@ == "echo "@ + spec_escape(params_json@) + " > "@ + params_path@,
{
    proof {
        reveal_strlit("echo ");
        reveal_strlit(" > ");
    }
    let mut r = String::from_str("echo ");
    let esc = escape_for_bash(params_json);
    r.append(esc.as_str());
    r.append(" > ");
    r.append(params_path);
    proof {
        assert(r@ =~= "echo "@ + spec_escape(params_json@) + " > "@ + params_path@);
    }
    r
}

/// The command showing the boot configuration, for the log.
pub fn grub_show_cmd() -> (r: String)
    ensures
        r@ == "cat /etc/default/grub"@,
{
    String::from_str("cat /etc/default/grub")
}

/// The commands that strip every managed token from the boot configuration:
/// memory-map reservations, the tiering switch and the CPU cap, whatever
/// run left them behind.
pub fn grub_strip_cmds() -> (r: Vec<String>)
    ensures
        r@.len() == 2,
        r@[0]@ == "sed 's/ memmap=[0-9]*[KMG]![0-9]*[KMG]//g' /etc/default/grub | sed 's/ do_tpp//g' | sed 's/ maxcpus=[0-9]*//g' | sudo tee /tmp/grub"@,
        r@[1]@ == "sudo mv /tmp/grub /etc/default/grub"@,
{
    let mut r: Vec<String> = Vec::new();
    r.push(
        String::from_str(
            "sed 's/ memmap=[0-9]*[KMG]![0-9]*[KMG]//g' /etc/default/grub | sed 's/ do_tpp//g' | sed 's/ maxcpus=[0-9]*//g' | sudo tee /tmp/grub",
        ),
    );
    r.push(String::from_str("sudo mv /tmp/grub /etc/default/grub"));
    r
}

/// The commands appending the memory reservations to the kernel command
/// line; the PMEM token goes in only beside a DRAM token.
pub fn grub_memmap_cmds(dram: &MemRegion, pmem: Option<MemRegion>) -> (r: Vec<String>)
    ensures
        r@.len() == 2,
        pmem is Some ==> r@[0]@ == "sed 's/GRUB_CMDLINE_LINUX=\"\\(.*\\)\"/GRUB_CMDLINE_LINUX=\"\\1 "@
            + memmap_token_seq(*dram) + " "@ + memmap_token_seq(pmem->0)
            + "\"/' /etc/default/grub | sudo tee /tmp/grub"@,
        pmem is None ==> r@[0]@ == "sed 's/GRUB_CMDLINE_LINUX=\"\\(.*\\)\"/GRUB_CMDLINE_LINUX=\"\\1 "@
            + memmap_token_seq(*dram) + "\"/' /etc/default/grub | sudo tee /tmp/grub"@,
        r@[1]@ == "sudo mv /tmp/grub /etc/default/grub"@,
{
    proof {
        reveal_strlit("sed 's/GRUB_CMDLINE_LINUX=\"\\(.*\\)\"/GRUB_CMDLINE_LINUX=\"\\1 ");
        reveal_strlit(" ");
        reveal_strlit("\"/' /etc/default/grub | sudo tee /tmp/grub");
    }
    let mut s = String::from_str(
        "sed 's/GRUB_CMDLINE_LINUX=\"\\(.*\\)\"/GRUB_CMDLINE_LINUX=\"\\1 ",
    );
    let d = crate::bootcfg::memmap_token_string(dram);
    s.append(d.as_str());
    match pmem {
        Some(p) => {
            s.append(" ");
            let pt = crate::bootcfg::memmap_token_string(&p);
            s.append(pt.as_str());
        },
        None => {},
    }
    s.append("\"/' /etc/default/grub | sudo tee /tmp/grub");
    proof {
        if pmem is Some {
            assert(s@ =~= "sed 's/GRUB_CMDLINE_LINUX=\"\\(.*\\)\"/GRUB_CMDLINE_LINUX=\"\\1 "@
                + memmap_token_seq(*dram) + " "@ + memmap_token_seq(pmem->0)
                + "\"/' /etc/default/grub | sudo tee /tmp/grub"@);
        } else {
            assert(s@ =~= "sed 's/GRUB_CMDLINE_LINUX=\"\\(.*\\)\"/GRUB_CMDLINE_LINUX=\"\\1 "@
                + memmap_token_seq(*dram) + "\"/' /etc/default/grub | sudo tee /tmp/grub"@);
        }
    }
    let mut r: Vec<String> = Vec::new();
    r.push(s);
    r.push(String::from_str("sudo mv /tmp/grub /etc/default/grub"));
    r
}

/// The commands appending the tiering switch and the CPU cap: compute nodes
/// count as the top tier, so the CPUs are restricted to keep the reserved
/// memory a pure capacity tier.
pub fn grub_tpp_cmds() -> (r: Vec<String>)
    ensures
        r@.len() == 2,
        r@[0]@ == "sed 's/GRUB_CMDLINE_LINUX=\"\\(.*\\)\"/GRUB_CMDLINE_LINUX=\"\\1 do_tpp maxcpus=8\"/' /etc/default/grub | sudo tee /tmp/grub"@,
        r@[1]@ == "sudo mv /tmp/grub /etc/default/grub"@,
{
    let mut r: Vec<String> = Vec::new();
    r.push(
        String::from_str(
            "sed 's/GRUB_CMDLINE_LINUX=\"\\(.*\\)\"/GRUB_CMDLINE_LINUX=\"\\1 do_tpp maxcpus=8\"/' /etc/default/grub | sudo tee /tmp/grub",
        ),
    );
    r.push(String::from_str("sudo mv /tmp/grub /etc/default/grub"));
    r
}

/// The command applying the edited boot configuration.
pub fn update_grub_cmd() -> (r: String)
    ensures
        r@ == "sudo update-grub2"@,
{
    String::from_str("sudo update-grub2")
}

/// The command triggering the reboot.
pub fn reboot_cmd() -> (r: String)
    ensures
        r@ == "sudo reboot"@,
{
    String::from_str("sudo reboot")
}

/// The trivial identity check that proves the host is back.
pub fn identity_cmd() -> (r: String)
    ensures
        r@ == "whoami"@,
{
    String::from_str("whoami")
}

/// The fixed post-reboot setup: pin the frequency governor, log the
/// topology, and lower the kernel log verbosity.
pub fn post_reboot_cmds() -> (r: Vec<String>)
    ensures
        r@.len() == 3,
        r@[0]@ == "sudo LD_LIBRARY_PATH=/usr/lib64/ cpupower frequency-set -g performance"@,
        r@[1]@ == "lscpu"@,
        r@[2]@ == "echo 5 | sudo tee /proc/sys/kernel/printk"@,
{
    let mut r: Vec<String> = Vec::new();
    r.push(
        String::from_str("sudo LD_LIBRARY_PATH=/usr/lib64/ cpupower frequency-set -g performance"),
    );
    r.push(String::from_str("lscpu"));
    r.push(String::from_str("echo 5 | sudo tee /proc/sys/kernel/printk"));
    r
}

/// How many two-megabyte huge pages reserve the requested gigabytes.
pub fn hugetlb_num_pages(size_gb: usize) -> (r: usize)
    requires
        size_gb * 1024 <= usize::MAX,
    ensures
        r == size_gb * 512,
{
    size_gb * 1024 / 2
}

/// The commands reserving the huge-page pool and logging the reservation.
pub fn hugetlb_cmds(size_gb: usize) -> (r: Vec<String>)
    requires
        size_gb * 1024 <= usize::MAX,
    ensures
        r@.len() == 2,
        r@[0]@ == "sudo hugeadm --pool-pages-min 2MB:"@ + dec_seq((size_gb * 512) as nat),
        r@[1]@ == "hugeadm --pool-list"@,
{
    proof {
        reveal_strlit("sudo hugeadm --pool-pages-min 2MB:");
        reveal_strlit("hugeadm --pool-list");
    }
    let mut s = String::from_str("sudo hugeadm --pool-pages-min 2MB:");
    let n = crate::numfmt::usize_to_string(hugetlb_num_pages(size_gb));
    s.append(n.as_str());
    proof {
        assert(s@ =~= "sudo hugeadm --pool-pages-min 2MB:"@ + dec_seq((size_gb * 512) as nat));
    }
    let mut r: Vec<String> = Vec::new();
    r.push(s);
    r.push(String::from_str("hugeadm --pool-list"));
    r
}

/// The commands that switch transparent huge pages on or off: the enabled
/// and defrag modes, and the khugepaged defrag toggle.
pub fn thp_commands(disable_thp: bool) -> (r: Vec<String>)
    ensures
        r@.len() == 3,
        r@[0]@ == "echo "@ + (if disable_thp {
            "never"@
        } else {
            "always"@
        }) + " | sudo tee /sys/kernel/mm/transparent_hugepage/enabled"@,
        r@[1]@ == "echo "@ + (if disable_thp {
            "never"@
        } else {
            "always"@
        }) + " | sudo tee /sys/kernel/mm/transparent_hugepage/defrag"@,
        r@[2]@ == "echo "@ + (if disable_thp {
            "0"@
        } else {
            "1"@
        }) + " | sudo tee /sys/kernel/mm/transparent_hugepage/khugepaged/defrag"@,
{
    proof {
        reveal_strlit("echo ");
        reveal_strlit("never");
        reveal_strlit("always");
        reveal_strlit("0");
        reveal_strlit("1");
        reveal_strlit(" | sudo tee /sys/kernel/mm/transparent_hugepage/enabled");
        reveal_strlit(" | sudo tee /sys/kernel/mm/transparent_hugepage/defrag");
        reveal_strlit(" | sudo tee /sys/kernel/mm/transparent_hugepage/khugepaged/defrag");
    }
    let mode: &str = if disable_thp {
        "never"
    } else {
        "always"
    };
    let mut en = String::from_str("echo ");
    en.append(mode);
    en.append(" | sudo tee /sys/kernel/mm/transparent_hugepage/enabled");
    let mut de = String::from_str("echo ");
    de.append(mode);
    de.append(" | sudo tee /sys/kernel/mm/transparent_hugepage/defrag");
    let mut kh = String::from_str("echo ");
    if disable_thp {
        kh.append("0");
    } else {
        kh.append("1");
    }
    kh.append(" | sudo tee /sys/kernel/mm/transparent_hugepage/khugepaged/defrag");
    proof {
        assert(en@ =~= "echo "@ + (if disable_thp {
            "never"@
        } else {
            "always"@
        }) + " | sudo tee /sys/kernel/mm/transparent_hugepage/enabled"@);
        assert(de@ =~= "echo "@ + (if disable_thp {
            "never"@
        } else {
            "always"@
        }) + " | sudo tee /sys/kernel/mm/transparent_hugepage/defrag"@);
        assert(kh@ =~= "echo "@ + (if disable_thp {
            "0"@
        } else {
            "1"@
        }) + " | sudo tee /sys/kernel/mm/transparent_hugepage/khugepaged/defrag"@);
    }
    let mut r: Vec<String> = Vec::new();
    r.push(en);
    r.push(de);
    r.push(kh);
    r
}

/// The command that enables or disables address-space randomization.
pub fn aslr_command(disable_aslr: bool) -> (r: String)
    ensures
        r@ == "echo "@ + (if disable_aslr {
            "0"@
        } else {
            "2"@
        }) + " | sudo tee /proc/sys/kernel/randomize_va_space"@,
{
    proof {
        reveal_strlit("echo ");
        reveal_strlit("0");
        reveal_strlit("2");
        reveal_strlit(" | sudo tee /proc/sys/kernel/randomize_va_space");
    }
    let mut r = String::from_str("echo ");
    if disable_aslr {
        r.append("0");
    } else {
        r.append("2");
    }
    r.append(" | sudo tee /proc/sys/kernel/randomize_va_space");
    proof {
        assert(r@ =~= "echo "@ + (if disable_aslr {
            "0"@
        } else {
            "2"@
        }) + " | sudo tee /proc/sys/kernel/randomize_va_space"@);
    }
    r
}

/// Where the reconnect loop stands.
#[derive(Clone, Copy, Debug, PartialEq, Eq, Structural)]
pub enum ReconnectState {
    /// A connection attempt is due.
    Connecting,
    /// Connected; the identity check is due.
    Identifying,
    /// The identity check answered: the host is back.
    Ready,
}

/// What the driver does next while reconnecting.
#[derive(Clone, Copy, Debug, PartialEq, Eq, Structural)]
pub enum ReconnectAction {
    /// Open a fresh connection.
    Connect,
    /// Run the identity check over the open connection.
    RunIdentity,
    /// Reconnection is complete.
    Proceed,
}

/// The action due in each reconnect state.
pub open spec fn spec_reconnect_action(st: ReconnectState) -> ReconnectAction {
    match st {
        ReconnectState::Connecting => ReconnectAction::Connect,
        ReconnectState::Identifying => ReconnectAction::RunIdentity,
        ReconnectState::Ready => ReconnectAction::Proceed,
    }
}

/// The action due in the given reconnect state.
pub fn reconnect_action(st: &ReconnectState) -> (r: ReconnectAction)
    ensures
        r == spec_reconnect_action(*st),
{
    match st {
        ReconnectState::Connecting => ReconnectAction::Connect,
        ReconnectState::Identifying => ReconnectAction::RunIdentity,
        ReconnectState::Ready => ReconnectAction::Proceed,
    }
}

/// The next reconnect state.  Failures are expected while the host boots:
/// they always lead back to another connection attempt, never abort, and
/// only a successful identity check reaches the ready state.
pub open spec fn spec_reconnect_step(st: ReconnectState, ok: bool) -> ReconnectState {
    match st {
        ReconnectState::Connecting => if ok {
            ReconnectState::Identifying
        } else {
            ReconnectState::Connecting
        },
        ReconnectState::Identifying => if ok {
            ReconnectState::Ready
        } else {
            ReconnectState::Connecting
        },
        ReconnectState::Ready => ReconnectState::Ready,
    }
}

/// Advance the reconnect loop by one observed outcome.
pub fn reconnect_step(st: &ReconnectState, ok: bool) -> (r: ReconnectState)
    ensures
        r == spec_reconnect_step(*st, ok),
        r == ReconnectState::Ready <==> (*st == ReconnectState::Identifying && ok) || *st
            == ReconnectState::Ready,
{
    match st {
        ReconnectState::Connecting => if ok {
            ReconnectState::Identifying
        } else {
            ReconnectState::Connecting
        },
        ReconnectState::Identifying => if ok {
            ReconnectState::Ready
        } else {
            ReconnectState::Connecting
        },
        ReconnectState::Ready => ReconnectState::Ready,
    }
}

/// A failed attempt never completes the loop, and never abandons it: the
/// driver retries for as long as the reboot takes.
pub proof fn lemma_reconnect_only_success_completes(st: ReconnectState, ok: bool)
    requires
        st != ReconnectState::Ready,
        !ok,
    ensures
        spec_reconnect_step(st, ok) == ReconnectState::Connecting,
{
}

/// How long to wait between reconnect attempts, in seconds.
pub fn reconnect_retry_delay() -> (r: u64)
    ensures
        r == 10,
{
    10
}

/// How long to wait after asking for the reboot before the first attempt,
/// in seconds.
pub fn reboot_settle_delay() -> (r: u64)
    ensures
        r == 5,
{
    5
}

} // verus!
