use runner::config::MemRegion;
use runner::sequencer::{
    grub_memmap_cmds, grub_show_cmd, grub_strip_cmds, grub_tpp_cmds, hugetlb_cmds,
    hugetlb_num_pages, identity_cmd, params_write_command, post_reboot_cmds, reboot_cmd,
    reboot_settle_delay, reconnect_action, reconnect_retry_delay, reconnect_step, update_grub_cmd,
    ReconnectAction, ReconnectState,
};

#[test]
fn the_params_snapshot_survives_the_remote_shell() {
    // Escaping must change anything that is not alphanumeric; a command
    // built from the raw text would differ.
    let cmd = params_write_command("{\"exp\":\"fom exp\"}", "/r/run.params");
    assert_eq!(
        cmd,
        "echo \\{\\\"exp\\\"\\:\\\"fom\\ exp\\\"\\} > /r/run.params"
    );
    let plain = params_write_command("abc123", "/r/run.params");
    assert_eq!(plain, "echo abc123 > /r/run.params");
}

#[test]
fn the_boot_configuration_is_shown_then_stripped_in_place() {
    assert_eq!(grub_show_cmd(), "cat /etc/default/grub");
    let strip = grub_strip_cmds();
    assert_eq!(strip.len(), 2);
    assert_eq!(
        strip[0],
        "sed 's/ memmap=[0-9]*[KMG]![0-9]*[KMG]//g' /etc/default/grub | sed 's/ do_tpp//g' | sed 's/ maxcpus=[0-9]*//g' | sudo tee /tmp/grub"
    );
    assert_eq!(strip[1], "sudo mv /tmp/grub /etc/default/grub");
}

#[test]
fn reservations_are_appended_to_the_kernel_command_line() {
    let dram = MemRegion { size: 8, start: 4 };
    let pmem = MemRegion { size: 16, start: 12 };
    let both = grub_memmap_cmds(&dram, Some(pmem));
    assert_eq!(
        both[0],
        "sed 's/GRUB_CMDLINE_LINUX=\"\\(.*\\)\"/GRUB_CMDLINE_LINUX=\"\\1 memmap=8G!4G memmap=16G!12G\"/' /etc/default/grub | sudo tee /tmp/grub"
    );
    let only = grub_memmap_cmds(&dram, None);
    assert_eq!(
        only[0],
        "sed 's/GRUB_CMDLINE_LINUX=\"\\(.*\\)\"/GRUB_CMDLINE_LINUX=\"\\1 memmap=8G!4G\"/' /etc/default/grub | sudo tee /tmp/grub"
    );
    let tpp = grub_tpp_cmds();
    assert_eq!(
        tpp[0],
        "sed 's/GRUB_CMDLINE_LINUX=\"\\(.*\\)\"/GRUB_CMDLINE_LINUX=\"\\1 do_tpp maxcpus=8\"/' /etc/default/grub | sudo tee /tmp/grub"
    );
    assert_eq!(update_grub_cmd(), "sudo update-grub2");
}

#[test]
fn the_post_reboot_setup_is_fixed() {
    assert_eq!(reboot_cmd(), "sudo reboot");
    assert_eq!(identity_cmd(), "whoami");
    let cmds = post_reboot_cmds();
    assert_eq!(
        cmds[0],
        "sudo LD_LIBRARY_PATH=/usr/lib64/ cpupower frequency-set -g performance"
    );
    assert_eq!(cmds[1], "lscpu");
    assert_eq!(cmds[2], "echo 5 | sudo tee /proc/sys/kernel/printk");
}

#[test]
fn huge_pages_reserve_at_512_per_gigabyte() {
    assert_eq!(hugetlb_num_pages(2), 1024);
    let cmds = hugetlb_cmds(2);
    assert_eq!(cmds[0], "sudo hugeadm --pool-pages-min 2MB:1024");
    assert_eq!(cmds[1], "hugeadm --pool-list");
}

#[test]
fn reconnecting_retries_forever_and_ends_only_on_identity() {
    let mut st = ReconnectState::Connecting;
    assert_eq!(reconnect_action(&st), ReconnectAction::Connect);
    // The host is still rebooting: every failure tries again.
    st = reconnect_step(&st, false);
    assert_eq!(st, ReconnectState::Connecting);
    st = reconnect_step(&st, false);
    assert_eq!(st, ReconnectState::Connecting);
    // A connection opens but the identity check fails: back to connecting.
    st = reconnect_step(&st, true);
    assert_eq!(st, ReconnectState::Identifying);
    assert_eq!(reconnect_action(&st), ReconnectAction::RunIdentity);
    st = reconnect_step(&st, false);
    assert_eq!(st, ReconnectState::Connecting);
    // Finally both steps answer.
    st = reconnect_step(&st, true);
    st = reconnect_step(&st, true);
    assert_eq!(st, ReconnectState::Ready);
    assert_eq!(reconnect_action(&st), ReconnectAction::Proceed);
    assert_eq!(reconnect_retry_delay(), 10);
    assert_eq!(reboot_settle_delay(), 5);
}
