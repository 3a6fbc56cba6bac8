use runner::bootcfg::{
    apply_boot_config, is_managed_token_exec, is_memmap_token_exec, memmap_token_string,
    strip_boot_tokens,
};
use runner::config::MemRegion;
use runner::strutil::str_chars;

fn toks(words: &[&str]) -> Vec<String> {
    words.iter().map(|w| w.to_string()).collect()
}

#[test]
fn memmap_tokens_are_recognized() {
    assert!(is_memmap_token_exec(&str_chars("memmap=8G!4G")));
    assert!(is_memmap_token_exec(&str_chars("memmap=512M!1K")));
    assert!(is_memmap_token_exec(&str_chars("memmap=G!G")));
    assert!(!is_memmap_token_exec(&str_chars("memmap=8G")));
    assert!(!is_memmap_token_exec(&str_chars("memmap=8G!4Gx")));
    assert!(!is_memmap_token_exec(&str_chars("memmap=8X!4G")));
    assert!(!is_memmap_token_exec(&str_chars("quiet")));
}

#[test]
fn managed_tokens_cover_the_tiering_switch_and_the_cpu_cap() {
    assert!(is_managed_token_exec(&str_chars("do_tpp")));
    assert!(is_managed_token_exec(&str_chars("maxcpus=8")));
    assert!(is_managed_token_exec(&str_chars("maxcpus=")));
    assert!(!is_managed_token_exec(&str_chars("maxcpus=8x")));
    assert!(!is_managed_token_exec(&str_chars("do_tppx")));
    assert!(!is_managed_token_exec(&str_chars("quiet")));
}

#[test]
fn stripping_removes_only_managed_tokens() {
    let line = toks(&["quiet", "memmap=8G!4G", "splash", "do_tpp", "maxcpus=8"]);
    assert_eq!(strip_boot_tokens(&line), toks(&["quiet", "splash"]));
}

#[test]
fn the_rendered_token_matches_the_reservation() {
    assert_eq!(
        memmap_token_string(&MemRegion { size: 8, start: 4 }),
        "memmap=8G!4G"
    );
    assert_eq!(
        memmap_token_string(&MemRegion { size: 16, start: 12 }),
        "memmap=16G!12G"
    );
}

#[test]
fn applying_adds_the_requested_tokens_after_the_rest() {
    let line = toks(&["quiet", "memmap=1G!2G"]);
    let dram = MemRegion { size: 8, start: 4 };
    let pmem = MemRegion { size: 16, start: 12 };
    assert_eq!(
        apply_boot_config(&line, Some(dram), Some(pmem), false),
        toks(&["quiet", "memmap=8G!4G", "memmap=16G!12G"])
    );
    assert_eq!(
        apply_boot_config(&line, Some(dram), None, true),
        toks(&["quiet", "memmap=8G!4G", "do_tpp", "maxcpus=8"])
    );
    // Reservations only go in anchored to a DRAM region.
    assert_eq!(
        apply_boot_config(&line, None, Some(pmem), false),
        toks(&["quiet"])
    );
}

#[test]
fn applying_twice_changes_nothing_more() {
    let line = toks(&["quiet", "memmap=1G!2G", "do_tpp", "splash"]);
    let dram = MemRegion { size: 8, start: 4 };
    let pmem = MemRegion { size: 16, start: 12 };
    let once = apply_boot_config(&line, Some(dram), Some(pmem), true);
    let twice = apply_boot_config(&once, Some(dram), Some(pmem), true);
    assert_eq!(once, twice);
    let once = apply_boot_config(&line, None, None, false);
    let twice = apply_boot_config(&once, None, None, false);
    assert_eq!(once, twice);
}
