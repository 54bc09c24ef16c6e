use arch_installer::patcher::{Replacement, replace_all, apply_replacements};

fn pacman_replacements() -> Vec<Replacement> {
    vec![
        Replacement::new("#Color", "Color"),
        Replacement::new("#VerbosePkgLists", "VerbosePkgLists"),
        Replacement::new("#ParallelDownloads = 5", "ParallelDownloads = 5\nILoveCandy"),
    ]
}

const PACMAN_CONF: &str = "[options]\n#Color\n#VerbosePkgLists\n#ParallelDownloads = 5\n";

#[test]
fn replace_all_single_occurrence() {
    assert_eq!(replace_all("#Color on", "#Color", "Color"), "Color on");
}

#[test]
fn replace_all_every_occurrence() {
    assert_eq!(replace_all("aXbXc", "X", "--"), "a--b--c");
}

#[test]
fn replace_all_left_to_right_non_overlapping() {
    assert_eq!(replace_all("aaa", "aa", "b"), "ba");
}

#[test]
fn replace_all_absent_pattern_changes_nothing() {
    assert_eq!(replace_all("GRUB_TIMEOUT=5", "#Color", "Color"), "GRUB_TIMEOUT=5");
}

#[test]
fn replace_all_empty_pattern_changes_nothing() {
    assert_eq!(replace_all("abc", "", "zzz"), "abc");
}

#[test]
fn apply_replacements_in_order() {
    let patched = apply_replacements(PACMAN_CONF, &pacman_replacements());
    assert_eq!(
        patched,
        "[options]\nColor\nVerbosePkgLists\nParallelDownloads = 5\nILoveCandy\n"
    );
}

#[test]
fn earlier_replacements_feed_later_ones() {
    let rs = vec![Replacement::new("a", "b"), Replacement::new("bb", "c")];
    assert_eq!(apply_replacements("ab", &rs), "c");
}

#[test]
fn patch_twice_equals_patch_once() {
    // Once the patterns are gone, the second pass finds nothing to do.
    let once = apply_replacements(PACMAN_CONF, &pacman_replacements());
    let twice = apply_replacements(&once, &pacman_replacements());
    assert_eq!(twice, once);
}

#[test]
fn patch_twice_equals_patch_once_grub() {
    let grub = "GRUB_CMDLINE_LINUX_DEFAULT=\"loglevel=3 quiet\"\nGRUB_TIMEOUT=5\n";
    let rs = vec![
        Replacement::new(
            "GRUB_CMDLINE_LINUX_DEFAULT=\"loglevel=3 quiet\"",
            "GRUB_CMDLINE_LINUX_DEFAULT=\"loglevel=3\"",
        ),
        Replacement::new("GRUB_TIMEOUT=5", "GRUB_TIMEOUT=0"),
    ];
    let once = apply_replacements(grub, &rs);
    assert_eq!(
        once,
        "GRUB_CMDLINE_LINUX_DEFAULT=\"loglevel=3\"\nGRUB_TIMEOUT=0\n"
    );
    assert_eq!(apply_replacements(&once, &rs), once);
}
