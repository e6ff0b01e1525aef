use gateway_doctor::text::{contains_str, ends_with_str, remove_non_printable};

#[test]
fn clean_keeps_printable_and_whitespace() {
    let s = "U-Boot SPL 2021.04\r\n\tDRAM:  128 MiB => ";
    assert_eq!(remove_non_printable(s), s);
}

#[test]
fn clean_drops_control_and_non_ascii() {
    let s = "a\u{7}b\u{1b}[0mc\u{e9}d\u{0}e";
    assert_eq!(remove_non_printable(s), "ab[0mcde");
}

#[test]
fn clean_of_pure_noise_is_empty() {
    assert_eq!(remove_non_printable("\u{0}\u{1}\u{2}\u{fffd}\u{e9}"), "");
    assert_eq!(remove_non_printable(""), "");
}

#[test]
fn clean_keeps_form_feed() {
    assert_eq!(remove_non_printable("a\u{c}b"), "a\u{c}b");
}

#[test]
fn contains_finds_substring() {
    assert!(contains_str("U-Boot SPL 2021.04", "U-Boot SPL"));
    assert!(contains_str("abc => def", "=>"));
    assert!(contains_str("abc", "abc"));
    assert!(contains_str("abc", "c"));
}

#[test]
fn contains_empty_needle_always_holds() {
    assert!(contains_str("abc", ""));
    assert!(contains_str("", ""));
}

#[test]
fn contains_rejects_missing_substring() {
    assert!(!contains_str("U-Boot SPL", "U-Boot SPL 2021"));
    assert!(!contains_str("ab", "abc"));
    assert!(!contains_str("", "x"));
    assert!(!contains_str("acbc", "abc"));
}

#[test]
fn ends_with_checks_suffix_only() {
    assert!(ends_with_str("command output\n=> ", "=> "));
    assert!(!ends_with_str("=> command output", "=> "));
    assert!(!ends_with_str("command output\n=>", "=> "));
    assert!(ends_with_str("x", ""));
    assert!(!ends_with_str("", "=> "));
}
