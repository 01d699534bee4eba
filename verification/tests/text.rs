use sd_models::text::{concat_str, decimal_string, replace_str, str_ends_with, str_eq, str_starts_with};

#[test]
fn string_comparisons() {
    assert!(str_eq("abc", "abc"));
    assert!(!str_eq("abc", "abd"));
    assert!(!str_eq("abc", "ab"));
    assert!(str_starts_with("sharp-exec-linux-x64", "sharp-exec-"));
    assert!(!str_starts_with("sharp", "sharp-exec-"));
    assert!(str_ends_with("a.tar.gz", ".tar.gz"));
    assert!(!str_ends_with("gz", ".tar.gz"));
    assert!(str_ends_with("x", ""));
}

#[test]
fn concat_joins() {
    assert_eq!(concat_str("sharp", ".tmp"), "sharp.tmp");
}

#[test]
fn replace_takes_out_every_occurrence() {
    assert_eq!(replace_str("whisper-base", "whisper-", ""), "base");
    assert_eq!(replace_str("whisper-whisper-base", "whisper-", ""), "base");
    assert_eq!(replace_str("base", "whisper-", ""), "base");
    assert_eq!(replace_str("aaa", "aa", "b"), "ba");
    assert_eq!(replace_str("xyz-whisper-", "whisper-", "!"), "xyz-!");
}

#[test]
fn replace_empty_pattern_goes_everywhere() {
    assert_eq!(replace_str("ab", "", "x"), "ab".replace("", "x"));
    assert_eq!(replace_str("ab", "", "x"), "xaxbx");
    assert_eq!(replace_str("", "", "x"), "x");
    assert_eq!(replace_str("é", "", "-"), "-é-");
}

#[test]
fn decimal_strings() {
    assert_eq!(decimal_string(0), "0");
    assert_eq!(decimal_string(7), "7");
    assert_eq!(decimal_string(1234), "1234");
    assert_eq!(decimal_string(u64::MAX), u64::MAX.to_string());
}
