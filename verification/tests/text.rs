use zerolaunch::text::{chars_of, contains_str, ends_with_str, find_str, rfind_char, starts_with_str, str_eq, substring};

#[test]
fn searches_count_characters() {
    assert_eq!(chars_of("a你b"), vec!['a', '你', 'b']);
    assert_eq!(find_str("你好_1.0_1.0", "_1.0"), Some(2));
    assert_eq!(find_str("abc", "abcd"), None);
    assert_eq!(find_str("abc", ""), Some(0));
    assert_eq!(rfind_char("a.b.c", '.'), Some(3));
    assert_eq!(rfind_char("abc", '.'), None);
    assert!(contains_str("zerolaunch", "launch"));
    assert!(!contains_str("zero", "launch"));
}

#[test]
fn prefixes_suffixes_and_equality() {
    assert!(starts_with_str("ZeroLaunch-portable-1", "ZeroLaunch-portable-"));
    assert!(!starts_with_str("Zero", "ZeroLaunch"));
    assert!(ends_with_str("a.zip", ".zip"));
    assert!(!ends_with_str("zip", ".zip"));
    assert!(str_eq("app", "app"));
    assert!(!str_eq("app", "apps"));
    assert_eq!(substring("你好世界", 1, 3), "好世");
}
