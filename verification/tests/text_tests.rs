use directshare::text::file_name;
use directshare::text::file_name_or_fallback;
use directshare::text::str_eq;
use directshare::text::u64_to_string;

#[test]
fn str_eq_compares_contents() {
    assert!(str_eq("", ""));
    assert!(str_eq("abc", "abc"));
    assert!(!str_eq("abc", "abd"));
    assert!(!str_eq("abc", "abcd"));
    assert!(str_eq("naïve", "naïve"));
}

#[test]
fn file_name_takes_the_final_component() {
    assert_eq!(file_name("a/b/c.txt"), Some("c.txt".to_string()));
    assert_eq!(file_name("plain"), Some("plain".to_string()));
    assert_eq!(file_name("/abs/dir/"), Some("dir".to_string()));
    assert_eq!(file_name("trailing///"), Some("trailing".to_string()));
}

#[test]
fn file_name_fails_without_a_final_component() {
    assert_eq!(file_name(""), None);
    assert_eq!(file_name("/"), None);
    assert_eq!(file_name("///"), None);
    assert_eq!(file_name("."), None);
    assert_eq!(file_name(".."), None);
    assert_eq!(file_name("a/.."), None);
}

#[test]
fn file_name_or_fallback_substitutes_the_constant() {
    assert_eq!(file_name_or_fallback("a/b.bin"), "b.bin");
    assert_eq!(file_name_or_fallback("/"), "file");
    assert_eq!(file_name_or_fallback(".."), "file");
}

#[test]
fn u64_to_string_renders_decimal() {
    assert_eq!(u64_to_string(0), "0");
    assert_eq!(u64_to_string(7), "7");
    assert_eq!(u64_to_string(10), "10");
    assert_eq!(u64_to_string(1234567890), "1234567890");
    assert_eq!(u64_to_string(u64::MAX), "18446744073709551615");
}
