use cross::strings::{str_contains, str_eq, str_starts_with};

#[test]
fn equality_is_exact() {
    assert!(str_eq("aarch64-unknown-linux-gnu", "aarch64-unknown-linux-gnu"));
    assert!(!str_eq("aarch64-unknown-linux-gnu", "aarch64-unknown-linux-musl"));
    assert!(str_eq("", ""));
    assert!(!str_eq("a", ""));
}

#[test]
fn prefix_test_measures_characters() {
    assert!(str_starts_with("x86_64-apple-darwin", "x86_64"));
    assert!(!str_starts_with("i686-apple-darwin", "x86_64"));
    assert!(str_starts_with("arm", "arm"));
    assert!(!str_starts_with("ar", "arm"));
    assert!(str_starts_with("anything", ""));
}

#[test]
fn containment_finds_inner_occurrences() {
    assert!(str_contains("aarch64-unknown-linux-gnu", "linux"));
    assert!(str_contains("arm-linux-androideabi", "android"));
    assert!(!str_contains("x86_64-apple-darwin", "linux"));
    assert!(str_contains("abc", ""));
    assert!(!str_contains("ab", "abc"));
    assert!(str_contains("aab", "ab"));
}
