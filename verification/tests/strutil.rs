use smithery_installer::env::target_from_env;
use smithery_installer::strutil::{concat2, concat3, contains_str, str_eq};
use smithery_installer::Platform;

#[test]
fn contains_str_finds_substrings() {
    assert!(contains_str("/usr/bin:/home/u/.local/bin:/bin", "/home/u/.local/bin"));
    assert!(contains_str("abc", ""));
    assert!(contains_str("abc", "abc"));
    assert!(!contains_str("abc", "abcd"));
    assert!(!contains_str("/usr/bin:/bin", "/home/u/.local/bin"));
    assert!(contains_str("aaab", "aab"));
}

#[test]
fn str_eq_compares_contents() {
    assert!(str_eq("abc", "abc"));
    assert!(!str_eq("abc", "abd"));
    assert!(!str_eq("abc", "ab"));
    assert!(str_eq("", ""));
}

#[test]
fn concat_builds_exact_strings() {
    assert_eq!(concat2("a", "bc"), "abc");
    assert_eq!(concat3("mkdir -p '", "/usr/local/bin", "'"), "mkdir -p '/usr/local/bin'");
}

#[test]
fn target_from_env_validates_home() {
    // The home directory comes from the live environment; whatever it is,
    // a produced target follows the placement policy.
    if let Some(t) = target_from_env(Platform::Linux, "", "/tmp/stage/smithery-linux") {
        assert_eq!(t.primary_dir, "/usr/local/bin");
        assert!(t.fallback_dir.ends_with("/.local/bin"));
        assert_ne!(t.primary_dir, t.fallback_dir);
        assert_eq!(t.binary_name, "smithery");
    }
}
