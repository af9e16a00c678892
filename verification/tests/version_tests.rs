use pydev_core::version::{first_version_token, version_key, version_lt};

#[test]
fn version_keys() {
    assert_eq!(version_key("0.9.10"), vec![0, 9, 10]);
    assert_eq!(version_key("1.96.2-insider"), vec![1, 96, 2, 0]);
    assert_eq!(version_key("3.13.0rc2"), vec![3, 13, 0]);
    assert_eq!(version_key(""), vec![0]);
    assert_eq!(version_key("99999999999999999999.1"), vec![0, 1]);
}

#[test]
fn version_ordering() {
    assert!(version_lt("0.9.2", "0.9.10"));
    assert!(!version_lt("0.9.10", "0.9.2"));
    assert!(version_lt("1.2", "1.2.1"));
    assert!(!version_lt("1.2.0", "1.2.0"));
    assert!(!version_lt("1.2", "1-2"));
    assert!(!version_lt("1-2", "1.2"));
    // Transitivity on a concrete chain.
    assert!(version_lt("0.8.9", "0.9.0") && version_lt("0.9.0", "0.10.0") && version_lt("0.8.9", "0.10.0"));
}

#[test]
fn first_version_tokens() {
    assert_eq!(first_version_token("uv 0.9.2 (abc 2025-01-01)"), Some("0.9.2".to_string()));
    assert_eq!(first_version_token("no version here"), None);
    assert_eq!(first_version_token(""), None);
}
