use dbcore::url::{alt_url, has_prefix, replica_metadata_path};

#[test]
fn libsql_scheme_becomes_https() {
    assert_eq!(alt_url("libsql://example.com"), String::from("https://example.com"));
}

#[test]
fn https_scheme_becomes_libsql() {
    assert_eq!(alt_url("https://example.com"), String::from("libsql://example.com"));
}

#[test]
fn other_scheme_is_unchanged() {
    assert_eq!(alt_url("http://example.com"), String::from("http://example.com"));
    assert_eq!(alt_url("example.com"), String::from("example.com"));
    assert_eq!(alt_url(""), String::from(""));
}

#[test]
fn prefix_check() {
    assert!(has_prefix("libsql://h", "libsql://"));
    assert!(!has_prefix("libsql:/", "libsql://"));
    assert!(!has_prefix("https://h", "libsql://"));
    assert!(has_prefix("anything", ""));
}

#[test]
fn metadata_path_appends_fixed_suffix() {
    assert_eq!(
        replica_metadata_path("/data/local.db"),
        String::from("/data/local.db-metadata")
    );
}
