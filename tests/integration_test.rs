use gwf::about::{AUTHORS, NAME, VERSION};

#[test]
fn test_version() {
    assert_eq!(VERSION, "0.1.0");
}

#[test]
fn test_crate_name() {
    assert_eq!(NAME, "gwf");
}

#[test]
fn test_authors() {
    let authors = AUTHORS;
    assert!(authors.contains("Nonanti"));
}
