use spironmc::version::{version_string, NAME, VERSION};

#[test]
fn version_matches_package() {
    assert_eq!(VERSION, "0.1.0");
    assert!(!version_string().is_empty());
}

#[test]
fn version_string_joins_name_and_version() {
    assert_eq!(version_string(), format!("{NAME} {VERSION}"));
}
