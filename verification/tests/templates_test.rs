//! Manifest template of new projects.

use unilang::cargo_tool::templates::cargo_toml;

#[test]
fn test_cargo_toml_minimal() {
    let content = cargo_toml("my-cli", None, None);
    assert!(content.contains("name = \"my-cli\""));
    assert!(content.contains("unilang = \"0.46\""));
    assert!(content.contains("Do NOT create build.rs"));
    assert!(content.contains("license = \"MIT\""));
}

#[test]
fn test_cargo_toml_with_author() {
    let content = cargo_toml("my-cli", Some("John Doe <john@example.com>"), None);
    assert!(content.contains("authors = [ \"John Doe <john@example.com>\" ]"));
}

#[test]
fn test_cargo_toml_with_license() {
    let content = cargo_toml("my-cli", None, Some("Apache-2.0"));
    assert!(content.contains("license = \"Apache-2.0\""));
}

#[test]
fn cargo_toml_starts_with_the_package_table() {
    let content = cargo_toml("demo", Some("A"), Some("BSD"));
    assert!(content.starts_with("[package]\nname = \"demo\"\nversion = \"0.1.0\"\nedition = \"2021\"\nauthors = [ \"A\" ]\nlicense = \"BSD\"\n\n[dependencies]\n"));
}
