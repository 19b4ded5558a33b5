//! Parameter parsing and project-name checks of the scaffolding tool.

use std::path::PathBuf;
use unilang::cargo_tool::commands::{ validate_verbosity, parse_bool, CheckParams, validate_project_name, parse_params };

#[test]
fn test_validate_verbosity() {
    assert_eq!(validate_verbosity("0").unwrap(), 0);
    assert_eq!(validate_verbosity("5").unwrap(), 5);
    assert!(validate_verbosity("6").is_err());
    assert!(validate_verbosity("abc").is_err());
}

#[test]
fn test_parse_bool() {
    assert_eq!(parse_bool("true").unwrap(), true);
    assert_eq!(parse_bool("false").unwrap(), false);
    assert_eq!(parse_bool("1").unwrap(), true);
    assert_eq!(parse_bool("0").unwrap(), false);
    assert_eq!(parse_bool("yes").unwrap(), true);
    assert_eq!(parse_bool("no").unwrap(), false);
    assert!(parse_bool("invalid").is_err());
}

#[test]
fn test_params_parse_minimal() {
    let args = vec![];
    let params = CheckParams::parse(&args).unwrap();
    assert_eq!(PathBuf::from(&params.path), PathBuf::from("."));
    assert_eq!(params.verbosity, 2);
    assert_eq!(params.fix, false);
}

#[test]
fn test_validate_project_name_valid() {
    assert!(validate_project_name("my-cli").is_ok());
    assert!(validate_project_name("my_cli").is_ok());
    assert!(validate_project_name("mycli").is_ok());
    assert!(validate_project_name("_private").is_ok());
}

#[test]
fn test_validate_project_name_empty() {
    assert!(validate_project_name("").is_err());
}

#[test]
fn test_validate_project_name_too_long() {
    let long_name = "a".repeat(65);
    assert!(validate_project_name(&long_name).is_err());
}

#[test]
fn test_validate_project_name_path_traversal() {
    assert!(validate_project_name("../etc").is_err());
    assert!(validate_project_name("foo/../bar").is_err());
    assert!(validate_project_name("/absolute").is_err());
    assert!(validate_project_name("foo\\bar").is_err());
}

#[test]
fn test_validate_project_name_invalid_chars() {
    assert!(validate_project_name("my@cli").is_err());
    assert!(validate_project_name("my cli").is_err());
    assert!(validate_project_name("my.cli").is_err());
}

#[test]
fn test_validate_project_name_must_start_with_letter_or_underscore() {
    assert!(validate_project_name("1cli").is_err());
    assert!(validate_project_name("-cli").is_err());
}

#[test]
fn verbosity_messages_name_the_problem() {
    assert_eq!(validate_verbosity("7").unwrap_err(), "Verbosity must be 0-5, got 7");
    assert_eq!(validate_verbosity("300").unwrap_err(), "Invalid verbosity '300', must be 0-5");
    assert_eq!(validate_verbosity("+3").unwrap(), 3);
    assert_eq!(validate_verbosity("").unwrap_err(), "Invalid verbosity '', must be 0-5");
}

#[test]
fn bool_words_ignore_case() {
    assert_eq!(parse_bool("YES").unwrap(), true);
    assert_eq!(parse_bool("False").unwrap(), false);
    assert_eq!(parse_bool("maybe").unwrap_err(), "Invalid boolean 'maybe', must be 'true' or 'false'");
}

#[test]
fn check_params_apply_in_order() {
    let args = vec![
        ("p".to_string(), "/tmp/x".to_string()),
        ("v".to_string(), "4".to_string()),
        ("fix".to_string(), "yes".to_string()),
    ];
    let params = CheckParams::parse(&args).unwrap();
    assert_eq!(params.path, "/tmp/x");
    assert_eq!(params.verbosity, 4);
    assert!(params.fix);
    let bad = vec![("colour".to_string(), "red".to_string())];
    assert_eq!(CheckParams::parse(&bad).unwrap_err(), "Unknown parameter: colour");
    let bad_level = vec![("verbosity".to_string(), "9".to_string())];
    assert_eq!(CheckParams::parse(&bad_level).unwrap_err(), "Verbosity must be 0-5, got 9");
}

#[test]
fn params_split_at_first_separator() {
    let args = vec!["path::a::b".to_string(), "v::3".to_string()];
    let ps = parse_params(&args).unwrap();
    assert_eq!(ps, vec![("path".to_string(), "a::b".to_string()), ("v".to_string(), "3".to_string())]);
    let bad = vec!["v::3".to_string(), "oops".to_string()];
    assert_eq!(parse_params(&bad).unwrap_err(), "Invalid parameter format 'oops'. Use param::value format");
}
