//! Build-script check and check reports of the scaffolding tool.

use unilang::cargo_tool::checks::{ check_build_rs, check_build_rs_content, collect_issues, exit_code, render_report, count_lines, CheckResult };

#[test]
fn test_no_build_rs_passes() {
    let result = check_build_rs(None);
    assert!(result.passed);
}

#[test]
fn test_build_rs_with_yaml_fails() {
    let result = check_build_rs(Some("fn main() { let yaml = serde_yaml_ng::from_str(); }"));
    assert!(!result.passed);
    assert!(result.issue_type.contains("Custom build.rs"));
}

#[test]
fn test_build_rs_with_phf_fails() {
    let result = check_build_rs(Some("fn main() { phf_codegen::Map::new(); }"));
    assert!(!result.passed);
}

#[test]
fn test_build_rs_without_unilang_stuff_passes() {
    let result = check_build_rs(Some("fn main() { println!(\"cargo:rerun-if-changed=build.rs\"); }"));
    assert!(result.passed);
}

#[test]
fn build_rs_location_counts_lines() {
    let result = check_build_rs_content("use walkdir;\nfn main() {}\n");
    assert!(!result.passed);
    assert_eq!(result.location, "./build.rs (2 lines)");
    assert_eq!(result.fix, "Delete build.rs - unilang provides this automatically");
}

#[test]
fn count_lines_ignores_final_break() {
    assert_eq!(count_lines(""), 0);
    assert_eq!(count_lines("a"), 1);
    assert_eq!(count_lines("a\n"), 1);
    assert_eq!(count_lines("a\nb"), 2);
    assert_eq!(count_lines("a\n\nb\n"), 3);
}

#[test]
fn issues_keep_failures_in_order() {
    let results = vec![
        CheckResult::passed(),
        CheckResult::failed("A", "x".to_string(), "first", "fix a", "url"),
        CheckResult::passed(),
        CheckResult::failed("B", "y".to_string(), "second", "fix b", "url"),
    ];
    let issues = collect_issues(results);
    assert_eq!(issues.len(), 2);
    assert_eq!(issues[0].issue, "first");
    assert_eq!(issues[1].issue, "second");
    assert_eq!(exit_code(&issues), 1);
    assert_eq!(exit_code(&Vec::new()), 0);
}

#[test]
fn quiet_report_is_empty() {
    let issues = vec![CheckResult::failed("A", "x".to_string(), "first", "fix a", "url")];
    assert_eq!(render_report(0, ".", &issues), "");
}

#[test]
fn summary_report_counts_issues() {
    let issues = vec![CheckResult::failed("A", "x".to_string(), "first", "fix a", "url")];
    assert_eq!(render_report(1, ".", &issues), "\u{274c} 1 issue(s) found\n");
    assert_eq!(render_report(1, ".", &Vec::new()), "\u{2705} All checks passed\n");
}

#[test]
fn full_report_lists_issues() {
    let issues = vec![CheckResult::failed("A", "x".to_string(), "first", "fix a", "url")];
    let expected = "Checking unilang project: proj\n\n\u{274c} PROBLEMS DETECTED:\n\n  1. A\n     Location: x\n     Issue: first\n     Fix: fix a\n     Docs: url\n\nSummary: 1 issue(s) found\n";
    assert_eq!(render_report(2, "proj", &issues), expected);
    assert_eq!(render_report(3, "p", &Vec::new()), "Checking unilang project: p\n\u{2705} All checks passed\n");
}
