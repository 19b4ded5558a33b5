//! The build step: manifest checks, discovery, type hints and the
//! generated static table.

use unilang::build::validation::{ validate_version, compute_full_name, validate_command };
use unilang::build::discovery::{ discovery_paths, is_manifest_path, manifest_format, ManifestFormat, build_summary };
use unilang::build::manifest::{ ManifestCommand, ManifestArgument, TextList, KindField };
use unilang::build::codegen::{ generate_static_commands, generate_empty_phf };
use unilang::build::type_hints::{ TypeAnalyzer, TypeHint, HintGenerator, context_suggests_boolean, context_suggests_integer };

fn manifest_command(name: &str, namespace: Option<&str>, version: Option<&str>) -> ManifestCommand {
    ManifestCommand {
        name: Some(name.to_string()),
        namespace: namespace.map(|s| s.to_string()),
        description: Some("Does it".to_string()),
        hint: None,
        status: None,
        version: version.map(|s| s.to_string()),
        idempotent: None,
        deprecation_message: None,
        http_method_hint: None,
        auto_help_enabled: None,
        category: None,
        show_version_in_help: None,
        arguments: None,
        aliases: TextList::Missing,
        tags: TextList::Missing,
        permissions: TextList::Missing,
        examples: TextList::Missing,
    }
}

fn manifest_argument(name: &str, kind: &str, default: Option<&str>) -> ManifestArgument {
    ManifestArgument {
        name: Some(name.to_string()),
        description: None,
        hint: None,
        kind: KindField::Name(kind.to_string()),
        kind_debug: kind.to_string(),
        has_validation_rules: false,
        aliases: TextList::Missing,
        tags: TextList::Missing,
        optional: None,
        multiple: None,
        default: default.map(|s| s.to_string()),
        sensitive: None,
        interactive: None,
        plain_default: None,
        suppress_type_hint: None,
    }
}

#[test]
fn versions_and_full_names() {
    assert!(validate_version("1.0", ".a", "f.yaml").is_ok());
    assert_eq!(
        validate_version("", ".a", "f.yaml").unwrap_err(),
        "In file 'f.yaml': Command '.a' has empty version. Version string cannot be empty."
    );
    assert_eq!(compute_full_name("", "run"), ".run");
    assert_eq!(compute_full_name("", ".run"), ".run");
    assert_eq!(compute_full_name("tools", "run"), ".tools.run");
    assert_eq!(compute_full_name(".tools", "run"), ".tools.run");
    assert_eq!(compute_full_name(".system", ".status"), ".system.status");
    assert_eq!(compute_full_name(".system", "..status"), ".system.status");
    assert!(validate_command(".run", "", "1.0", "f.yaml").is_ok());
    assert_eq!(validate_command("", "", "1.0", "f.yaml").unwrap_err(), "In file 'f.yaml': Command name cannot be empty");
}

#[test]
fn discovery_settings() {
    assert_eq!(discovery_paths(None), vec!["./"]);
    assert_eq!(discovery_paths(Some("a:b")), vec!["a", "b"]);
    assert!(is_manifest_path(&vec!["src".to_string(), "cmds.yaml".to_string()], Some("yaml")));
    assert!(!is_manifest_path(&vec!["tests".to_string(), "cmds.yaml".to_string()], Some("yaml")));
    assert!(!is_manifest_path(&vec!["src".to_string()], Some("toml")));
    assert!(matches!(manifest_format(Some("yml"), "a.yml"), Ok(ManifestFormat::Yaml)));
    assert!(matches!(manifest_format(Some("json"), "a.json"), Ok(ManifestFormat::Json)));
    assert_eq!(manifest_format(None, "a").unwrap_err(), "File has no extension: a");
    assert_eq!(manifest_format(Some("txt"), "a.txt").unwrap_err(), "Unsupported file extension 'txt' for file: a.txt");
}

#[test]
fn summary_only_with_files() {
    assert_eq!(build_summary(&vec![], 0), "");
    let s = build_summary(&vec![Some("cmds.yaml".to_string())], 3);
    assert!(s.contains("Found 1 YAML file"));
    assert!(s.contains("cmds.yaml"));
}

#[test]
fn static_table_of_commands() {
    let text = generate_static_commands(&vec![manifest_command("run", None, Some("1.0"))]).unwrap();
    assert!(text.starts_with("// Generated static commands\n"));
    assert!(text.contains(".run"));
    assert!(text.contains("pub static STATIC_COMMANDS: StaticCommandMap"));
}

#[test]
fn static_table_stops_at_first_problem() {
    let err = generate_static_commands(&vec![manifest_command("run", None, None)]).unwrap_err();
    assert!(err.contains("has empty version"));
    let dup = vec![manifest_command("run", None, Some("1")), manifest_command(".run", None, Some("1"))];
    assert!(generate_static_commands(&dup).is_err());
}

#[test]
fn empty_table_text() {
    let t = generate_empty_phf();
    assert!(t.starts_with("// Generated static commands (empty)\n"));
    assert!(t.contains("phf_map! {};"));
}

#[test]
fn type_hints_for_string_booleans_and_integers() {
    assert!(context_suggests_boolean("dry_run", ""));
    assert!(context_suggests_integer("max_count"));
    assert!(!context_suggests_integer("name"));
    let analyzer = TypeAnalyzer::new(None);
    let hints = analyzer.analyze_argument(&manifest_argument("verbose", "String", Some("true")));
    assert_eq!(hints.len(), 1);
    assert!(matches!(hints[0], TypeHint::BooleanAsString { .. }));
    assert!(!HintGenerator::generate_warning(&hints[0]).is_empty());
    let none = analyzer.analyze_argument(&manifest_argument("verbose", "Boolean", Some("true")));
    assert!(none.is_empty());
    let suppressed = TypeAnalyzer::new(Some("1"));
    assert!(suppressed.analyze_argument(&manifest_argument("verbose", "String", Some("true"))).is_empty());
}
