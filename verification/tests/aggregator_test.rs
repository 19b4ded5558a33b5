//! Multi-manifest aggregation: loading, prefixing, discovery, overrides and
//! generated sources.

use unilang::multi_yaml::aggregator::{
    MultiYamlAggregator, EnvConfigParser, parse_cargo_metadata, aggregate_cli_simple, aggregate_cli_complex,
    join_path, matches_pattern,
};
use unilang::multi_yaml::types::{ AggregationConfig, ModuleConfig };
use unilang::multi_yaml::codegen::registry_source_with_map;
use unilang::multi_yaml::builder::RegistryMode;
use unilang::data::command_definition::CommandDefinition;
use unilang::data::command_name::CommandName;

fn module(name: &str, path: &str, prefix: Option<&str>, enabled: bool) -> ModuleConfig {
    ModuleConfig { name: name.to_string(), yaml_path: path.to_string(), prefix: prefix.map(|p| p.to_string()), enabled }
}

fn command(name: &str, namespace: &str) -> CommandDefinition {
    CommandDefinition::new(CommandName::new(name).unwrap(), "d".to_string()).with_namespace(namespace.to_string())
}

#[test]
fn new_aggregator_is_empty() {
    let a = MultiYamlAggregator::new(AggregationConfig::default());
    assert!(a.commands().is_empty());
    assert!(a.conflicts().is_empty());
    assert!(a.config().modules.is_empty());
}

#[test]
fn load_uses_file_or_placeholder() {
    let mut config = AggregationConfig::default();
    config.modules = vec![
        module("math", "math.yaml", None, true),
        module("off", "off.yaml", None, false),
        module("util", "util.yaml", None, true),
    ];
    let mut a = MultiYamlAggregator::new(config);
    a.load_yaml_files(&vec![Some("- name: x".to_string()), None, None]).unwrap();
    let files = a.yaml_files_mut();
    assert_eq!(files.len(), 2);
    assert_eq!(files[0], ("math".to_string(), "- name: x".to_string()));
    assert_eq!(files[1].0, "util");
    assert!(files[1].1.contains("Example command from util"));
}

#[test]
fn sample_content_names_module() {
    let a = MultiYamlAggregator::new(AggregationConfig::default());
    let s = a.generate_sample_yaml_content("demo");
    assert!(s.starts_with("---\n- name: \"example\"\n"));
    assert!(s.contains("  description: \"Example command from demo\"\n"));
    assert!(s.ends_with("  auto_help_enabled: true\n"));
}

#[test]
fn process_applies_module_and_global_prefix() {
    let mut config = AggregationConfig::default();
    config.modules = vec![module("math", "math.yaml", Some("math"), true), module("plain", "p.yaml", None, true)];
    config.global_prefix = Some("app".to_string());
    let mut a = MultiYamlAggregator::new(config);
    let parsed = vec![
        ("math".to_string(), vec![command(".add", ""), command(".sub", ".ops")]),
        ("plain".to_string(), vec![command(".run", "")]),
    ];
    a.process_yaml_files(&parsed);
    let names: Vec<&str> = a.commands().iter().map(|(k, _)| k.as_str()).collect();
    assert_eq!(names, vec![".app.math.add", ".app.math.ops.sub", ".app.run"]);
    for (key, command) in a.commands() {
        assert_eq!(key, &command.full_name());
    }
    assert_eq!(a.commands()[0].1.namespace(), ".app.math");
}

#[test]
fn process_without_prefix_keeps_names() {
    let mut config = AggregationConfig::default();
    config.modules = vec![module("m", "m.yaml", None, true), module("n", "n.yaml", None, false)];
    let mut a = MultiYamlAggregator::new(config);
    let parsed = vec![
        ("m".to_string(), vec![command(".a", ""), command(".b", ".ns"), command(".a", "")]),
        ("n".to_string(), vec![command(".c", "")]),
    ];
    a.process_yaml_files(&parsed);
    let names: Vec<&str> = a.commands().iter().map(|(k, _)| k.as_str()).collect();
    assert_eq!(names, vec![".a", ".ns.b"]);
}

#[test]
fn registry_source_has_sorted_map() {
    let mut config = AggregationConfig::default();
    config.modules = vec![module("m", "m.yaml", None, true)];
    let mut a = MultiYamlAggregator::new(config);
    a.process_yaml_files(&vec![("m".to_string(), vec![command(".zeta", ""), command(".alpha", "")])]);
    let src = a.generate_static_registry_source();
    assert!(src.starts_with("use unilang::phf::{self, Map};\n"));
    assert!(src.contains("static _ZETA_CMD: StaticCommandDefinition = StaticCommandDefinition {\n"));
    assert!(src.contains("static _ALPHA_CMD"));
    assert!(src.contains("pub static AGGREGATED_COMMANDS: Map<&'static str, &'static StaticCommandDefinition> = "));
    assert!(src.contains("&_ALPHA_CMD"));
    assert!(src.contains("= phf::Map {\n    key: "));
    assert!(src.contains("(\".alpha\", &_ALPHA_CMD)"));
    assert!(src.contains(", &_ZETA_CMD),"));
    assert!(src.ends_with("\n    ],\n};\n"));
}

#[test]
fn registry_source_takes_the_map_text_as_given() {
    let src = registry_source_with_map(&vec![], "phf::Map { key: 7 }");
    assert_eq!(
        src,
        "use unilang::phf::{self, Map};\nuse unilang::static_data::{StaticCommandDefinition, StaticArgumentDefinition, StaticArgumentAttributes, StaticKind};\n\n\
         pub static AGGREGATED_COMMANDS: Map<&'static str, &'static StaticCommandDefinition> = phf::Map { key: 7 };\n"
    );
    let one = registry_source_with_map(&vec![(".a".to_string(), command(".a", ""))], "M");
    assert!(one.contains("static _A_CMD: StaticCommandDefinition = StaticCommandDefinition {\n"));
    assert!(one.ends_with("Map<&'static str, &'static StaticCommandDefinition> = M;\n"));
}

#[test]
fn build_rs_lists_enabled_manifests() {
    let mut config = AggregationConfig::default();
    config.base_dir = "commands".to_string();
    config.modules = vec![module("a", "a.yaml", None, true), module("b", "b.yaml", None, false), module("c", "/abs/c.yaml", None, true)];
    let a = MultiYamlAggregator::new(config);
    let text = a.generate_build_rs();
    assert!(text.starts_with("//! Build script for multi-YAML command aggregation\n"));
    assert!(text.contains("  println!(\"cargo:rerun-if-changed=commands/a.yaml\");\n"));
    assert!(!text.contains("b.yaml"));
    assert!(text.contains("  println!(\"cargo:rerun-if-changed=/abs/c.yaml\");\n"));
    assert!(text.ends_with("  }\n}\n"));
}

#[test]
fn join_path_follows_path_rules() {
    assert_eq!(join_path("commands", "a.yaml"), "commands/a.yaml");
    assert_eq!(join_path("commands/", "a.yaml"), "commands/a.yaml");
    assert_eq!(join_path("", "a.yaml"), "a.yaml");
    assert_eq!(join_path("commands", "/etc/a.yaml"), "/etc/a.yaml");
}

#[test]
fn cargo_metadata_gives_fixed_modules() {
    let config = parse_cargo_metadata("Cargo.toml").unwrap();
    assert_eq!(config.base_dir, "commands");
    assert_eq!(config.modules.len(), 2);
    assert_eq!(config.modules[0].name, "math");
    assert_eq!(config.modules[0].prefix.as_deref(), Some("math"));
    assert_eq!(config.modules[1].yaml_path, "tests/test_data/utils.yaml");
    assert_eq!(config.modules[1].prefix.as_deref(), Some("util"));
    let a = MultiYamlAggregator::from_cargo_metadata("Cargo.toml").unwrap();
    assert_eq!(a.config().modules.len(), 2);
}

#[test]
fn env_overrides_apply() {
    let mut parser = EnvConfigParser::new();
    let vars = vec![
        ("UNILANG_GLOBAL_PREFIX".to_string(), "g".to_string()),
        ("UNILANG_DETECT_CONFLICTS".to_string(), "false".to_string()),
        ("UNILANG_MODULE_MATH_ENABLED".to_string(), "false".to_string()),
        ("UNILANG_MODULE_UTILS_PREFIX".to_string(), "".to_string()),
        ("OTHER".to_string(), "x".to_string()),
    ];
    parser.parse_with_prefix("UNILANG", &vars).unwrap();
    let mut config = parse_cargo_metadata("Cargo.toml").unwrap();
    config.detect_conflicts = true;
    parser.apply_to_config(&mut config);
    assert_eq!(config.global_prefix.as_deref(), Some("g"));
    assert!(!config.detect_conflicts);
    assert!(!config.modules[0].enabled);
    assert_eq!(config.modules[0].prefix.as_deref(), Some("math"));
    assert!(config.modules[1].enabled);
    assert_eq!(config.modules[1].prefix, None);
}

#[test]
fn env_flag_that_is_not_boolean_turns_on() {
    let mut parser = EnvConfigParser::new();
    parser.parse_with_prefix("UNILANG", &vec![("UNILANG_DETECT_CONFLICTS".to_string(), "maybe".to_string())]).unwrap();
    let mut config = AggregationConfig::default();
    parser.apply_to_config(&mut config);
    assert!(config.detect_conflicts);
}

#[test]
fn discovery_matches_patterns() {
    assert!(matches_pattern("*.yaml", "a.yaml"));
    assert!(matches_pattern("*.yml", "b.yml"));
    assert!(!matches_pattern("*.yaml", "notes.txt"));
    assert!(matches_pattern("exact.yaml", "exact.yaml"));
    assert!(!matches_pattern("exact.yaml", "other.yaml"));
    let mut a = MultiYamlAggregator::new(AggregationConfig::default());
    a.discover_yaml_files(&vec!["x/tools.yaml".to_string(), "readme.md".to_string(), "b.yml".to_string()]).unwrap();
    let mods = &a.config().modules;
    assert_eq!(mods.len(), 2);
    assert_eq!(mods[0].name, "tools");
    assert_eq!(mods[0].yaml_path, "x/tools.yaml");
    assert_eq!(mods[0].prefix, None);
    assert!(mods[0].enabled);
    assert_eq!(mods[1].name, "b");
}

#[test]
fn simple_aggregation_registers_version() {
    let r = aggregate_cli_simple();
    assert_eq!(r.mode, RegistryMode::Hybrid);
    assert_eq!(r.commands.len(), 1);
    assert_eq!(r.commands[0].name().as_str(), ".version");
    assert_eq!(r.commands[0].hint(), "Version info");
}

#[test]
fn complex_aggregation_prefixes_commands() {
    let r = aggregate_cli_complex(vec![command(".list", "")]);
    assert_eq!(r.mode, RegistryMode::Hybrid);
    assert_eq!(r.commands.len(), 2);
    assert_eq!(r.commands[0].namespace(), ".myapp.core");
    assert_eq!(r.commands[1].namespace(), ".myapp.util");
}
