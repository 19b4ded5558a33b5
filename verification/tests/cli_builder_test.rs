//! The CLI builder: modes, prefixes, features, conflicts and registration.

use unilang::multi_yaml::builder::{ CliBuilder, AggregationMode, RegistryMode };
use unilang::multi_yaml::types::ConflictType;
use unilang::data::command_definition::CommandDefinition;
use unilang::data::command_name::CommandName;

fn command(name: &str) -> CommandDefinition {
    CommandDefinition::new(CommandName::new(name).unwrap(), "d".to_string())
}

#[test]
fn fresh_builder_detects_static_only() {
    let b = CliBuilder::new();
    assert_eq!(b.detect_optimal_mode(), RegistryMode::StaticOnly);
    assert_eq!(b.static_modules_count(), 0);
}

#[test]
fn optimal_mode_follows_modules() {
    let b = CliBuilder::new().static_module("core", vec![command(".a")]);
    assert_eq!(b.detect_optimal_mode(), RegistryMode::Hybrid);
    let d = CliBuilder::new().dynamic_module("dyn", "d.yaml".to_string());
    assert_eq!(d.detect_optimal_mode(), RegistryMode::DynamicOnly);
    assert_eq!(d.dynamic_modules_count(), 1);
}

#[test]
fn prefixes_apply_to_names() {
    let b = CliBuilder::new().global_prefix("app");
    let c = command(".run");
    assert_eq!(b.compute_final_command_name(&c, Some(&"mod".to_string())), ".app.mod.run");
    assert_eq!(b.compute_final_command_name(&c, None), ".app.run");
    let p = b.apply_prefixes(command(".run"), Some(&"mod".to_string()));
    assert_eq!(p.namespace(), ".app.mod");
    assert_eq!(p.full_name(), b.compute_final_command_name(&c, Some(&"mod".to_string())));
}

#[test]
fn features_gate_conditional_modules() {
    let b = CliBuilder::new().enable_feature("advanced_cli_tests");
    assert!(b.is_feature_enabled("advanced_cli_tests"));
    assert!(b.is_feature_enabled("test_feature"));
    assert!(!CliBuilder::new().is_feature_enabled("test_feature"));
    let r = CliBuilder::new()
        .conditional_module("adv", "test_feature", vec![command(".debug")])
        .enable_feature("advanced_cli_tests")
        .build(&vec![]);
    assert_eq!(r.commands.len(), 1);
    assert_eq!(r.commands[0].namespace(), ".adv");
    let off = CliBuilder::new().conditional_module("adv", "test_feature", vec![command(".debug")]).build(&vec![]);
    assert!(off.commands.is_empty());
}

#[test]
fn conflicts_between_modules_are_reported() {
    let b = CliBuilder::new()
        .static_module("a", vec![command(".run")])
        .static_module("b", vec![command(".run")]);
    let reports = b.detect_conflicts_report(&vec![]);
    assert_eq!(reports.len(), 1);
    assert_eq!(reports[0].command_name, ".run");
    assert_eq!(reports[0].modules, vec!["a".to_string(), "b".to_string()]);
    assert_eq!(reports[0].conflict_type, ConflictType::NameCollision);
}

#[test]
fn build_registers_static_then_dynamic() {
    let r = CliBuilder::new()
        .mode(AggregationMode::Dynamic)
        .static_module_with_prefix("core", "core", vec![command(".version")])
        .dynamic_module_with_prefix("utils", "u.yaml".to_string(), "util")
        .build(&vec![vec![command(".list"), command(".list.help")]]);
    assert_eq!(r.mode, RegistryMode::DynamicOnly);
    assert_eq!(r.commands.len(), 2);
    assert_eq!(r.commands[0].namespace(), ".core");
    assert_eq!(r.commands[1].namespace(), ".util");
    let s = CliBuilder::new().static_module("core", vec![command(".a")]).build_static();
    assert_eq!(s.mode, RegistryMode::Hybrid);
    assert_eq!(s.commands.len(), 1);
}

#[test]
fn a_new_builder_has_no_setting_overrides() {
    let b = CliBuilder::new();
    assert!(b.config().env_overrides.is_empty());
    assert!(b.config().exclude_env_overrides.is_empty());
    assert_eq!(b.config().app_name, "app");
}
