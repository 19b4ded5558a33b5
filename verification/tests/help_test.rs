//! Help text of commands and parameters.

use unilang::help::{
    format_kind, format_minimal, format_basic, compact_kind, kind_placeholder, derive_param_examples,
    find_parameter, parameter_help_or_listing, ParameterHelp, format_category_name, auto_categorize,
    cmd_effective_description, format_standard, format_detailed, format_comprehensive, HelpOptions,
};
use unilang::data::argument::ArgumentDefinition;
use unilang::data::command_definition::CommandDefinition;
use unilang::data::command_name::CommandName;
use unilang::data::kind::Kind;

fn greet() -> CommandDefinition {
    let mut a = ArgumentDefinition::new("name", Kind::String);
    a.aliases = vec!["n".to_string()];
    let b = ArgumentDefinition::new("count", Kind::Integer);
    CommandDefinition::new(CommandName::new(".greet").unwrap(), "Says hello".to_string())
        .with_arguments(vec![a, b])
        .with_examples(vec![".greet name::Ann".to_string(), ".greet n::Bo".to_string(), ".greet".to_string()])
}

#[test]
fn kinds_in_help() {
    assert_eq!(format_kind(&Kind::Integer), "integer");
    assert_eq!(format_kind(&Kind::List(Box::new(Kind::Integer), None)), "list(integer, none)");
    assert_eq!(compact_kind(&Kind::List(Box::new(Kind::Integer), Some(','))), "list");
    assert_eq!(format_kind(&Kind::List(Box::new(Kind::Integer), Some(','))), "list(integer, some(','))");
    assert_eq!(format_kind(&Kind::List(Box::new(Kind::Integer), Some('\n'))), "list(integer, some('\\n'))");
    assert_eq!(format_kind(&Kind::Enum(vec!["A".to_string()])), "enum([\"a\"])");
    assert_eq!(compact_kind(&Kind::Boolean), "boolean");
    assert_eq!(kind_placeholder(&Kind::Integer), "<n>");
    assert_eq!(kind_placeholder(&Kind::Enum(vec!["fast".to_string(), "slow".to_string()])), "fast");
    assert_eq!(kind_placeholder(&Kind::Enum(vec![])), "<value>");
}

#[test]
fn minimal_and_basic_help() {
    let c = greet();
    assert_eq!(format_minimal(&c), ".greet - Says hello");
    assert_eq!(format_basic(&c), ".greet - Says hello\n\nPARAMETERS:\n  name::string\n  count::integer\n");
    let bare = CommandDefinition::new(CommandName::new(".x").unwrap(), "X".to_string());
    assert_eq!(format_basic(&bare), ".x - X\n");
}

#[test]
fn richer_help_levels_name_the_command() {
    let o = HelpOptions { show_version: true, show_status: true, show_aliases: true, show_tags: true };
    let c = greet();
    assert!(format_standard(&o, &c).starts_with("Usage: .greet (v1.0.0)\n"));
    assert!(format_detailed(&o, &c).contains(".greet"));
    assert!(format_comprehensive(&o, &c).contains("Says hello"));
}

#[test]
fn parameter_examples() {
    let c = greet();
    let ex = derive_param_examples(&c, &c.arguments()[0]);
    assert_eq!(ex, vec![".greet name::<string>", ".greet name::Ann", ".greet n::Bo"]);
}

#[test]
fn parameter_lookup_by_name_or_alias() {
    let c = greet();
    assert_eq!(find_parameter(&c, "name"), Some(0));
    assert_eq!(find_parameter(&c, "n"), Some(0));
    assert_eq!(find_parameter(&c, "count"), Some(1));
    assert_eq!(find_parameter(&c, "zzz"), None);
    assert!(matches!(parameter_help_or_listing(&c, "count"), ParameterHelp::Found(1)));
    match parameter_help_or_listing(&c, "zzz") {
        ParameterHelp::NotFound(m) => assert_eq!(
            m,
            "Parameter 'zzz' not found for command '.greet'. Valid parameters: name, count.\nUse '.greet ??' for command help."
        ),
        other => panic!("unexpected {:?}", other),
    }
    let bare = CommandDefinition::new(CommandName::new(".x").unwrap(), "X".to_string());
    match parameter_help_or_listing(&bare, "a") {
        ParameterHelp::NotFound(m) => assert_eq!(m, "Parameter 'a' not found: command '.x' takes no parameters."),
        other => panic!("unexpected {:?}", other),
    }
}

#[test]
fn categories_and_descriptions() {
    assert_eq!(format_category_name("file_operations"), "File Operations");
    assert_eq!(format_category_name("net"), "Net");
    assert_eq!(auto_categorize(".anything"), "");
    let c = greet();
    assert_eq!(cmd_effective_description(&c), "Says hello");
    let short = greet().with_short_desc("Hi");
    assert_eq!(cmd_effective_description(&short), "Hi");
}
