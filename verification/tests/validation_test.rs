//! Validation of commands before registration.

use unilang::command_validation::{
    validate_command_name, validate_namespace, validate_parameter_storage_types, looks_like_choice_list,
    validate_help_conventions, validate_command_for_registration, is_help_command, make_help_command_name,
};
use unilang::data::argument::ArgumentDefinition;
use unilang::data::command_definition::CommandDefinition;
use unilang::data::command_name::CommandName;
use unilang::data::kind::Kind;
use unilang::error::Error;

fn cmd_with(args: Vec<ArgumentDefinition>) -> CommandDefinition {
    CommandDefinition::new(CommandName::new(".run").unwrap(), "Runs".to_string()).with_arguments(args)
}

#[test]
fn command_name_prefix() {
    assert!(validate_command_name(".chat").is_ok());
    match validate_command_name("chat") {
        Err(Error::Registration(m)) => assert!(m.starts_with("Invalid command name 'chat'. All commands must start with dot prefix")),
        other => panic!("unexpected {:?}", other),
    }
}

#[test]
fn namespace_prefix() {
    assert!(validate_namespace("").is_ok());
    assert!(validate_namespace(".tools").is_ok());
    assert!(validate_namespace("tools").is_err());
}

#[test]
fn repeatable_parameter_needs_list() {
    let mut a = ArgumentDefinition::new("files", Kind::String);
    a.attributes.multiple = true;
    match validate_parameter_storage_types(&cmd_with(vec![a])) {
        Err(Error::Registration(m)) => {
            assert!(m.starts_with("Parameter 'files' in command '.run' has multiple:true but storage type is String."));
        },
        other => panic!("unexpected {:?}", other),
    }
    let mut b = ArgumentDefinition::new("files", Kind::List(Box::new(Kind::String), None));
    b.attributes.multiple = true;
    assert!(validate_parameter_storage_types(&cmd_with(vec![b])).is_ok());
}

#[test]
fn choice_lists() {
    assert!(looks_like_choice_list("json|yaml"));
    assert!(looks_like_choice_list("json|yaml."));
    assert!(looks_like_choice_list("Output format: json|yaml|toml."));
    assert!(!looks_like_choice_list("use a|b here"));
    assert!(!looks_like_choice_list("plain description"));
    assert!(!looks_like_choice_list("a b|c"));
}

#[test]
fn enum_default_must_be_a_choice() {
    let a = ArgumentDefinition::new("format", Kind::Enum(vec!["json".to_string(), "yaml".to_string()]))
        .with_optional(Some("xml"));
    match validate_help_conventions(&cmd_with(vec![a])) {
        Err(Error::Registration(m)) => assert!(m.starts_with("Parameter 'format' in command '.run' declares default 'xml'")),
        other => panic!("unexpected {:?}", other),
    }
    let ok = ArgumentDefinition::new("format", Kind::Enum(vec!["json".to_string()])).with_optional(Some("json"));
    assert_eq!(validate_help_conventions(&cmd_with(vec![ok])).unwrap().len(), 0);
}

#[test]
fn string_with_choice_description_warns() {
    let mut a = ArgumentDefinition::new("format", Kind::String);
    a.description = "json|yaml".to_string();
    let warnings = validate_help_conventions(&cmd_with(vec![a])).unwrap();
    assert_eq!(warnings.len(), 1);
    assert!(warnings[0].starts_with("Parameter 'format' in command '.run' is Kind::String but its description looks like a choice list ('json|yaml')."));
    assert!(warnings[0].ends_with("Declare it as Kind::Enum so '.run format::??' help can list the choices and invalid values are rejected."));
}

#[test]
fn registration_checks_name_and_namespace() {
    assert!(validate_command_for_registration(&cmd_with(vec![])).is_ok());
    let bad_ns = cmd_with(vec![]).with_namespace("tools".to_string());
    assert!(validate_command_for_registration(&bad_ns).is_err());
}

#[test]
fn help_command_names() {
    assert!(is_help_command(".greet.help"));
    assert!(!is_help_command(".greet"));
    assert_eq!(make_help_command_name(".greet"), ".greet.help");
}
