//! Command definitions: construction, fluent setters, the builder, stored
//! fields and help companions.

use unilang::data::command_definition::CommandDefinition;
use unilang::data::command_definition::fields::CommandFields;
use unilang::data::command_definition::builder::parse_status_from_str;
use unilang::data::command_name::CommandName;
use unilang::error::Error;

fn fields(name: Option<&str>, namespace: Option<&str>, version: Option<&str>) -> CommandFields {
    CommandFields {
        name: name.map(|s| s.to_string()),
        description: Some("Lists".to_string()),
        arguments: None,
        routine_link: None,
        namespace: namespace.map(|s| s.to_string()),
        hint: None,
        status: None,
        version: version.map(|s| s.to_string()),
        tags: None,
        aliases: None,
        permissions: None,
        idempotent: None,
        deprecation_message: None,
        http_method_hint: None,
        examples: None,
        auto_help_enabled: None,
        category: None,
        short_desc: None,
        hidden_from_list: None,
        priority: None,
        group: None,
        show_version_in_help: None,
    }
}

#[test]
fn new_command_defaults() {
    let c = CommandDefinition::new(CommandName::new(".ls").unwrap(), "Lists".to_string());
    assert_eq!(c.name().as_str(), ".ls");
    assert_eq!(c.namespace(), "");
    assert_eq!(c.version().as_str(), "1.0.0");
    assert_eq!(c.http_method_hint(), "GET");
    assert!(c.idempotent());
    assert!(c.has_auto_help());
    assert!(c.status().is_active());
    assert_eq!(c.full_name(), ".ls");
}

#[test]
fn full_name_joins_namespace() {
    let c = CommandDefinition::new(CommandName::new(".ls").unwrap(), "Lists".to_string())
        .with_namespace(".fs".to_string());
    assert_eq!(c.full_name(), ".fs.ls");
}

#[test]
fn help_companion() {
    let c = CommandDefinition::new(CommandName::new(".ls").unwrap(), "Lists".to_string())
        .with_namespace(".fs".to_string());
    let h = c.generate_help_command();
    assert_eq!(h.name().as_str(), ".ls.help");
    assert_eq!(h.namespace(), ".fs");
    assert!(h.hidden_from_list());
    assert!(!h.has_auto_help());
}

#[test]
fn builder_sets_core_fields() {
    let c = CommandDefinition::former()
        .name(".add")
        .namespace(".math")
        .description("Adds")
        .hint("Adds two")
        .status("beta")
        .version("0.9.0")
        .aliases(vec!["plus".to_string()])
        .end();
    assert_eq!(c.name().as_str(), ".add");
    assert_eq!(c.namespace(), ".math");
    assert_eq!(c.description(), "Adds");
    assert_eq!(c.hint(), "Adds two");
    assert_eq!(c.version().as_str(), "0.9.0");
    assert_eq!(c.aliases().len(), 1);
    assert!(c.status().is_active());
}

#[test]
fn status_words_of_builder() {
    assert!(parse_status_from_str("stable", "").is_active());
    assert!(parse_status_from_str("internal", "").is_internal());
    let d = parse_status_from_str("deprecated", "use .other");
    assert_eq!(d.deprecation_info().unwrap().0, "use .other");
}

#[test]
fn stored_fields_split_dotted_name() {
    let c = CommandDefinition::from_fields(fields(Some(".session.list"), None, None)).unwrap();
    assert_eq!(c.name().as_str(), ".list");
    assert_eq!(c.namespace(), ".session");
    assert_eq!(c.version().as_str(), "1.0.0");
    let d = CommandDefinition::from_fields(fields(Some("list"), Some(".session"), Some("2.0"))).unwrap();
    assert_eq!(d.name().as_str(), ".list");
    assert_eq!(d.version().as_str(), "2.0");
}

#[test]
fn stored_fields_errors_in_order() {
    assert!(matches!(CommandDefinition::from_fields(fields(Some(".a"), None, Some(""))), Err(Error::Registration(_))));
    match CommandDefinition::from_fields(fields(None, None, None)) {
        Err(Error::MissingField(m)) => assert_eq!(m, "name"),
        other => panic!("unexpected {:?}", other),
    }
    match CommandDefinition::from_fields(fields(Some("list"), None, None)) {
        Err(Error::MissingDotPrefix(m)) => assert_eq!(m, "list"),
        other => panic!("unexpected {:?}", other),
    }
    assert!(matches!(CommandDefinition::from_fields(fields(Some(".a"), Some("ns"), None)), Err(Error::Registration(_))));
}

#[test]
fn stored_fields_read_back_as_the_command() {
    let c = CommandDefinition::new(CommandName::new(".list").unwrap(), "Lists".to_string())
        .with_namespace(".session".to_string())
        .with_hint("h")
        .with_tags(vec!["a".to_string()])
        .with_priority(7)
        .with_idempotent(false);
    let back = CommandDefinition::from_fields(c.to_fields()).unwrap();
    assert_eq!(back.name().as_str(), ".list");
    assert_eq!(back.namespace(), ".session");
    assert_eq!(back.description(), "Lists");
    assert_eq!(back.hint(), "h");
    assert_eq!(back.tags(), &vec!["a".to_string()]);
    assert_eq!(back.priority(), 7);
    assert!(!back.idempotent());
    assert_eq!(back.version().as_str(), "1.0.0");
    assert_eq!(back.http_method_hint(), "GET");
}
