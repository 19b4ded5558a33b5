//! The command data model: names, versions, namespaces, statuses and kinds.

use unilang::data::command_name::CommandName;
use unilang::data::version_type::VersionType;
use unilang::data::namespace_type::NamespaceType;
use unilang::data::command_status::{ CommandStatus, StatusForm, construct_full_command_name };
use unilang::data::kind::Kind;
use unilang::error::Error;

#[test]
fn command_name_needs_leading_dot() {
    assert_eq!(CommandName::new(".greet").unwrap().as_str(), ".greet");
    assert!(matches!(CommandName::new(""), Err(Error::EmptyCommandName)));
    match CommandName::new("greet") {
        Err(Error::MissingDotPrefix(s)) => assert_eq!(s, "greet"),
        other => panic!("unexpected {:?}", other),
    }
}

#[test]
fn version_must_not_be_empty() {
    assert_eq!(VersionType::new("2.1.0").unwrap().as_str(), "2.1.0");
    match VersionType::new("") {
        Err(Error::Registration(m)) => assert_eq!(m, "Invalid version: version string cannot be empty"),
        other => panic!("unexpected {:?}", other),
    }
}

#[test]
fn namespace_root_and_dotted() {
    assert!(NamespaceType::new("").unwrap().is_root());
    assert_eq!(NamespaceType::new(".math").unwrap().as_str(), ".math");
    assert!(!NamespaceType::new(".math").unwrap().is_root());
    assert!(NamespaceType::new("math").is_err());
}

#[test]
fn status_predicates_and_words() {
    assert!(CommandStatus::Active.is_active());
    assert!(CommandStatus::Experimental.is_experimental());
    assert!(CommandStatus::Internal.is_internal());
    assert!(CommandStatus::from_str_lossy("EXPERIMENTAL").is_experimental());
    assert!(CommandStatus::from_str_lossy("Internal").is_internal());
    assert!(CommandStatus::from_str_lossy("deprecated").is_active());
    assert!(CommandStatus::from_status_word("Stable").is_active());
    assert!(CommandStatus::from_status_word("DEPRECATED").is_deprecated());
    assert!(CommandStatus::from_status_word("whatever").is_active());
}

#[test]
fn status_record_fields() {
    let s = CommandStatus::from_status_fields(
        Some("deprecated"),
        Some("old".to_string()),
        Some(Some("1.0".to_string())),
        Some(None),
    );
    let (reason, since, replacement) = s.deprecation_info().unwrap();
    assert_eq!(reason, "old");
    assert_eq!(since.as_deref(), Some("1.0"));
    assert_eq!(*replacement, None);
    assert!(CommandStatus::from_status_fields(Some("Deprecated"), None, None, None).is_active());
    assert!(CommandStatus::from_status_fields(None, None, None, None).is_active());
    assert!(CommandStatus::Active.deprecation_info().is_none());
}

#[test]
fn status_display_text() {
    assert_eq!(CommandStatus::Active.to_display_string(), "active");
    assert_eq!(CommandStatus::Internal.to_display_string(), "internal");
    let d = CommandStatus::Deprecated {
        reason: "use new".to_string(),
        since: Some("2.0".to_string()),
        replacement: Some(".new".to_string()),
    };
    assert_eq!(d.to_display_string(), "deprecated (since 2.0): use new \u{2192} .new");
    let bare = CommandStatus::Deprecated { reason: String::new(), since: None, replacement: None };
    assert_eq!(bare.to_display_string(), "deprecated");
}

#[test]
fn full_command_names() {
    assert_eq!(construct_full_command_name("", ".test"), ".test");
    assert_eq!(construct_full_command_name(".math", ".add"), ".math.add");
    assert_eq!(construct_full_command_name("math", ".add"), ".math.add");
    assert_eq!(construct_full_command_name("math", "..add"), ".math..add");
    assert_eq!(construct_full_command_name(".ns", ".a..b"), ".ns.a..b");
    assert_eq!(construct_full_command_name("", "add"), ".add");
    assert_eq!(construct_full_command_name(".math", "add"), ".math.add");
    assert_eq!(construct_full_command_name("math", "add"), ".math.add");
}

#[test]
fn kind_parse_and_text() {
    assert!(matches!(Kind::parse("String").unwrap(), Kind::String));
    assert!(matches!(Kind::parse("Integer").unwrap(), Kind::Integer));
    let l = Kind::parse("List(Integer,;)").unwrap();
    assert!(l.is_list());
    assert_eq!(l.to_text(), "List(Integer,;)");
    let e = Kind::parse("Enum(a,b,c)").unwrap();
    assert_eq!(e.to_text(), "Enum(a,b,c)");
    assert!(Kind::parse("Nope").is_err());
    assert!(Kind::String.is_string());
}

#[test]
fn plain_kind_text_reads_back() {
    for k in [Kind::String, Kind::Integer, Kind::Float, Kind::Boolean, Kind::Path, Kind::File, Kind::Directory,
        Kind::Url, Kind::DateTime, Kind::Pattern, Kind::JsonString, Kind::Object] {
        let text = k.to_text();
        let back = Kind::parse(&text).unwrap();
        assert_eq!(back.to_text(), text);
    }
}

#[test]
fn statuses_read_back_from_their_stored_form() {
    assert!(CommandStatus::from_form(CommandStatus::Active.to_form()).is_active());
    assert!(CommandStatus::from_form(CommandStatus::Experimental.to_form()).is_experimental());
    assert!(CommandStatus::from_form(CommandStatus::Internal.to_form()).is_internal());
    let d = CommandStatus::Deprecated { reason: "old".to_string(), since: Some("2.0".to_string()), replacement: None };
    match d.to_form() {
        StatusForm::Record { status, .. } => assert_eq!(status.as_deref(), Some("deprecated")),
        StatusForm::Word(w) => panic!("a deprecation is stored as a record, not {w}"),
    }
    let back = CommandStatus::from_form(d.to_form());
    let (reason, since, replacement) = back.deprecation_info().unwrap();
    assert_eq!(reason, "old");
    assert_eq!(since.as_deref(), Some("2.0"));
    assert!(replacement.is_none());
    assert!(CommandStatus::from_form(StatusForm::Word("Stable".to_string())).is_active());
    assert!(CommandStatus::from_form(StatusForm::Word("DEPRECATED".to_string())).is_deprecated());
}
