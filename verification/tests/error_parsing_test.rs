//! Facts read back out of error messages.

use unilang::pipeline::error_parsing::{
    extract_interactive_argument, extract_command_from_error, extract_available_commands,
    extract_command_suggestions, format_help_content,
};

#[test]
fn interactive_argument_quoted() {
    assert_eq!(
        extract_interactive_argument("The argument 'password' is marked as interactive").as_deref(),
        Some("password")
    );
}

#[test]
fn interactive_argument_after_marker() {
    assert_eq!(
        extract_interactive_argument("Interactive Argument Required:   api_key please").as_deref(),
        Some("api_key")
    );
    assert_eq!(extract_interactive_argument("Interactive Argument Required: token").as_deref(), Some("token"));
}

#[test]
fn interactive_argument_fallback_and_none() {
    assert_eq!(extract_interactive_argument("missing argument 'name' here").as_deref(), Some("name"));
    assert_eq!(extract_interactive_argument("Interactive Argument Required:   ").as_deref(), None);
    assert_eq!(extract_interactive_argument("nothing to see").as_deref(), None);
}

#[test]
fn command_in_error() {
    assert_eq!(extract_command_from_error("Not found for command .greet now").as_deref(), Some(".greet"));
    assert_eq!(extract_command_from_error("Error for command .end").as_deref(), Some(".end"));
    assert_eq!(extract_command_from_error("unknown command '.x.y' given").as_deref(), Some(".x.y"));
    assert_eq!(extract_command_from_error("no hint").as_deref(), None);
}

#[test]
fn available_commands_listed() {
    let msg = "Help\nAvailable commands:\n  .greet  Say hello\n  .math.add Adds\n    x.list  Lists\n\nUse .help for more";
    assert_eq!(extract_available_commands(msg), vec!["greet", "math.add", "list"]);
}

#[test]
fn available_commands_stop_at_use_line() {
    let msg = "Available commands:\r\n  .a\r\nUse this\n  .b\n";
    assert_eq!(extract_available_commands(msg), vec!["a"]);
    assert!(extract_available_commands("no list here\n  .a").is_empty());
}

#[test]
fn suggestions_after_did_you_mean() {
    assert_eq!(
        extract_command_suggestions("Unknown command. Did you mean: .greet, .great? or plain"),
        vec![".greet", ".great"]
    );
    assert!(extract_command_suggestions("Unknown command .greet").is_empty());
}

#[test]
fn help_content_lines() {
    assert_eq!(format_help_content(&vec![]), "No commands available.");
    assert_eq!(
        format_help_content(&vec!["a".to_string(), "b.c".to_string()]),
        "Available commands:\n  .a\n  .b.c\n"
    );
}
