//! The tool's own commands.

use unilang::cargo_tool::dispatch::tool_commands;

#[test]
fn tool_commands_take_the_builder_defaults() {
    let cmds = tool_commands();
    let names: Vec<&str> = cmds.iter().map(|c| c.name().as_str()).collect();
    assert_eq!(names, vec![".new", ".new.help", ".check", ".check.help"]);
    for c in &cmds {
        assert_eq!(c.namespace(), "");
        assert_eq!(c.hint(), "");
        assert!(c.status().is_active());
        assert_eq!(c.version().as_str(), "1.0.0");
        assert!(!c.auto_help_enabled());
    }
    assert_eq!(cmds[0].arguments().len(), 5);
    assert_eq!(cmds[2].arguments().len(), 3);
}
