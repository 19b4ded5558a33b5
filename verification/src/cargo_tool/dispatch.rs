//! How the tool reads its command line, and the commands it offers.

use vstd::prelude::*;
use crate::cargo_tool::commands::{ parse_params, params_of, pairs_view };
use crate::data::argument::{ ArgumentDefinition, ArgumentView, args_view };
use crate::data::command_definition::{ CommandDefinition, CommandView };
use crate::data::command_status::StatusView;
use crate::data::kind::{ Kind, KindView };
use crate::text::{ chars_of, owned, chars_eq_str };

verus! {

broadcast use vstd::string::group_string_axioms;

/// What the tool does with its command line.
#[derive(Debug)]
pub enum Dispatch {
    /// Print the general help and succeed.
    GeneralHelp,
    /// The first word is not a command; exit with status 2.
    UnknownCommand(String),
    /// A parameter is not in `key::value` form; holds the message.
    BadParameter(String),
    /// Run the command with the parsed parameters.
    Invoke { command: String, params: Vec<(String, String)> },
}

/// The command word of an argument list: the first argument, `.` when there is none.
pub open spec fn command_word(args: Seq<Seq<char>>) -> Seq<char> {
    if args.len() == 0 { "."@ } else { args[0] }
}

/// Reads the tool's arguments (without the program name).
///
/// No arguments, `.` or `.help` ask for the general help; a first word
/// without the dot prefix is an unknown command; otherwise the remaining
/// arguments must be `key::value` parameters.
pub fn dispatch(args: &Vec<String>) -> (r: Dispatch)
    ensures
        ({
            let av = args@.map_values(|s: String| s@);
            let cmd = command_word(av);
            if cmd == "."@ || cmd == ".help"@ {
                r is GeneralHelp
            } else if !(cmd.len() > 0 && cmd[0] == '.') {
                r matches Dispatch::UnknownCommand(c) && c@ == cmd
            } else {
                match params_of(av.skip(1)) {
                    Ok(ps) => r matches Dispatch::Invoke { command, params } && command@ == cmd
                        && pairs_view(params@) == ps,
                    Err(m) => r matches Dispatch::BadParameter(e) && e@ == m,
                }
            }
        }),
{
    let ghost av = args@.map_values(|s: String| s@);
    proof {
        reveal_strlit(".");
    }
    if args.len() == 0 {
        return Dispatch::GeneralHelp;
    }
    let cmd = chars_of(args[0].as_str());
    assert(cmd@ == command_word(av));
    if chars_eq_str(&cmd, ".") || chars_eq_str(&cmd, ".help") {
        return Dispatch::GeneralHelp;
    }
    if !(cmd.len() > 0 && cmd[0] == '.') {
        return Dispatch::UnknownCommand(args[0].clone());
    }
    let mut rest: Vec<String> = Vec::new();
    let mut i: usize = 1;
    while i < args.len()
        invariant
            1 <= i <= args@.len(),
            av == args@.map_values(|s: String| s@),
            rest@.map_values(|s: String| s@) == av.subrange(1, i as int),
        decreases args@.len() - i,
    {
        let ghost before = rest@.map_values(|s: String| s@);
        rest.push(args[i].clone());
        assert(rest@.map_values(|s: String| s@) =~= before.push(av[i as int]));
        assert(av.subrange(1, i as int + 1) =~= av.subrange(1, i as int).push(av[i as int]));
        i = i + 1;
    }
    assert(av.subrange(1, args@.len() as int) =~= av.skip(1));
    match parse_params(&rest) {
        Ok(params) => Dispatch::Invoke { command: args[0].clone(), params },
        Err(m) => Dispatch::BadParameter(m),
    }
}

/// An optional string argument with the given default.
fn optional_string(name: &str, default: Option<&str>) -> (r: ArgumentDefinition)
    ensures
        r@.name == name@,
        r@.kind == KindView::String,
        r@.optional,
        r@.default == (match default { Some(d) => Some(d@), None => None::<Seq<char>> }),
{
    ArgumentDefinition::new(name, Kind::String).with_optional(default)
}

/// A command of the tool: the given name, description and arguments, no
/// generated help companion, and every other field at the builder's
/// default (root namespace, no hint, active, version `1.0.0`).
pub open spec fn tool_command_view(name: Seq<char>, description: Seq<char>, arguments: Seq<ArgumentView>) -> CommandView {
    CommandView {
        name,
        description,
        arguments,
        routine_link: None,
        namespace: Seq::<char>::empty(),
        hint: Seq::<char>::empty(),
        status: StatusView::Active,
        version: "1.0.0"@,
        tags: Seq::<Seq<char>>::empty(),
        aliases: Seq::<Seq<char>>::empty(),
        permissions: Seq::<Seq<char>>::empty(),
        idempotent: false,
        deprecation_message: Seq::<char>::empty(),
        http_method_hint: Seq::<char>::empty(),
        examples: Seq::<Seq<char>>::empty(),
        auto_help_enabled: false,
        category: Seq::<char>::empty(),
        short_desc: Seq::<char>::empty(),
        hidden_from_list: false,
        priority: 0,
        group: Seq::<char>::empty(),
        show_version_in_help: true,
    }
}

/// The commands the tool offers: `.new` and `.check`, each with its help
/// command, all without generated help companions; see `tool_command_view`.
pub fn tool_commands() -> (r: Vec<CommandDefinition>)
    ensures
        r@.len() == 4,
        forall|i: int| 0 <= i < 4 ==> (#[trigger] r@[i])@ == tool_command_view(r@[i]@.name, r@[i]@.description, r@[i]@.arguments),
        r@[0]@.name == ".new"@,
        r@[1]@.name == ".new.help"@,
        r@[2]@.name == ".check"@,
        r@[3]@.name == ".check.help"@,
        r@[0]@.description == "Create new unilang project with correct structure"@,
        r@[1]@.description == "Show help for .new command"@,
        r@[2]@.description == "Validate existing unilang project for common mistakes"@,
        r@[3]@.description == "Show help for .check command"@,
        forall|i: int| 0 <= i < 4 ==> !(#[trigger] r@[i])@.auto_help_enabled,
        r@[0]@.arguments.len() == 5,
        r@[0]@.arguments[0].name == "project"@ && !r@[0]@.arguments[0].optional,
        r@[0]@.arguments[1].name == "template"@ && r@[0]@.arguments[1].default == Some("minimal"@),
        r@[0]@.arguments[2].name == "author"@ && r@[0]@.arguments[2].optional && r@[0]@.arguments[2].default is None,
        r@[0]@.arguments[3].name == "license"@ && r@[0]@.arguments[3].optional && r@[0]@.arguments[3].default is None,
        r@[0]@.arguments[4].name == "verbosity"@ && r@[0]@.arguments[4].default == Some("2"@),
        r@[1]@.arguments.len() == 0,
        r@[2]@.arguments.len() == 3,
        r@[2]@.arguments[0].name == "path"@ && r@[2]@.arguments[0].default == Some("."@),
        r@[2]@.arguments[1].name == "verbosity"@ && r@[2]@.arguments[1].default == Some("2"@),
        r@[2]@.arguments[2].name == "fix"@ && r@[2]@.arguments[2].default == Some("false"@),
        r@[3]@.arguments.len() == 0,
        forall|i: int, j: int| 0 <= i < 4 && 0 <= j < r@[i]@.arguments.len()
            ==> (#[trigger] r@[i]@.arguments[j]).kind == KindView::String,
{
    proof {
        reveal_strlit(".new");
        reveal_strlit(".new.help");
        reveal_strlit(".check");
        reveal_strlit(".check.help");
        reveal_strlit("active");
        reveal_strlit("deprecated");
        reveal_strlit("experimental");
        reveal_strlit("internal");
    }
    let mut new_args: Vec<ArgumentDefinition> = Vec::new();
    new_args.push(ArgumentDefinition::new("project", Kind::String));
    new_args.push(optional_string("template", Some("minimal")));
    new_args.push(optional_string("author", None));
    new_args.push(optional_string("license", None));
    new_args.push(optional_string("verbosity", Some("2")));
    let new_cmd = CommandDefinition::former()
        .name(".new")
        .description("Create new unilang project with correct structure")
        .arguments(new_args)
        .auto_help_enabled(false)
        .end();
    let new_help = CommandDefinition::former()
        .name(".new.help")
        .description("Show help for .new command")
        .auto_help_enabled(false)
        .end();
    let mut check_args: Vec<ArgumentDefinition> = Vec::new();
    check_args.push(optional_string("path", Some(".")));
    check_args.push(optional_string("verbosity", Some("2")));
    check_args.push(optional_string("fix", Some("false")));
    let check_cmd = CommandDefinition::former()
        .name(".check")
        .description("Validate existing unilang project for common mistakes")
        .arguments(check_args)
        .auto_help_enabled(false)
        .end();
    let check_help = CommandDefinition::former()
        .name(".check.help")
        .description("Show help for .check command")
        .auto_help_enabled(false)
        .end();
    let mut r: Vec<CommandDefinition> = Vec::new();
    r.push(new_cmd);
    r.push(new_help);
    r.push(check_cmd);
    r.push(check_help);
    r
}

} // verus!
