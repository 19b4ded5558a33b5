//! The command definition record, its value, its accessors and its builder.

pub mod accessors;
pub mod builder;
pub mod fields;

pub use builder::{ CommandDefinitionBuilder, IsSet, NotSet, BuilderView };
pub use fields::CommandFields;

use vstd::prelude::*;
use crate::data::command_name::{ CommandName, is_command_name };
use crate::data::version_type::VersionType;
use crate::data::command_status::{
    CommandStatus, StatusView, clone_opt_string, opt_view, full_command_name, construct_full_command_name,
};
use crate::data::argument::{ ArgumentDefinition, ArgumentView, args_view, clone_args };
use crate::data::kind::{ clone_strings, strs };
use crate::text::{ owned, push_str };

verus! {

broadcast use vstd::string::group_string_axioms;

/// A command definition with private fields reachable through accessors.
#[derive(Debug)]
pub struct CommandDefinition {
    pub(crate) name: CommandName,
    pub(crate) description: String,
    pub(crate) arguments: Vec<ArgumentDefinition>,
    pub(crate) routine_link: Option<String>,
    /// Namespace of the command; validated when the command is registered.
    pub namespace: String,
    pub(crate) hint: String,
    pub(crate) status: CommandStatus,
    pub(crate) version: VersionType,
    pub(crate) tags: Vec<String>,
    pub(crate) aliases: Vec<String>,
    pub(crate) permissions: Vec<String>,
    pub(crate) idempotent: bool,
    pub(crate) deprecation_message: String,
    pub(crate) http_method_hint: String,
    pub(crate) examples: Vec<String>,
    pub(crate) auto_help_enabled: bool,
    pub(crate) category: String,
    pub(crate) short_desc: String,
    pub(crate) hidden_from_list: bool,
    pub(crate) priority: i32,
    pub(crate) group: String,
    pub(crate) show_version_in_help: bool,
}

/// The mathematical value of a command definition.
pub struct CommandView {
    pub name: Seq<char>,
    pub description: Seq<char>,
    pub arguments: Seq<ArgumentView>,
    pub routine_link: Option<Seq<char>>,
    pub namespace: Seq<char>,
    pub hint: Seq<char>,
    pub status: StatusView,
    pub version: Seq<char>,
    pub tags: Seq<Seq<char>>,
    pub aliases: Seq<Seq<char>>,
    pub permissions: Seq<Seq<char>>,
    pub idempotent: bool,
    pub deprecation_message: Seq<char>,
    pub http_method_hint: Seq<char>,
    pub examples: Seq<Seq<char>>,
    pub auto_help_enabled: bool,
    pub category: Seq<char>,
    pub short_desc: Seq<char>,
    pub hidden_from_list: bool,
    pub priority: i32,
    pub group: Seq<char>,
    pub show_version_in_help: bool,
}

impl View for CommandDefinition {
    type V = CommandView;

    closed spec fn view(&self) -> CommandView {
        CommandView {
            name: self.name@,
            description: self.description@,
            arguments: args_view(self.arguments@),
            routine_link: opt_view(self.routine_link),
            namespace: self.namespace@,
            hint: self.hint@,
            status: self.status@,
            version: self.version@,
            tags: strs(self.tags@),
            aliases: strs(self.aliases@),
            permissions: strs(self.permissions@),
            idempotent: self.idempotent,
            deprecation_message: self.deprecation_message@,
            http_method_hint: self.http_method_hint@,
            examples: strs(self.examples@),
            auto_help_enabled: self.auto_help_enabled,
            category: self.category@,
            short_desc: self.short_desc@,
            hidden_from_list: self.hidden_from_list,
            priority: self.priority,
            group: self.group@,
            show_version_in_help: self.show_version_in_help,
        }
    }
}

/// The full name of a command: its namespace joined to its name.
pub open spec fn full_name_of(c: CommandView) -> Seq<char> {
    full_command_name(c.namespace, c.name)
}

/// The help companion of a command with the given value.
pub open spec fn help_companion(c: CommandView) -> CommandView {
    CommandView {
        name: c.name + ".help"@,
        namespace: c.namespace,
        description: "Display help information for the '"@ + c.name + "' command"@,
        hint: "Help for "@ + c.name,
        status: StatusView::Active,
        version: c.version,
        arguments: Seq::<ArgumentView>::empty(),
        routine_link: None,
        tags: seq!["help"@, "documentation"@],
        aliases: seq![c.name + ".h"@],
        permissions: Seq::<Seq<char>>::empty(),
        idempotent: true,
        deprecation_message: Seq::<char>::empty(),
        http_method_hint: "GET"@,
        examples: seq![c.name + ".help"@, c.name + " ??"@],
        auto_help_enabled: false,
        category: "help"@,
        short_desc: "Help for "@ + c.name,
        hidden_from_list: true,
        priority: 999,
        group: Seq::<char>::empty(),
        show_version_in_help: true,
    }
}

/// The help companion of a command named `n` is named `n.help`, stays in
/// the command's namespace, and answers to exactly one alias, `n.h`: its
/// own name shortened to the first letter of `help`. Its examples are its
/// own name and the command's name followed by ` ??`.
pub proof fn lemma_help_companion_names(c: CommandView)
    ensures
        help_companion(c).examples == seq![help_companion(c).name, c.name + " ??"@],
        help_companion(c).name == c.name + ".help"@,
        help_companion(c).namespace == c.namespace,
        help_companion(c).aliases.len() == 1,
        help_companion(c).aliases[0] == c.name + ".h"@,
        help_companion(c).aliases[0] == help_companion(c).name.take(c.name.len() + 2int),
{
    reveal_strlit(".help");
    reveal_strlit(".h");
    assert((c.name + ".help"@).take(c.name.len() + 2int) =~= c.name + ".h"@);
}

/// The value of a command freshly made by `CommandDefinition::new`.
pub open spec fn fresh_command(name: Seq<char>, description: Seq<char>) -> CommandView {
    CommandView {
        name: name,
        description: description,
        arguments: Seq::<ArgumentView>::empty(),
        routine_link: None,
        namespace: Seq::<char>::empty(),
        hint: Seq::<char>::empty(),
        status: StatusView::Active,
        version: "1.0.0"@,
        tags: Seq::<Seq<char>>::empty(),
        aliases: Seq::<Seq<char>>::empty(),
        permissions: Seq::<Seq<char>>::empty(),
        idempotent: true,
        deprecation_message: Seq::<char>::empty(),
        http_method_hint: "GET"@,
        examples: Seq::<Seq<char>>::empty(),
        auto_help_enabled: true,
        category: Seq::<char>::empty(),
        short_desc: Seq::<char>::empty(),
        hidden_from_list: false,
        priority: 0,
        group: Seq::<char>::empty(),
        show_version_in_help: true,
    }
}

/// A string holding `a` followed by `b`.
pub fn concat2(a: &str, b: &str) -> (r: String)
    ensures
        r@ == a@ + b@,
{
    let mut s = owned(a);
    push_str(&mut s, b);
    s
}

/// A string holding `a`, `b` and `c` in turn.
pub fn concat3(a: &str, b: &str, c: &str) -> (r: String)
    ensures
        r@ == a@ + b@ + c@,
{
    let mut s = owned(a);
    push_str(&mut s, b);
    push_str(&mut s, c);
    s
}

impl Clone for CommandDefinition {
    fn clone(&self) -> (r: Self)
        ensures
            r@ == self@,
    {
        CommandDefinition {
            name: self.name.clone(),
            description: self.description.clone(),
            arguments: clone_args(&self.arguments),
            routine_link: clone_opt_string(&self.routine_link),
            namespace: self.namespace.clone(),
            hint: self.hint.clone(),
            status: self.status.clone(),
            version: self.version.clone(),
            tags: clone_strings(&self.tags),
            aliases: clone_strings(&self.aliases),
            permissions: clone_strings(&self.permissions),
            idempotent: self.idempotent,
            deprecation_message: self.deprecation_message.clone(),
            http_method_hint: self.http_method_hint.clone(),
            examples: clone_strings(&self.examples),
            auto_help_enabled: self.auto_help_enabled,
            category: self.category.clone(),
            short_desc: self.short_desc.clone(),
            hidden_from_list: self.hidden_from_list,
            priority: self.priority,
            group: self.group.clone(),
            show_version_in_help: self.show_version_in_help,
        }
    }
}

impl CommandDefinition {
    /// A command with the given name and description and defaults for every
    /// other field: root namespace, status `Active`, version `1.0.0`,
    /// idempotent, HTTP hint `GET`, auto-help on, shown in listings with
    /// its version.
    pub fn new(name: CommandName, description: String) -> (r: Self)
        ensures
            r@ == fresh_command(name@, description@),
    {
        proof {
            reveal_strlit("1.0.0");
        }
        let version = VersionType::new("1.0.0").unwrap();
        let r = CommandDefinition {
            name,
            description,
            arguments: Vec::new(),
            routine_link: None,
            namespace: String::new(),
            hint: String::new(),
            status: CommandStatus::Active,
            version,
            tags: Vec::new(),
            aliases: Vec::new(),
            permissions: Vec::new(),
            idempotent: true,
            deprecation_message: String::new(),
            http_method_hint: owned("GET"),
            examples: Vec::new(),
            auto_help_enabled: true,
            category: String::new(),
            short_desc: String::new(),
            hidden_from_list: false,
            priority: 0,
            group: String::new(),
            show_version_in_help: true,
        };
        proof {
            assert(args_view(r.arguments@) =~= Seq::<ArgumentView>::empty());
            assert(strs(r.tags@) =~= Seq::<Seq<char>>::empty());
            assert(strs(r.aliases@) =~= Seq::<Seq<char>>::empty());
            assert(strs(r.permissions@) =~= Seq::<Seq<char>>::empty());
            assert(strs(r.examples@) =~= Seq::<Seq<char>>::empty());
        }
        r
    }

    /// Whether registering this command generates a help companion.
    pub fn has_auto_help(&self) -> (r: bool)
        ensures
            r == self@.auto_help_enabled,
    {
        self.auto_help_enabled
    }

    /// The fully qualified name: namespace and name joined.
    pub fn full_name(&self) -> (r: String)
        ensures
            r@ == full_name_of(self@),
    {
        construct_full_command_name(self.namespace.as_str(), self.name.as_str())
    }

    /// The help companion of this command: `<name>.help`, in the same
    /// namespace and version, hidden from listings and without auto-help.
    pub fn generate_help_command(&self) -> (r: CommandDefinition)
        ensures
            r@ == help_companion(self@),
    {
        let n = self.name.as_str();
        let help_name_text = concat2(n, ".help");
        proof {
            reveal_strlit(".help");
        }
        let help_name = CommandName::new(help_name_text.as_str()).unwrap();
        let mut tags: Vec<String> = Vec::new();
        tags.push(owned("help"));
        tags.push(owned("documentation"));
        let mut aliases: Vec<String> = Vec::new();
        aliases.push(concat2(n, ".h"));
        let mut examples: Vec<String> = Vec::new();
        examples.push(concat2(n, ".help"));
        examples.push(concat2(n, " ??"));
        let r = CommandDefinition {
            name: help_name,
            namespace: self.namespace.clone(),
            description: concat3("Display help information for the '", n, "' command"),
            hint: concat2("Help for ", n),
            status: CommandStatus::Active,
            version: self.version.clone(),
            arguments: Vec::new(),
            routine_link: None,
            tags,
            aliases,
            permissions: Vec::new(),
            idempotent: true,
            deprecation_message: String::new(),
            http_method_hint: owned("GET"),
            examples,
            auto_help_enabled: false,
            category: owned("help"),
            short_desc: concat2("Help for ", n),
            hidden_from_list: true,
            priority: 999,
            group: String::new(),
            show_version_in_help: true,
        };
        proof {
            assert(strs(r.tags@) =~= seq!["help"@, "documentation"@]);
            assert(strs(r.aliases@) =~= seq![self@.name + ".h"@]);
            assert(strs(r.examples@) =~= seq![self@.name + ".help"@, self@.name + " ??"@]);
            assert(args_view(r.arguments@) =~= Seq::<ArgumentView>::empty());
            assert(strs(r.permissions@) =~= Seq::<Seq<char>>::empty());
        }
        r
    }
}

} // verus!
