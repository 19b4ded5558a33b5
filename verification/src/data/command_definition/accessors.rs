//! Read access to each field of a command definition, and `with_*` setters
//! that return the definition with one field replaced.

use vstd::prelude::*;
use crate::data::command_definition::{ CommandDefinition, CommandView };
use crate::data::command_name::CommandName;
use crate::data::version_type::VersionType;
use crate::data::command_status::{ CommandStatus, opt_view };
use crate::data::argument::{ ArgumentDefinition, args_view };
use crate::data::kind::strs;
use crate::text::owned;

verus! {

impl CommandDefinition {
    /// The command's name.
    pub fn name(&self) -> (r: &CommandName)
        ensures
            r@ == self@.name,
    {
        &self.name
    }

    /// The command's description.
    pub fn description(&self) -> (r: &str)
        ensures
            r@ == self@.description,
    {
        self.description.as_str()
    }

    /// The command's argument definitions, in order.
    pub fn arguments(&self) -> (r: &Vec<ArgumentDefinition>)
        ensures
            args_view(r@) == self@.arguments,
    {
        &self.arguments
    }

    /// The link to the routine that executes the command, if one is set.
    pub fn routine_link(&self) -> (r: Option<&String>)
        ensures
            r.is_some() == self@.routine_link.is_some(),
            r matches Some(s) ==> self@.routine_link == Some(s@),
    {
        self.routine_link.as_ref()
    }

    /// The command's namespace; empty for the root namespace.
    pub fn namespace(&self) -> (r: &str)
        ensures
            r@ == self@.namespace,
    {
        self.namespace.as_str()
    }

    /// The command's short hint.
    pub fn hint(&self) -> (r: &str)
        ensures
            r@ == self@.hint,
    {
        self.hint.as_str()
    }

    /// The command's lifecycle status.
    pub fn status(&self) -> (r: &CommandStatus)
        ensures
            r@ == self@.status,
    {
        &self.status
    }

    /// The command's version.
    pub fn version(&self) -> (r: &VersionType)
        ensures
            r@ == self@.version,
    {
        &self.version
    }

    /// The command's tags.
    pub fn tags(&self) -> (r: &Vec<String>)
        ensures
            strs(r@) == self@.tags,
    {
        &self.tags
    }

    /// The command's aliases.
    pub fn aliases(&self) -> (r: &Vec<String>)
        ensures
            strs(r@) == self@.aliases,
    {
        &self.aliases
    }

    /// The permissions the command needs.
    pub fn permissions(&self) -> (r: &Vec<String>)
        ensures
            strs(r@) == self@.permissions,
    {
        &self.permissions
    }

    /// Whether running the command twice has the effect of running it once.
    pub fn idempotent(&self) -> (r: bool)
        ensures
            r == self@.idempotent,
    {
        self.idempotent
    }

    /// The deprecation message; empty when none is set.
    pub fn deprecation_message(&self) -> (r: &str)
        ensures
            r@ == self@.deprecation_message,
    {
        self.deprecation_message.as_str()
    }

    /// The HTTP method suggested for exposing the command.
    pub fn http_method_hint(&self) -> (r: &str)
        ensures
            r@ == self@.http_method_hint,
    {
        self.http_method_hint.as_str()
    }

    /// The usage examples.
    pub fn examples(&self) -> (r: &Vec<String>)
        ensures
            strs(r@) == self@.examples,
    {
        &self.examples
    }

    /// Whether a help companion is generated for the command.
    pub fn auto_help_enabled(&self) -> (r: bool)
        ensures
            r == self@.auto_help_enabled,
    {
        self.auto_help_enabled
    }

    /// The category under which the command is listed.
    pub fn category(&self) -> (r: &str)
        ensures
            r@ == self@.category,
    {
        self.category.as_str()
    }

    /// The one-line description used in listings.
    pub fn short_desc(&self) -> (r: &str)
        ensures
            r@ == self@.short_desc,
    {
        self.short_desc.as_str()
    }

    /// Whether the command is left out of listings.
    pub fn hidden_from_list(&self) -> (r: bool)
        ensures
            r == self@.hidden_from_list,
    {
        self.hidden_from_list
    }

    /// The listing priority; lower values come first.
    pub fn priority(&self) -> (r: i32)
        ensures
            r == self@.priority,
    {
        self.priority
    }

    /// The group the command belongs to.
    pub fn group(&self) -> (r: &str)
        ensures
            r@ == self@.group,
    {
        self.group.as_str()
    }

    /// Whether help text shows the command's version.
    pub fn show_version_in_help(&self) -> (r: bool)
        ensures
            r == self@.show_version_in_help,
    {
        self.show_version_in_help
    }

    /// Replaces the name. Every other field is kept.
    pub fn with_name(self, name: CommandName) -> (r: Self)
        ensures
            r@ == (CommandView { name: name@, ..self@ }),
    {
        let mut s = self;
        s.name = name;
        s
    }

    /// Replaces the description. Every other field is kept.
    pub fn with_description(self, description: &str) -> (r: Self)
        ensures
            r@ == (CommandView { description: description@, ..self@ }),
    {
        let mut s = self;
        s.description = owned(description);
        s
    }

    /// Replaces the argument definitions. Every other field is kept.
    pub fn with_arguments(self, arguments: Vec<ArgumentDefinition>) -> (r: Self)
        ensures
            r@ == (CommandView { arguments: args_view(arguments@), ..self@ }),
    {
        let mut s = self;
        s.arguments = arguments;
        s
    }

    /// Replaces the routine link. Every other field is kept.
    pub fn with_routine_link(self, link: Option<String>) -> (r: Self)
        ensures
            r@ == (CommandView { routine_link: opt_view(link), ..self@ }),
    {
        let mut s = self;
        s.routine_link = link;
        s
    }

    /// Replaces the namespace. Every other field is kept.
    pub fn with_namespace(self, namespace: String) -> (r: Self)
        ensures
            r@ == (CommandView { namespace: namespace@, ..self@ }),
    {
        let mut s = self;
        s.namespace = namespace;
        s
    }

    /// Replaces the hint. Every other field is kept.
    pub fn with_hint(self, hint: &str) -> (r: Self)
        ensures
            r@ == (CommandView { hint: hint@, ..self@ }),
    {
        let mut s = self;
        s.hint = owned(hint);
        s
    }

    /// Replaces the status. Every other field is kept.
    pub fn with_status(self, status: CommandStatus) -> (r: Self)
        ensures
            r@ == (CommandView { status: status@, ..self@ }),
    {
        let mut s = self;
        s.status = status;
        s
    }

    /// Replaces the version. Every other field is kept.
    pub fn with_version(self, version: VersionType) -> (r: Self)
        ensures
            r@ == (CommandView { version: version@, ..self@ }),
    {
        let mut s = self;
        s.version = version;
        s
    }

    /// Replaces the tags. Every other field is kept.
    pub fn with_tags(self, tags: Vec<String>) -> (r: Self)
        ensures
            r@ == (CommandView { tags: strs(tags@), ..self@ }),
    {
        let mut s = self;
        s.tags = tags;
        s
    }

    /// Replaces the aliases. Every other field is kept.
    pub fn with_aliases(self, aliases: Vec<String>) -> (r: Self)
        ensures
            r@ == (CommandView { aliases: strs(aliases@), ..self@ }),
    {
        let mut s = self;
        s.aliases = aliases;
        s
    }

    /// Replaces the permissions. Every other field is kept.
    pub fn with_permissions(self, permissions: Vec<String>) -> (r: Self)
        ensures
            r@ == (CommandView { permissions: strs(permissions@), ..self@ }),
    {
        let mut s = self;
        s.permissions = permissions;
        s
    }

    /// Sets whether the command is idempotent. Every other field is kept.
    pub fn with_idempotent(self, idempotent: bool) -> (r: Self)
        ensures
            r@ == (CommandView { idempotent: idempotent, ..self@ }),
    {
        let mut s = self;
        s.idempotent = idempotent;
        s
    }

    /// Replaces the deprecation message. Every other field is kept.
    pub fn with_deprecation_message(self, message: &str) -> (r: Self)
        ensures
            r@ == (CommandView { deprecation_message: message@, ..self@ }),
    {
        let mut s = self;
        s.deprecation_message = owned(message);
        s
    }

    /// Replaces the HTTP method hint. Every other field is kept.
    pub fn with_http_method_hint(self, hint: &str) -> (r: Self)
        ensures
            r@ == (CommandView { http_method_hint: hint@, ..self@ }),
    {
        let mut s = self;
        s.http_method_hint = owned(hint);
        s
    }

    /// Replaces the usage examples. Every other field is kept.
    pub fn with_examples(self, examples: Vec<String>) -> (r: Self)
        ensures
            r@ == (CommandView { examples: strs(examples@), ..self@ }),
    {
        let mut s = self;
        s.examples = examples;
        s
    }

    /// Turns generation of the help companion on or off. Every other field is kept.
    pub fn with_auto_help(self, enabled: bool) -> (r: Self)
        ensures
            r@ == (CommandView { auto_help_enabled: enabled, ..self@ }),
    {
        let mut s = self;
        s.auto_help_enabled = enabled;
        s
    }

    /// Replaces the category. Every other field is kept.
    pub fn with_category(self, category: &str) -> (r: Self)
        ensures
            r@ == (CommandView { category: category@, ..self@ }),
    {
        let mut s = self;
        s.category = owned(category);
        s
    }

    /// Replaces the one-line description. Every other field is kept.
    pub fn with_short_desc(self, desc: &str) -> (r: Self)
        ensures
            r@ == (CommandView { short_desc: desc@, ..self@ }),
    {
        let mut s = self;
        s.short_desc = owned(desc);
        s
    }

    /// Sets whether the command is left out of listings. Every other field is kept.
    pub fn with_hidden_from_list(self, hidden: bool) -> (r: Self)
        ensures
            r@ == (CommandView { hidden_from_list: hidden, ..self@ }),
    {
        let mut s = self;
        s.hidden_from_list = hidden;
        s
    }

    /// Replaces the listing priority. Every other field is kept.
    pub fn with_priority(self, priority: i32) -> (r: Self)
        ensures
            r@ == (CommandView { priority: priority, ..self@ }),
    {
        let mut s = self;
        s.priority = priority;
        s
    }

    /// Replaces the group. Every other field is kept.
    pub fn with_group(self, group: &str) -> (r: Self)
        ensures
            r@ == (CommandView { group: group@, ..self@ }),
    {
        let mut s = self;
        s.group = owned(group);
        s
    }

    /// Sets whether help text shows the version. Every other field is kept.
    pub fn with_show_version_in_help(self, show: bool) -> (r: Self)
        ensures
            r@ == (CommandView { show_version_in_help: show, ..self@ }),
    {
        let mut s = self;
        s.show_version_in_help = show;
        s
    }
}

} // verus!
