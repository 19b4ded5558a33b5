//! A type-state builder for command definitions: the name and the
//! description must be set before `end`, and all six core fields before
//! `build`; each core field can be set once.

use vstd::prelude::*;
use core::marker::PhantomData;
use crate::data::command_definition::{ CommandDefinition, CommandView };
use crate::data::command_name::{ CommandName, is_command_name };
use crate::data::version_type::VersionType;
use crate::data::command_status::{ CommandStatus, StatusView, status_from_word, opt_view };
use crate::data::argument::{ ArgumentDefinition, ArgumentView, args_view };
use crate::data::kind::strs;
use crate::text::{ owned, chars_of, eq_ignore_ascii_case, eq_ignore_ascii_case_str };

verus! {

/// Marks a core field of the builder as set.
#[derive(Debug)]
pub struct IsSet;

/// Marks a core field of the builder as not yet set.
#[derive(Debug)]
pub struct NotSet;

/// Builds a `CommandDefinition` field by field; the type parameters record
/// which of the six core fields have been set.
#[derive(Debug)]
pub struct CommandDefinitionBuilder<Name, Description, Namespace, Hint, Status, Version> {
    pub(crate) name: Option<String>,
    pub(crate) description: Option<String>,
    pub(crate) namespace: Option<String>,
    pub(crate) hint: Option<String>,
    pub(crate) status: Option<String>,
    pub(crate) version: Option<String>,
    pub(crate) arguments: Vec<ArgumentDefinition>,
    pub(crate) routine_link: Option<String>,
    pub(crate) tags: Vec<String>,
    pub(crate) aliases: Vec<String>,
    pub(crate) permissions: Vec<String>,
    pub(crate) idempotent: bool,
    pub(crate) deprecation_message: String,
    pub(crate) http_method_hint: String,
    pub(crate) examples: Vec<String>,
    pub(crate) auto_help_enabled: bool,
    pub(crate) category: String,
    pub(crate) short_desc: String,
    pub(crate) hidden_from_list: bool,
    pub(crate) priority: i32,
    pub(crate) group: String,
    pub(crate) show_version_in_help: bool,
    marker: PhantomData<(Name, Description, Namespace, Hint, Status, Version)>,
}

/// The value of a builder: the core fields set so far and every other field.
pub struct BuilderView {
    pub name: Option<Seq<char>>,
    pub description: Option<Seq<char>>,
    pub namespace: Option<Seq<char>>,
    pub hint: Option<Seq<char>>,
    pub status: Option<Seq<char>>,
    pub version: Option<Seq<char>>,
    pub arguments: Seq<ArgumentView>,
    pub routine_link: Option<Seq<char>>,
    pub tags: Seq<Seq<char>>,
    pub aliases: Seq<Seq<char>>,
    pub permissions: Seq<Seq<char>>,
    pub idempotent: bool,
    pub deprecation_message: Seq<char>,
    pub http_method_hint: Seq<char>,
    pub examples: Seq<Seq<char>>,
    pub auto_help_enabled: bool,
    pub category: Seq<char>,
    pub short_desc: Seq<char>,
    pub hidden_from_list: bool,
    pub priority: i32,
    pub group: Seq<char>,
    pub show_version_in_help: bool,
}

impl<Name, Description, Namespace, Hint, Status, Version> View for CommandDefinitionBuilder<Name, Description, Namespace, Hint, Status, Version> {
    type V = BuilderView;

    closed spec fn view(&self) -> BuilderView {
        BuilderView {
            name: opt_view(self.name),
            description: opt_view(self.description),
            namespace: opt_view(self.namespace),
            hint: opt_view(self.hint),
            status: opt_view(self.status),
            version: opt_view(self.version),
            arguments: args_view(self.arguments@),
            routine_link: opt_view(self.routine_link),
            tags: strs(self.tags@),
            aliases: strs(self.aliases@),
            permissions: strs(self.permissions@),
            idempotent: self.idempotent,
            deprecation_message: self.deprecation_message@,
            http_method_hint: self.http_method_hint@,
            examples: strs(self.examples@),
            auto_help_enabled: self.auto_help_enabled,
            category: self.category@,
            short_desc: self.short_desc@,
            hidden_from_list: self.hidden_from_list,
            priority: self.priority,
            group: self.group@,
            show_version_in_help: self.show_version_in_help,
        }
    }
}

/// The value of a builder that has nothing set: no core field, no
/// arguments, not idempotent, auto-help on, shown in listings with its version.
pub open spec fn empty_builder() -> BuilderView {
    BuilderView {
        name: None,
        description: None,
        namespace: None,
        hint: None,
        status: None,
        version: None,
        arguments: Seq::<ArgumentView>::empty(),
        routine_link: None,
        tags: Seq::<Seq<char>>::empty(),
        aliases: Seq::<Seq<char>>::empty(),
        permissions: Seq::<Seq<char>>::empty(),
        idempotent: false,
        deprecation_message: Seq::<char>::empty(),
        http_method_hint: Seq::<char>::empty(),
        examples: Seq::<Seq<char>>::empty(),
        auto_help_enabled: true,
        category: Seq::<char>::empty(),
        short_desc: Seq::<char>::empty(),
        hidden_from_list: false,
        priority: 0,
        group: Seq::<char>::empty(),
        show_version_in_help: true,
    }
}

/// The status that a builder's status word gives: `deprecated` (ignoring
/// ASCII case) carries the deprecation message as its reason; any other word
/// is read as `CommandStatus::from_str_lossy` reads it.
pub open spec fn status_of_word(word: Seq<char>, deprecation_message: Seq<char>) -> StatusView {
    if eq_ignore_ascii_case(word, "deprecated"@) {
        StatusView::Deprecated { reason: deprecation_message, since: None, replacement: None }
    } else {
        status_from_word(word)@
    }
}

/// The optional text, or the given default when it is absent.
pub open spec fn or_default(o: Option<Seq<char>>, d: Seq<char>) -> Seq<char> {
    match o {
        Some(s) => s,
        None => d,
    }
}

/// The command that a builder's value finishes into, with `active` and
/// `1.0.0` standing in for a missing status and version and the root
/// namespace and an empty hint for a missing namespace and hint.
pub open spec fn finished_command(b: BuilderView) -> CommandView {
    CommandView {
        name: or_default(b.name, Seq::<char>::empty()),
        description: or_default(b.description, Seq::<char>::empty()),
        arguments: b.arguments,
        routine_link: b.routine_link,
        namespace: or_default(b.namespace, Seq::<char>::empty()),
        hint: or_default(b.hint, Seq::<char>::empty()),
        status: status_of_word(or_default(b.status, "active"@), b.deprecation_message),
        version: or_default(b.version, "1.0.0"@),
        tags: b.tags,
        aliases: b.aliases,
        permissions: b.permissions,
        idempotent: b.idempotent,
        deprecation_message: b.deprecation_message,
        http_method_hint: b.http_method_hint,
        examples: b.examples,
        auto_help_enabled: b.auto_help_enabled,
        category: b.category,
        short_desc: b.short_desc,
        hidden_from_list: b.hidden_from_list,
        priority: b.priority,
        group: b.group,
        show_version_in_help: b.show_version_in_help,
    }
}

/// Reads a builder's status word; see `status_of_word`.
pub fn parse_status_from_str(status: &str, deprecation_message: &str) -> (r: CommandStatus)
    ensures
        r@ == status_of_word(status@, deprecation_message@),
{
    let v = chars_of(status);
    if eq_ignore_ascii_case_str(&v, "deprecated") {
        CommandStatus::Deprecated { reason: owned(deprecation_message), since: None, replacement: None }
    } else {
        CommandStatus::from_str_lossy(status)
    }
}

impl CommandDefinitionBuilder<NotSet, NotSet, NotSet, NotSet, NotSet, NotSet> {
    /// A builder with nothing set.
    pub fn new() -> (r: Self)
        ensures
            r@ == empty_builder(),
    {
        let r = CommandDefinitionBuilder {
            name: None,
            description: None,
            namespace: None,
            hint: None,
            status: None,
            version: None,
            arguments: Vec::new(),
            routine_link: None,
            tags: Vec::new(),
            aliases: Vec::new(),
            permissions: Vec::new(),
            idempotent: false,
            deprecation_message: String::new(),
            http_method_hint: String::new(),
            examples: Vec::new(),
            auto_help_enabled: true,
            category: String::new(),
            short_desc: String::new(),
            hidden_from_list: false,
            priority: 0,
            group: String::new(),
            show_version_in_help: true,
            marker: PhantomData,
        };
        proof {
            assert(args_view(r.arguments@) =~= Seq::<ArgumentView>::empty());
            assert(strs(r.tags@) =~= Seq::<Seq<char>>::empty());
            assert(strs(r.aliases@) =~= Seq::<Seq<char>>::empty());
            assert(strs(r.permissions@) =~= Seq::<Seq<char>>::empty());
            assert(strs(r.examples@) =~= Seq::<Seq<char>>::empty());
        }
        r
    }
}

impl Default for CommandDefinitionBuilder<NotSet, NotSet, NotSet, NotSet, NotSet, NotSet> {
    fn default() -> (r: Self)
        ensures
            r@ == empty_builder(),
    {
        Self::new()
    }
}

impl<Description, Namespace, Hint, Status, Version> CommandDefinitionBuilder<NotSet, Description, Namespace, Hint, Status, Version> {
    /// Sets the name; it can be set only once.
    pub fn name(self, name: &str) -> (r: CommandDefinitionBuilder<IsSet, Description, Namespace, Hint, Status, Version>)
        ensures
            r@ == (BuilderView { name: Some(name@), ..self@ }),
    {
        CommandDefinitionBuilder {
            name: Some(owned(name)),
            description: self.description,
            namespace: self.namespace,
            hint: self.hint,
            status: self.status,
            version: self.version,
            arguments: self.arguments,
            routine_link: self.routine_link,
            tags: self.tags,
            aliases: self.aliases,
            permissions: self.permissions,
            idempotent: self.idempotent,
            deprecation_message: self.deprecation_message,
            http_method_hint: self.http_method_hint,
            examples: self.examples,
            auto_help_enabled: self.auto_help_enabled,
            category: self.category,
            short_desc: self.short_desc,
            hidden_from_list: self.hidden_from_list,
            priority: self.priority,
            group: self.group,
            show_version_in_help: self.show_version_in_help,
            marker: PhantomData,
        }
    }
}

impl<Name, Namespace, Hint, Status, Version> CommandDefinitionBuilder<Name, NotSet, Namespace, Hint, Status, Version> {
    /// Sets the description; it can be set only once.
    pub fn description(self, description: &str) -> (r: CommandDefinitionBuilder<Name, IsSet, Namespace, Hint, Status, Version>)
        ensures
            r@ == (BuilderView { description: Some(description@), ..self@ }),
    {
        CommandDefinitionBuilder {
            name: self.name,
            description: Some(owned(description)),
            namespace: self.namespace,
            hint: self.hint,
            status: self.status,
            version: self.version,
            arguments: self.arguments,
            routine_link: self.routine_link,
            tags: self.tags,
            aliases: self.aliases,
            permissions: self.permissions,
            idempotent: self.idempotent,
            deprecation_message: self.deprecation_message,
            http_method_hint: self.http_method_hint,
            examples: self.examples,
            auto_help_enabled: self.auto_help_enabled,
            category: self.category,
            short_desc: self.short_desc,
            hidden_from_list: self.hidden_from_list,
            priority: self.priority,
            group: self.group,
            show_version_in_help: self.show_version_in_help,
            marker: PhantomData,
        }
    }
}

impl<Name, Description, Hint, Status, Version> CommandDefinitionBuilder<Name, Description, NotSet, Hint, Status, Version> {
    /// Sets the namespace; it can be set only once.
    pub fn namespace(self, namespace: &str) -> (r: CommandDefinitionBuilder<Name, Description, IsSet, Hint, Status, Version>)
        ensures
            r@ == (BuilderView { namespace: Some(namespace@), ..self@ }),
    {
        CommandDefinitionBuilder {
            name: self.name,
            description: self.description,
            namespace: Some(owned(namespace)),
            hint: self.hint,
            status: self.status,
            version: self.version,
            arguments: self.arguments,
            routine_link: self.routine_link,
            tags: self.tags,
            aliases: self.aliases,
            permissions: self.permissions,
            idempotent: self.idempotent,
            deprecation_message: self.deprecation_message,
            http_method_hint: self.http_method_hint,
            examples: self.examples,
            auto_help_enabled: self.auto_help_enabled,
            category: self.category,
            short_desc: self.short_desc,
            hidden_from_list: self.hidden_from_list,
            priority: self.priority,
            group: self.group,
            show_version_in_help: self.show_version_in_help,
            marker: PhantomData,
        }
    }
}

impl<Name, Description, Namespace, Status, Version> CommandDefinitionBuilder<Name, Description, Namespace, NotSet, Status, Version> {
    /// Sets the hint; it can be set only once.
    pub fn hint(self, hint: &str) -> (r: CommandDefinitionBuilder<Name, Description, Namespace, IsSet, Status, Version>)
        ensures
            r@ == (BuilderView { hint: Some(hint@), ..self@ }),
    {
        CommandDefinitionBuilder {
            name: self.name,
            description: self.description,
            namespace: self.namespace,
            hint: Some(owned(hint)),
            status: self.status,
            version: self.version,
            arguments: self.arguments,
            routine_link: self.routine_link,
            tags: self.tags,
            aliases: self.aliases,
            permissions: self.permissions,
            idempotent: self.idempotent,
            deprecation_message: self.deprecation_message,
            http_method_hint: self.http_method_hint,
            examples: self.examples,
            auto_help_enabled: self.auto_help_enabled,
            category: self.category,
            short_desc: self.short_desc,
            hidden_from_list: self.hidden_from_list,
            priority: self.priority,
            group: self.group,
            show_version_in_help: self.show_version_in_help,
            marker: PhantomData,
        }
    }
}

impl<Name, Description, Namespace, Hint, Version> CommandDefinitionBuilder<Name, Description, Namespace, Hint, NotSet, Version> {
    /// Sets the status; it can be set only once.
    pub fn status(self, status: &str) -> (r: CommandDefinitionBuilder<Name, Description, Namespace, Hint, IsSet, Version>)
        ensures
            r@ == (BuilderView { status: Some(status@), ..self@ }),
    {
        CommandDefinitionBuilder {
            name: self.name,
            description: self.description,
            namespace: self.namespace,
            hint: self.hint,
            status: Some(owned(status)),
            version: self.version,
            arguments: self.arguments,
            routine_link: self.routine_link,
            tags: self.tags,
            aliases: self.aliases,
            permissions: self.permissions,
            idempotent: self.idempotent,
            deprecation_message: self.deprecation_message,
            http_method_hint: self.http_method_hint,
            examples: self.examples,
            auto_help_enabled: self.auto_help_enabled,
            category: self.category,
            short_desc: self.short_desc,
            hidden_from_list: self.hidden_from_list,
            priority: self.priority,
            group: self.group,
            show_version_in_help: self.show_version_in_help,
            marker: PhantomData,
        }
    }
}

impl<Name, Description, Namespace, Hint, Status> CommandDefinitionBuilder<Name, Description, Namespace, Hint, Status, NotSet> {
    /// Sets the version; it can be set only once.
    pub fn version(self, version: &str) -> (r: CommandDefinitionBuilder<Name, Description, Namespace, Hint, Status, IsSet>)
        ensures
            r@ == (BuilderView { version: Some(version@), ..self@ }),
    {
        CommandDefinitionBuilder {
            name: self.name,
            description: self.description,
            namespace: self.namespace,
            hint: self.hint,
            status: self.status,
            version: Some(owned(version)),
            arguments: self.arguments,
            routine_link: self.routine_link,
            tags: self.tags,
            aliases: self.aliases,
            permissions: self.permissions,
            idempotent: self.idempotent,
            deprecation_message: self.deprecation_message,
            http_method_hint: self.http_method_hint,
            examples: self.examples,
            auto_help_enabled: self.auto_help_enabled,
            category: self.category,
            short_desc: self.short_desc,
            hidden_from_list: self.hidden_from_list,
            priority: self.priority,
            group: self.group,
            show_version_in_help: self.show_version_in_help,
            marker: PhantomData,
        }
    }
}

impl<Name, Description, Namespace, Hint, Status, Version> CommandDefinitionBuilder<Name, Description, Namespace, Hint, Status, Version> {
    /// Replaces the arguments; every other field is kept.
    pub fn arguments(self, arguments: Vec<ArgumentDefinition>) -> (r: Self)
        ensures
            r@ == (BuilderView { arguments: args_view(arguments@), ..self@ }),
    {
        let mut s = self;
        s.arguments = arguments;
        s
    }

    /// Replaces the routine link; every other field is kept.
    pub fn routine_link(self, routine_link: Option<String>) -> (r: Self)
        ensures
            r@ == (BuilderView { routine_link: opt_view(routine_link), ..self@ }),
    {
        let mut s = self;
        s.routine_link = routine_link;
        s
    }

    /// Replaces the tags; every other field is kept.
    pub fn tags(self, tags: Vec<String>) -> (r: Self)
        ensures
            r@ == (BuilderView { tags: strs(tags@), ..self@ }),
    {
        let mut s = self;
        s.tags = tags;
        s
    }

    /// Replaces the aliases; every other field is kept.
    pub fn aliases(self, aliases: Vec<String>) -> (r: Self)
        ensures
            r@ == (BuilderView { aliases: strs(aliases@), ..self@ }),
    {
        let mut s = self;
        s.aliases = aliases;
        s
    }

    /// Replaces the permissions; every other field is kept.
    pub fn permissions(self, permissions: Vec<String>) -> (r: Self)
        ensures
            r@ == (BuilderView { permissions: strs(permissions@), ..self@ }),
    {
        let mut s = self;
        s.permissions = permissions;
        s
    }

    /// Replaces the idempotent; every other field is kept.
    pub fn idempotent(self, idempotent: bool) -> (r: Self)
        ensures
            r@ == (BuilderView { idempotent: idempotent, ..self@ }),
    {
        let mut s = self;
        s.idempotent = idempotent;
        s
    }

    /// Replaces the deprecation message; every other field is kept.
    pub fn deprecation_message(self, deprecation_message: &str) -> (r: Self)
        ensures
            r@ == (BuilderView { deprecation_message: deprecation_message@, ..self@ }),
    {
        let mut s = self;
        s.deprecation_message = owned(deprecation_message);
        s
    }

    /// Replaces the http method hint; every other field is kept.
    pub fn http_method_hint(self, http_method_hint: &str) -> (r: Self)
        ensures
            r@ == (BuilderView { http_method_hint: http_method_hint@, ..self@ }),
    {
        let mut s = self;
        s.http_method_hint = owned(http_method_hint);
        s
    }

    /// Replaces the examples; every other field is kept.
    pub fn examples(self, examples: Vec<String>) -> (r: Self)
        ensures
            r@ == (BuilderView { examples: strs(examples@), ..self@ }),
    {
        let mut s = self;
        s.examples = examples;
        s
    }

    /// Replaces the auto help enabled; every other field is kept.
    pub fn auto_help_enabled(self, auto_help_enabled: bool) -> (r: Self)
        ensures
            r@ == (BuilderView { auto_help_enabled: auto_help_enabled, ..self@ }),
    {
        let mut s = self;
        s.auto_help_enabled = auto_help_enabled;
        s
    }

    /// Replaces the category; every other field is kept.
    pub fn category(self, category: &str) -> (r: Self)
        ensures
            r@ == (BuilderView { category: category@, ..self@ }),
    {
        let mut s = self;
        s.category = owned(category);
        s
    }

    /// Replaces the short desc; every other field is kept.
    pub fn short_desc(self, short_desc: &str) -> (r: Self)
        ensures
            r@ == (BuilderView { short_desc: short_desc@, ..self@ }),
    {
        let mut s = self;
        s.short_desc = owned(short_desc);
        s
    }

    /// Replaces the hidden from list; every other field is kept.
    pub fn hidden_from_list(self, hidden_from_list: bool) -> (r: Self)
        ensures
            r@ == (BuilderView { hidden_from_list: hidden_from_list, ..self@ }),
    {
        let mut s = self;
        s.hidden_from_list = hidden_from_list;
        s
    }

    /// Replaces the priority; every other field is kept.
    pub fn priority(self, priority: i32) -> (r: Self)
        ensures
            r@ == (BuilderView { priority: priority, ..self@ }),
    {
        let mut s = self;
        s.priority = priority;
        s
    }

    /// Replaces the group; every other field is kept.
    pub fn group(self, group: &str) -> (r: Self)
        ensures
            r@ == (BuilderView { group: group@, ..self@ }),
    {
        let mut s = self;
        s.group = owned(group);
        s
    }

    /// Replaces the show version in help; every other field is kept.
    pub fn show_version_in_help(self, show_version_in_help: bool) -> (r: Self)
        ensures
            r@ == (BuilderView { show_version_in_help: show_version_in_help, ..self@ }),
    {
        let mut s = self;
        s.show_version_in_help = show_version_in_help;
        s
    }
}

impl CommandDefinitionBuilder<IsSet, IsSet, IsSet, IsSet, IsSet, IsSet> {
    /// Finishes a builder whose six core fields are all set.
    pub fn build(self) -> (r: CommandDefinition)
        requires
            self@.name is Some,
            self@.description is Some,
            self@.namespace is Some,
            self@.hint is Some,
            self@.status is Some,
            self@.version is Some,
            is_command_name(self@.name->0),
            self@.version->0.len() > 0,
        ensures
            r@ == finished_command(self@),
    {
        finish(self)
    }
}

impl<Namespace, Hint, Status, Version> CommandDefinitionBuilder<IsSet, IsSet, Namespace, Hint, Status, Version> {
    /// Finishes a builder whose name and description are set; a missing
    /// namespace, hint, status or version takes its default.
    pub fn end(self) -> (r: CommandDefinition)
        requires
            self@.name is Some,
            self@.description is Some,
            is_command_name(self@.name->0),
            self@.version is Some ==> self@.version->0.len() > 0,
        ensures
            r@ == finished_command(self@),
    {
        finish(self)
    }
}

/// The command that a builder finishes into.
fn finish<Name, Description, Namespace, Hint, Status, Version>(
    b: CommandDefinitionBuilder<Name, Description, Namespace, Hint, Status, Version>,
) -> (r: CommandDefinition)
    requires
        b@.name is Some ==> is_command_name(b@.name->0),
        b@.name is None ==> is_command_name(Seq::<char>::empty()),
        b@.version is Some ==> b@.version->0.len() > 0,
    ensures
        r@ == finished_command(b@),
{
    proof {
        reveal_strlit("active");
        reveal_strlit("1.0.0");
    }
    let name_text = match b.name {
        Some(s) => s,
        None => String::new(),
    };
    let description = match b.description {
        Some(s) => s,
        None => String::new(),
    };
    let namespace = match b.namespace {
        Some(s) => s,
        None => String::new(),
    };
    let hint = match b.hint {
        Some(s) => s,
        None => String::new(),
    };
    let status_text = match b.status {
        Some(s) => s,
        None => owned("active"),
    };
    let version_text = match b.version {
        Some(s) => s,
        None => owned("1.0.0"),
    };
    let status = parse_status_from_str(status_text.as_str(), b.deprecation_message.as_str());
    let name = CommandName::new(name_text.as_str()).unwrap();
    let version = VersionType::new(version_text.as_str()).unwrap();
    CommandDefinition {
        name,
        description,
        arguments: b.arguments,
        routine_link: b.routine_link,
        namespace,
        hint,
        status,
        version,
        tags: b.tags,
        aliases: b.aliases,
        permissions: b.permissions,
        idempotent: b.idempotent,
        deprecation_message: b.deprecation_message,
        http_method_hint: b.http_method_hint,
        examples: b.examples,
        auto_help_enabled: b.auto_help_enabled,
        category: b.category,
        short_desc: b.short_desc,
        hidden_from_list: b.hidden_from_list,
        priority: b.priority,
        group: b.group,
        show_version_in_help: b.show_version_in_help,
    }
}

impl CommandDefinition {
    /// A builder with nothing set.
    pub fn former() -> (r: CommandDefinitionBuilder<NotSet, NotSet, NotSet, NotSet, NotSet, NotSet>)
        ensures
            r@ == empty_builder(),
    {
        CommandDefinitionBuilder::new()
    }
}

} // verus!
