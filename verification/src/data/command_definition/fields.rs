//! Reading a command definition from its stored fields: the required name
//! and description, defaults for every absent field, and the normalisation
//! of a compact dotted name into a namespace and a local name.

use vstd::prelude::*;
use crate::data::command_definition::{ CommandDefinition, CommandView };
use crate::data::command_name::{ CommandName, is_command_name };
use crate::data::namespace_type::{ NamespaceType, is_namespace, bad_namespace_message };
use crate::data::version_type::{ VersionType, empty_version_message };
use crate::data::command_status::{ CommandStatus, StatusView, opt_view };
use crate::data::argument::{ ArgumentDefinition, ArgumentView, args_view };
use crate::data::kind::strs;
use crate::data::command_definition::builder::or_default;
use crate::error::Error;
use crate::text::{ owned, chars_of, string_of, contains_char, subvec };

verus! {

broadcast use vstd::string::group_string_axioms;

/// The fields of a stored command definition, each absent or present as
/// read; `routine_link` may be present and null.
#[derive(Debug)]
pub struct CommandFields {
    pub name: Option<String>,
    pub description: Option<String>,
    pub arguments: Option<Vec<ArgumentDefinition>>,
    pub routine_link: Option<Option<String>>,
    pub namespace: Option<String>,
    pub hint: Option<String>,
    pub status: Option<CommandStatus>,
    pub version: Option<String>,
    pub tags: Option<Vec<String>>,
    pub aliases: Option<Vec<String>>,
    pub permissions: Option<Vec<String>>,
    pub idempotent: Option<bool>,
    pub deprecation_message: Option<String>,
    pub http_method_hint: Option<String>,
    pub examples: Option<Vec<String>>,
    pub auto_help_enabled: Option<bool>,
    pub category: Option<String>,
    pub short_desc: Option<String>,
    pub hidden_from_list: Option<bool>,
    pub priority: Option<i32>,
    pub group: Option<String>,
    pub show_version_in_help: Option<bool>,
}

/// The position of the last `.` in `s`, or -1 when there is none.
pub open spec fn last_dot(s: Seq<char>) -> int
    decreases s.len(),
{
    if s.len() == 0 {
        -1
    } else if s.last() == '.' {
        s.len() - 1
    } else {
        last_dot(s.drop_last())
    }
}

/// The local name and the namespace that a stored name and an optional
/// stored namespace stand for, before either is validated.
///
/// A dot-prefixed name with more dots and no namespace field is the compact
/// form: its last segment is the name and the rest the namespace. A bare
/// name with a non-empty namespace gets the dot prefix. Otherwise both are
/// kept as written (an absent namespace is the root).
pub open spec fn split_name(name: Seq<char>, namespace: Option<Seq<char>>) -> (Seq<char>, Seq<char>) {
    let ns = or_default(namespace, Seq::<char>::empty());
    if name.len() > 0 && name[0] == '.' {
        let rest = name.subrange(1, name.len() as int);
        if namespace is None && rest.contains('.') {
            let p = last_dot(rest);
            (seq!['.'] + rest.subrange(p + 1, rest.len() as int), seq!['.'] + rest.subrange(0, p))
        } else {
            (name, ns)
        }
    } else if ns.len() > 0 {
        (seq!['.'] + name, ns)
    } else {
        (name, ns)
    }
}

/// The optional value, or the default when it is absent.
pub open spec fn or_else<T>(o: Option<T>, d: T) -> T {
    match o {
        Some(v) => v,
        None => d,
    }
}

/// The optional strings, or none.
pub open spec fn strs_or_empty(o: Option<Vec<String>>) -> Seq<Seq<char>> {
    match o {
        Some(v) => strs(v@),
        None => Seq::<Seq<char>>::empty(),
    }
}

/// The optional text, or the empty text.
pub open spec fn text_or_empty(o: Option<String>) -> Seq<char> {
    or_default(opt_view(o), Seq::<char>::empty())
}

/// Whether the stored fields make a command definition.
pub open spec fn fields_ok(f: CommandFields) -> bool {
    &&& (f.version matches Some(v) ==> v@.len() > 0)
    &&& f.name is Some
    &&& f.description is Some
    &&& is_command_name(split_name(f.name->0@, opt_view(f.namespace)).0)
    &&& is_namespace(split_name(f.name->0@, opt_view(f.namespace)).1)
}

/// The error with which stored fields are rejected, checked in this order:
/// an empty version, a missing name, a missing description, a name that is
/// not a command name, a namespace without its dot prefix.
pub open spec fn fields_error(f: CommandFields, e: Error) -> bool {
    if f.version matches Some(v) && v@.len() == 0 {
        e matches Error::Registration(m) && m@ == empty_version_message()
    } else if f.name is None {
        e matches Error::MissingField(m) && m@ == "name"@
    } else if f.description is None {
        e matches Error::MissingField(m) && m@ == "description"@
    } else {
        let parts = split_name(f.name->0@, opt_view(f.namespace));
        if !is_command_name(parts.0) {
            if parts.0.len() == 0 {
                e is EmptyCommandName
            } else {
                e matches Error::MissingDotPrefix(m) && m@ == parts.0
            }
        } else {
            e matches Error::Registration(m) && m@ == bad_namespace_message(parts.1)
        }
    }
}

/// The command that accepted stored fields read as.
pub open spec fn fields_command(f: CommandFields) -> CommandView {
    let parts = split_name(f.name->0@, opt_view(f.namespace));
    CommandView {
        name: parts.0,
        description: f.description->0@,
        arguments: match f.arguments {
            Some(a) => args_view(a@),
            None => Seq::<ArgumentView>::empty(),
        },
        routine_link: match f.routine_link {
            Some(l) => opt_view(l),
            None => None,
        },
        namespace: parts.1,
        hint: text_or_empty(f.hint),
        status: match f.status {
            Some(s) => s@,
            None => StatusView::Active,
        },
        version: or_default(opt_view(f.version), "1.0.0"@),
        tags: strs_or_empty(f.tags),
        aliases: strs_or_empty(f.aliases),
        permissions: strs_or_empty(f.permissions),
        idempotent: or_else(f.idempotent, true),
        deprecation_message: text_or_empty(f.deprecation_message),
        http_method_hint: or_default(opt_view(f.http_method_hint), "GET"@),
        examples: strs_or_empty(f.examples),
        auto_help_enabled: or_else(f.auto_help_enabled, true),
        category: text_or_empty(f.category),
        short_desc: text_or_empty(f.short_desc),
        hidden_from_list: or_else(f.hidden_from_list, false),
        priority: or_else(f.priority, 0i32),
        group: text_or_empty(f.group),
        show_version_in_help: or_else(f.show_version_in_help, true),
    }
}

/// The position of the last `.` in `v`, or `None`.
fn last_dot_exec(v: &Vec<char>) -> (r: Option<usize>)
    ensures
        r matches Some(i) ==> i == last_dot(v@) && i < v@.len(),
        r is None ==> last_dot(v@) == -1,
{
    let mut i: usize = v.len();
    assert(v@.subrange(0, i as int) =~= v@);
    while i > 0
        invariant
            i <= v@.len(),
            last_dot(v@) == last_dot(v@.subrange(0, i as int)),
        decreases i,
    {
        assert(v@.subrange(0, i as int).drop_last() =~= v@.subrange(0, i as int - 1));
        if v[i - 1] == '.' {
            return Some(i - 1);
        }
        i = i - 1;
    }
    None
}

/// `last_dot` finds a dot whenever there is one.
proof fn lemma_last_dot(s: Seq<char>)
    ensures
        s.contains('.') ==> 0 <= last_dot(s) < s.len() && s[last_dot(s)] == '.',
        !s.contains('.') ==> last_dot(s) == -1,
    decreases s.len(),
{
    if s.len() > 0 {
        lemma_last_dot(s.drop_last());
        if s.last() != '.' {
            if s.contains('.') {
                let k = choose|k: int| 0 <= k < s.len() && s[k] == '.';
                assert(s.drop_last()[k] == '.');
            }
            if s.drop_last().contains('.') {
                let k = choose|k: int| 0 <= k < s.drop_last().len() && s.drop_last()[k] == '.';
                assert(s[k] == '.');
            }
        }
    }
}

/// The text `.` followed by the given characters.
fn dotted(v: &Vec<char>) -> (r: String)
    ensures
        r@ == seq!['.'] + v@,
{
    let mut out = owned(".");
    proof {
        reveal_strlit(".");
    }
    crate::text::push_chars(&mut out, v);
    out
}

/// Splits a stored name against an optional stored namespace; see `split_name`.
fn split_name_exec(name: &str, namespace: &Option<String>) -> (r: (String, String))
    ensures
        (r.0@, r.1@) == split_name(name@, opt_view(*namespace)),
{
    let n = chars_of(name);
    let ns = match namespace {
        Some(s) => s.clone(),
        None => String::new(),
    };
    let nsv = chars_of(ns.as_str());
    if n.len() > 0 && n[0] == '.' {
        let rest = subvec(&n, 1, n.len());
        let absent = match namespace {
            Some(_) => false,
            None => true,
        };
        if absent && contains_char(&rest, '.') {
            proof {
                lemma_last_dot(rest@);
            }
            let p = last_dot_exec(&rest).unwrap();
            let local = subvec(&rest, p + 1, rest.len());
            let head = subvec(&rest, 0, p);
            return (dotted(&local), dotted(&head));
        }
        (owned(name), ns)
    } else if nsv.len() > 0 {
        (dotted(&n), ns)
    } else {
        (owned(name), ns)
    }
}

/// The optional strings, or an empty vector.
fn strings_or_empty(o: Option<Vec<String>>) -> (r: Vec<String>)
    ensures
        strs(r@) == strs_or_empty(o),
{
    match o {
        Some(v) => v,
        None => {
            let r: Vec<String> = Vec::new();
            assert(strs(r@) =~= Seq::<Seq<char>>::empty());
            r
        },
    }
}

/// The optional text, or an empty string.
fn string_or_empty(o: Option<String>) -> (r: String)
    ensures
        r@ == text_or_empty(o),
{
    match o {
        Some(s) => s,
        None => String::new(),
    }
}

/// `f` stores every field of the command `c`, each present as it is.
pub open spec fn stores_command(f: CommandFields, c: CommandView) -> bool {
    &&& f.name matches Some(n) && n@ == c.name
    &&& f.description matches Some(d) && d@ == c.description
    &&& f.arguments matches Some(a) && args_view(a@) == c.arguments
    &&& f.routine_link matches Some(l) && opt_view(l) == c.routine_link
    &&& f.namespace matches Some(n) && n@ == c.namespace
    &&& f.hint matches Some(h) && h@ == c.hint
    &&& f.status matches Some(s) && s@ == c.status
    &&& f.version matches Some(v) && v@ == c.version
    &&& f.tags matches Some(v) && strs(v@) == c.tags
    &&& f.aliases matches Some(v) && strs(v@) == c.aliases
    &&& f.permissions matches Some(v) && strs(v@) == c.permissions
    &&& f.idempotent == Some(c.idempotent)
    &&& f.deprecation_message matches Some(m) && m@ == c.deprecation_message
    &&& f.http_method_hint matches Some(h) && h@ == c.http_method_hint
    &&& f.examples matches Some(v) && strs(v@) == c.examples
    &&& f.auto_help_enabled == Some(c.auto_help_enabled)
    &&& f.category matches Some(s) && s@ == c.category
    &&& f.short_desc matches Some(s) && s@ == c.short_desc
    &&& f.hidden_from_list == Some(c.hidden_from_list)
    &&& f.priority == Some(c.priority)
    &&& f.group matches Some(s) && s@ == c.group
    &&& f.show_version_in_help == Some(c.show_version_in_help)
}

/// Fields that store every field of a command read back as that command,
/// whenever its name, version and namespace are valid ones.
pub proof fn lemma_fields_roundtrip(f: CommandFields, c: CommandView)
    requires
        stores_command(f, c),
        is_command_name(c.name),
        c.version.len() > 0,
        is_namespace(c.namespace),
    ensures
        fields_ok(f),
        fields_command(f) == c,
{
}

impl CommandDefinition {
    /// The stored fields of this command, every one present; see
    /// `stores_command`. Read back with `from_fields`, they give this command
    /// again whenever its namespace is a valid one.
    pub fn to_fields(&self) -> (r: CommandFields)
        ensures
            stores_command(r, self@),
            is_namespace(self@.namespace) ==> fields_ok(r) && fields_command(r) == self@,
    {
        let c = self.clone();
        let name = c.name.into_inner();
        let version = c.version.into_inner();
        let r = CommandFields {
            name: Some(name),
            description: Some(c.description),
            arguments: Some(c.arguments),
            routine_link: Some(c.routine_link),
            namespace: Some(c.namespace),
            hint: Some(c.hint),
            status: Some(c.status),
            version: Some(version),
            tags: Some(c.tags),
            aliases: Some(c.aliases),
            permissions: Some(c.permissions),
            idempotent: Some(c.idempotent),
            deprecation_message: Some(c.deprecation_message),
            http_method_hint: Some(c.http_method_hint),
            examples: Some(c.examples),
            auto_help_enabled: Some(c.auto_help_enabled),
            category: Some(c.category),
            short_desc: Some(c.short_desc),
            hidden_from_list: Some(c.hidden_from_list),
            priority: Some(c.priority),
            group: Some(c.group),
            show_version_in_help: Some(c.show_version_in_help),
        };
        proof {
            if is_namespace(self@.namespace) {
                lemma_fields_roundtrip(r, self@);
            }
        }
        r
    }
}

impl CommandDefinition {
    /// Reads a command definition from its stored fields.
    ///
    /// The name and the description are required. A compact dotted name such
    /// as `.session.list` with no namespace field becomes name `.list` in
    /// namespace `.session`; a bare name in a non-empty namespace gets its
    /// dot. Absent fields take the defaults of `CommandDefinition::new`.
    pub fn from_fields(f: CommandFields) -> (r: Result<CommandDefinition, Error>)
        ensures
            r is Ok <==> fields_ok(f),
            r matches Ok(c) ==> c@ == fields_command(f),
            r matches Err(e) ==> fields_error(f, e),
    {
        let ghost g = f;
        let version = match &f.version {
            Some(v) => match VersionType::new(v.as_str()) {
                Ok(t) => t,
                Err(e) => {
                    return Err(e);
                },
            },
            None => {
                proof {
                    reveal_strlit("1.0.0");
                }
                VersionType::new("1.0.0").unwrap()
            },
        };
        let name_text = match &f.name {
            Some(n) => n,
            None => {
                return Err(Error::MissingField(owned("name")));
            },
        };
        if f.description.is_none() {
            return Err(Error::MissingField(owned("description")));
        }
        let parts = split_name_exec(name_text.as_str(), &f.namespace);
        let name = match CommandName::new(parts.0.as_str()) {
            Ok(n) => n,
            Err(e) => {
                return Err(e);
            },
        };
        match NamespaceType::new(parts.1.as_str()) {
            Ok(_) => {},
            Err(e) => {
                return Err(e);
            },
        }
        let namespace = parts.1;
        let description = f.description.unwrap();
        let arguments = match f.arguments {
            Some(a) => a,
            None => {
                let a: Vec<ArgumentDefinition> = Vec::new();
                assert(args_view(a@) =~= Seq::<ArgumentView>::empty());
                a
            },
        };
        let routine_link = match f.routine_link {
            Some(l) => l,
            None => None,
        };
        let status = match f.status {
            Some(s) => s,
            None => CommandStatus::Active,
        };
        proof {
            reveal_strlit("GET");
        }
        let http_method_hint = match f.http_method_hint {
            Some(h) => h,
            None => owned("GET"),
        };
        let r = CommandDefinition {
            name,
            description,
            arguments,
            routine_link,
            namespace,
            hint: string_or_empty(f.hint),
            status,
            version,
            tags: strings_or_empty(f.tags),
            aliases: strings_or_empty(f.aliases),
            permissions: strings_or_empty(f.permissions),
            idempotent: match f.idempotent {
                Some(b) => b,
                None => true,
            },
            deprecation_message: string_or_empty(f.deprecation_message),
            http_method_hint,
            examples: strings_or_empty(f.examples),
            auto_help_enabled: match f.auto_help_enabled {
                Some(b) => b,
                None => true,
            },
            category: string_or_empty(f.category),
            short_desc: string_or_empty(f.short_desc),
            hidden_from_list: match f.hidden_from_list {
                Some(b) => b,
                None => false,
            },
            priority: match f.priority {
                Some(p) => p,
                None => 0,
            },
            group: string_or_empty(f.group),
            show_version_in_help: match f.show_version_in_help {
                Some(b) => b,
                None => true,
            },
        };
        Ok(r)
    }
}

} // verus!
