//! Commands as read from a YAML or JSON manifest by the build step: each
//! field absent or present, as the document gives it.

use vstd::prelude::*;

verus! {

/// A list-valued field: absent (or not a list), or its items, each a
/// string or something else.
#[derive(Debug)]
pub enum TextList {
    /// The field is absent or not a list.
    Missing,
    /// The items; `None` for an item that is not a string.
    Items(Vec<Option<String>>),
}

/// The `kind` field of a manifest argument.
#[derive(Debug)]
pub enum KindField {
    /// A kind written as a name, such as `Integer` or `List(String)`.
    Name(String),
    /// A kind written as a mapping; holds its first key when that is a string.
    Mapping(Option<String>),
    /// Absent, or another form.
    Other,
}

/// An argument of a manifest command.
#[derive(Debug)]
pub struct ManifestArgument {
    pub name: Option<String>,
    pub description: Option<String>,
    pub hint: Option<String>,
    pub kind: KindField,
    /// The kind field as the document shows it, for messages.
    pub kind_debug: String,
    /// Whether the argument lists at least one validation rule.
    pub has_validation_rules: bool,
    pub aliases: TextList,
    pub tags: TextList,
    /// `attributes.optional`.
    pub optional: Option<bool>,
    /// `attributes.multiple`.
    pub multiple: Option<bool>,
    /// `attributes.default`, when it is a string.
    pub default: Option<String>,
    /// `attributes.sensitive`.
    pub sensitive: Option<bool>,
    /// `attributes.interactive`.
    pub interactive: Option<bool>,
    /// `default` at the argument's top level, when it is a string.
    pub plain_default: Option<String>,
    /// `attributes.suppress_type_hint`.
    pub suppress_type_hint: Option<bool>,
}

/// A command of a manifest.
#[derive(Debug)]
pub struct ManifestCommand {
    pub name: Option<String>,
    pub namespace: Option<String>,
    pub description: Option<String>,
    pub hint: Option<String>,
    pub status: Option<String>,
    pub version: Option<String>,
    pub idempotent: Option<bool>,
    pub deprecation_message: Option<String>,
    pub http_method_hint: Option<String>,
    pub auto_help_enabled: Option<bool>,
    pub category: Option<String>,
    pub show_version_in_help: Option<bool>,
    /// The arguments, when the field is a list.
    pub arguments: Option<Vec<ManifestArgument>>,
    pub aliases: TextList,
    pub tags: TextList,
    pub permissions: TextList,
    pub examples: TextList,
}

/// The text of an optional field, or the default.
pub open spec fn text_or(o: Option<String>, d: Seq<char>) -> Seq<char> {
    match o {
        Some(s) => s@,
        None => d,
    }
}

/// The flag of an optional field, or the default.
pub open spec fn flag_or(o: Option<bool>, d: bool) -> bool {
    match o {
        Some(b) => b,
        None => d,
    }
}

/// The text of an optional field, or the given literal.
pub fn text_or_exec<'a>(o: &'a Option<String>, d: &'a str) -> (r: &'a str)
    ensures
        r@ == text_or(*o, d@),
{
    match o {
        Some(s) => s.as_str(),
        None => d,
    }
}

/// The flag of an optional field, or the default.
pub fn flag_or_exec(o: Option<bool>, d: bool) -> (r: bool)
    ensures
        r == flag_or(o, d),
{
    match o {
        Some(b) => b,
        None => d,
    }
}

} // verus!
