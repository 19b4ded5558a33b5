//! Argument definitions: name, kind, attributes and metadata of one parameter.

use vstd::prelude::*;
use crate::data::kind::{ Kind, KindView, clone_strings, strs };
use crate::data::command_status::{ clone_opt_string, opt_view };

verus! {

/// Behavioural attributes of an argument.
#[derive(Debug)]
pub struct ArgumentAttributes {
    /// The argument may be omitted.
    pub optional: bool,
    /// The argument may be given several times.
    pub multiple: bool,
    /// Value used when the argument is omitted.
    pub default: Option<String>,
    /// The value must not be logged or echoed.
    pub sensitive: bool,
    /// The value may be asked for interactively.
    pub interactive: bool,
}

/// The mathematical value of an argument definition.
pub struct ArgumentView {
    pub name: Seq<char>,
    pub description: Seq<char>,
    pub kind: KindView,
    pub hint: Seq<char>,
    pub optional: bool,
    pub multiple: bool,
    pub default: Option<Seq<char>>,
    pub sensitive: bool,
    pub interactive: bool,
    pub validation_rules: Seq<Seq<char>>,
    pub aliases: Seq<Seq<char>>,
    pub tags: Seq<Seq<char>>,
}

/// Definition of one command argument.
#[derive(Debug)]
pub struct ArgumentDefinition {
    /// Canonical name, used as `name::value`.
    pub name: String,
    /// Description shown in help.
    pub description: String,
    /// Data type.
    pub kind: Kind,
    /// Short hint shown in help.
    pub hint: String,
    /// Behavioural attributes.
    pub attributes: ArgumentAttributes,
    /// Validation rules, each in its rendered form.
    pub validation_rules: Vec<String>,
    /// Alternative names.
    pub aliases: Vec<String>,
    /// Free-form tags.
    pub tags: Vec<String>,
}

impl View for ArgumentDefinition {
    type V = ArgumentView;

    open spec fn view(&self) -> ArgumentView {
        ArgumentView {
            name: self.name@,
            description: self.description@,
            kind: self.kind@,
            hint: self.hint@,
            optional: self.attributes.optional,
            multiple: self.attributes.multiple,
            default: opt_view(self.attributes.default),
            sensitive: self.attributes.sensitive,
            interactive: self.attributes.interactive,
            validation_rules: strs(self.validation_rules@),
            aliases: strs(self.aliases@),
            tags: strs(self.tags@),
        }
    }
}

/// The values of a list of argument definitions.
pub open spec fn args_view(s: Seq<ArgumentDefinition>) -> Seq<ArgumentView> {
    s.map_values(|a: ArgumentDefinition| a@)
}

impl Default for ArgumentAttributes {
    fn default() -> (r: Self)
        ensures
            !r.optional && !r.multiple && r.default is None && !r.sensitive && !r.interactive,
    {
        ArgumentAttributes { optional: false, multiple: false, default: None, sensitive: false, interactive: false }
    }
}

impl Clone for ArgumentAttributes {
    fn clone(&self) -> (r: Self)
        ensures
            r == *self,
    {
        ArgumentAttributes {
            optional: self.optional,
            multiple: self.multiple,
            default: clone_opt_string(&self.default),
            sensitive: self.sensitive,
            interactive: self.interactive,
        }
    }
}

impl Clone for ArgumentDefinition {
    fn clone(&self) -> (r: Self)
        ensures
            r@ == self@,
    {
        ArgumentDefinition {
            name: self.name.clone(),
            description: self.description.clone(),
            kind: self.kind.clone(),
            hint: self.hint.clone(),
            attributes: self.attributes.clone(),
            validation_rules: clone_strings(&self.validation_rules),
            aliases: clone_strings(&self.aliases),
            tags: clone_strings(&self.tags),
        }
    }
}

/// A copy of a list of argument definitions.
pub fn clone_args(v: &Vec<ArgumentDefinition>) -> (r: Vec<ArgumentDefinition>)
    ensures
        args_view(r@) == args_view(v@),
{
    let mut r: Vec<ArgumentDefinition> = Vec::new();
    let mut i: usize = 0;
    while i < v.len()
        invariant
            i <= v@.len(),
            args_view(r@) == args_view(v@).take(i as int),
        decreases v@.len() - i,
    {
        let a = v[i].clone();
        let ghost before = r@;
        let ghost av = a@;
        r.push(a);
        assert(args_view(r@) =~= args_view(before).push(av));
        i = i + 1;
        assert(args_view(r@) =~= args_view(v@).take(i as int));
    }
    assert(args_view(v@).take(v@.len() as int) =~= args_view(v@));
    r
}

impl ArgumentDefinition {
    /// A required argument of the given name and kind, with empty metadata.
    pub fn new(name: &str, kind: Kind) -> (r: Self)
        ensures
            r@.name == name@,
            r@.kind == kind@,
            r@.description.len() == 0,
            r@.hint.len() == 0,
            !r@.optional && !r@.multiple && r@.default is None && !r@.sensitive && !r@.interactive,
            r@.validation_rules.len() == 0,
            r@.aliases.len() == 0,
            r@.tags.len() == 0,
    {
        ArgumentDefinition {
            name: crate::text::owned(name),
            description: String::new(),
            kind,
            hint: String::new(),
            attributes: ArgumentAttributes::default(),
            validation_rules: Vec::new(),
            aliases: Vec::new(),
            tags: Vec::new(),
        }
    }

    /// Marks the argument optional, with the given default value.
    pub fn with_optional(self, default: Option<&str>) -> (r: Self)
        ensures
            r@ == (ArgumentView {
                optional: true,
                default: match default {
                    Some(d) => Some(d@),
                    None => None,
                },
                ..self@
            }),
    {
        let d = match default {
            Some(s) => Some(crate::text::owned(s)),
            None => None,
        };
        let attributes = ArgumentAttributes { optional: true, default: d, ..self.attributes };
        ArgumentDefinition { attributes, ..self }
    }
}

} // verus!
