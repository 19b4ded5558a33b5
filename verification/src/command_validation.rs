//! Validation applied to every command before it is registered: the dot
//! prefix of names and namespaces, storage of repeatable parameters, and
//! help conventions for parameter choices.

use vstd::prelude::*;
use crate::error::Error;
use crate::data::command_definition::{ CommandDefinition, CommandView, full_name_of };
use crate::data::command_name::is_command_name;
use crate::data::namespace_type::{ is_namespace, bad_namespace_message };
use crate::data::argument::{ ArgumentDefinition, ArgumentView, args_view };
use crate::data::kind::{ Kind, KindView, kind_debug };
use crate::data::command_status::lemma_full_name_dotted;
use crate::debug_text::{ strings_debug, push_strings_debug };
use crate::text::{
    chars_of, owned, push_str, push_char, is_ws, is_ws_exec, is_ascii_alnum, trim, trim_exec,
    split_on, split_exec, ends_with, ends_with_exec, subvec, chars_eq_str,
};

verus! {

broadcast use vstd::string::group_string_axioms;

/// The message with which a name without the dot prefix is rejected.
pub open spec fn bad_name_message(name: Seq<char>) -> Seq<char> {
    "Invalid command name '"@ + name
        + "'. All commands must start with dot prefix (e.g., '.chat'). This enforces explicit naming with minimal implicit transformations."@
}

/// Checks that a command name starts with the dot prefix.
pub fn validate_command_name(name: &str) -> (r: Result<(), Error>)
    ensures
        r is Ok <==> is_command_name(name@),
        r matches Err(e) ==> e matches Error::Registration(m) && m@ == bad_name_message(name@),
{
    let v = chars_of(name);
    if v.len() > 0 && v[0] == '.' {
        Ok(())
    } else {
        let mut m = owned("Invalid command name '");
        push_str(&mut m, name);
        push_str(&mut m, "'. All commands must start with dot prefix (e.g., '.chat'). This enforces explicit naming with minimal implicit transformations.");
        Err(Error::Registration(m))
    }
}

/// Checks that a namespace is empty or starts with the dot prefix.
pub fn validate_namespace(namespace: &str) -> (r: Result<(), Error>)
    ensures
        r is Ok <==> is_namespace(namespace@),
        r matches Err(e) ==> e matches Error::Registration(m) && m@ == bad_namespace_message(namespace@),
{
    match crate::data::namespace_type::NamespaceType::new(namespace) {
        Ok(_) => Ok(()),
        Err(e) => Err(e),
    }
}

/// A parameter that accepts several values but is not stored as a list.
pub open spec fn loses_values(a: ArgumentView) -> bool {
    a.multiple && !(a.kind is List)
}

/// The text that follows the kind in the storage-type error.
pub open spec fn storage_advice() -> Seq<char> {
    ". Parameters accepting multiple values must use Kind::List storage to prevent data loss. \n\nWithout List storage, multiple values silently overwrite each other instead of accumulating. \n\nChange to: Kind::List( Box::new( Kind::String ), None ) or similar List variant."@
}

/// The message with which a repeatable parameter not stored as a list is rejected.
pub open spec fn storage_message(a: ArgumentView, command: Seq<char>) -> Seq<char> {
    "Parameter '"@ + a.name + "' in command '"@ + command + "' has multiple:true but storage type is "@
        + kind_debug(a.kind) + storage_advice()
}

/// `i` is the position of the first argument that `loses_values`.
pub open spec fn first_losing(args: Seq<ArgumentView>, i: int) -> bool {
    0 <= i < args.len() && loses_values(args[i]) && forall|j: int| 0 <= j < i ==> !loses_values(#[trigger] args[j])
}

/// Checks that every parameter accepting several values is stored as a list.
pub fn validate_parameter_storage_types(cmd: &CommandDefinition) -> (r: Result<(), Error>)
    ensures
        r is Ok <==> forall|i: int| 0 <= i < cmd@.arguments.len() ==> !loses_values(#[trigger] cmd@.arguments[i]),
        r matches Err(e) ==> exists|i: int| #[trigger] first_losing(cmd@.arguments, i)
            && (e matches Error::Registration(m) && m@ == storage_message(cmd@.arguments[i], cmd@.name)),
{
    let args = cmd.arguments();
    let mut i: usize = 0;
    while i < args.len()
        invariant
            i <= args@.len(),
            args_view(args@) == cmd@.arguments,
            forall|j: int| 0 <= j < i ==> !loses_values(#[trigger] cmd@.arguments[j]),
        decreases args@.len() - i,
    {
        let a = &args[i];
        assert(cmd@.arguments[i as int] == a@);
        if a.attributes.multiple {
            let is_list = match &a.kind {
                Kind::List(_, _) => true,
                _ => false,
            };
            if !is_list {
                let mut m = owned("Parameter '");
                push_str(&mut m, a.name.as_str());
                push_str(&mut m, "' in command '");
                push_str(&mut m, cmd.name().as_str());
                push_str(&mut m, "' has multiple:true but storage type is ");
                push_str(&mut m, a.kind.to_debug_text().as_str());
                push_str(&mut m, ". Parameters accepting multiple values must use Kind::List storage to prevent data loss. \n\nWithout List storage, multiple values silently overwrite each other instead of accumulating. \n\nChange to: Kind::List( Box::new( Kind::String ), None ) or similar List variant.");
                assert(first_losing(cmd@.arguments, i as int));
                return Err(Error::Registration(m));
            }
        }
        i = i + 1;
    }
    Ok(())
}

/// A character that may appear in a bare choice: ASCII letter or digit, `_`, `-`.
pub open spec fn is_choice_char(c: char) -> bool {
    is_ascii_alnum(c) || c == '_' || c == '-'
}

/// A bare choice: one to twenty choice characters.
///
/// Such text is ASCII, so its length in characters is its length in bytes.
pub open spec fn is_bare_choice(s: Seq<char>) -> bool {
    0 < s.len() <= 20 && forall|k: int| 0 <= k < s.len() ==> is_choice_char(#[trigger] s[k])
}

/// `s` splits at `|` into at least `min` bare choices.
pub open spec fn is_choice_list(s: Seq<char>, min: nat) -> bool {
    let segs = split_on(s, '|');
    segs.len() >= min && forall|k: int| 0 <= k < segs.len() ==> is_bare_choice(#[trigger] segs[k])
}

/// `s` without its trailing `.` and `,` characters.
pub open spec fn trim_end_punct(s: Seq<char>) -> Seq<char>
    decreases s.len(),
{
    if s.len() > 0 && (s.last() == '.' || s.last() == ',') {
        trim_end_punct(s.drop_last())
    } else {
        s
    }
}

/// `s[i..j]` is a white-space separated token of `s`.
pub open spec fn is_token(s: Seq<char>, i: int, j: int) -> bool {
    &&& 0 <= i < j <= s.len()
    &&& (i == 0 || is_ws(s[i - 1]))
    &&& (j == s.len() || is_ws(s[j]))
    &&& forall|k: int| i <= k < j ==> !is_ws(#[trigger] s[k])
}

/// A description that reads like an enumeration of choices: the whole
/// (trimmed) text is `a|b` or longer, or one of its words is `a|b|c` or longer.
pub open spec fn is_choice_description(text: Seq<char>) -> bool {
    let t = trim_end_punct(trim(text));
    is_choice_list(t, 2) || exists|i: int, j: int|
        is_token(t, i, j) && is_choice_list(trim_end_punct(#[trigger] t.subrange(i, j)), 3)
}

fn is_bare_choice_exec(s: &Vec<char>) -> (r: bool)
    ensures
        r == is_bare_choice(s@),
{
    if s.len() == 0 || s.len() > 20 {
        return false;
    }
    let mut k: usize = 0;
    while k < s.len()
        invariant
            k <= s@.len(),
            forall|m: int| 0 <= m < k ==> is_choice_char(#[trigger] s@[m]),
        decreases s@.len() - k,
    {
        let c = s[k];
        let ok = ('a' <= c && c <= 'z') || ('A' <= c && c <= 'Z') || ('0' <= c && c <= '9') || c == '_' || c == '-';
        if !ok {
            return false;
        }
        k = k + 1;
    }
    true
}

fn is_choice_list_exec(s: &Vec<char>, min: usize) -> (r: bool)
    ensures
        r == is_choice_list(s@, min as nat),
{
    let segs = split_exec(s, '|');
    let ghost sv = segs@.map_values(|v: Vec<char>| v@);
    if segs.len() < min {
        return false;
    }
    let mut k: usize = 0;
    while k < segs.len()
        invariant
            k <= segs@.len(),
            sv == split_on(s@, '|'),
            sv == segs@.map_values(|v: Vec<char>| v@),
            sv.len() == segs@.len(),
            forall|m: int| 0 <= m < k ==> is_bare_choice(#[trigger] sv[m]),
        decreases segs@.len() - k,
    {
        assert(sv[k as int] == segs@[k as int]@);
        if !is_bare_choice_exec(&segs[k]) {
            return false;
        }
        k = k + 1;
    }
    true
}

fn trim_end_punct_exec(s: &Vec<char>) -> (r: Vec<char>)
    ensures
        r@ == trim_end_punct(s@),
{
    let mut j: usize = s.len();
    assert(s@.subrange(0, j as int) =~= s@);
    while j > 0 && (s[j - 1] == '.' || s[j - 1] == ',')
        invariant
            j <= s@.len(),
            trim_end_punct(s@) == trim_end_punct(s@.subrange(0, j as int)),
        decreases j,
    {
        assert(s@.subrange(0, j as int).drop_last() =~= s@.subrange(0, j as int - 1));
        j = j - 1;
    }
    subvec(s, 0, j)
}

/// Tells whether a description reads like an enumeration of choices.
pub fn looks_like_choice_list(text: &str) -> (r: bool)
    ensures
        r == is_choice_description(text@),
{
    let tv = chars_of(text);
    let trimmed = trim_exec(&tv);
    let t = trim_end_punct_exec(&trimmed);
    if is_choice_list_exec(&t, 2) {
        return true;
    }
    let ghost ts = t@;
    let mut start: Option<usize> = None;
    let mut k: usize = 0;
    while k < t.len()
        invariant
            k <= ts.len(),
            ts == t@,
            ts == trim_end_punct(trim(text@)),
            start matches Some(s) ==> s < k && (s == 0 || is_ws(ts[s - 1]))
                && forall|m: int| s <= m < k ==> !is_ws(#[trigger] ts[m]),
            start is None ==> k == 0 || is_ws(ts[k - 1]),
            forall|i: int, j: int| #![trigger ts.subrange(i, j)] j < k && is_token(ts, i, j)
                ==> !is_choice_list(trim_end_punct(ts.subrange(i, j)), 3),
        decreases ts.len() - k,
    {
        if is_ws_exec(t[k]) {
            match start {
                Some(s) => {
                    let tok = subvec(&t, s, k);
                    let tt = trim_end_punct_exec(&tok);
                    if is_choice_list_exec(&tt, 3) {
                        assert(is_token(ts, s as int, k as int));
                        assert(is_choice_list(trim_end_punct(ts.subrange(s as int, k as int)), 3));
                        return true;
                    }
                    assert forall|i: int, j: int| #![trigger ts.subrange(i, j)] j < k + 1 && is_token(ts, i, j)
                        implies !is_choice_list(trim_end_punct(ts.subrange(i, j)), 3) by {
                        if j == k {
                            if i < s {
                                assert(!is_ws(ts[s - 1]));
                            } else if i > s {
                                assert(!is_ws(ts[i - 1]));
                            }
                        }
                    }
                },
                None => {
                    assert forall|i: int, j: int| #![trigger ts.subrange(i, j)] j < k + 1 && is_token(ts, i, j)
                        implies !is_choice_list(trim_end_punct(ts.subrange(i, j)), 3) by {
                        if j == k {
                            assert(!is_ws(ts[j - 1]));
                        }
                    }
                },
            }
            start = None;
        } else {
            assert forall|i: int, j: int| #![trigger ts.subrange(i, j)] j < k + 1 && is_token(ts, i, j)
                implies !is_choice_list(trim_end_punct(ts.subrange(i, j)), 3) by {
                if j == k {
                    assert(!is_ws(ts[k as int]));
                }
            }
            if start.is_none() {
                start = Some(k);
            }
        }
        k = k + 1;
    }
    match start {
        Some(s) => {
            let tok = subvec(&t, s, t.len());
            let tt = trim_end_punct_exec(&tok);
            if is_choice_list_exec(&tt, 3) {
                assert(is_token(ts, s as int, ts.len() as int));
                assert(is_choice_list(trim_end_punct(ts.subrange(s as int, ts.len() as int)), 3));
                return true;
            }
            assert forall|i: int, j: int| is_token(ts, i, j)
                implies !is_choice_list(trim_end_punct(#[trigger] ts.subrange(i, j)), 3) by {
                if j == ts.len() {
                    if i < s {
                        assert(!is_ws(ts[s - 1]));
                    } else if i > s {
                        assert(!is_ws(ts[i - 1]));
                    }
                }
            }
        },
        None => {
            assert forall|i: int, j: int| is_token(ts, i, j)
                implies !is_choice_list(trim_end_punct(#[trigger] ts.subrange(i, j)), 3) by {
                if j == ts.len() {
                    assert(!is_ws(ts[j - 1]));
                }
            }
        },
    }
    false
}

/// An enum parameter whose default is not among its choices.
pub open spec fn bad_enum_default(a: ArgumentView) -> bool {
    a.kind matches KindView::Enum(choices) && a.default matches Some(d) && !choices.contains(d)
}

/// `i` is the position of the first argument with a `bad_enum_default`.
pub open spec fn first_bad_default(args: Seq<ArgumentView>, i: int) -> bool {
    0 <= i < args.len() && bad_enum_default(args[i])
        && forall|j: int| 0 <= j < i ==> !bad_enum_default(#[trigger] args[j])
}

/// The message with which an enum default outside its choices is rejected.
pub open spec fn bad_default_message(a: ArgumentView, full_name: Seq<char>) -> Seq<char> {
    "Parameter '"@ + a.name + "' in command '"@ + full_name + "' declares default '"@ + a.default->0
        + "' which is not among its enum choices "@ + strings_debug(a.kind->Enum_0)
        + ". The default could never pass coercion. Add it to the choices or change the default."@
}

/// A string parameter whose description reads like a choice list.
pub open spec fn should_be_enum(a: ArgumentView) -> bool {
    a.kind is String && is_choice_description(a.description)
}

/// The warning for a string parameter whose description reads like a choice list.
pub open spec fn enum_warning(a: ArgumentView, full_name: Seq<char>) -> Seq<char> {
    "Parameter '"@ + a.name + "' in command '"@ + full_name
        + "' is Kind::String but its description looks like a choice list ('"@ + a.description
        + "'). Declare it as Kind::Enum so '"@ + full_name + " "@ + a.name
        + "::??' help can list the choices and invalid values are rejected."@
}

/// The warnings for the given arguments, in order.
pub open spec fn help_warnings(args: Seq<ArgumentView>, full_name: Seq<char>) -> Seq<Seq<char>>
    decreases args.len(),
{
    if args.len() == 0 {
        Seq::<Seq<char>>::empty()
    } else {
        let rest = help_warnings(args.drop_last(), full_name);
        if should_be_enum(args.last()) {
            rest.push(enum_warning(args.last(), full_name))
        } else {
            rest
        }
    }
}

/// Checks the help conventions of a command's parameters.
///
/// An enum parameter whose default is not among its choices is an error
/// (the first one found is reported). A string parameter whose description
/// reads like a choice list yields a warning; the warnings are returned.
pub fn validate_help_conventions(cmd: &CommandDefinition) -> (r: Result<Vec<String>, Error>)
    ensures
        r is Ok <==> forall|i: int| 0 <= i < cmd@.arguments.len() ==> !bad_enum_default(#[trigger] cmd@.arguments[i]),
        r matches Ok(w) ==> w@.map_values(|s: String| s@) == help_warnings(cmd@.arguments, full_name_of(cmd@)),
        r matches Err(e) ==> exists|i: int| #[trigger] first_bad_default(cmd@.arguments, i)
            && (e matches Error::Registration(m) && m@ == bad_default_message(cmd@.arguments[i], full_name_of(cmd@))),
{
    let args = cmd.arguments();
    let full = cmd.full_name();
    let mut warnings: Vec<String> = Vec::new();
    let mut i: usize = 0;
    while i < args.len()
        invariant
            i <= args@.len(),
            args_view(args@) == cmd@.arguments,
            full@ == full_name_of(cmd@),
            forall|j: int| 0 <= j < i ==> !bad_enum_default(#[trigger] cmd@.arguments[j]),
            warnings@.map_values(|s: String| s@) == help_warnings(cmd@.arguments.take(i as int), full@),
        decreases args@.len() - i,
    {
        let a = &args[i];
        assert(cmd@.arguments[i as int] == a@);
        assert(cmd@.arguments.take(i as int + 1).drop_last() =~= cmd@.arguments.take(i as int));
        match &a.kind {
            Kind::Enum(choices) => {
                match &a.attributes.default {
                    Some(d) => {
                        let mut found = false;
                        let mut k: usize = 0;
                        while k < choices.len()
                            invariant
                                k <= choices@.len(),
                                found <==> exists|m: int| 0 <= m < k && #[trigger] choices@[m]@ == d@,
                            decreases choices@.len() - k,
                        {
                            if crate::text::str_eq(choices[k].as_str(), d.as_str()) {
                                found = true;
                            }
                            k = k + 1;
                        }
                        proof {
                            let cv = choices@.map_values(|s: String| s@);
                            if found {
                                let m = choose|m: int| 0 <= m < choices@.len() && #[trigger] choices@[m]@ == d@;
                                assert(cv[m] == d@);
                            } else {
                                assert forall|m: int| 0 <= m < cv.len() implies cv[m] != d@ by {
                                    assert(choices@[m]@ == cv[m]);
                                }
                            }
                        }
                        if !found {
                            let mut m = owned("Parameter '");
                            push_str(&mut m, a.name.as_str());
                            push_str(&mut m, "' in command '");
                            push_str(&mut m, full.as_str());
                            push_str(&mut m, "' declares default '");
                            push_str(&mut m, d.as_str());
                            push_str(&mut m, "' which is not among its enum choices ");
                            push_strings_debug(&mut m, choices);
                            push_str(&mut m, ". The default could never pass coercion. Add it to the choices or change the default.");
                            assert(first_bad_default(cmd@.arguments, i as int));
                            return Err(Error::Registration(m));
                        }
                    },
                    None => {},
                }
            },
            _ => {},
        }
        let is_string = match &a.kind {
            Kind::String => true,
            _ => false,
        };
        if is_string && looks_like_choice_list(a.description.as_str()) {
            let mut m = owned("Parameter '");
            push_str(&mut m, a.name.as_str());
            push_str(&mut m, "' in command '");
            push_str(&mut m, full.as_str());
            push_str(&mut m, "' is Kind::String but its description looks like a choice list ('");
            push_str(&mut m, a.description.as_str());
            push_str(&mut m, "'). Declare it as Kind::Enum so '");
            push_str(&mut m, full.as_str());
            push_str(&mut m, " ");
            push_str(&mut m, a.name.as_str());
            push_str(&mut m, "::??' help can list the choices and invalid values are rejected.");
            let ghost before = warnings@.map_values(|s: String| s@);
            warnings.push(m);
            assert(warnings@.map_values(|s: String| s@) =~= before.push(m@));
        }
        i = i + 1;
    }
    assert(cmd@.arguments.take(args@.len() as int) =~= cmd@.arguments);
    Ok(warnings)
}

/// The message with which a full name without the dot prefix is rejected.
pub open spec fn bad_full_name_message(full_name: Seq<char>) -> Seq<char> {
    bad_name_message(full_name)
}

/// Runs every registration check on a command: its full name, its
/// namespace, the storage of repeatable parameters and the help
/// conventions. On success the help-convention warnings are returned for
/// the caller to report.
pub fn validate_command_for_registration(cmd: &CommandDefinition) -> (r: Result<Vec<String>, Error>)
    ensures
        r is Ok <==> is_namespace(cmd@.namespace)
            && (forall|i: int| 0 <= i < cmd@.arguments.len() ==> !loses_values(#[trigger] cmd@.arguments[i]))
            && (forall|i: int| 0 <= i < cmd@.arguments.len() ==> !bad_enum_default(#[trigger] cmd@.arguments[i])),
        r matches Ok(w) ==> w@.map_values(|s: String| s@) == help_warnings(cmd@.arguments, full_name_of(cmd@)),
        r matches Err(e) ==> (if !is_namespace(cmd@.namespace) {
            e matches Error::Registration(m) && m@ == bad_namespace_message(cmd@.namespace)
        } else if exists|i: int| 0 <= i < cmd@.arguments.len() && loses_values(#[trigger] cmd@.arguments[i]) {
            exists|i: int| #[trigger] first_losing(cmd@.arguments, i)
                && (e matches Error::Registration(m) && m@ == storage_message(cmd@.arguments[i], cmd@.name))
        } else {
            exists|i: int| #[trigger] first_bad_default(cmd@.arguments, i)
                && (e matches Error::Registration(m) && m@ == bad_default_message(cmd@.arguments[i], full_name_of(cmd@)))
        }),
{
    let full = cmd.full_name();
    proof {
        lemma_full_name_dotted(cmd@.namespace, cmd@.name);
    }
    let fv = chars_of(full.as_str());
    if !(fv.len() > 0 && fv[0] == '.') {
        let mut m = owned("Invalid command name '");
        push_str(&mut m, full.as_str());
        push_str(&mut m, "'. All commands must start with dot prefix (e.g., '.chat'). This enforces explicit naming with minimal implicit transformations.");
        return Err(Error::Registration(m));
    }
    validate_namespace(cmd.namespace())?;
    validate_parameter_storage_types(cmd)?;
    validate_help_conventions(cmd)
}

/// Whether a full command name names a help command: it ends in `.help`.
pub fn is_help_command(full_name: &str) -> (r: bool)
    ensures
        r == ends_with(full_name@, ".help"@),
{
    let v = chars_of(full_name);
    let suffix = chars_of(".help");
    ends_with_exec(&v, &suffix)
}

/// The name of the help command of a command: its full name followed by `.help`.
pub fn make_help_command_name(full_name: &str) -> (r: String)
    ensures
        r@ == full_name@ + ".help"@,
{
    let mut s = owned(full_name);
    push_str(&mut s, ".help");
    s
}

/// Every name made by `make_help_command_name` is a help command name.
pub proof fn lemma_help_name_is_help(full_name: Seq<char>)
    ensures
        ends_with(full_name + ".help"@, ".help"@),
{
    reveal_strlit(".help");
    let s = full_name + ".help"@;
    assert(s.subrange(s.len() - 5, s.len() as int) =~= ".help"@);
}

} // verus!
