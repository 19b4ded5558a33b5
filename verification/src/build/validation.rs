//! Checks that the build step applies to each command read from a YAML
//! manifest before generating code for it.

use vstd::prelude::*;
use crate::text::{ chars_of, owned, push_str, push_char };

verus! {

broadcast use vstd::string::group_string_axioms;

/// The message for an empty version.
pub open spec fn empty_version_error(name: Seq<char>, file_path: Seq<char>) -> Seq<char> {
    "In file '"@ + file_path + "': Command '"@ + name + "' has empty version. Version string cannot be empty."@
}

/// Checks that a version string is not empty.
pub fn validate_version(version: &str, name: &str, file_path: &str) -> (r: Result<(), String>)
    ensures
        r is Ok <==> version@.len() > 0,
        r matches Err(m) ==> m@ == empty_version_error(name@, file_path@),
{
    let v = chars_of(version);
    if v.len() == 0 {
        let mut m = owned("In file '");
        push_str(&mut m, file_path);
        push_str(&mut m, "': Command '");
        push_str(&mut m, name);
        push_str(&mut m, "' has empty version. Version string cannot be empty.");
        return Err(m);
    }
    Ok(())
}

/// `s` with a leading `.` added when it has none.
pub open spec fn dot_prefixed(s: Seq<char>) -> Seq<char> {
    if s.len() > 0 && s[0] == '.' {
        s
    } else {
        seq!['.'] + s
    }
}

/// The full name that the build step gives a command, as the table keys
/// have it: the name, dotted, when the namespace is empty; otherwise the
/// dotted namespace, `.` and the name without its leading dots.
#[verifier::opaque]
pub open spec fn build_full_name(namespace: Seq<char>, name: Seq<char>) -> Seq<char> {
    if namespace.len() == 0 {
        dot_prefixed(name)
    } else {
        dot_prefixed(namespace) + seq!['.'] + crate::build::codegen::trim_leading_dots(name)
    }
}

/// Appends `s`, with a leading `.` when it has none.
fn push_dotted(out: &mut String, s: &str)
    ensures
        final(out)@ == old(out)@ + dot_prefixed(s@),
{
    let v = chars_of(s);
    if !(v.len() > 0 && v[0] == '.') {
        push_char(out, '.');
    }
    push_str(out, s);
}

/// Computes a command's full name from its namespace and name; see `build_full_name`.
pub fn compute_full_name(namespace: &str, name: &str) -> (r: String)
    ensures
        r@ == build_full_name(namespace@, name@),
{
    let mut out = String::new();
    let ns = chars_of(namespace);
    if ns.len() == 0 {
        push_dotted(&mut out, name);
    } else {
        push_dotted(&mut out, namespace);
        push_char(&mut out, '.');
        let rest = crate::build::codegen::trim_leading_dots_exec(&chars_of(name));
        crate::text::push_chars(&mut out, &rest);
    }
    proof {
        reveal(build_full_name);
    }
    out
}

/// Every full name that the build step computes starts with `.`.
pub proof fn lemma_build_full_name_dotted(namespace: Seq<char>, name: Seq<char>)
    ensures
        build_full_name(namespace, name).len() > 0,
        build_full_name(namespace, name)[0] == '.',
{
    reveal(build_full_name);
}

/// The message for an empty command name.
pub open spec fn empty_name_error(file_path: Seq<char>) -> Seq<char> {
    "In file '"@ + file_path + "': Command name cannot be empty"@
}

/// The message for a full name without the dot prefix.
pub open spec fn undotted_name_error(name: Seq<char>, full_name: Seq<char>, file_path: Seq<char>) -> Seq<char> {
    "In file '"@ + file_path + "': Invalid command '"@ + name + "'. Final full name '"@ + full_name
        + "' must start with dot prefix."@
}

/// Checks one command of a manifest: a non-empty name, a non-empty version
/// and a dotted full name, reporting the first that fails.
pub fn validate_command(name: &str, namespace: &str, version: &str, file_path: &str) -> (r: Result<(), String>)
    ensures
        r is Ok <==> name@.len() > 0 && version@.len() > 0,
        r matches Err(m) ==> (if name@.len() == 0 {
            m@ == empty_name_error(file_path@)
        } else {
            m@ == empty_version_error(name@, file_path@)
        }),
{
    let nv = chars_of(name);
    if nv.len() == 0 {
        let mut m = owned("In file '");
        push_str(&mut m, file_path);
        push_str(&mut m, "': Command name cannot be empty");
        return Err(m);
    }
    validate_version(version, name, file_path)?;
    let full = compute_full_name(namespace, name);
    let fv = chars_of(full.as_str());
    proof {
        lemma_build_full_name_dotted(namespace@, name@);
    }
    if !(fv.len() > 0 && fv[0] == '.') {
        let mut m = owned("In file '");
        push_str(&mut m, file_path);
        push_str(&mut m, "': Invalid command '");
        push_str(&mut m, name);
        push_str(&mut m, "'. Final full name '");
        push_str(&mut m, full.as_str());
        push_str(&mut m, "' must start with dot prefix.");
        return Err(m);
    }
    Ok(())
}

} // verus!
