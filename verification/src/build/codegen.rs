//! Generation of the Rust source of the static command table: one constant
//! per command and argument, and a perfect-hash map from full names to them.

use vstd::prelude::*;
use crate::build::manifest::{
    TextList, KindField, ManifestArgument, ManifestCommand, text_or, flag_or, text_or_exec, flag_or_exec,
};
use crate::text::{ owned, push_str, push_char, push_escaped, escape_quotes, dec_text, push_decimal, chars_of, chars_eq_str };
use crate::data::kind::{ KindView, kind_text, is_plain_kind };

verus! {

broadcast use vstd::string::group_string_axioms;

/// `true` or `false`.
pub open spec fn bool_text(b: bool) -> Seq<char> {
    if b { "true"@ } else { "false"@ }
}

fn push_bool(out: &mut String, b: bool)
    ensures
        final(out)@ == old(out)@ + bool_text(b),
{
    if b {
        push_str(out, "true");
    } else {
        push_str(out, "false");
    }
}

/// The quoted items of a string list, one per line; non-string items are skipped.
pub open spec fn items_text(v: Seq<Option<String>>) -> Seq<char>
    decreases v.len(),
{
    if v.len() == 0 {
        Seq::<char>::empty()
    } else {
        items_text(v.drop_last()) + match v.last() {
            Some(s) => "  \""@ + escape_quotes(s@) + "\","@ + "\n"@,
            None => Seq::<char>::empty(),
        }
    }
}

/// The constant declaring a string list.
pub open spec fn string_array_text(name: Seq<char>, l: TextList) -> Seq<char> {
    match l {
        TextList::Items(v) => if v@.len() == 0 {
            "const "@ + name + ": &[&str] = &[];"@ + "\n"@
        } else {
            "const "@ + name + ": &[&str] = &["@ + "\n"@ + items_text(v@) + "];"@ + "\n"@
        },
        TextList::Missing => "const "@ + name + ": &[&str] = &[];"@ + "\n"@,
    }
}

/// Appends the constant declaring a string list.
pub fn generate_string_array(out: &mut String, name: &str, l: &TextList)
    ensures
        final(out)@ == old(out)@ + string_array_text(name@, *l),
{
    match l {
        TextList::Items(v) => {
            if v.len() == 0 {
                push_str(out, "const ");
                push_str(out, name);
                push_str(out, ": &[&str] = &[];");
                push_str(out, "\n");
            } else {
                push_str(out, "const ");
                push_str(out, name);
                push_str(out, ": &[&str] = &[");
                push_str(out, "\n");
                let ghost start = out@;
                let mut i: usize = 0;
                assert(v@.take(0) =~= Seq::<Option<String>>::empty());
                while i < v.len()
                    invariant
                        i <= v@.len(),
                        out@ == start + items_text(v@.take(i as int)),
                    decreases v@.len() - i,
                {
                    assert(v@.take(i as int + 1).drop_last() =~= v@.take(i as int));
                    match &v[i] {
                        Some(s) => {
                            push_str(out, "  \"");
                            push_escaped(out, s.as_str());
                            push_str(out, "\",");
                            push_str(out, "\n");
                        },
                        None => {},
                    }
                    i = i + 1;
                    assert(out@ =~= start + items_text(v@.take(i as int)));
                }
                assert(v@.take(v@.len() as int) =~= v@);
                push_str(out, "];");
                push_str(out, "\n");
            }
        },
        TextList::Missing => {
            push_str(out, "const ");
            push_str(out, name);
            push_str(out, ": &[&str] = &[];");
            push_str(out, "\n");
        },
    }
    assert(out@ =~= old(out)@ + string_array_text(name@, *l));
}

/// The name of the `j`-th argument constant of the `i`-th command.
pub open spec fn arg_prefix(i: nat, j: nat) -> Seq<char> {
    "CMD_"@ + dec_text(i) + "_ARG_"@ + dec_text(j)
}

/// The static kind written for a kind name; unknown names are strings.
pub open spec fn static_kind_text(k: Seq<char>) -> Seq<char> {
    if k == "Integer"@ { "StaticKind::Integer"@ }
    else if k == "Float"@ { "StaticKind::Float"@ }
    else if k == "Boolean"@ { "StaticKind::Boolean"@ }
    else if k == "Path"@ { "StaticKind::Path"@ }
    else if k == "File"@ { "StaticKind::File"@ }
    else if k == "Directory"@ { "StaticKind::Directory"@ }
    else if k == "Url"@ { "StaticKind::Url"@ }
    else if k == "DateTime"@ { "StaticKind::DateTime"@ }
    else if k == "Pattern"@ { "StaticKind::Pattern"@ }
    else if k == "JsonString"@ { "StaticKind::JsonString"@ }
    else if k == "Object"@ { "StaticKind::Object"@ }
    else { "StaticKind::String"@ }
}

/// The static kind written for the name of a plain kind is the variant of
/// that name, `StaticKind::` followed by the name; a name that is no plain
/// kind's is written as `StaticKind::String`.
pub proof fn lemma_static_kind_names(k: KindView, name: Seq<char>)
    ensures
        is_plain_kind(k) ==> static_kind_text(kind_text(k)) == "StaticKind::"@ + kind_text(k),
        (forall|p: KindView| is_plain_kind(p) ==> kind_text(p) != name) ==> static_kind_text(name) == "StaticKind::String"@,
{
    reveal_strlit("String");
    reveal_strlit("Integer");
    reveal_strlit("Float");
    reveal_strlit("Boolean");
    reveal_strlit("Path");
    reveal_strlit("File");
    reveal_strlit("Directory");
    reveal_strlit("Url");
    reveal_strlit("DateTime");
    reveal_strlit("Pattern");
    reveal_strlit("JsonString");
    reveal_strlit("Object");
    reveal_strlit("StaticKind::");
    reveal_strlit("StaticKind::String");
    reveal_strlit("StaticKind::Integer");
    reveal_strlit("StaticKind::Float");
    reveal_strlit("StaticKind::Boolean");
    reveal_strlit("StaticKind::Path");
    reveal_strlit("StaticKind::File");
    reveal_strlit("StaticKind::Directory");
    reveal_strlit("StaticKind::Url");
    reveal_strlit("StaticKind::DateTime");
    reveal_strlit("StaticKind::Pattern");
    reveal_strlit("StaticKind::JsonString");
    reveal_strlit("StaticKind::Object");
    if is_plain_kind(k) {
        assert(static_kind_text(kind_text(k)) =~= "StaticKind::"@ + kind_text(k));
    }
    if forall|p: KindView| is_plain_kind(p) ==> kind_text(p) != name {
        assert(kind_text(KindView::Integer) != name);
        assert(kind_text(KindView::Float) != name);
        assert(kind_text(KindView::Boolean) != name);
        assert(kind_text(KindView::Path) != name);
        assert(kind_text(KindView::File) != name);
        assert(kind_text(KindView::Directory) != name);
        assert(kind_text(KindView::Url) != name);
        assert(kind_text(KindView::DateTime) != name);
        assert(kind_text(KindView::Pattern) != name);
        assert(kind_text(KindView::JsonString) != name);
        assert(kind_text(KindView::Object) != name);
    }
}

fn static_kind_exec(k: &str) -> (r: &'static str)
    ensures
        r@ == static_kind_text(k@),
{
    let v = chars_of(k);
    if chars_eq_str(&v, "Integer") { "StaticKind::Integer" }
    else if chars_eq_str(&v, "Float") { "StaticKind::Float" }
    else if chars_eq_str(&v, "Boolean") { "StaticKind::Boolean" }
    else if chars_eq_str(&v, "Path") { "StaticKind::Path" }
    else if chars_eq_str(&v, "File") { "StaticKind::File" }
    else if chars_eq_str(&v, "Directory") { "StaticKind::Directory" }
    else if chars_eq_str(&v, "Url") { "StaticKind::Url" }
    else if chars_eq_str(&v, "DateTime") { "StaticKind::DateTime" }
    else if chars_eq_str(&v, "Pattern") { "StaticKind::Pattern" }
    else if chars_eq_str(&v, "JsonString") { "StaticKind::JsonString" }
    else if chars_eq_str(&v, "Object") { "StaticKind::Object" }
    else { "StaticKind::String" }
}

/// The kind name of an argument: its name when written as one, else `String`.
pub open spec fn kind_name(k: KindField) -> Seq<char> {
    match k {
        KindField::Name(s) => s@,
        _ => "String"@,
    }
}

/// A line `  <field>: <value>,`.
pub open spec fn field_line(field: Seq<char>, value: Seq<char>) -> Seq<char> {
    "  "@ + field + ": "@ + value + ","@ + "\n"@
}

/// A line `  <field>: "<escaped value>",`.
pub open spec fn quoted_line(field: Seq<char>, value: Seq<char>) -> Seq<char> {
    field_line(field, "\""@ + escape_quotes(value) + "\""@)
}

fn push_field_line(out: &mut String, field: &str, value: &str)
    ensures
        final(out)@ == old(out)@ + field_line(field@, value@),
{
    push_str(out, "  ");
    push_str(out, field);
    push_str(out, ": ");
    push_str(out, value);
    push_str(out, ",");
    push_str(out, "\n");
    assert(out@ =~= old(out)@ + field_line(field@, value@));
}

fn push_quoted_line(out: &mut String, field: &str, value: &str)
    ensures
        final(out)@ == old(out)@ + quoted_line(field@, value@),
{
    push_str(out, "  ");
    push_str(out, field);
    push_str(out, ": ");
    push_str(out, "\"");
    push_escaped(out, value);
    push_str(out, "\"");
    push_str(out, ",");
    push_str(out, "\n");
    assert(out@ =~= old(out)@ + quoted_line(field@, value@));
}

fn push_bool_line(out: &mut String, field: &str, b: bool)
    ensures
        final(out)@ == old(out)@ + field_line(field@, bool_text(b)),
{
    let t = if b { "true" } else { "false" };
    push_field_line(out, field, t);
}


/// The `default` line of an argument's attributes.
pub open spec fn default_line(d: Option<String>) -> Seq<char> {
    match d {
        Some(d) => field_line("default"@, "Some(\""@ + escape_quotes(d@) + "\")"@),
        None => field_line("default"@, "None"@),
    }
}

fn push_default_line(out: &mut String, d: &Option<String>)
    ensures
        final(out)@ == old(out)@ + default_line(*d),
{
    match d {
        Some(d) => {
            let mut v = owned("Some(\"");
            push_escaped(&mut v, d.as_str());
            push_str(&mut v, "\")");
            push_field_line(out, "default", v.as_str());
        },
        None => push_field_line(out, "default", "None"),
    }
}

fn kind_name_exec(k: &KindField) -> (r: &str)
    ensures
        r@ == kind_name(*k),
{
    match k {
        KindField::Name(s) => s.as_str(),
        _ => "String",
    }
}

fn arg_prefix_exec(i: u64, j: u64) -> (r: String)
    ensures
        r@ == arg_prefix(i as nat, j as nat),
{
    let mut p = owned("CMD_");
    push_decimal(&mut p, i);
    push_str(&mut p, "_ARG_");
    push_decimal(&mut p, j);
    p
}

fn concat(a: &str, b: &str) -> (r: String)
    ensures
        r@ == a@ + b@,
{
    let mut s = owned(a);
    push_str(&mut s, b);
    s
}

/// The attribute constant of an argument.
pub open spec fn attrs_text(p: Seq<char>, a: ManifestArgument) -> Seq<char> {
    "const "@ + p + "_ATTRS: StaticArgumentAttributes = StaticArgumentAttributes {"@ + "\n"@ + field_line("optional"@, bool_text(flag_or(a.optional, false))) + field_line("multiple"@, bool_text(flag_or(a.multiple, false))) + default_line(a.default) + field_line("sensitive"@, bool_text(flag_or(a.sensitive, false))) + field_line("interactive"@, bool_text(flag_or(a.interactive, false))) + "};"@ + "\n"@
}

fn push_attrs(out: &mut String, p: &str, a: &ManifestArgument)
    ensures
        final(out)@ == old(out)@ + attrs_text(p@, *a),
{
    let ghost start = old(out)@;
    push_str(out, "const ");
    push_str(out, p);
    let ghost mut acc = "const "@;
    proof { acc = crate::text::lemma_extend(start, acc, p@); }
    push_str(out, "_ATTRS: StaticArgumentAttributes = StaticArgumentAttributes {");
    proof { acc = crate::text::lemma_extend(start, acc, "_ATTRS: StaticArgumentAttributes = StaticArgumentAttributes {"@); }
    push_str(out, "\n");
    proof { acc = crate::text::lemma_extend(start, acc, "\n"@); }
    push_bool_line(out, "optional", flag_or_exec(a.optional, false));
    proof { acc = crate::text::lemma_extend(start, acc, field_line("optional"@, bool_text(flag_or(a.optional, false)))); }
    push_bool_line(out, "multiple", flag_or_exec(a.multiple, false));
    proof { acc = crate::text::lemma_extend(start, acc, field_line("multiple"@, bool_text(flag_or(a.multiple, false)))); }
    push_default_line(out, &a.default);
    proof { acc = crate::text::lemma_extend(start, acc, default_line(a.default)); }
    push_bool_line(out, "sensitive", flag_or_exec(a.sensitive, false));
    proof { acc = crate::text::lemma_extend(start, acc, field_line("sensitive"@, bool_text(flag_or(a.sensitive, false)))); }
    push_bool_line(out, "interactive", flag_or_exec(a.interactive, false));
    proof { acc = crate::text::lemma_extend(start, acc, field_line("interactive"@, bool_text(flag_or(a.interactive, false)))); }
    push_str(out, "};");
    proof { acc = crate::text::lemma_extend(start, acc, "};"@); }
    push_str(out, "\n");
    proof { acc = crate::text::lemma_extend(start, acc, "\n"@); }
}

/// The validation-rule constant of an argument that lists rules; the
/// rules themselves are not carried over.
pub open spec fn validation_text(p: Seq<char>, has_rules: bool) -> Seq<char> {
    if has_rules {
        "const "@ + p + "_VALIDATION: &[StaticValidationRule] = &["@ + "\n"@ + "];"@ + "\n"@
    } else {
        Seq::<char>::empty()
    }
}

fn push_validation(out: &mut String, p: &str, has_rules: bool)
    ensures
        final(out)@ == old(out)@ + validation_text(p@, has_rules),
{
    if has_rules {
        push_str(out, "const ");
        push_str(out, p);
        push_str(out, "_VALIDATION: &[StaticValidationRule] = &[");
        push_str(out, "\n");
        push_str(out, "];");
        push_str(out, "\n");
    }
    assert(out@ =~= old(out)@ + validation_text(p@, has_rules));
}

/// The constants generated before an argument's definition: its validation
/// rules (when it lists any), aliases, tags and attributes.
pub open spec fn argument_prologue_text(p: Seq<char>, a: ManifestArgument) -> Seq<char> {
    validation_text(p, a.has_validation_rules) + string_array_text(p + "_ALIASES"@, a.aliases) + string_array_text(p + "_TAGS"@, a.tags) + attrs_text(p, a)
}

fn push_argument_prologue(out: &mut String, p: &str, a: &ManifestArgument)
    ensures
        final(out)@ == old(out)@ + argument_prologue_text(p@, *a),
{
    let ghost start = old(out)@;
    push_validation(out, p, a.has_validation_rules);
    generate_string_array(out, concat(p, "_ALIASES").as_str(), &a.aliases);
    let ghost mut acc = validation_text(p@, a.has_validation_rules);
    proof { acc = crate::text::lemma_extend(start, acc, string_array_text(p@ + "_ALIASES"@, a.aliases)); }
    generate_string_array(out, concat(p, "_TAGS").as_str(), &a.tags);
    proof { acc = crate::text::lemma_extend(start, acc, string_array_text(p@ + "_TAGS"@, a.tags)); }
    push_attrs(out, p, a);
    proof { acc = crate::text::lemma_extend(start, acc, attrs_text(p@, *a)); }
}

/// The definition constant of an argument.
pub open spec fn argument_body_text(p: Seq<char>, a: ManifestArgument) -> Seq<char> {
    "const "@ + p + ": StaticArgumentDefinition = StaticArgumentDefinition {"@ + "\n"@ + quoted_line("name"@, text_or(a.name, ""@)) + field_line("kind"@, static_kind_text(kind_name(a.kind))) + field_line("attributes"@, p + "_ATTRS"@) + quoted_line("hint"@, text_or(a.hint, ""@)) + quoted_line("description"@, text_or(a.description, ""@)) + field_line("validation_rules"@, "&[]"@) + field_line("aliases"@, p + "_ALIASES"@) + field_line("tags"@, p + "_TAGS"@) + "};"@ + "\n"@ + "\n"@
}

fn push_argument_body(out: &mut String, p: &str, a: &ManifestArgument)
    ensures
        final(out)@ == old(out)@ + argument_body_text(p@, *a),
{
    let ghost start = old(out)@;
    push_str(out, "const ");
    push_str(out, p);
    let ghost mut acc = "const "@;
    proof { acc = crate::text::lemma_extend(start, acc, p@); }
    push_str(out, ": StaticArgumentDefinition = StaticArgumentDefinition {");
    proof { acc = crate::text::lemma_extend(start, acc, ": StaticArgumentDefinition = StaticArgumentDefinition {"@); }
    push_str(out, "\n");
    proof { acc = crate::text::lemma_extend(start, acc, "\n"@); }
    push_quoted_line(out, "name", text_or_exec(&a.name, ""));
    proof { acc = crate::text::lemma_extend(start, acc, quoted_line("name"@, text_or(a.name, ""@))); }
    push_field_line(out, "kind", static_kind_exec(kind_name_exec(&a.kind)));
    proof { acc = crate::text::lemma_extend(start, acc, field_line("kind"@, static_kind_text(kind_name(a.kind)))); }
    push_field_line(out, "attributes", concat(p, "_ATTRS").as_str());
    proof { acc = crate::text::lemma_extend(start, acc, field_line("attributes"@, p@ + "_ATTRS"@)); }
    push_quoted_line(out, "hint", text_or_exec(&a.hint, ""));
    proof { acc = crate::text::lemma_extend(start, acc, quoted_line("hint"@, text_or(a.hint, ""@))); }
    push_quoted_line(out, "description", text_or_exec(&a.description, ""));
    proof { acc = crate::text::lemma_extend(start, acc, quoted_line("description"@, text_or(a.description, ""@))); }
    push_field_line(out, "validation_rules", "&[]");
    proof { acc = crate::text::lemma_extend(start, acc, field_line("validation_rules"@, "&[]"@)); }
    push_field_line(out, "aliases", concat(p, "_ALIASES").as_str());
    proof { acc = crate::text::lemma_extend(start, acc, field_line("aliases"@, p@ + "_ALIASES"@)); }
    push_field_line(out, "tags", concat(p, "_TAGS").as_str());
    proof { acc = crate::text::lemma_extend(start, acc, field_line("tags"@, p@ + "_TAGS"@)); }
    push_str(out, "};");
    proof { acc = crate::text::lemma_extend(start, acc, "};"@); }
    push_str(out, "\n");
    proof { acc = crate::text::lemma_extend(start, acc, "\n"@); }
    push_str(out, "\n");
    proof { acc = crate::text::lemma_extend(start, acc, "\n"@); }
}

/// The constants generated for the `j`-th argument of the `i`-th command.
pub open spec fn argument_const_text(i: nat, j: nat, a: ManifestArgument) -> Seq<char> {
    argument_prologue_text(arg_prefix(i, j), a) + argument_body_text(arg_prefix(i, j), a)
}

/// Appends the constants of the `j`-th argument of the `i`-th command.
pub fn generate_argument_const(out: &mut String, i: u64, j: u64, a: &ManifestArgument)
    ensures
        final(out)@ == old(out)@ + argument_const_text(i as nat, j as nat, *a),
{
    let p = arg_prefix_exec(i, j);
    push_argument_prologue(out, p.as_str(), a);
    push_argument_body(out, p.as_str(), a);
    assert(out@ =~= old(out)@ + argument_const_text(i as nat, j as nat, *a));
}

/// `true` when the command lists at least one argument.
pub open spec fn has_args(c: ManifestCommand) -> bool {
    c.arguments matches Some(v) && v@.len() > 0
}

fn has_args_exec(c: &ManifestCommand) -> (r: bool)
    ensures
        r == has_args(*c),
{
    match &c.arguments {
        Some(v) => v.len() > 0,
        None => false,
    }
}

/// The constants of the arguments of the `i`-th command, in order.
pub open spec fn all_argument_consts(i: nat, args: Seq<ManifestArgument>) -> Seq<char>
    decreases args.len(),
{
    if args.len() == 0 {
        Seq::<char>::empty()
    } else {
        all_argument_consts(i, args.drop_last()) + argument_const_text(i, (args.len() - 1) as nat, args.last())
    }
}

/// The lines naming the first `n` argument constants of the `i`-th command.
pub open spec fn argument_refs(i: nat, n: nat) -> Seq<char>
    decreases n,
{
    if n == 0 {
        Seq::<char>::empty()
    } else {
        argument_refs(i, (n - 1) as nat) + "  "@ + arg_prefix(i, (n - 1) as nat) + ","@ + "\n"@
    }
}

/// The argument constants of a command and the list naming them; nothing
/// for a command without arguments.
pub open spec fn arguments_text(i: nat, c: ManifestCommand) -> Seq<char> {
    if has_args(c) {
        arguments_list_text(i, c.arguments->0@)
    } else {
        Seq::<char>::empty()
    }
}

/// The name of the `i`-th command constant.
pub open spec fn cmd_prefix(i: nat) -> Seq<char> {
    "CMD_"@ + dec_text(i)
}

fn cmd_prefix_exec(i: u64) -> (r: String)
    ensures
        r@ == cmd_prefix(i as nat),
{
    let mut p = owned("CMD_");
    push_decimal(&mut p, i);
    p
}

fn push_all_argument_consts(out: &mut String, i: u64, v: &Vec<ManifestArgument>)
    ensures
        final(out)@ == old(out)@ + all_argument_consts(i as nat, v@),
{
    let ghost start = old(out)@;
    let mut j: usize = 0;
    assert(v@.take(0) =~= Seq::<ManifestArgument>::empty());
    while j < v.len()
        invariant
            j <= v@.len(),
            out@ == start + all_argument_consts(i as nat, v@.take(j as int)),
        decreases v@.len() - j,
    {
        assert(v@.take(j as int + 1).drop_last() =~= v@.take(j as int));
        generate_argument_const(out, i, j as u64, &v[j]);
        proof {
            vstd::seq_lib::lemma_concat_associative(start, all_argument_consts(i as nat, v@.take(j as int)),
                argument_const_text(i as nat, j as nat, v@[j as int]));
        }
        j = j + 1;
    }
    assert(v@.take(v@.len() as int) =~= v@);
}

fn push_argument_refs(out: &mut String, i: u64, n: usize)
    ensures
        final(out)@ == old(out)@ + argument_refs(i as nat, n as nat),
{
    let ghost start = old(out)@;
    let mut k: usize = 0;
    while k < n
        invariant
            k <= n,
            out@ == start + argument_refs(i as nat, k as nat),
        decreases n - k,
    {
        let ghost before = out@;
        push_str(out, "  ");
        push_str(out, arg_prefix_exec(i, k as u64).as_str());
        push_str(out, ",");
        push_str(out, "\n");
        k = k + 1;
        assert(out@ =~= start + argument_refs(i as nat, k as nat));
    }
}

fn push_arguments(out: &mut String, i: u64, c: &ManifestCommand)
    ensures
        final(out)@ == old(out)@ + arguments_text(i as nat, *c),
{
    match &c.arguments {
        Some(v) => {
            if v.len() > 0 {
                push_arguments_nonempty(out, i, v);
            }
        },
        None => {},
    }
}

/// The argument constants of a command that has arguments, and the list naming them.
pub open spec fn arguments_list_text(i: nat, v: Seq<ManifestArgument>) -> Seq<char> {
    all_argument_consts(i, v) + "const "@ + cmd_prefix(i) + "_ARGS: &[StaticArgumentDefinition] = &["@ + "\n"@ + argument_refs(i, v.len()) + "];"@ + "\n"@ + "\n"@
}

fn push_arguments_nonempty(out: &mut String, i: u64, v: &Vec<ManifestArgument>)
    ensures
        final(out)@ == old(out)@ + arguments_list_text(i as nat, v@),
{
    let ghost start = old(out)@;
    push_all_argument_consts(out, i, v);
    push_str(out, "const ");
    let ghost mut acc = all_argument_consts(i as nat, v@);
    proof { acc = crate::text::lemma_extend(start, acc, "const "@); }
    push_str(out, cmd_prefix_exec(i).as_str());
    proof { acc = crate::text::lemma_extend(start, acc, cmd_prefix(i as nat)); }
    push_str(out, "_ARGS: &[StaticArgumentDefinition] = &[");
    proof { acc = crate::text::lemma_extend(start, acc, "_ARGS: &[StaticArgumentDefinition] = &["@); }
    push_str(out, "\n");
    proof { acc = crate::text::lemma_extend(start, acc, "\n"@); }
    push_argument_refs(out, i, v.len());
    proof { acc = crate::text::lemma_extend(start, acc, argument_refs(i as nat, v@.len())); }
    push_str(out, "];");
    proof { acc = crate::text::lemma_extend(start, acc, "];"@); }
    push_str(out, "\n");
    proof { acc = crate::text::lemma_extend(start, acc, "\n"@); }
    push_str(out, "\n");
    proof { acc = crate::text::lemma_extend(start, acc, "\n"@); }
}

/// The string-list constants of a command.
pub open spec fn command_arrays_text(p: Seq<char>, c: ManifestCommand) -> Seq<char> {
    string_array_text(p + "_ALIASES"@, c.aliases) + string_array_text(p + "_TAGS"@, c.tags)
        + string_array_text(p + "_PERMISSIONS"@, c.permissions) + string_array_text(p + "_EXAMPLES"@, c.examples)
}

fn push_command_arrays(out: &mut String, p: &str, c: &ManifestCommand)
    ensures
        final(out)@ == old(out)@ + command_arrays_text(p@, *c),
{
    let ghost start = old(out)@;
    generate_string_array(out, concat(p, "_ALIASES").as_str(), &c.aliases);
    generate_string_array(out, concat(p, "_TAGS").as_str(), &c.tags);
    generate_string_array(out, concat(p, "_PERMISSIONS").as_str(), &c.permissions);
    generate_string_array(out, concat(p, "_EXAMPLES").as_str(), &c.examples);
    assert(out@ =~= start + command_arrays_text(p@, *c));
}

/// The `arguments` line of a command constant.
pub open spec fn arguments_line(p: Seq<char>, c: ManifestCommand) -> Seq<char> {
    if has_args(c) { field_line("arguments"@, p + "_ARGS"@) } else { field_line("arguments"@, "&[]"@) }
}

fn push_arguments_line(out: &mut String, p: &str, c: &ManifestCommand)
    ensures
        final(out)@ == old(out)@ + arguments_line(p@, *c),
{
    if has_args_exec(c) {
        push_field_line(out, "arguments", concat(p, "_ARGS").as_str());
    } else {
        push_field_line(out, "arguments", "&[]");
    }
}

/// The definition constant of a command.
pub open spec fn command_body_text(p: Seq<char>, c: ManifestCommand) -> Seq<char> {
    "const "@ + p + ": StaticCommandDefinition = StaticCommandDefinition {"@ + "\n"@ + quoted_line("name"@, text_or(c.name, ""@)) + quoted_line("namespace"@, text_or(c.namespace, ""@)) + quoted_line("description"@, text_or(c.description, ""@)) + quoted_line("hint"@, text_or(c.hint, ""@)) + arguments_line(p, c) + field_line("routine_link"@, "None"@) + quoted_line("status"@, text_or(c.status, "stable"@)) + quoted_line("version"@, text_or(c.version, "1.0.0"@)) + field_line("tags"@, p + "_TAGS"@) + field_line("aliases"@, p + "_ALIASES"@) + field_line("permissions"@, p + "_PERMISSIONS"@) + field_line("idempotent"@, bool_text(flag_or(c.idempotent, false))) + quoted_line("deprecation_message"@, text_or(c.deprecation_message, ""@)) + quoted_line("http_method_hint"@, text_or(c.http_method_hint, ""@)) + field_line("examples"@, p + "_EXAMPLES"@) + field_line("auto_help_enabled"@, bool_text(flag_or(c.auto_help_enabled, true))) + quoted_line("category"@, text_or(c.category, ""@)) + field_line("show_version_in_help"@, bool_text(flag_or(c.show_version_in_help, true))) + "};"@ + "\n"@ + "\n"@
}

fn push_command_body(out: &mut String, p: &str, c: &ManifestCommand)
    ensures
        final(out)@ == old(out)@ + command_body_text(p@, *c),
{
    let ghost start = old(out)@;
    push_str(out, "const ");
    push_str(out, p);
    let ghost mut acc = "const "@;
    proof { acc = crate::text::lemma_extend(start, acc, p@); }
    push_str(out, ": StaticCommandDefinition = StaticCommandDefinition {");
    proof { acc = crate::text::lemma_extend(start, acc, ": StaticCommandDefinition = StaticCommandDefinition {"@); }
    push_str(out, "\n");
    proof { acc = crate::text::lemma_extend(start, acc, "\n"@); }
    push_quoted_line(out, "name", text_or_exec(&c.name, ""));
    proof { acc = crate::text::lemma_extend(start, acc, quoted_line("name"@, text_or(c.name, ""@))); }
    push_quoted_line(out, "namespace", text_or_exec(&c.namespace, ""));
    proof { acc = crate::text::lemma_extend(start, acc, quoted_line("namespace"@, text_or(c.namespace, ""@))); }
    push_quoted_line(out, "description", text_or_exec(&c.description, ""));
    proof { acc = crate::text::lemma_extend(start, acc, quoted_line("description"@, text_or(c.description, ""@))); }
    push_quoted_line(out, "hint", text_or_exec(&c.hint, ""));
    proof { acc = crate::text::lemma_extend(start, acc, quoted_line("hint"@, text_or(c.hint, ""@))); }
    push_arguments_line(out, p, c);
    proof { acc = crate::text::lemma_extend(start, acc, arguments_line(p@, *c)); }
    push_field_line(out, "routine_link", "None");
    proof { acc = crate::text::lemma_extend(start, acc, field_line("routine_link"@, "None"@)); }
    push_quoted_line(out, "status", text_or_exec(&c.status, "stable"));
    proof { acc = crate::text::lemma_extend(start, acc, quoted_line("status"@, text_or(c.status, "stable"@))); }
    push_quoted_line(out, "version", text_or_exec(&c.version, "1.0.0"));
    proof { acc = crate::text::lemma_extend(start, acc, quoted_line("version"@, text_or(c.version, "1.0.0"@))); }
    push_field_line(out, "tags", concat(p, "_TAGS").as_str());
    proof { acc = crate::text::lemma_extend(start, acc, field_line("tags"@, p@ + "_TAGS"@)); }
    push_field_line(out, "aliases", concat(p, "_ALIASES").as_str());
    proof { acc = crate::text::lemma_extend(start, acc, field_line("aliases"@, p@ + "_ALIASES"@)); }
    push_field_line(out, "permissions", concat(p, "_PERMISSIONS").as_str());
    proof { acc = crate::text::lemma_extend(start, acc, field_line("permissions"@, p@ + "_PERMISSIONS"@)); }
    push_bool_line(out, "idempotent", flag_or_exec(c.idempotent, false));
    proof { acc = crate::text::lemma_extend(start, acc, field_line("idempotent"@, bool_text(flag_or(c.idempotent, false)))); }
    push_quoted_line(out, "deprecation_message", text_or_exec(&c.deprecation_message, ""));
    proof { acc = crate::text::lemma_extend(start, acc, quoted_line("deprecation_message"@, text_or(c.deprecation_message, ""@))); }
    push_quoted_line(out, "http_method_hint", text_or_exec(&c.http_method_hint, ""));
    proof { acc = crate::text::lemma_extend(start, acc, quoted_line("http_method_hint"@, text_or(c.http_method_hint, ""@))); }
    push_field_line(out, "examples", concat(p, "_EXAMPLES").as_str());
    proof { acc = crate::text::lemma_extend(start, acc, field_line("examples"@, p@ + "_EXAMPLES"@)); }
    push_bool_line(out, "auto_help_enabled", flag_or_exec(c.auto_help_enabled, true));
    proof { acc = crate::text::lemma_extend(start, acc, field_line("auto_help_enabled"@, bool_text(flag_or(c.auto_help_enabled, true)))); }
    push_quoted_line(out, "category", text_or_exec(&c.category, ""));
    proof { acc = crate::text::lemma_extend(start, acc, quoted_line("category"@, text_or(c.category, ""@))); }
    push_bool_line(out, "show_version_in_help", flag_or_exec(c.show_version_in_help, true));
    proof { acc = crate::text::lemma_extend(start, acc, field_line("show_version_in_help"@, bool_text(flag_or(c.show_version_in_help, true)))); }
    push_str(out, "};");
    proof { acc = crate::text::lemma_extend(start, acc, "};"@); }
    push_str(out, "\n");
    proof { acc = crate::text::lemma_extend(start, acc, "\n"@); }
    push_str(out, "\n");
    proof { acc = crate::text::lemma_extend(start, acc, "\n"@); }
}

/// The constants generated for the `i`-th command: its argument
/// constants, its string lists and its definition.
pub open spec fn command_const_text(i: nat, c: ManifestCommand) -> Seq<char> {
    arguments_text(i, c) + command_arrays_text(cmd_prefix(i), c) + command_body_text(cmd_prefix(i), c)
}

/// Appends the constants of the `i`-th command.
pub fn generate_command_const(out: &mut String, i: u64, c: &ManifestCommand)
    ensures
        final(out)@ == old(out)@ + command_const_text(i as nat, *c),
{
    let ghost start = old(out)@;
    push_arguments(out, i, c);
    let p = cmd_prefix_exec(i);
    push_command_arrays(out, p.as_str(), c);
    proof {
        vstd::seq_lib::lemma_concat_associative(start, arguments_text(i as nat, *c), command_arrays_text(p@, *c));
    }
    push_command_body(out, p.as_str(), c);
    proof {
        vstd::seq_lib::lemma_concat_associative(start, arguments_text(i as nat, *c) + command_arrays_text(p@, *c),
            command_body_text(p@, *c));
    }
}


/// The first line of every generated table.
pub open spec fn table_preamble() -> Seq<char> {
    "// Generated static commands\nuse unilang::phf::phf_map;\nuse ::unilang::static_data::StaticCommandMap;\n"@
}

/// `true` when some command lists at least one argument.
pub open spec fn any_args(cmds: Seq<ManifestCommand>) -> bool {
    exists|k: int| 0 <= k < cmds.len() && has_args(#[trigger] cmds[k])
}

/// The import of the static types that the table uses.
pub open spec fn imports_text(cmds: Seq<ManifestCommand>) -> Seq<char> {
    if cmds.len() > 0 && any_args(cmds) {
        "use ::unilang::static_data::{StaticCommandDefinition, StaticArgumentDefinition, StaticArgumentAttributes, StaticKind};\n"@
    } else {
        "use ::unilang::static_data::StaticCommandDefinition;\n"@
    }
}

/// The header of a generated table.
pub open spec fn table_header(cmds: Seq<ManifestCommand>) -> Seq<char> {
    table_preamble() + imports_text(cmds) + "\n"@
}

/// The constants of all commands, in order.
pub open spec fn all_command_consts(cmds: Seq<ManifestCommand>) -> Seq<char>
    decreases cmds.len(),
{
    if cmds.len() == 0 {
        Seq::<char>::empty()
    } else {
        all_command_consts(cmds.drop_last()) + command_const_text((cmds.len() - 1) as nat, cmds.last())
    }
}

/// `s` without its leading dots.
pub open spec fn trim_leading_dots(s: Seq<char>) -> Seq<char>
    decreases s.len(),
{
    if s.len() > 0 && s[0] == '.' {
        trim_leading_dots(s.drop_first())
    } else {
        s
    }
}

/// The key under which a command is found in the table: the dotted name
/// in the root namespace, else the namespace, a dot and the name without
/// its leading dots.
pub open spec fn table_key(c: ManifestCommand) -> Seq<char> {
    let ns = text_or(c.namespace, Seq::<char>::empty());
    let name = text_or(c.name, Seq::<char>::empty());
    if ns.len() == 0 {
        if name.len() > 0 && name[0] == '.' { name } else { seq!['.'] + name }
    } else {
        ns + seq!['.'] + trim_leading_dots(name)
    }
}

/// The table entry of the `i`-th command.
pub open spec fn table_entry(i: nat, c: ManifestCommand) -> Seq<char> {
    "  \""@ + table_key(c) + "\" => &CMD_"@ + dec_text(i) + ","@ + "\n"@
}

/// The table entries of all commands, in order.
pub open spec fn table_entries(cmds: Seq<ManifestCommand>) -> Seq<char>
    decreases cmds.len(),
{
    if cmds.len() == 0 {
        Seq::<char>::empty()
    } else {
        table_entries(cmds.drop_last()) + table_entry((cmds.len() - 1) as nat, cmds.last())
    }
}

/// The documentation and public wrapper that end a generated table.
pub open spec fn table_footer() -> Seq<char> {
    "/// Static command registry (compile-time generated).\n/// \n/// This map provides zero-overhead lookup of compile-time registered commands.\n/// Commands are keyed by their full name (e.g., \".help\" or \"namespace.command\").\n/// \n/// No PHF dependency required for crates using this registry.\npub static STATIC_COMMANDS: StaticCommandMap = StaticCommandMap::from_phf_internal(&STATIC_COMMANDS_PHF);\n"@
}

/// The text of the static command table generated from a manifest.
pub open spec fn static_commands_text(cmds: Seq<ManifestCommand>) -> Seq<char> {
    table_header(cmds) + all_command_consts(cmds) + table_tail(cmds)
}

/// The map of a generated table and its public wrapper.
pub open spec fn table_tail(cmds: Seq<ManifestCommand>) -> Seq<char> {
    "const STATIC_COMMANDS_PHF: phf::Map<&'static str, &'static StaticCommandDefinition> = phf_map! {"@ + "\n"@
        + table_entries(cmds) + "};"@ + "\n"@ + "\n"@ + table_footer()
}

pub(crate) fn trim_leading_dots_exec(v: &Vec<char>) -> (r: Vec<char>)
    ensures
        r@ == trim_leading_dots(v@),
{
    let mut i: usize = 0;
    assert(v@.subrange(0, v@.len() as int) =~= v@);
    while i < v.len() && v[i] == '.'
        invariant
            i <= v@.len(),
            trim_leading_dots(v@) == trim_leading_dots(v@.subrange(i as int, v@.len() as int)),
        decreases v@.len() - i,
    {
        assert(v@.subrange(i as int, v@.len() as int).drop_first() =~= v@.subrange(i as int + 1, v@.len() as int));
        i = i + 1;
    }
    crate::text::subvec(v, i, v.len())
}

fn push_table_key(out: &mut String, c: &ManifestCommand)
    ensures
        final(out)@ == old(out)@ + table_key(*c),
{
    let ns = text_or_exec(&c.namespace, "");
    let name = text_or_exec(&c.name, "");
    proof {
        reveal_strlit("");
    }
    let nsv = chars_of(ns);
    let nv = chars_of(name);
    if nsv.len() == 0 {
        if !(nv.len() > 0 && nv[0] == '.') {
            push_char(out, '.');
        }
        push_str(out, name);
    } else {
        push_str(out, ns);
        push_char(out, '.');
        crate::text::push_chars(out, &trim_leading_dots_exec(&nv));
    }
    assert(out@ =~= old(out)@ + table_key(*c));
}

fn push_table_entry(out: &mut String, i: u64, c: &ManifestCommand)
    ensures
        final(out)@ == old(out)@ + table_entry(i as nat, *c),
{
    let ghost start = old(out)@;
    push_str(out, "  \"");
    push_table_key(out, c);
    push_str(out, "\" => &CMD_");
    push_decimal(out, i);
    push_str(out, ",");
    push_str(out, "\n");
    assert(out@ =~= start + table_entry(i as nat, *c));
}

/// The name of the manifest that validation messages refer to.
pub open spec fn manifest_file() -> Seq<char> {
    "unilang.commands.yaml"@
}

/// A kind that stores several values: a kind name containing `List`, or a
/// mapping whose first key is `List`.
pub open spec fn is_list_kind(k: KindField) -> bool {
    match k {
        KindField::Name(s) => crate::text::contains(s@, "List"@),
        KindField::Mapping(key) => key matches Some(s) && s@ == "List"@,
        KindField::Other => false,
    }
}

/// An argument that accepts several values but is not stored as a list.
pub open spec fn loses_values(a: ManifestArgument) -> bool {
    flag_or(a.multiple, false) && !is_list_kind(a.kind)
}

/// The position of the first argument that `loses_values`, or -1.
pub open spec fn first_losing(args: Seq<ManifestArgument>) -> int
    decreases args.len(),
{
    if args.len() == 0 {
        -1
    } else if first_losing(args.drop_last()) >= 0 {
        first_losing(args.drop_last())
    } else if loses_values(args.last()) {
        args.len() - 1
    } else {
        -1
    }
}

/// The full name of a manifest command, as the build step validates it.
pub open spec fn manifest_full_name(c: ManifestCommand) -> Seq<char> {
    crate::build::validation::build_full_name(text_or(c.namespace, Seq::<char>::empty()), text_or(c.name, Seq::<char>::empty()))
}

/// The position of the first command with the given full name, or -1.
pub open spec fn index_of_full_name(cmds: Seq<ManifestCommand>, full: Seq<char>) -> int
    decreases cmds.len(),
{
    if cmds.len() == 0 {
        -1
    } else if index_of_full_name(cmds.drop_last(), full) >= 0 {
        index_of_full_name(cmds.drop_last(), full)
    } else if manifest_full_name(cmds.last()) == full {
        cmds.len() - 1
    } else {
        -1
    }
}

/// The message for a command that fails validation.
pub open spec fn invalid_command_box(e: Seq<char>) -> Seq<char> {
    "\n\u{2554}\u{2550}\u{2550}\u{2550}\u{2550}\u{2550}\u{2550}\u{2550}\u{2550}\u{2550}\u{2550}\u{2550}\u{2550}\u{2550}\u{2550}\u{2550}\u{2550}\u{2550}\u{2550}\u{2550}\u{2550}\u{2550}\u{2550}\u{2550}\u{2550}\u{2550}\u{2550}\u{2550}\u{2550}\u{2550}\u{2550}\u{2550}\u{2550}\u{2550}\u{2550}\u{2550}\u{2550}\u{2550}\u{2550}\u{2550}\u{2550}\u{2550}\u{2550}\u{2550}\u{2550}\u{2550}\u{2550}\u{2550}\u{2550}\u{2550}\u{2550}\u{2550}\u{2550}\u{2550}\u{2550}\u{2550}\u{2550}\u{2550}\u{2550}\u{2550}\u{2550}\u{2550}\u{2550}\u{2550}\u{2550}\u{2550}\u{2550}\u{2550}\u{2550}\u{2550}\u{2550}\u{2550}\u{2550}\u{2550}\u{2550}\u{2550}\u{2550}\u{2550}\u{2550}\u{2557}\n\u{2551} BUILD ERROR: Invalid command definition                                       \u{2551}\n\u{255f}\u{2500}\u{2500}\u{2500}\u{2500}\u{2500}\u{2500}\u{2500}\u{2500}\u{2500}\u{2500}\u{2500}\u{2500}\u{2500}\u{2500}\u{2500}\u{2500}\u{2500}\u{2500}\u{2500}\u{2500}\u{2500}\u{2500}\u{2500}\u{2500}\u{2500}\u{2500}\u{2500}\u{2500}\u{2500}\u{2500}\u{2500}\u{2500}\u{2500}\u{2500}\u{2500}\u{2500}\u{2500}\u{2500}\u{2500}\u{2500}\u{2500}\u{2500}\u{2500}\u{2500}\u{2500}\u{2500}\u{2500}\u{2500}\u{2500}\u{2500}\u{2500}\u{2500}\u{2500}\u{2500}\u{2500}\u{2500}\u{2500}\u{2500}\u{2500}\u{2500}\u{2500}\u{2500}\u{2500}\u{2500}\u{2500}\u{2500}\u{2500}\u{2500}\u{2500}\u{2500}\u{2500}\u{2500}\u{2500}\u{2500}\u{2500}\u{2500}\u{2500}\u{2500}\u{2562}\n\u{2551} "@ + crate::text::pad_right(e, 76) + " \u{2551}\n\u{255f}\u{2500}\u{2500}\u{2500}\u{2500}\u{2500}\u{2500}\u{2500}\u{2500}\u{2500}\u{2500}\u{2500}\u{2500}\u{2500}\u{2500}\u{2500}\u{2500}\u{2500}\u{2500}\u{2500}\u{2500}\u{2500}\u{2500}\u{2500}\u{2500}\u{2500}\u{2500}\u{2500}\u{2500}\u{2500}\u{2500}\u{2500}\u{2500}\u{2500}\u{2500}\u{2500}\u{2500}\u{2500}\u{2500}\u{2500}\u{2500}\u{2500}\u{2500}\u{2500}\u{2500}\u{2500}\u{2500}\u{2500}\u{2500}\u{2500}\u{2500}\u{2500}\u{2500}\u{2500}\u{2500}\u{2500}\u{2500}\u{2500}\u{2500}\u{2500}\u{2500}\u{2500}\u{2500}\u{2500}\u{2500}\u{2500}\u{2500}\u{2550}\u{2550}\u{2550}\u{2550}\u{2550}\u{2550}\u{2550}\u{2550}\u{2500}\u{2500}\u{2500}\u{2500}\u{2562}\n\u{2551} Fix: Ensure command names start with '.' (e.g., '.help', '.chat')             \u{2551}\n\u{2551}      Ensure non-empty namespaces start with '.' (e.g., '.session')            \u{2551}\n\u{2551}      Ensure version is not empty (e.g., '1.0.0')                              \u{2551}\n\u{255a}\u{2550}\u{2550}\u{2550}\u{2550}\u{2550}\u{2550}\u{2550}\u{2550}\u{2550}\u{2550}\u{2550}\u{2550}\u{2550}\u{2550}\u{2550}\u{2550}\u{2550}\u{2550}\u{2550}\u{2550}\u{2550}\u{2550}\u{2550}\u{2550}\u{2550}\u{2550}\u{2550}\u{2550}\u{2550}\u{2550}\u{2550}\u{2550}\u{2550}\u{2550}\u{2550}\u{2550}\u{2550}\u{2550}\u{2550}\u{2550}\u{2550}\u{2550}\u{2550}\u{2550}\u{2550}\u{2550}\u{2550}\u{2550}\u{2550}\u{2550}\u{2550}\u{2550}\u{2550}\u{2550}\u{2550}\u{2550}\u{2550}\u{2550}\u{2550}\u{2550}\u{2550}\u{2550}\u{2550}\u{2550}\u{2550}\u{2550}\u{2550}\u{2550}\u{2550}\u{2550}\u{2550}\u{2550}\u{2550}\u{2550}\u{2550}\u{2550}\u{2550}\u{2550}\u{255d}\n"@
}

/// `n` spaces less the given width, down to none.
pub open spec fn fill(n: nat, used: nat) -> Seq<char> {
    crate::text::spaces(if used >= n { 0 } else { (n - used) as nat })
}

/// The message for a command whose full name an earlier command has.
pub open spec fn duplicate_box(full: Seq<char>, first: nat, i: nat) -> Seq<char> {
    "\n\u{2554}\u{2550}\u{2550}\u{2550}\u{2550}\u{2550}\u{2550}\u{2550}\u{2550}\u{2550}\u{2550}\u{2550}\u{2550}\u{2550}\u{2550}\u{2550}\u{2550}\u{2550}\u{2550}\u{2550}\u{2550}\u{2550}\u{2550}\u{2550}\u{2550}\u{2550}\u{2550}\u{2550}\u{2550}\u{2550}\u{2550}\u{2550}\u{2550}\u{2550}\u{2550}\u{2550}\u{2550}\u{2550}\u{2550}\u{2550}\u{2550}\u{2550}\u{2550}\u{2550}\u{2550}\u{2550}\u{2550}\u{2550}\u{2550}\u{2550}\u{2550}\u{2550}\u{2550}\u{2550}\u{2550}\u{2550}\u{2550}\u{2550}\u{2550}\u{2550}\u{2550}\u{2550}\u{2550}\u{2550}\u{2550}\u{2550}\u{2550}\u{2550}\u{2550}\u{2550}\u{2550}\u{2550}\u{2550}\u{2550}\u{2550}\u{2550}\u{2550}\u{2550}\u{2550}\u{2557}\n\u{2551} BUILD ERROR: Duplicate command name detected                                  \u{2551}\n\u{255f}\u{2500}\u{2500}\u{2500}\u{2500}\u{2500}\u{2500}\u{2500}\u{2500}\u{2500}\u{2500}\u{2500}\u{2500}\u{2500}\u{2500}\u{2500}\u{2500}\u{2500}\u{2500}\u{2500}\u{2500}\u{2500}\u{2500}\u{2500}\u{2500}\u{2500}\u{2500}\u{2500}\u{2500}\u{2500}\u{2500}\u{2500}\u{2500}\u{2500}\u{2500}\u{2500}\u{2500}\u{2500}\u{2500}\u{2500}\u{2500}\u{2500}\u{2500}\u{2500}\u{2500}\u{2500}\u{2500}\u{2500}\u{2500}\u{2500}\u{2500}\u{2500}\u{2500}\u{2500}\u{2500}\u{2500}\u{2500}\u{2500}\u{2500}\u{2500}\u{2500}\u{2500}\u{2500}\u{2500}\u{2500}\u{2500}\u{2500}\u{2500}\u{2500}\u{2500}\u{2500}\u{2500}\u{2500}\u{2500}\u{2500}\u{2500}\u{2500}\u{2500}\u{2500}\u{2562}\n\u{2551} Command '"@ + full + "' is defined multiple times in YAML manifest"@ + fill(51, crate::text::utf8_len(full) as nat) + "\u{2551}\n\u{2551}                                                                                \u{2551}\n\u{2551} First occurrence: command index "@ + dec_text(first)
        + fill(67, dec_text(first).len()) + "\u{2551}\n\u{2551} Duplicate found:  command index "@ + dec_text(i) + fill(67, dec_text(i).len()) + "\u{2551}\n\u{255f}\u{2500}\u{2500}\u{2500}\u{2500}\u{2500}\u{2500}\u{2500}\u{2500}\u{2500}\u{2500}\u{2500}\u{2500}\u{2500}\u{2500}\u{2500}\u{2500}\u{2500}\u{2500}\u{2500}\u{2500}\u{2500}\u{2500}\u{2500}\u{2500}\u{2500}\u{2500}\u{2500}\u{2500}\u{2500}\u{2500}\u{2500}\u{2500}\u{2500}\u{2500}\u{2500}\u{2500}\u{2500}\u{2500}\u{2500}\u{2500}\u{2500}\u{2500}\u{2500}\u{2500}\u{2500}\u{2500}\u{2500}\u{2500}\u{2500}\u{2500}\u{2500}\u{2500}\u{2500}\u{2500}\u{2500}\u{2500}\u{2500}\u{2500}\u{2500}\u{2500}\u{2500}\u{2500}\u{2500}\u{2500}\u{2500}\u{2500}\u{2500}\u{2500}\u{2500}\u{2500}\u{2500}\u{2500}\u{2500}\u{2500}\u{2500}\u{2500}\u{2500}\u{2500}\u{2562}\n\u{2551} Fix: Rename one of the commands or remove the duplicate entry.                \u{2551}\n\u{2551}      All command names must be unique across the entire manifest.             \u{2551}\n\u{2551}                                                                                \u{2551}\n\u{2551} Task 085 Item #3: Prevents silent overwrites and confusing behavior           \u{2551}\n\u{255a}\u{2550}\u{2550}\u{2550}\u{2550}\u{2550}\u{2550}\u{2550}\u{2550}\u{2550}\u{2550}\u{2550}\u{2550}\u{2550}\u{2550}\u{2550}\u{2550}\u{2550}\u{2550}\u{2550}\u{2550}\u{2550}\u{2550}\u{2550}\u{2550}\u{2550}\u{2550}\u{2550}\u{2550}\u{2550}\u{2550}\u{2550}\u{2550}\u{2550}\u{2550}\u{2550}\u{2550}\u{2550}\u{2550}\u{2550}\u{2550}\u{2550}\u{2550}\u{2550}\u{2550}\u{2550}\u{2550}\u{2550}\u{2550}\u{2550}\u{2550}\u{2550}\u{2550}\u{2550}\u{2550}\u{2550}\u{2550}\u{2550}\u{2550}\u{2550}\u{2550}\u{2550}\u{2550}\u{2550}\u{2550}\u{2550}\u{2550}\u{2550}\u{2550}\u{2550}\u{2550}\u{2550}\u{2550}\u{2550}\u{2550}\u{2550}\u{2550}\u{2550}\u{2550}\u{255d}\n"@
}

/// The message for a repeatable argument not stored as a list.
pub open spec fn storage_box(full: Seq<char>, arg: Seq<char>, kind: Seq<char>) -> Seq<char> {
    "\n\u{2554}\u{2550}\u{2550}\u{2550}\u{2550}\u{2550}\u{2550}\u{2550}\u{2550}\u{2550}\u{2550}\u{2550}\u{2550}\u{2550}\u{2550}\u{2550}\u{2550}\u{2550}\u{2550}\u{2550}\u{2550}\u{2550}\u{2550}\u{2550}\u{2550}\u{2550}\u{2550}\u{2550}\u{2550}\u{2550}\u{2550}\u{2550}\u{2550}\u{2550}\u{2550}\u{2550}\u{2550}\u{2550}\u{2550}\u{2550}\u{2550}\u{2550}\u{2550}\u{2550}\u{2550}\u{2550}\u{2550}\u{2550}\u{2550}\u{2550}\u{2550}\u{2550}\u{2550}\u{2550}\u{2550}\u{2550}\u{2550}\u{2550}\u{2550}\u{2550}\u{2550}\u{2550}\u{2550}\u{2550}\u{2550}\u{2550}\u{2550}\u{2550}\u{2550}\u{2550}\u{2550}\u{2550}\u{2550}\u{2550}\u{2550}\u{2550}\u{2550}\u{2550}\u{2550}\u{2557}\n\u{2551} BUILD ERROR: Invalid parameter definition (wplan bug pattern)                 \u{2551}\n\u{255f}\u{2500}\u{2500}\u{2500}\u{2500}\u{2500}\u{2500}\u{2500}\u{2500}\u{2500}\u{2500}\u{2500}\u{2500}\u{2500}\u{2500}\u{2500}\u{2500}\u{2500}\u{2500}\u{2500}\u{2500}\u{2500}\u{2500}\u{2500}\u{2500}\u{2500}\u{2500}\u{2500}\u{2500}\u{2500}\u{2500}\u{2500}\u{2500}\u{2500}\u{2500}\u{2500}\u{2500}\u{2500}\u{2500}\u{2500}\u{2500}\u{2500}\u{2500}\u{2500}\u{2500}\u{2500}\u{2500}\u{2500}\u{2500}\u{2500}\u{2500}\u{2500}\u{2500}\u{2500}\u{2500}\u{2500}\u{2500}\u{2500}\u{2500}\u{2500}\u{2500}\u{2500}\u{2500}\u{2500}\u{2500}\u{2500}\u{2500}\u{2500}\u{2500}\u{2500}\u{2500}\u{2500}\u{2500}\u{2500}\u{2500}\u{2500}\u{2500}\u{2500}\u{2500}\u{2562}\n\u{2551} Command:   "@ + full + fill(68, crate::text::utf8_len(full) as nat) + "\u{2551}\n\u{2551} Parameter: "@ + arg
        + fill(68, crate::text::utf8_len(arg) as nat) + "\u{2551}\n\u{2551} Problem:   multiple:true but storage type is NOT List                         \u{2551}\n\u{2551}                                                                                \u{2551}\n\u{2551} Current kind: "@ + kind
        + fill(63, crate::text::utf8_len(kind) as nat) + "\u{2551}\n\u{2551}                                                                                \u{2551}\n\u{2551} This causes silent data loss when multiple values overwrite each other.       \u{2551}\n\u{255f}\u{2500}\u{2500}\u{2500}\u{2500}\u{2500}\u{2500}\u{2500}\u{2500}\u{2500}\u{2500}\u{2500}\u{2500}\u{2500}\u{2500}\u{2500}\u{2500}\u{2500}\u{2500}\u{2500}\u{2500}\u{2500}\u{2500}\u{2500}\u{2500}\u{2500}\u{2500}\u{2500}\u{2500}\u{2500}\u{2500}\u{2500}\u{2500}\u{2500}\u{2500}\u{2500}\u{2500}\u{2500}\u{2500}\u{2500}\u{2500}\u{2500}\u{2500}\u{2500}\u{2500}\u{2500}\u{2500}\u{2500}\u{2500}\u{2500}\u{2500}\u{2500}\u{2500}\u{2500}\u{2500}\u{2500}\u{2500}\u{2500}\u{2500}\u{2500}\u{2500}\u{2500}\u{2500}\u{2500}\u{2500}\u{2500}\u{2500}\u{2500}\u{2500}\u{2500}\u{2500}\u{2500}\u{2500}\u{2500}\u{2500}\u{2500}\u{2500}\u{2500}\u{2500}\u{2562}\n\u{2551} Fix: Change parameter kind to List storage:                                   \u{2551}\n\u{2551}                                                                                \u{2551}\n\u{2551}   kind: {List: [\"String\", null]}  # For string values                        \u{2551}\n\u{2551}   kind: {List: [\"Integer\", null]} # For integer values                       \u{2551}\n\u{2551}                                                                                \u{2551}\n\u{2551} Task 085 Item #5: Prevents the wplan bug pattern                              \u{2551}\n\u{255a}\u{2550}\u{2550}\u{2550}\u{2550}\u{2550}\u{2550}\u{2550}\u{2550}\u{2550}\u{2550}\u{2550}\u{2550}\u{2550}\u{2550}\u{2550}\u{2550}\u{2550}\u{2550}\u{2550}\u{2550}\u{2550}\u{2550}\u{2550}\u{2550}\u{2550}\u{2550}\u{2550}\u{2550}\u{2550}\u{2550}\u{2550}\u{2550}\u{2550}\u{2550}\u{2550}\u{2550}\u{2550}\u{2550}\u{2550}\u{2550}\u{2550}\u{2550}\u{2550}\u{2550}\u{2550}\u{2550}\u{2550}\u{2550}\u{2550}\u{2550}\u{2550}\u{2550}\u{2550}\u{2550}\u{2550}\u{2550}\u{2550}\u{2550}\u{2550}\u{2550}\u{2550}\u{2550}\u{2550}\u{2550}\u{2550}\u{2550}\u{2550}\u{2550}\u{2550}\u{2550}\u{2550}\u{2550}\u{2550}\u{2550}\u{2550}\u{2550}\u{2550}\u{2550}\u{255d}\n"@
}

/// The problem of the last command of `cmds`, given the commands before it.
pub open spec fn last_problem(cmds: Seq<ManifestCommand>) -> Option<Seq<char>> {
    let c = cmds.last();
    let name = text_or(c.name, Seq::<char>::empty());
    let version = text_or(c.version, Seq::<char>::empty());
    if name.len() == 0 {
        Some(invalid_command_box(crate::build::validation::empty_name_error(manifest_file())))
    } else if version.len() == 0 {
        Some(invalid_command_box(crate::build::validation::empty_version_error(name, manifest_file())))
    } else {
        let full = manifest_full_name(c);
        let k = index_of_full_name(cmds.drop_last(), full);
        if k >= 0 {
            Some(duplicate_box(full, k as nat, (cmds.len() - 1) as nat))
        } else {
            match c.arguments {
                Some(v) => {
                    let b = first_losing(v@);
                    if b >= 0 {
                        Some(storage_box(full, text_or(v@[b].name, Seq::<char>::empty()), v@[b].kind_debug@))
                    } else {
                        None
                    }
                },
                None => None,
            }
        }
    }
}

/// The first problem of a manifest, checking commands in order.
pub open spec fn first_problem(cmds: Seq<ManifestCommand>) -> Option<Seq<char>>
    decreases cmds.len(),
{
    if cmds.len() == 0 {
        None
    } else if first_problem(cmds.drop_last()) is Some {
        first_problem(cmds.drop_last())
    } else {
        last_problem(cmds)
    }
}

proof fn lemma_first_losing_prefix(s: Seq<ManifestArgument>, n: int)
    requires
        0 <= n <= s.len(),
        first_losing(s.take(n)) >= 0,
    ensures
        first_losing(s) == first_losing(s.take(n)),
    decreases s.len() - n,
{
    if n < s.len() {
        assert(s.take(n + 1).drop_last() =~= s.take(n));
        lemma_first_losing_prefix(s, n + 1);
    } else {
        assert(s.take(n) =~= s);
    }
}

proof fn lemma_index_prefix(s: Seq<ManifestCommand>, full: Seq<char>, n: int)
    requires
        0 <= n <= s.len(),
        index_of_full_name(s.take(n), full) >= 0,
    ensures
        index_of_full_name(s, full) == index_of_full_name(s.take(n), full),
    decreases s.len() - n,
{
    if n < s.len() {
        assert(s.take(n + 1).drop_last() =~= s.take(n));
        lemma_index_prefix(s, full, n + 1);
    } else {
        assert(s.take(n) =~= s);
    }
}

proof fn lemma_problem_prefix(s: Seq<ManifestCommand>, n: int)
    requires
        0 <= n <= s.len(),
        first_problem(s.take(n)) is Some,
    ensures
        first_problem(s) == first_problem(s.take(n)),
    decreases s.len() - n,
{
    if n < s.len() {
        assert(s.take(n + 1).drop_last() =~= s.take(n));
        lemma_problem_prefix(s, n + 1);
    } else {
        assert(s.take(n) =~= s);
    }
}

fn is_list_kind_exec(k: &KindField) -> (r: bool)
    ensures
        r == is_list_kind(*k),
{
    match k {
        KindField::Name(s) => crate::text::contains_exec(&chars_of(s.as_str()), &chars_of("List")),
        KindField::Mapping(key) => match key {
            Some(s) => crate::text::str_eq(s.as_str(), "List"),
            None => false,
        },
        KindField::Other => false,
    }
}

fn first_losing_exec(v: &Vec<ManifestArgument>) -> (r: Option<usize>)
    ensures
        r matches Some(b) ==> b as int == first_losing(v@) && b < v@.len(),
        r is None ==> first_losing(v@) == -1,
{
    let mut k: usize = 0;
    assert(v@.take(0) =~= Seq::<ManifestArgument>::empty());
    while k < v.len()
        invariant
            k <= v@.len(),
            first_losing(v@.take(k as int)) == -1,
        decreases v@.len() - k,
    {
        assert(v@.take(k as int + 1).drop_last() =~= v@.take(k as int));
        let a = &v[k];
        if flag_or_exec(a.multiple, false) && !is_list_kind_exec(&a.kind) {
            proof {
                lemma_first_losing_prefix(v@, k as int + 1);
            }
            return Some(k);
        }
        k = k + 1;
    }
    assert(v@.take(v@.len() as int) =~= v@);
    None
}

fn push_fill(out: &mut String, n: usize, used: usize)
    ensures
        final(out)@ == old(out)@ + fill(n as nat, used as nat),
{
    if used >= n {
        crate::text::push_spaces(out, 0);
    } else {
        crate::text::push_spaces(out, n - used);
    }
}

fn invalid_command_box_exec(e: &str) -> (r: String)
    ensures
        r@ == invalid_command_box(e@),
{
    let mut out = owned("\n\u{2554}\u{2550}\u{2550}\u{2550}\u{2550}\u{2550}\u{2550}\u{2550}\u{2550}\u{2550}\u{2550}\u{2550}\u{2550}\u{2550}\u{2550}\u{2550}\u{2550}\u{2550}\u{2550}\u{2550}\u{2550}\u{2550}\u{2550}\u{2550}\u{2550}\u{2550}\u{2550}\u{2550}\u{2550}\u{2550}\u{2550}\u{2550}\u{2550}\u{2550}\u{2550}\u{2550}\u{2550}\u{2550}\u{2550}\u{2550}\u{2550}\u{2550}\u{2550}\u{2550}\u{2550}\u{2550}\u{2550}\u{2550}\u{2550}\u{2550}\u{2550}\u{2550}\u{2550}\u{2550}\u{2550}\u{2550}\u{2550}\u{2550}\u{2550}\u{2550}\u{2550}\u{2550}\u{2550}\u{2550}\u{2550}\u{2550}\u{2550}\u{2550}\u{2550}\u{2550}\u{2550}\u{2550}\u{2550}\u{2550}\u{2550}\u{2550}\u{2550}\u{2550}\u{2550}\u{2557}\n\u{2551} BUILD ERROR: Invalid command definition                                       \u{2551}\n\u{255f}\u{2500}\u{2500}\u{2500}\u{2500}\u{2500}\u{2500}\u{2500}\u{2500}\u{2500}\u{2500}\u{2500}\u{2500}\u{2500}\u{2500}\u{2500}\u{2500}\u{2500}\u{2500}\u{2500}\u{2500}\u{2500}\u{2500}\u{2500}\u{2500}\u{2500}\u{2500}\u{2500}\u{2500}\u{2500}\u{2500}\u{2500}\u{2500}\u{2500}\u{2500}\u{2500}\u{2500}\u{2500}\u{2500}\u{2500}\u{2500}\u{2500}\u{2500}\u{2500}\u{2500}\u{2500}\u{2500}\u{2500}\u{2500}\u{2500}\u{2500}\u{2500}\u{2500}\u{2500}\u{2500}\u{2500}\u{2500}\u{2500}\u{2500}\u{2500}\u{2500}\u{2500}\u{2500}\u{2500}\u{2500}\u{2500}\u{2500}\u{2500}\u{2500}\u{2500}\u{2500}\u{2500}\u{2500}\u{2500}\u{2500}\u{2500}\u{2500}\u{2500}\u{2500}\u{2562}\n\u{2551} ");
    crate::text::push_padded(&mut out, e, 76);
    push_str(&mut out, " \u{2551}\n\u{255f}\u{2500}\u{2500}\u{2500}\u{2500}\u{2500}\u{2500}\u{2500}\u{2500}\u{2500}\u{2500}\u{2500}\u{2500}\u{2500}\u{2500}\u{2500}\u{2500}\u{2500}\u{2500}\u{2500}\u{2500}\u{2500}\u{2500}\u{2500}\u{2500}\u{2500}\u{2500}\u{2500}\u{2500}\u{2500}\u{2500}\u{2500}\u{2500}\u{2500}\u{2500}\u{2500}\u{2500}\u{2500}\u{2500}\u{2500}\u{2500}\u{2500}\u{2500}\u{2500}\u{2500}\u{2500}\u{2500}\u{2500}\u{2500}\u{2500}\u{2500}\u{2500}\u{2500}\u{2500}\u{2500}\u{2500}\u{2500}\u{2500}\u{2500}\u{2500}\u{2500}\u{2500}\u{2500}\u{2500}\u{2500}\u{2500}\u{2500}\u{2550}\u{2550}\u{2550}\u{2550}\u{2550}\u{2550}\u{2550}\u{2550}\u{2500}\u{2500}\u{2500}\u{2500}\u{2562}\n\u{2551} Fix: Ensure command names start with '.' (e.g., '.help', '.chat')             \u{2551}\n\u{2551}      Ensure non-empty namespaces start with '.' (e.g., '.session')            \u{2551}\n\u{2551}      Ensure version is not empty (e.g., '1.0.0')                              \u{2551}\n\u{255a}\u{2550}\u{2550}\u{2550}\u{2550}\u{2550}\u{2550}\u{2550}\u{2550}\u{2550}\u{2550}\u{2550}\u{2550}\u{2550}\u{2550}\u{2550}\u{2550}\u{2550}\u{2550}\u{2550}\u{2550}\u{2550}\u{2550}\u{2550}\u{2550}\u{2550}\u{2550}\u{2550}\u{2550}\u{2550}\u{2550}\u{2550}\u{2550}\u{2550}\u{2550}\u{2550}\u{2550}\u{2550}\u{2550}\u{2550}\u{2550}\u{2550}\u{2550}\u{2550}\u{2550}\u{2550}\u{2550}\u{2550}\u{2550}\u{2550}\u{2550}\u{2550}\u{2550}\u{2550}\u{2550}\u{2550}\u{2550}\u{2550}\u{2550}\u{2550}\u{2550}\u{2550}\u{2550}\u{2550}\u{2550}\u{2550}\u{2550}\u{2550}\u{2550}\u{2550}\u{2550}\u{2550}\u{2550}\u{2550}\u{2550}\u{2550}\u{2550}\u{2550}\u{2550}\u{255d}\n");
    out
}

fn duplicate_box_exec(full: &str, first: usize, i: usize) -> (r: String)
    ensures
        r@ == duplicate_box(full@, first as nat, i as nat),
{
    let mut out = owned("\n\u{2554}\u{2550}\u{2550}\u{2550}\u{2550}\u{2550}\u{2550}\u{2550}\u{2550}\u{2550}\u{2550}\u{2550}\u{2550}\u{2550}\u{2550}\u{2550}\u{2550}\u{2550}\u{2550}\u{2550}\u{2550}\u{2550}\u{2550}\u{2550}\u{2550}\u{2550}\u{2550}\u{2550}\u{2550}\u{2550}\u{2550}\u{2550}\u{2550}\u{2550}\u{2550}\u{2550}\u{2550}\u{2550}\u{2550}\u{2550}\u{2550}\u{2550}\u{2550}\u{2550}\u{2550}\u{2550}\u{2550}\u{2550}\u{2550}\u{2550}\u{2550}\u{2550}\u{2550}\u{2550}\u{2550}\u{2550}\u{2550}\u{2550}\u{2550}\u{2550}\u{2550}\u{2550}\u{2550}\u{2550}\u{2550}\u{2550}\u{2550}\u{2550}\u{2550}\u{2550}\u{2550}\u{2550}\u{2550}\u{2550}\u{2550}\u{2550}\u{2550}\u{2550}\u{2550}\u{2557}\n\u{2551} BUILD ERROR: Duplicate command name detected                                  \u{2551}\n\u{255f}\u{2500}\u{2500}\u{2500}\u{2500}\u{2500}\u{2500}\u{2500}\u{2500}\u{2500}\u{2500}\u{2500}\u{2500}\u{2500}\u{2500}\u{2500}\u{2500}\u{2500}\u{2500}\u{2500}\u{2500}\u{2500}\u{2500}\u{2500}\u{2500}\u{2500}\u{2500}\u{2500}\u{2500}\u{2500}\u{2500}\u{2500}\u{2500}\u{2500}\u{2500}\u{2500}\u{2500}\u{2500}\u{2500}\u{2500}\u{2500}\u{2500}\u{2500}\u{2500}\u{2500}\u{2500}\u{2500}\u{2500}\u{2500}\u{2500}\u{2500}\u{2500}\u{2500}\u{2500}\u{2500}\u{2500}\u{2500}\u{2500}\u{2500}\u{2500}\u{2500}\u{2500}\u{2500}\u{2500}\u{2500}\u{2500}\u{2500}\u{2500}\u{2500}\u{2500}\u{2500}\u{2500}\u{2500}\u{2500}\u{2500}\u{2500}\u{2500}\u{2500}\u{2500}\u{2562}\n\u{2551} Command '");
    push_str(&mut out, full);
    push_str(&mut out, "' is defined multiple times in YAML manifest");
    push_fill(&mut out, 51, full.len());
    push_str(&mut out, "\u{2551}\n\u{2551}                                                                                \u{2551}\n\u{2551} First occurrence: command index ");
    let f = crate::text::decimal(first as u64);
    push_str(&mut out, f.as_str());
    push_fill(&mut out, 67, chars_of(f.as_str()).len());
    push_str(&mut out, "\u{2551}\n\u{2551} Duplicate found:  command index ");
    let d = crate::text::decimal(i as u64);
    push_str(&mut out, d.as_str());
    push_fill(&mut out, 67, chars_of(d.as_str()).len());
    push_str(&mut out, "\u{2551}\n\u{255f}\u{2500}\u{2500}\u{2500}\u{2500}\u{2500}\u{2500}\u{2500}\u{2500}\u{2500}\u{2500}\u{2500}\u{2500}\u{2500}\u{2500}\u{2500}\u{2500}\u{2500}\u{2500}\u{2500}\u{2500}\u{2500}\u{2500}\u{2500}\u{2500}\u{2500}\u{2500}\u{2500}\u{2500}\u{2500}\u{2500}\u{2500}\u{2500}\u{2500}\u{2500}\u{2500}\u{2500}\u{2500}\u{2500}\u{2500}\u{2500}\u{2500}\u{2500}\u{2500}\u{2500}\u{2500}\u{2500}\u{2500}\u{2500}\u{2500}\u{2500}\u{2500}\u{2500}\u{2500}\u{2500}\u{2500}\u{2500}\u{2500}\u{2500}\u{2500}\u{2500}\u{2500}\u{2500}\u{2500}\u{2500}\u{2500}\u{2500}\u{2500}\u{2500}\u{2500}\u{2500}\u{2500}\u{2500}\u{2500}\u{2500}\u{2500}\u{2500}\u{2500}\u{2500}\u{2562}\n\u{2551} Fix: Rename one of the commands or remove the duplicate entry.                \u{2551}\n\u{2551}      All command names must be unique across the entire manifest.             \u{2551}\n\u{2551}                                                                                \u{2551}\n\u{2551} Task 085 Item #3: Prevents silent overwrites and confusing behavior           \u{2551}\n\u{255a}\u{2550}\u{2550}\u{2550}\u{2550}\u{2550}\u{2550}\u{2550}\u{2550}\u{2550}\u{2550}\u{2550}\u{2550}\u{2550}\u{2550}\u{2550}\u{2550}\u{2550}\u{2550}\u{2550}\u{2550}\u{2550}\u{2550}\u{2550}\u{2550}\u{2550}\u{2550}\u{2550}\u{2550}\u{2550}\u{2550}\u{2550}\u{2550}\u{2550}\u{2550}\u{2550}\u{2550}\u{2550}\u{2550}\u{2550}\u{2550}\u{2550}\u{2550}\u{2550}\u{2550}\u{2550}\u{2550}\u{2550}\u{2550}\u{2550}\u{2550}\u{2550}\u{2550}\u{2550}\u{2550}\u{2550}\u{2550}\u{2550}\u{2550}\u{2550}\u{2550}\u{2550}\u{2550}\u{2550}\u{2550}\u{2550}\u{2550}\u{2550}\u{2550}\u{2550}\u{2550}\u{2550}\u{2550}\u{2550}\u{2550}\u{2550}\u{2550}\u{2550}\u{2550}\u{255d}\n");
    assert(out@ =~= duplicate_box(full@, first as nat, i as nat));
    out
}

fn storage_box_exec(full: &str, arg: &str, kind: &str) -> (r: String)
    ensures
        r@ == storage_box(full@, arg@, kind@),
{
    let mut out = owned("\n\u{2554}\u{2550}\u{2550}\u{2550}\u{2550}\u{2550}\u{2550}\u{2550}\u{2550}\u{2550}\u{2550}\u{2550}\u{2550}\u{2550}\u{2550}\u{2550}\u{2550}\u{2550}\u{2550}\u{2550}\u{2550}\u{2550}\u{2550}\u{2550}\u{2550}\u{2550}\u{2550}\u{2550}\u{2550}\u{2550}\u{2550}\u{2550}\u{2550}\u{2550}\u{2550}\u{2550}\u{2550}\u{2550}\u{2550}\u{2550}\u{2550}\u{2550}\u{2550}\u{2550}\u{2550}\u{2550}\u{2550}\u{2550}\u{2550}\u{2550}\u{2550}\u{2550}\u{2550}\u{2550}\u{2550}\u{2550}\u{2550}\u{2550}\u{2550}\u{2550}\u{2550}\u{2550}\u{2550}\u{2550}\u{2550}\u{2550}\u{2550}\u{2550}\u{2550}\u{2550}\u{2550}\u{2550}\u{2550}\u{2550}\u{2550}\u{2550}\u{2550}\u{2550}\u{2550}\u{2557}\n\u{2551} BUILD ERROR: Invalid parameter definition (wplan bug pattern)                 \u{2551}\n\u{255f}\u{2500}\u{2500}\u{2500}\u{2500}\u{2500}\u{2500}\u{2500}\u{2500}\u{2500}\u{2500}\u{2500}\u{2500}\u{2500}\u{2500}\u{2500}\u{2500}\u{2500}\u{2500}\u{2500}\u{2500}\u{2500}\u{2500}\u{2500}\u{2500}\u{2500}\u{2500}\u{2500}\u{2500}\u{2500}\u{2500}\u{2500}\u{2500}\u{2500}\u{2500}\u{2500}\u{2500}\u{2500}\u{2500}\u{2500}\u{2500}\u{2500}\u{2500}\u{2500}\u{2500}\u{2500}\u{2500}\u{2500}\u{2500}\u{2500}\u{2500}\u{2500}\u{2500}\u{2500}\u{2500}\u{2500}\u{2500}\u{2500}\u{2500}\u{2500}\u{2500}\u{2500}\u{2500}\u{2500}\u{2500}\u{2500}\u{2500}\u{2500}\u{2500}\u{2500}\u{2500}\u{2500}\u{2500}\u{2500}\u{2500}\u{2500}\u{2500}\u{2500}\u{2500}\u{2562}\n\u{2551} Command:   ");
    push_str(&mut out, full);
    push_fill(&mut out, 68, full.len());
    push_str(&mut out, "\u{2551}\n\u{2551} Parameter: ");
    push_str(&mut out, arg);
    push_fill(&mut out, 68, arg.len());
    push_str(&mut out, "\u{2551}\n\u{2551} Problem:   multiple:true but storage type is NOT List                         \u{2551}\n\u{2551}                                                                                \u{2551}\n\u{2551} Current kind: ");
    push_str(&mut out, kind);
    push_fill(&mut out, 63, kind.len());
    push_str(&mut out, "\u{2551}\n\u{2551}                                                                                \u{2551}\n\u{2551} This causes silent data loss when multiple values overwrite each other.       \u{2551}\n\u{255f}\u{2500}\u{2500}\u{2500}\u{2500}\u{2500}\u{2500}\u{2500}\u{2500}\u{2500}\u{2500}\u{2500}\u{2500}\u{2500}\u{2500}\u{2500}\u{2500}\u{2500}\u{2500}\u{2500}\u{2500}\u{2500}\u{2500}\u{2500}\u{2500}\u{2500}\u{2500}\u{2500}\u{2500}\u{2500}\u{2500}\u{2500}\u{2500}\u{2500}\u{2500}\u{2500}\u{2500}\u{2500}\u{2500}\u{2500}\u{2500}\u{2500}\u{2500}\u{2500}\u{2500}\u{2500}\u{2500}\u{2500}\u{2500}\u{2500}\u{2500}\u{2500}\u{2500}\u{2500}\u{2500}\u{2500}\u{2500}\u{2500}\u{2500}\u{2500}\u{2500}\u{2500}\u{2500}\u{2500}\u{2500}\u{2500}\u{2500}\u{2500}\u{2500}\u{2500}\u{2500}\u{2500}\u{2500}\u{2500}\u{2500}\u{2500}\u{2500}\u{2500}\u{2500}\u{2562}\n\u{2551} Fix: Change parameter kind to List storage:                                   \u{2551}\n\u{2551}                                                                                \u{2551}\n\u{2551}   kind: {List: [\"String\", null]}  # For string values                        \u{2551}\n\u{2551}   kind: {List: [\"Integer\", null]} # For integer values                       \u{2551}\n\u{2551}                                                                                \u{2551}\n\u{2551} Task 085 Item #5: Prevents the wplan bug pattern                              \u{2551}\n\u{255a}\u{2550}\u{2550}\u{2550}\u{2550}\u{2550}\u{2550}\u{2550}\u{2550}\u{2550}\u{2550}\u{2550}\u{2550}\u{2550}\u{2550}\u{2550}\u{2550}\u{2550}\u{2550}\u{2550}\u{2550}\u{2550}\u{2550}\u{2550}\u{2550}\u{2550}\u{2550}\u{2550}\u{2550}\u{2550}\u{2550}\u{2550}\u{2550}\u{2550}\u{2550}\u{2550}\u{2550}\u{2550}\u{2550}\u{2550}\u{2550}\u{2550}\u{2550}\u{2550}\u{2550}\u{2550}\u{2550}\u{2550}\u{2550}\u{2550}\u{2550}\u{2550}\u{2550}\u{2550}\u{2550}\u{2550}\u{2550}\u{2550}\u{2550}\u{2550}\u{2550}\u{2550}\u{2550}\u{2550}\u{2550}\u{2550}\u{2550}\u{2550}\u{2550}\u{2550}\u{2550}\u{2550}\u{2550}\u{2550}\u{2550}\u{2550}\u{2550}\u{2550}\u{2550}\u{255d}\n");
    assert(out@ =~= storage_box(full@, arg@, kind@));
    out
}

/// Checks the `i`-th command against the rules and the commands before it,
/// whose full names are `seen`.
fn manifest_full_name_exec(c: &ManifestCommand) -> (r: String)
    ensures
        r@ == manifest_full_name(*c),
{
    proof {
        reveal_strlit("");
        assert(""@ =~= Seq::<char>::empty());
    }
    crate::build::validation::compute_full_name(text_or_exec(&c.namespace, ""), text_or_exec(&c.name, ""))
}

fn check_command(cmds: &Vec<ManifestCommand>, i: usize, seen: &Vec<String>) -> (r: Option<String>)
    requires
        i < cmds@.len(),
        seen@.len() == i,
        forall|k: int| 0 <= k < i ==> (#[trigger] seen@[k])@ == manifest_full_name(cmds@[k]),
    ensures
        match r {
            Some(m) => last_problem(cmds@.take(i as int + 1)) == Some(m@),
            None => last_problem(cmds@.take(i as int + 1)) is None,
        },
{
    let ghost pre = cmds@.take(i as int + 1);
    assert(pre.last() == cmds@[i as int]);
    assert(pre.drop_last() =~= cmds@.take(i as int));
    let c = &cmds[i];
    let name = text_or_exec(&c.name, "");
    let namespace = text_or_exec(&c.namespace, "");
    let version = text_or_exec(&c.version, "");
    proof {
        reveal_strlit("");
        assert(""@ =~= Seq::<char>::empty());
    }
    match crate::build::validation::validate_command(name, namespace, version, "unilang.commands.yaml") {
        Ok(()) => {},
        Err(e) => {
            return Some(invalid_command_box_exec(e.as_str()));
        },
    }
    let full = crate::build::validation::compute_full_name(namespace, name);
    assert(full@ == manifest_full_name(cmds@[i as int]));
    let mut k: usize = 0;
    assert(cmds@.take(0) =~= Seq::<ManifestCommand>::empty());
    while k < i
        invariant
            k <= i,
            i < cmds@.len(),
            full@ == manifest_full_name(cmds@[i as int]),
            text_or(cmds@[i as int].name, Seq::<char>::empty()).len() > 0,
            text_or(cmds@[i as int].version, Seq::<char>::empty()).len() > 0,
            seen@.len() == i,
            forall|m: int| 0 <= m < i ==> (#[trigger] seen@[m])@ == manifest_full_name(cmds@[m]),
            index_of_full_name(cmds@.take(k as int), full@) == -1,
        decreases i - k,
    {
        assert(cmds@.take(k as int + 1).drop_last() =~= cmds@.take(k as int));
        assert(cmds@.take(k as int + 1).last() == cmds@[k as int]);
        if crate::text::str_eq(seen[k].as_str(), full.as_str()) {
            proof {
                assert(index_of_full_name(cmds@.take(k as int + 1), full@) == k);
                assert(cmds@.take(i as int).take(k as int + 1) =~= cmds@.take(k as int + 1));
                lemma_index_prefix(cmds@.take(i as int), full@, k as int + 1);
                let pre = cmds@.take(i as int + 1);
                assert(pre.last() == cmds@[i as int]);
                assert(pre.drop_last() =~= cmds@.take(i as int));
            }
            return Some(duplicate_box_exec(full.as_str(), k, i));
        }
        k = k + 1;
    }
    match &c.arguments {
        Some(v) => match first_losing_exec(v) {
            Some(b) => {
                let arg_name = text_or_exec(&v[b].name, "");
                Some(storage_box_exec(full.as_str(), arg_name, v[b].kind_debug.as_str()))
            },
            None => None,
        },
        None => None,
    }
}

fn imports_exec(cmds: &Vec<ManifestCommand>) -> (r: &'static str)
    ensures
        r@ == imports_text(cmds@),
{
    let mut k: usize = 0;
    while k < cmds.len()
        invariant
            k <= cmds@.len(),
            forall|m: int| 0 <= m < k ==> !has_args(#[trigger] cmds@[m]),
        decreases cmds@.len() - k,
    {
        if has_args_exec(&cmds[k]) {
            return "use ::unilang::static_data::{StaticCommandDefinition, StaticArgumentDefinition, StaticArgumentAttributes, StaticKind};\n";
        }
        k = k + 1;
    }
    "use ::unilang::static_data::StaticCommandDefinition;\n"
}

fn push_table_entries(out: &mut String, cmds: &Vec<ManifestCommand>)
    ensures
        final(out)@ == old(out)@ + table_entries(cmds@),
{
    let ghost start = old(out)@;
    let mut k: usize = 0;
    assert(cmds@.take(0) =~= Seq::<ManifestCommand>::empty());
    while k < cmds.len()
        invariant
            k <= cmds@.len(),
            out@ == start + table_entries(cmds@.take(k as int)),
        decreases cmds@.len() - k,
    {
        assert(cmds@.take(k as int + 1).drop_last() =~= cmds@.take(k as int));
        push_table_entry(out, k as u64, &cmds[k]);
        proof {
            vstd::seq_lib::lemma_concat_associative(start, table_entries(cmds@.take(k as int)),
                table_entry(k as nat, cmds@[k as int]));
        }
        k = k + 1;
    }
    assert(cmds@.take(cmds@.len() as int) =~= cmds@);
}

fn push_table_tail(out: &mut String, cmds: &Vec<ManifestCommand>)
    ensures
        final(out)@ == old(out)@ + table_tail(cmds@),
{
    let ghost start = old(out)@;
    push_str(out, "const STATIC_COMMANDS_PHF: phf::Map<&'static str, &'static StaticCommandDefinition> = phf_map! {");
    push_str(out, "\n");
    push_table_entries(out, cmds);
    push_str(out, "};");
    push_str(out, "\n");
    push_str(out, "\n");
    push_str(out, "/// Static command registry (compile-time generated).\n/// \n/// This map provides zero-overhead lookup of compile-time registered commands.\n/// Commands are keyed by their full name (e.g., \".help\" or \"namespace.command\").\n/// \n/// No PHF dependency required for crates using this registry.\npub static STATIC_COMMANDS: StaticCommandMap = StaticCommandMap::from_phf_internal(&STATIC_COMMANDS_PHF);\n");
    assert(out@ =~= start + table_tail(cmds@));
}

/// One more command of a manifest adds its constants to the table, and
/// keeps it free of problems when that command has none.
proof fn lemma_table_step(cmds: Seq<ManifestCommand>, i: int)
    requires
        0 <= i < cmds.len(),
    ensures
        all_command_consts(cmds.take(i + 1)) == all_command_consts(cmds.take(i)) + command_const_text(i as nat, cmds[i]),
        first_problem(cmds.take(i)) is None && last_problem(cmds.take(i + 1)) is None ==> first_problem(cmds.take(i + 1)) is None,
{
    assert(cmds.take(i + 1).drop_last() =~= cmds.take(i));
}

/// Generates the static command table of a manifest.
///
/// Each command is checked in order: a name and a version must be present,
/// its full name must not repeat an earlier command's, and a repeatable
/// argument must be stored as a list. The first failure is returned as the
/// message the build stops with; otherwise the table's source text.
#[verifier::rlimit(30)]
pub fn generate_static_commands(cmds: &Vec<ManifestCommand>) -> (r: Result<String, String>)
    ensures
        match first_problem(cmds@) {
            Some(m) => r matches Err(e) && e@ == m,
            None => r matches Ok(t) && t@ == static_commands_text(cmds@),
        },
{
    let mut out = owned("// Generated static commands\nuse unilang::phf::phf_map;\nuse ::unilang::static_data::StaticCommandMap;\n");
    push_str(&mut out, imports_exec(cmds));
    push_str(&mut out, "\n");
    let ghost head = out@;
    assert(head =~= table_header(cmds@));
    let mut seen: Vec<String> = Vec::new();
    let mut i: usize = 0;
    assert(cmds@.take(0) =~= Seq::<ManifestCommand>::empty());
    while i < cmds.len()
        invariant
            i <= cmds@.len(),
            seen@.len() == i,
            forall|k: int| 0 <= k < i ==> (#[trigger] seen@[k])@ == manifest_full_name(cmds@[k]),
            first_problem(cmds@.take(i as int)) is None,
            out@ == head + all_command_consts(cmds@.take(i as int)),
        decreases cmds@.len() - i,
    {
        let ghost pre = cmds@.take(i as int + 1);
        assert(pre.drop_last() =~= cmds@.take(i as int));
        match check_command(cmds, i, &seen) {
            Some(m) => {
                proof {
                    lemma_problem_prefix(cmds@, i as int + 1);
                }
                return Err(m);
            },
            None => {},
        }
        proof {
            lemma_table_step(cmds@, i as int);
        }
        generate_command_const(&mut out, i as u64, &cmds[i]);
        proof {
            vstd::seq_lib::lemma_concat_associative(head, all_command_consts(cmds@.take(i as int)),
                command_const_text(i as nat, cmds@[i as int]));
        }
        let full = manifest_full_name_exec(&cmds[i]);
        let ghost seen_before = seen@;
        seen.push(full);
        proof {
            assert forall|k: int| 0 <= k < i + 1 implies (#[trigger] seen@[k])@ == manifest_full_name(cmds@[k]) by {
                if k < i {
                    assert(seen@[k] == seen_before[k]);
                }
            }
        }
        i = i + 1;
    }
    assert(cmds@.take(cmds@.len() as int) =~= cmds@);
    push_table_tail(&mut out, cmds);
    proof {
        vstd::seq_lib::lemma_concat_associative(head, all_command_consts(cmds@), table_tail(cmds@));
    }
    Ok(out)
}

/// The text of the table generated when there is no manifest.
pub open spec fn empty_table_text() -> Seq<char> {
    "// Generated static commands (empty)\nuse unilang::phf::phf_map;\nuse ::unilang::static_data::{StaticCommandDefinition, StaticCommandMap};\n\n/// Static command registry (compile-time generated).\n/// \n/// This provides zero-overhead lookup of compile-time registered commands.\n/// No PHF dependency required for crates using this registry.\n\nconst STATIC_COMMANDS_PHF: phf::Map<&'static str, &'static StaticCommandDefinition> = phf_map! {};\n\npub static STATIC_COMMANDS: StaticCommandMap = StaticCommandMap::from_phf_internal(&STATIC_COMMANDS_PHF);\n"@
}

/// Generates the table used when there is no manifest: no commands.
pub fn generate_empty_phf() -> (r: String)
    ensures
        r@ == empty_table_text(),
{
    owned("// Generated static commands (empty)\nuse unilang::phf::phf_map;\nuse ::unilang::static_data::{StaticCommandDefinition, StaticCommandMap};\n\n/// Static command registry (compile-time generated).\n/// \n/// This provides zero-overhead lookup of compile-time registered commands.\n/// No PHF dependency required for crates using this registry.\n\nconst STATIC_COMMANDS_PHF: phf::Map<&'static str, &'static StaticCommandDefinition> = phf_map! {};\n\npub static STATIC_COMMANDS: StaticCommandMap = StaticCommandMap::from_phf_internal(&STATIC_COMMANDS_PHF);\n")
}
} // verus!
