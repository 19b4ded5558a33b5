//! Help texts for commands: the formats at each level of detail, the
//! example commands derived for a parameter, and parameter look-up.

use vstd::prelude::*;
use crate::data::argument::{ ArgumentDefinition, ArgumentView, args_view };
use crate::data::command_definition::{ CommandDefinition, CommandView, full_name_of };
use crate::data::command_status::status_text;
use crate::data::kind::{ Kind, KindView, kind_text, kind_debug, strs, push_joined };
use crate::debug_text::{ to_lowercase, lowercase_text };
use crate::text::{ owned, push_str, push_char, chars_of, join, dec_text, push_decimal, starts_with };

verus! {

broadcast use vstd::string::group_string_axioms;

/// Which parts of a command's metadata help texts show.
#[derive(Debug, Clone, Copy, PartialEq, Eq, Structural)]
pub struct HelpOptions {
    /// Show the command's version.
    pub show_version: bool,
    /// Show the command's status.
    pub show_status: bool,
    /// Show the command's aliases.
    pub show_aliases: bool,
    /// Show the command's tags.
    pub show_tags: bool,
}

/// A kind's `Debug` form in lower case, as the compact help writes kinds.
pub open spec fn kind_lower_text(k: KindView) -> Seq<char> {
    lowercase_text(kind_debug(k))
}

/// A kind's `Debug` form in lower case.
pub fn format_kind(kind: &Kind) -> (r: String)
    ensures
        r@ == kind_lower_text(kind@),
{
    to_lowercase(kind.to_debug_text().as_str())
}

/// The attribute note of an argument line: ` - Optional`, ` - Multiple`,
/// both, or nothing.
pub open spec fn status_note(optional: bool, multiple: bool) -> Seq<char> {
    if optional && multiple {
        " - Optional, Multiple"@
    } else if optional {
        " - Optional"@
    } else if multiple {
        " - Multiple"@
    } else {
        Seq::<char>::empty()
    }
}

fn push_status_note(out: &mut String, optional: bool, multiple: bool)
    ensures
        final(out)@ == old(out)@ + status_note(optional, multiple),
{
    if optional && multiple {
        push_str(out, " - Optional, Multiple");
    } else if optional {
        push_str(out, " - Optional");
    } else if multiple {
        push_str(out, " - Multiple");
    }
    assert(out@ =~= old(out)@ + status_note(optional, multiple));
}

/// The rules line of an argument, when it has rules.
pub open spec fn rules_line(rules: Seq<Seq<char>>) -> Seq<char> {
    if rules.len() > 0 { "  Rules: ["@ + join(rules, ", "@) + "]"@ + "\n"@ } else { Seq::<char>::empty() }
}

fn push_rules_line(out: &mut String, rules: &Vec<String>)
    ensures
        final(out)@ == old(out)@ + rules_line(strs(rules@)),
{
    if rules.len() > 0 {
        let ghost start = old(out)@;
        push_str(out, "  Rules: [");
        push_joined(out, rules, ", ");
        push_str(out, "]");
        push_str(out, "\n");
        assert(out@ =~= start + rules_line(strs(rules@)));
    } else {
        assert(out@ =~= old(out)@ + rules_line(strs(rules@)));
    }
}

/// A line `  <text>` when the text is not empty.
pub open spec fn indented_if_any(text: Seq<char>) -> Seq<char> {
    if text.len() > 0 { "  "@ + text + "\n"@ } else { Seq::<char>::empty() }
}

fn push_indented_if_any(out: &mut String, text: &str)
    ensures
        final(out)@ == old(out)@ + indented_if_any(text@),
{
    if chars_of(text).len() > 0 {
        push_str(out, "  ");
        push_str(out, text);
        push_str(out, "\n");
    }
    assert(out@ =~= old(out)@ + indented_if_any(text@));
}

/// What an argument line of the standard help says about the argument:
/// its description, else its hint, else nothing.
pub open spec fn description_or_hint(a: ArgumentView) -> Seq<char> {
    if a.description.len() > 0 { a.description } else if a.hint.len() > 0 { a.hint } else { Seq::<char>::empty() }
}

fn description_or_hint_exec(a: &ArgumentDefinition) -> (r: &str)
    ensures
        r@ == description_or_hint(a@),
{
    proof {
        reveal_strlit("");
    }
    if chars_of(a.description.as_str()).len() > 0 {
        a.description.as_str()
    } else if chars_of(a.hint.as_str()).len() > 0 {
        a.hint.as_str()
    } else {
        ""
    }
}

/// The block of one argument in the standard help.
pub open spec fn standard_argument_text(a: ArgumentView) -> Seq<char> {
    a.name + " (Type: "@ + kind_lower_text(a.kind) + ")"@ + status_note(a.optional, a.multiple) + "\n"@ + indented_if_any(description_or_hint(a)) + rules_line(a.validation_rules) + "\n"@
}

fn push_standard_argument(out: &mut String, a: &ArgumentDefinition)
    ensures
        final(out)@ == old(out)@ + standard_argument_text(a@),
{
    let ghost start = old(out)@;
    proof { reveal_strlit(""); }
    push_str(out, a.name.as_str());
    push_str(out, " (Type: ");
    let ghost mut acc = a@.name;
    proof { acc = crate::text::lemma_extend(start, acc, " (Type: "@); }
    push_str(out, format_kind(&a.kind).as_str());
    proof { acc = crate::text::lemma_extend(start, acc, kind_lower_text(a@.kind)); }
    push_str(out, ")");
    proof { acc = crate::text::lemma_extend(start, acc, ")"@); }
    push_status_note(out, a.attributes.optional, a.attributes.multiple);
    proof { acc = crate::text::lemma_extend(start, acc, status_note(a@.optional, a@.multiple)); }
    push_str(out, "\n");
    proof { acc = crate::text::lemma_extend(start, acc, "\n"@); }
    push_indented_if_any(out, description_or_hint_exec(a));
    proof { acc = crate::text::lemma_extend(start, acc, indented_if_any(description_or_hint(a@))); }
    push_rules_line(out, &a.validation_rules);
    proof { acc = crate::text::lemma_extend(start, acc, rules_line(a@.validation_rules)); }
    push_str(out, "\n");
    proof { acc = crate::text::lemma_extend(start, acc, "\n"@); }
}

/// The head of an argument's line: its name and, in brackets, its kind.
pub open spec fn argument_line_head(a: ArgumentView, kind: Seq<char>) -> Seq<char> {
    a.name + " (Type: "@ + kind + ")"@
}

/// In the standard and the detailed help, an argument's line ends, after
/// its name and kind, with ` - Optional` exactly when the argument is
/// optional, ` - Multiple` exactly when it takes several values, both
/// joined as ` - Optional, Multiple`, and nothing else before the line
/// break.
pub proof fn lemma_argument_line_notes(a: ArgumentView)
    ensures
        ({
            let hs = argument_line_head(a, kind_lower_text(a.kind));
            let hd = argument_line_head(a, kind_text(a.kind));
            let note = if a.optional && a.multiple {
                " - Optional, Multiple\n"@
            } else if a.optional {
                " - Optional\n"@
            } else if a.multiple {
                " - Multiple\n"@
            } else {
                "\n"@
            };
            &&& starts_with(standard_argument_text(a), hs + note)
            &&& starts_with(detailed_argument_text(a), hd + note)
        }),
{
    reveal_strlit(" - Optional, Multiple");
    reveal_strlit(" - Optional");
    reveal_strlit(" - Multiple");
    reveal_strlit("\n");
    reveal_strlit(" - Optional, Multiple\n");
    reveal_strlit(" - Optional\n");
    reveal_strlit(" - Multiple\n");
    let hs = argument_line_head(a, kind_lower_text(a.kind));
    let hd = argument_line_head(a, kind_text(a.kind));
    let n = status_note(a.optional, a.multiple);
    let note = n + "\n"@;
    assert(standard_argument_text(a) =~= (hs + note) + (indented_if_any(description_or_hint(a)) + rules_line(a.validation_rules) + "\n"@));
    assert(detailed_argument_text(a) =~= (hd + note) + (detailed_hint_lines(a) + rules_line(a.validation_rules) + "\n"@));
    assert(standard_argument_text(a).take((hs + note).len() as int) =~= hs + note);
    assert(detailed_argument_text(a).take((hd + note).len() as int) =~= hd + note);
    if a.optional && a.multiple {
        assert(note =~= " - Optional, Multiple\n"@);
    } else if a.optional {
        assert(note =~= " - Optional\n"@);
    } else if a.multiple {
        assert(note =~= " - Multiple\n"@);
    } else {
        assert(note =~= "\n"@);
    }
}

/// The argument blocks of the standard help.
pub open spec fn standard_arguments_text(xs: Seq<ArgumentView>) -> Seq<char>
    decreases xs.len(),
{
    if xs.len() == 0 {
        Seq::<char>::empty()
    } else {
        standard_arguments_text(xs.drop_last()) + standard_argument_text(xs.last())
    }
}

fn push_standard_arguments(out: &mut String, xs: &Vec<ArgumentDefinition>)
    ensures
        final(out)@ == old(out)@ + standard_arguments_text(args_view(xs@)),
{
    let ghost start = old(out)@;
    let ghost v = args_view(xs@);
    let mut i: usize = 0;
    assert(v.take(0) =~= Seq::<ArgumentView>::empty());
    while i < xs.len()
        invariant
            i <= xs@.len(),
            v == args_view(xs@),
            out@ == start + standard_arguments_text(v.take(i as int)),
        decreases xs@.len() - i,
    {
        assert(v.take(i as int + 1).drop_last() =~= v.take(i as int));
        assert(v[i as int] == xs@[i as int]@);
        let x = &xs[i];
        push_standard_argument(out, x);
        proof {
            vstd::seq_lib::lemma_concat_associative(start, standard_arguments_text(v.take(i as int)), standard_argument_text(x@));
        }
        i = i + 1;
    }
    assert(v.take(xs@.len() as int) =~= v);
}

/// The hint line of an argument in the detailed help.
pub open spec fn detailed_hint_lines(a: ArgumentView) -> Seq<char> {
    if a.description.len() > 0 {
        "  "@ + a.description + "\n"@ + if a.hint.len() > 0 && a.hint != a.description {
            "  ("@ + a.hint + ")"@ + "\n"@
        } else {
            Seq::<char>::empty()
        }
    } else if a.hint.len() > 0 {
        "  "@ + a.hint + "\n"@
    } else {
        Seq::<char>::empty()
    }
}

fn push_detailed_hint_lines(out: &mut String, a: &ArgumentDefinition)
    ensures
        final(out)@ == old(out)@ + detailed_hint_lines(a@),
{
    let d = chars_of(a.description.as_str());
    let h = chars_of(a.hint.as_str());
    if d.len() > 0 {
        push_str(out, "  ");
        push_str(out, a.description.as_str());
        push_str(out, "\n");
        if h.len() > 0 && !crate::text::chars_eq(&h, &d) {
            push_str(out, "  (");
            push_str(out, a.hint.as_str());
            push_str(out, ")");
            push_str(out, "\n");
        }
    } else if h.len() > 0 {
        push_str(out, "  ");
        push_str(out, a.hint.as_str());
        push_str(out, "\n");
    }
    assert(out@ =~= old(out)@ + detailed_hint_lines(a@));
}

/// The block of one argument in the detailed help.
pub open spec fn detailed_argument_text(a: ArgumentView) -> Seq<char> {
    a.name + " (Type: "@ + kind_text(a.kind) + ")"@ + status_note(a.optional, a.multiple) + "\n"@ + detailed_hint_lines(a) + rules_line(a.validation_rules) + "\n"@
}

fn push_detailed_argument(out: &mut String, a: &ArgumentDefinition)
    ensures
        final(out)@ == old(out)@ + detailed_argument_text(a@),
{
    let ghost start = old(out)@;
    push_str(out, a.name.as_str());
    push_str(out, " (Type: ");
    let ghost mut acc = a@.name;
    proof { acc = crate::text::lemma_extend(start, acc, " (Type: "@); }
    a.kind.push_text(out);
    proof { acc = crate::text::lemma_extend(start, acc, kind_text(a@.kind)); }
    push_str(out, ")");
    proof { acc = crate::text::lemma_extend(start, acc, ")"@); }
    push_status_note(out, a.attributes.optional, a.attributes.multiple);
    proof { acc = crate::text::lemma_extend(start, acc, status_note(a@.optional, a@.multiple)); }
    push_str(out, "\n");
    proof { acc = crate::text::lemma_extend(start, acc, "\n"@); }
    push_detailed_hint_lines(out, a);
    proof { acc = crate::text::lemma_extend(start, acc, detailed_hint_lines(a@)); }
    push_rules_line(out, &a.validation_rules);
    proof { acc = crate::text::lemma_extend(start, acc, rules_line(a@.validation_rules)); }
    push_str(out, "\n");
    proof { acc = crate::text::lemma_extend(start, acc, "\n"@); }
}

/// The argument blocks of the detailed help.
pub open spec fn detailed_arguments_text(xs: Seq<ArgumentView>) -> Seq<char>
    decreases xs.len(),
{
    if xs.len() == 0 {
        Seq::<char>::empty()
    } else {
        detailed_arguments_text(xs.drop_last()) + detailed_argument_text(xs.last())
    }
}

fn push_detailed_arguments(out: &mut String, xs: &Vec<ArgumentDefinition>)
    ensures
        final(out)@ == old(out)@ + detailed_arguments_text(args_view(xs@)),
{
    let ghost start = old(out)@;
    let ghost v = args_view(xs@);
    let mut i: usize = 0;
    assert(v.take(0) =~= Seq::<ArgumentView>::empty());
    while i < xs.len()
        invariant
            i <= xs@.len(),
            v == args_view(xs@),
            out@ == start + detailed_arguments_text(v.take(i as int)),
        decreases xs@.len() - i,
    {
        assert(v.take(i as int + 1).drop_last() =~= v.take(i as int));
        assert(v[i as int] == xs@[i as int]@);
        let x = &xs[i];
        push_detailed_argument(out, x);
        proof {
            vstd::seq_lib::lemma_concat_associative(start, detailed_arguments_text(v.take(i as int)), detailed_argument_text(x@));
        }
        i = i + 1;
    }
    assert(v.take(xs@.len() as int) =~= v);
}

/// The usage word of one argument: `[name::<value>]` when optional.
pub open spec fn usage_word(a: ArgumentView) -> Seq<char> {
    if a.optional { " ["@ + a.name + "::<value>]"@ } else { " "@ + a.name + "::<value>"@ }
}

fn push_usage_word(out: &mut String, a: &ArgumentDefinition)
    ensures
        final(out)@ == old(out)@ + usage_word(a@),
{
    if a.attributes.optional {
        push_str(out, " [");
        push_str(out, a.name.as_str());
        push_str(out, "::<value>]");
    } else {
        push_str(out, " ");
        push_str(out, a.name.as_str());
        push_str(out, "::<value>");
    }
    assert(out@ =~= old(out)@ + usage_word(a@));
}

/// A line with four spaces of indent.
pub open spec fn deep_line(text: Seq<char>) -> Seq<char> {
    "    "@ + text + "\n"@
}

/// The description and hint lines of an argument in the comprehensive help.
pub open spec fn comprehensive_text_lines(a: ArgumentView) -> Seq<char> {
    (if a.description.len() > 0 { deep_line(a.description) } else { Seq::<char>::empty() })
        + (if a.hint.len() > 0 && a.hint != a.description { deep_line(a.hint) } else { Seq::<char>::empty() })
}

fn push_comprehensive_text_lines(out: &mut String, a: &ArgumentDefinition)
    ensures
        final(out)@ == old(out)@ + comprehensive_text_lines(a@),
{
    let d = chars_of(a.description.as_str());
    let h = chars_of(a.hint.as_str());
    if d.len() > 0 {
        push_str(out, "    ");
        push_str(out, a.description.as_str());
        push_str(out, "\n");
    }
    if h.len() > 0 && !crate::text::chars_eq(&h, &d) {
        push_str(out, "    ");
        push_str(out, a.hint.as_str());
        push_str(out, "\n");
    }
    assert(out@ =~= old(out)@ + comprehensive_text_lines(a@));
}

/// The attribute lines of an argument in the comprehensive help.
pub open spec fn comprehensive_flag_lines(a: ArgumentView) -> Seq<char> {
    (if a.optional { "    Optional: yes"@ + "\n"@ } else { Seq::<char>::empty() })
        + (if a.multiple { "    Multiple values: yes"@ + "\n"@ } else { Seq::<char>::empty() })
}

fn push_comprehensive_flag_lines(out: &mut String, a: &ArgumentDefinition)
    ensures
        final(out)@ == old(out)@ + comprehensive_flag_lines(a@),
{
    if a.attributes.optional {
        push_str(out, "    Optional: yes");
        push_str(out, "\n");
    }
    if a.attributes.multiple {
        push_str(out, "    Multiple values: yes");
        push_str(out, "\n");
    }
    assert(out@ =~= old(out)@ + comprehensive_flag_lines(a@));
}

/// The lines listing validation rules.
pub open spec fn rule_items(rules: Seq<Seq<char>>) -> Seq<char>
    decreases rules.len(),
{
    if rules.len() == 0 {
        Seq::<char>::empty()
    } else {
        rule_items(rules.drop_last()) + "      - "@ + rules.last() + "\n"@
    }
}

/// The validation section of an argument, when it has rules.
pub open spec fn validation_lines(rules: Seq<Seq<char>>) -> Seq<char> {
    if rules.len() > 0 { "    Validation:"@ + "\n"@ + rule_items(rules) } else { Seq::<char>::empty() }
}

fn push_validation_lines(out: &mut String, rules: &Vec<String>)
    ensures
        final(out)@ == old(out)@ + validation_lines(strs(rules@)),
{
    let ghost start = old(out)@;
    let ghost rv = strs(rules@);
    if rules.len() > 0 {
        push_str(out, "    Validation:");
        push_str(out, "\n");
        let ghost head = out@;
        let mut i: usize = 0;
        assert(rv.take(0) =~= Seq::<Seq<char>>::empty());
        while i < rules.len()
            invariant
                i <= rules@.len(),
                rv == strs(rules@),
                out@ == head + rule_items(rv.take(i as int)),
            decreases rules@.len() - i,
        {
            assert(rv.take(i as int + 1).drop_last() =~= rv.take(i as int));
            push_str(out, "      - ");
            push_str(out, rules[i].as_str());
            push_str(out, "\n");
            i = i + 1;
            assert(out@ =~= head + rule_items(rv.take(i as int)));
        }
        assert(rv.take(rules@.len() as int) =~= rv);
    }
    assert(out@ =~= start + validation_lines(rv));
}

/// The block of one argument in the comprehensive help.
pub open spec fn comprehensive_argument_text(a: ArgumentView) -> Seq<char> {
    "  "@ + a.name + "::<value>"@ + "\n"@ + comprehensive_text_lines(a) + "    Type: "@ + kind_text(a.kind) + "\n"@ + comprehensive_flag_lines(a) + validation_lines(a.validation_rules) + "\n"@
}

fn push_comprehensive_argument(out: &mut String, a: &ArgumentDefinition)
    ensures
        final(out)@ == old(out)@ + comprehensive_argument_text(a@),
{
    let ghost start = old(out)@;
    push_str(out, "  ");
    push_str(out, a.name.as_str());
    let ghost mut acc = "  "@;
    proof { acc = crate::text::lemma_extend(start, acc, a@.name); }
    push_str(out, "::<value>");
    proof { acc = crate::text::lemma_extend(start, acc, "::<value>"@); }
    push_str(out, "\n");
    proof { acc = crate::text::lemma_extend(start, acc, "\n"@); }
    push_comprehensive_text_lines(out, a);
    proof { acc = crate::text::lemma_extend(start, acc, comprehensive_text_lines(a@)); }
    push_str(out, "    Type: ");
    proof { acc = crate::text::lemma_extend(start, acc, "    Type: "@); }
    a.kind.push_text(out);
    proof { acc = crate::text::lemma_extend(start, acc, kind_text(a@.kind)); }
    push_str(out, "\n");
    proof { acc = crate::text::lemma_extend(start, acc, "\n"@); }
    push_comprehensive_flag_lines(out, a);
    proof { acc = crate::text::lemma_extend(start, acc, comprehensive_flag_lines(a@)); }
    push_validation_lines(out, &a.validation_rules);
    proof { acc = crate::text::lemma_extend(start, acc, validation_lines(a@.validation_rules)); }
    push_str(out, "\n");
    proof { acc = crate::text::lemma_extend(start, acc, "\n"@); }
}

/// The argument blocks of the comprehensive help.
pub open spec fn comprehensive_arguments_text(xs: Seq<ArgumentView>) -> Seq<char>
    decreases xs.len(),
{
    if xs.len() == 0 {
        Seq::<char>::empty()
    } else {
        comprehensive_arguments_text(xs.drop_last()) + comprehensive_argument_text(xs.last())
    }
}

fn push_comprehensive_arguments(out: &mut String, xs: &Vec<ArgumentDefinition>)
    ensures
        final(out)@ == old(out)@ + comprehensive_arguments_text(args_view(xs@)),
{
    let ghost start = old(out)@;
    let ghost v = args_view(xs@);
    let mut i: usize = 0;
    assert(v.take(0) =~= Seq::<ArgumentView>::empty());
    while i < xs.len()
        invariant
            i <= xs@.len(),
            v == args_view(xs@),
            out@ == start + comprehensive_arguments_text(v.take(i as int)),
        decreases xs@.len() - i,
    {
        assert(v.take(i as int + 1).drop_last() =~= v.take(i as int));
        assert(v[i as int] == xs@[i as int]@);
        let x = &xs[i];
        push_comprehensive_argument(out, x);
        proof {
            vstd::seq_lib::lemma_concat_associative(start, comprehensive_arguments_text(v.take(i as int)), comprehensive_argument_text(x@));
        }
        i = i + 1;
    }
    assert(v.take(xs@.len() as int) =~= v);
}

/// The usage words of the arguments.
pub open spec fn usage_words(xs: Seq<ArgumentView>) -> Seq<char>
    decreases xs.len(),
{
    if xs.len() == 0 {
        Seq::<char>::empty()
    } else {
        usage_words(xs.drop_last()) + usage_word(xs.last())
    }
}

fn push_usage_words(out: &mut String, xs: &Vec<ArgumentDefinition>)
    ensures
        final(out)@ == old(out)@ + usage_words(args_view(xs@)),
{
    let ghost start = old(out)@;
    let ghost v = args_view(xs@);
    let mut i: usize = 0;
    assert(v.take(0) =~= Seq::<ArgumentView>::empty());
    while i < xs.len()
        invariant
            i <= xs@.len(),
            v == args_view(xs@),
            out@ == start + usage_words(v.take(i as int)),
        decreases xs@.len() - i,
    {
        assert(v.take(i as int + 1).drop_last() =~= v.take(i as int));
        assert(v[i as int] == xs@[i as int]@);
        let x = &xs[i];
        push_usage_word(out, x);
        proof {
            vstd::seq_lib::lemma_concat_associative(start, usage_words(v.take(i as int)), usage_word(x@));
        }
        i = i + 1;
    }
    assert(v.take(xs@.len() as int) =~= v);
}

/// The parameter lines of the basic help.
pub open spec fn basic_parameter_lines(xs: Seq<ArgumentView>) -> Seq<char>
    decreases xs.len(),
{
    if xs.len() == 0 {
        Seq::<char>::empty()
    } else {
        basic_parameter_lines(xs.drop_last()) + "  "@ + xs.last().name + "::"@ + kind_lower_text(xs.last().kind) + "\n"@
    }
}

fn push_basic_parameter_lines(out: &mut String, xs: &Vec<ArgumentDefinition>)
    ensures
        final(out)@ == old(out)@ + basic_parameter_lines(args_view(xs@)),
{
    let ghost start = old(out)@;
    let ghost v = args_view(xs@);
    let mut i: usize = 0;
    assert(v.take(0) =~= Seq::<ArgumentView>::empty());
    while i < xs.len()
        invariant
            i <= xs@.len(),
            v == args_view(xs@),
            out@ == start + basic_parameter_lines(v.take(i as int)),
        decreases xs@.len() - i,
    {
        assert(v.take(i as int + 1).drop_last() =~= v.take(i as int));
        assert(v[i as int] == xs@[i as int]@);
        let x = &xs[i];
        push_str(out, "  "); push_str(out, x.name.as_str()); push_str(out, "::"); push_str(out, format_kind(&x.kind).as_str()); push_str(out, "\n"); assert(out@ =~= start + basic_parameter_lines(v.take(i as int)) + ("  "@ + x@.name + "::"@ + kind_lower_text(x@.kind) + "\n"@));
        proof {
            vstd::seq_lib::lemma_concat_associative(start, basic_parameter_lines(v.take(i as int)), "  "@ + x@.name + "::"@ + kind_lower_text(x@.kind) + "\n"@);
        }
        i = i + 1;
    }
    assert(v.take(xs@.len() as int) =~= v);
}

/// The usage line: the name, with the version when both the command and
/// the options show it.
pub open spec fn usage_line(o: HelpOptions, c: CommandView) -> Seq<char> {
    if c.show_version_in_help && o.show_version {
        "Usage: "@ + c.name + " (v"@ + c.version + ")"@ + "\n"@
    } else {
        "Usage: "@ + c.name + "\n"@
    }
}

fn push_usage_line(out: &mut String, o: &HelpOptions, c: &CommandDefinition)
    ensures
        final(out)@ == old(out)@ + usage_line(*o, c@),
{
    push_str(out, "Usage: ");
    push_str(out, c.name().as_str());
    if c.show_version_in_help() && o.show_version {
        push_str(out, " (v");
        push_str(out, c.version().as_str());
        push_str(out, ")");
    }
    push_str(out, "\n");
    assert(out@ =~= old(out)@ + usage_line(*o, c@));
}

/// The status line, when the options show it.
pub open spec fn status_line(o: HelpOptions, c: CommandView) -> Seq<char> {
    if o.show_status { "Status: "@ + status_text(c.status) + "\n"@ } else { Seq::<char>::empty() }
}

fn push_status_line(out: &mut String, o: &HelpOptions, c: &CommandDefinition)
    ensures
        final(out)@ == old(out)@ + status_line(*o, c@),
{
    if o.show_status {
        push_str(out, "Status: ");
        push_str(out, c.status().to_display_string().as_str());
        push_str(out, "\n");
    }
    assert(out@ =~= old(out)@ + status_line(*o, c@));
}

/// A labelled list line, when the list is not empty and shown.
pub open spec fn list_line(label: Seq<char>, items: Seq<Seq<char>>, shown: bool) -> Seq<char> {
    if items.len() > 0 && shown { label + join(items, ", "@) + "\n"@ } else { Seq::<char>::empty() }
}

fn push_list_line(out: &mut String, label: &str, items: &Vec<String>, shown: bool)
    ensures
        final(out)@ == old(out)@ + list_line(label@, strs(items@), shown),
{
    let ghost start = old(out)@;
    if items.len() > 0 && shown {
        push_str(out, label);
        push_joined(out, items, ", ");
        push_str(out, "\n");
    }
    assert(out@ =~= start + list_line(label@, strs(items@), shown));
}

/// The numbered example lines of the standard help.
pub open spec fn numbered_examples(exs: Seq<Seq<char>>) -> Seq<char>
    decreases exs.len(),
{
    if exs.len() == 0 {
        Seq::<char>::empty()
    } else {
        numbered_examples(exs.drop_last()) + "  "@ + dec_text(exs.len()) + ". "@ + exs.last() + "\n"@
    }
}

/// The plain example lines of the comprehensive help.
pub open spec fn example_lines(exs: Seq<Seq<char>>) -> Seq<char>
    decreases exs.len(),
{
    if exs.len() == 0 {
        Seq::<char>::empty()
    } else {
        example_lines(exs.drop_last()) + "  "@ + exs.last() + "\n"@
    }
}

/// The examples section: a title, the examples and a blank line; nothing
/// without examples.
pub open spec fn examples_section(title: Seq<char>, exs: Seq<Seq<char>>, numbered: bool) -> Seq<char> {
    if exs.len() > 0 {
        title + "\n"@ + (if numbered { numbered_examples(exs) } else { example_lines(exs) }) + "\n"@
    } else {
        Seq::<char>::empty()
    }
}

fn push_examples_section(out: &mut String, title: &str, exs: &Vec<String>, numbered: bool)
    ensures
        final(out)@ == old(out)@ + examples_section(title@, strs(exs@), numbered),
{
    let ghost start = old(out)@;
    let ghost ev = strs(exs@);
    if exs.len() > 0 {
        push_str(out, title);
        push_str(out, "\n");
        let ghost head = out@;
        let mut i: usize = 0;
        assert(ev.take(0) =~= Seq::<Seq<char>>::empty());
        while i < exs.len()
            invariant
                i <= exs@.len(),
                ev == strs(exs@),
                out@ == head + (if numbered { numbered_examples(ev.take(i as int)) } else { example_lines(ev.take(i as int)) }),
            decreases exs@.len() - i,
        {
            assert(ev.take(i as int + 1).drop_last() =~= ev.take(i as int));
            push_str(out, "  ");
            if numbered {
                push_decimal(out, (i + 1) as u64);
                push_str(out, ". ");
            }
            push_str(out, exs[i].as_str());
            push_str(out, "\n");
            i = i + 1;
            assert(out@ =~= head + (if numbered { numbered_examples(ev.take(i as int)) } else { example_lines(ev.take(i as int)) }));
        }
        assert(ev.take(exs@.len() as int) =~= ev);
        push_str(out, "\n");
    }
    assert(out@ =~= start + examples_section(title@, ev, numbered));
}

/// An arguments section: a heading and the blocks, when there are arguments.
pub open spec fn section_if_args(c: CommandView, heading: Seq<char>, blocks: Seq<char>) -> Seq<char> {
    if c.arguments.len() > 0 { heading + blocks } else { Seq::<char>::empty() }
}

fn push_standard_section(out: &mut String, c: &CommandDefinition)
    ensures
        final(out)@ == old(out)@ + section_if_args(c@, "\nArguments:\n"@, standard_arguments_text(c@.arguments)),
{
    let ghost start = old(out)@;
    if c.arguments().len() > 0 {
        push_str(out, "\nArguments:\n");
        push_standard_arguments(out, c.arguments());
    }
    assert(out@ =~= start + section_if_args(c@, "\nArguments:\n"@, standard_arguments_text(c@.arguments)));
}

fn push_detailed_section(out: &mut String, c: &CommandDefinition)
    ensures
        final(out)@ == old(out)@ + section_if_args(c@, "\nArguments:\n"@, detailed_arguments_text(c@.arguments)),
{
    let ghost start = old(out)@;
    if c.arguments().len() > 0 {
        push_str(out, "\nArguments:\n");
        push_detailed_arguments(out, c.arguments());
    }
    assert(out@ =~= start + section_if_args(c@, "\nArguments:\n"@, detailed_arguments_text(c@.arguments)));
}

fn push_comprehensive_section(out: &mut String, c: &CommandDefinition)
    ensures
        final(out)@ == old(out)@ + section_if_args(c@, "PARAMETERS:\n\n"@, comprehensive_arguments_text(c@.arguments)),
{
    let ghost start = old(out)@;
    if c.arguments().len() > 0 {
        push_str(out, "PARAMETERS:\n\n");
        push_comprehensive_arguments(out, c.arguments());
    }
    assert(out@ =~= start + section_if_args(c@, "PARAMETERS:\n\n"@, comprehensive_arguments_text(c@.arguments)));
}

fn push_basic_section(out: &mut String, c: &CommandDefinition)
    ensures
        final(out)@ == old(out)@ + section_if_args(c@, "\nPARAMETERS:\n"@, basic_parameter_lines(c@.arguments)),
{
    let ghost start = old(out)@;
    if c.arguments().len() > 0 {
        push_str(out, "\nPARAMETERS:\n");
        push_basic_parameter_lines(out, c.arguments());
    }
    assert(out@ =~= start + section_if_args(c@, "\nPARAMETERS:\n"@, basic_parameter_lines(c@.arguments)));
}

/// The hint line of the comprehensive help, when the hint says more than
/// the description.
pub open spec fn extra_hint_line(c: CommandView) -> Seq<char> {
    if c.hint.len() > 0 && c.hint != c.description { "  "@ + c.hint + "\n"@ } else { Seq::<char>::empty() }
}

fn push_extra_hint_line(out: &mut String, c: &CommandDefinition)
    ensures
        final(out)@ == old(out)@ + extra_hint_line(c@),
{
    let h = chars_of(c.hint());
    if h.len() > 0 && !crate::text::chars_eq(&h, &chars_of(c.description())) {
        push_str(out, "  ");
        push_str(out, c.hint());
        push_str(out, "\n");
    }
    assert(out@ =~= old(out)@ + extra_hint_line(c@));
}

/// The status line of the comprehensive help.
pub open spec fn comprehensive_status_line(o: HelpOptions, c: CommandView) -> Seq<char> {
    if o.show_status {
        if c.show_version_in_help && o.show_version {
            "\n  Status: "@ + status_text(c.status) + " (v"@ + c.version + ")"@ + "\n"@
        } else {
            "\n  Status: "@ + status_text(c.status) + "\n"@
        }
    } else {
        Seq::<char>::empty()
    }
}

fn push_comprehensive_status_line(out: &mut String, o: &HelpOptions, c: &CommandDefinition)
    ensures
        final(out)@ == old(out)@ + comprehensive_status_line(*o, c@),
{
    if o.show_status {
        push_str(out, "\n  Status: ");
        push_str(out, c.status().to_display_string().as_str());
        if c.show_version_in_help() && o.show_version {
            push_str(out, " (v");
            push_str(out, c.version().as_str());
            push_str(out, ")");
        }
        push_str(out, "\n");
    }
    assert(out@ =~= old(out)@ + comprehensive_status_line(*o, c@));
}

/// The one-line help: name and description.
pub open spec fn minimal_help(c: CommandView) -> Seq<char> {
    c.name + " - "@ + c.description
}

fn push_format_minimal(out: &mut String, c: &CommandDefinition)
    ensures
        final(out)@ == old(out)@ + minimal_help(c@),
{
    let ghost start = old(out)@;
    push_str(out, c.name().as_str());
    push_str(out, " - ");
    let ghost mut acc = c@.name;
    proof { acc = crate::text::lemma_extend(start, acc, " - "@); }
    push_str(out, c.description());
    proof { acc = crate::text::lemma_extend(start, acc, c@.description); }
}

/// The one-line help: name and description.
pub fn format_minimal(c: &CommandDefinition) -> (r: String)
    ensures
        r@ == minimal_help(c@),
{
    let mut out = String::new();
    push_format_minimal(&mut out, c);
    assert(out@ =~= minimal_help(c@));
    out
}

/// The basic help: name, description and a parameter list.
pub open spec fn basic_help(c: CommandView) -> Seq<char> {
    c.name + " - "@ + c.description + "\n"@ + section_if_args(c, "\nPARAMETERS:\n"@, basic_parameter_lines(c.arguments))
}

fn push_format_basic(out: &mut String, c: &CommandDefinition)
    ensures
        final(out)@ == old(out)@ + basic_help(c@),
{
    let ghost start = old(out)@;
    push_str(out, c.name().as_str());
    push_str(out, " - ");
    let ghost mut acc = c@.name;
    proof { acc = crate::text::lemma_extend(start, acc, " - "@); }
    push_str(out, c.description());
    proof { acc = crate::text::lemma_extend(start, acc, c@.description); }
    push_str(out, "\n");
    proof { acc = crate::text::lemma_extend(start, acc, "\n"@); }
    push_basic_section(out, c);
    proof { acc = crate::text::lemma_extend(start, acc, section_if_args(c@, "\nPARAMETERS:\n"@, basic_parameter_lines(c@.arguments))); }
}

/// The basic help: name, description and a parameter list.
pub fn format_basic(c: &CommandDefinition) -> (r: String)
    ensures
        r@ == basic_help(c@),
{
    let mut out = String::new();
    push_format_basic(&mut out, c);
    assert(out@ =~= basic_help(c@));
    out
}

/// The standard help: usage, description, status, aliases, arguments and numbered examples.
pub open spec fn standard_help(o: HelpOptions, c: CommandView) -> Seq<char> {
    usage_line(o, c) + c.description + "\n\n"@ + status_line(o, c) + list_line("Aliases: "@, c.aliases, o.show_aliases) + section_if_args(c, "\nArguments:\n"@, standard_arguments_text(c.arguments)) + examples_section("Examples:"@, c.examples, true)
}

fn push_format_standard(out: &mut String, o: &HelpOptions, c: &CommandDefinition)
    ensures
        final(out)@ == old(out)@ + standard_help(*o, c@),
{
    let ghost start = old(out)@;
    push_usage_line(out, o, c);
    push_str(out, c.description());
    let ghost mut acc = usage_line(*o, c@);
    proof { acc = crate::text::lemma_extend(start, acc, c@.description); }
    push_str(out, "\n\n");
    proof { acc = crate::text::lemma_extend(start, acc, "\n\n"@); }
    push_status_line(out, o, c);
    proof { acc = crate::text::lemma_extend(start, acc, status_line(*o, c@)); }
    push_list_line(out, "Aliases: ", c.aliases(), o.show_aliases);
    proof { acc = crate::text::lemma_extend(start, acc, list_line("Aliases: "@, c@.aliases, o.show_aliases)); }
    push_standard_section(out, c);
    proof { acc = crate::text::lemma_extend(start, acc, section_if_args(c@, "\nArguments:\n"@, standard_arguments_text(c@.arguments))); }
    push_examples_section(out, "Examples:", c.examples(), true);
    proof { acc = crate::text::lemma_extend(start, acc, examples_section("Examples:"@, c@.examples, true)); }
}

/// The standard help: usage, description, status, aliases, arguments and numbered examples.
pub fn format_standard(o: &HelpOptions, c: &CommandDefinition) -> (r: String)
    ensures
        r@ == standard_help(*o, c@),
{
    let mut out = String::new();
    push_format_standard(&mut out, o, c);
    assert(out@ =~= standard_help(*o, c@));
    out
}

/// The detailed help: usage, aliases, tags, hint, description, status and arguments.
pub open spec fn detailed_help(o: HelpOptions, c: CommandView) -> Seq<char> {
    usage_line(o, c) + list_line("Aliases: "@, c.aliases, o.show_aliases) + list_line("Tags: "@, c.tags, o.show_tags) + "\n  Hint: "@ + c.hint + "\n"@ + "  "@ + c.description + "\n\n"@ + status_line(o, c) + section_if_args(c, "\nArguments:\n"@, detailed_arguments_text(c.arguments))
}

fn push_format_detailed(out: &mut String, o: &HelpOptions, c: &CommandDefinition)
    ensures
        final(out)@ == old(out)@ + detailed_help(*o, c@),
{
    let ghost start = old(out)@;
    push_usage_line(out, o, c);
    push_list_line(out, "Aliases: ", c.aliases(), o.show_aliases);
    let ghost mut acc = usage_line(*o, c@);
    proof { acc = crate::text::lemma_extend(start, acc, list_line("Aliases: "@, c@.aliases, o.show_aliases)); }
    push_list_line(out, "Tags: ", c.tags(), o.show_tags);
    proof { acc = crate::text::lemma_extend(start, acc, list_line("Tags: "@, c@.tags, o.show_tags)); }
    push_str(out, "\n  Hint: ");
    proof { acc = crate::text::lemma_extend(start, acc, "\n  Hint: "@); }
    push_str(out, c.hint());
    proof { acc = crate::text::lemma_extend(start, acc, c@.hint); }
    push_str(out, "\n");
    proof { acc = crate::text::lemma_extend(start, acc, "\n"@); }
    push_str(out, "  ");
    proof { acc = crate::text::lemma_extend(start, acc, "  "@); }
    push_str(out, c.description());
    proof { acc = crate::text::lemma_extend(start, acc, c@.description); }
    push_str(out, "\n\n");
    proof { acc = crate::text::lemma_extend(start, acc, "\n\n"@); }
    push_status_line(out, o, c);
    proof { acc = crate::text::lemma_extend(start, acc, status_line(*o, c@)); }
    push_detailed_section(out, c);
    proof { acc = crate::text::lemma_extend(start, acc, section_if_args(c@, "\nArguments:\n"@, detailed_arguments_text(c@.arguments))); }
}

/// The detailed help: usage, aliases, tags, hint, description, status and arguments.
pub fn format_detailed(o: &HelpOptions, c: &CommandDefinition) -> (r: String)
    ensures
        r@ == detailed_help(*o, c@),
{
    let mut out = String::new();
    push_format_detailed(&mut out, o, c);
    assert(out@ =~= detailed_help(*o, c@));
    out
}

/// The comprehensive help: title, usage, description with its metadata, parameters, examples and tags.
pub open spec fn comprehensive_help(o: HelpOptions, c: CommandView) -> Seq<char> {
    c.name + " - "@ + c.description + "\n\n"@ + "USAGE:\n  "@ + c.name + usage_words(c.arguments) + "\n\n"@ + "DESCRIPTION:\n"@ + "  "@ + c.description + "\n"@ + extra_hint_line(c) + comprehensive_status_line(o, c) + list_line("  Aliases: "@, c.aliases, o.show_aliases) + "\n"@ + section_if_args(c, "PARAMETERS:\n\n"@, comprehensive_arguments_text(c.arguments)) + examples_section("EXAMPLES:"@, c.examples, false) + list_line("TAGS: "@, c.tags, o.show_tags)
}

fn push_format_comprehensive(out: &mut String, o: &HelpOptions, c: &CommandDefinition)
    ensures
        final(out)@ == old(out)@ + comprehensive_help(*o, c@),
{
    let ghost start = old(out)@;
    push_str(out, c.name().as_str());
    push_str(out, " - ");
    let ghost mut acc = c@.name;
    proof { acc = crate::text::lemma_extend(start, acc, " - "@); }
    push_str(out, c.description());
    proof { acc = crate::text::lemma_extend(start, acc, c@.description); }
    push_str(out, "\n\n");
    proof { acc = crate::text::lemma_extend(start, acc, "\n\n"@); }
    push_str(out, "USAGE:\n  ");
    proof { acc = crate::text::lemma_extend(start, acc, "USAGE:\n  "@); }
    push_str(out, c.name().as_str());
    proof { acc = crate::text::lemma_extend(start, acc, c@.name); }
    push_usage_words(out, c.arguments());
    proof { acc = crate::text::lemma_extend(start, acc, usage_words(c@.arguments)); }
    push_str(out, "\n\n");
    proof { acc = crate::text::lemma_extend(start, acc, "\n\n"@); }
    push_str(out, "DESCRIPTION:\n");
    proof { acc = crate::text::lemma_extend(start, acc, "DESCRIPTION:\n"@); }
    push_str(out, "  ");
    proof { acc = crate::text::lemma_extend(start, acc, "  "@); }
    push_str(out, c.description());
    proof { acc = crate::text::lemma_extend(start, acc, c@.description); }
    push_str(out, "\n");
    proof { acc = crate::text::lemma_extend(start, acc, "\n"@); }
    push_extra_hint_line(out, c);
    proof { acc = crate::text::lemma_extend(start, acc, extra_hint_line(c@)); }
    push_comprehensive_status_line(out, o, c);
    proof { acc = crate::text::lemma_extend(start, acc, comprehensive_status_line(*o, c@)); }
    push_list_line(out, "  Aliases: ", c.aliases(), o.show_aliases);
    proof { acc = crate::text::lemma_extend(start, acc, list_line("  Aliases: "@, c@.aliases, o.show_aliases)); }
    push_str(out, "\n");
    proof { acc = crate::text::lemma_extend(start, acc, "\n"@); }
    push_comprehensive_section(out, c);
    proof { acc = crate::text::lemma_extend(start, acc, section_if_args(c@, "PARAMETERS:\n\n"@, comprehensive_arguments_text(c@.arguments))); }
    push_examples_section(out, "EXAMPLES:", c.examples(), false);
    proof { acc = crate::text::lemma_extend(start, acc, examples_section("EXAMPLES:"@, c@.examples, false)); }
    push_list_line(out, "TAGS: ", c.tags(), o.show_tags);
    proof { acc = crate::text::lemma_extend(start, acc, list_line("TAGS: "@, c@.tags, o.show_tags)); }
}

/// The comprehensive help: title, usage, description with its metadata, parameters, examples and tags.
pub fn format_comprehensive(o: &HelpOptions, c: &CommandDefinition) -> (r: String)
    ensures
        r@ == comprehensive_help(*o, c@),
{
    let mut out = String::new();
    push_format_comprehensive(&mut out, o, c);
    assert(out@ =~= comprehensive_help(*o, c@));
    out
}

/// `s` up to its first occurrence of `c`.
pub open spec fn take_until(s: Seq<char>, c: char) -> Seq<char>
    decreases s.len(),
{
    if s.len() == 0 || s[0] == c {
        Seq::<char>::empty()
    } else {
        seq![s[0]] + take_until(s.drop_first(), c)
    }
}

/// The compact name of a kind: its lower-cased `Debug` form up to the first `(`.
pub open spec fn compact_kind_text(k: KindView) -> Seq<char> {
    take_until(kind_lower_text(k), '(')
}

/// The compact name of a kind, such as `list` for a list of integers.
pub fn compact_kind(kind: &Kind) -> (r: String)
    ensures
        r@ == compact_kind_text(kind@),
{
    let d = chars_of(format_kind(kind).as_str());
    let mut i: usize = 0;
    let mut out = String::new();
    assert(d@.subrange(0, d@.len() as int) =~= d@);
    while i < d.len() && d[i] != '('
        invariant
            i <= d@.len(),
            take_until(d@, '(') == out@ + take_until(d@.subrange(i as int, d@.len() as int), '('),
        decreases d@.len() - i,
    {
        let ghost rest = d@.subrange(i as int, d@.len() as int);
        assert(rest.drop_first() =~= d@.subrange(i as int + 1, d@.len() as int));
        push_char(&mut out, d[i]);
        i = i + 1;
        assert(take_until(d@, '(') =~= out@ + take_until(d@.subrange(i as int, d@.len() as int), '('));
    }
    assert(take_until(d@.subrange(i as int, d@.len() as int), '(') =~= Seq::<char>::empty());
    assert(out@ =~= take_until(d@, '('));
    out
}

/// The placeholder value shown for a kind in a derived example.
pub open spec fn placeholder_text(k: KindView) -> Seq<char> {
    match k {
        KindView::Enum(choices) => if choices.len() > 0 { choices[0] } else { "<value>"@ },
        KindView::Integer => "<n>"@,
        KindView::Float => "<x>"@,
        KindView::String => "<string>"@,
        KindView::Boolean => "<true|false>"@,
        KindView::Path => "<path>"@,
        KindView::File => "<file>"@,
        KindView::Directory => "<directory>"@,
        KindView::Url => "<url>"@,
        KindView::DateTime => "<datetime>"@,
        KindView::Pattern => "<pattern>"@,
        KindView::List(..) => "<list>"@,
        KindView::MapOf(..) => "<map>"@,
        KindView::JsonString => "<json>"@,
        KindView::Object => "<object>"@,
    }
}

/// The placeholder value shown for a kind: the first choice of an enum,
/// else a name in angle brackets.
pub fn kind_placeholder(kind: &Kind) -> (r: String)
    ensures
        r@ == placeholder_text(kind@),
{
    match kind {
        Kind::Enum(choices) => if choices.len() > 0 { choices[0].clone() } else { owned("<value>") },
        Kind::Integer => owned("<n>"),
        Kind::Float => owned("<x>"),
        Kind::String => owned("<string>"),
        Kind::Boolean => owned("<true|false>"),
        Kind::Path => owned("<path>"),
        Kind::File => owned("<file>"),
        Kind::Directory => owned("<directory>"),
        Kind::Url => owned("<url>"),
        Kind::DateTime => owned("<datetime>"),
        Kind::Pattern => owned("<pattern>"),
        Kind::List(..) => owned("<list>"),
        Kind::MapOf(..) => owned("<map>"),
        Kind::JsonString => owned("<json>"),
        Kind::Object => owned("<object>"),
    }
}

/// An example that mentions the parameter: it contains `name::` or
/// `alias::` for one of the parameter's aliases.
pub open spec fn mentions_param(example: Seq<char>, a: ArgumentView) -> bool {
    crate::text::contains(example, a.name + "::"@)
        || exists|k: int| 0 <= k < a.aliases.len() && crate::text::contains(example, #[trigger] a.aliases[k] + "::"@)
}

/// The examples shown for a parameter: one built from the command's full
/// name, the parameter and its placeholder, then the command's examples
/// that mention the parameter, in order.
pub open spec fn param_examples(c: CommandView, a: ArgumentView) -> Seq<Seq<char>> {
    seq![full_name_of(c) + " "@ + a.name + "::"@ + placeholder_text(a.kind)]
        + c.examples.filter(|e: Seq<char>| mentions_param(e, a))
}

fn mentions_param_exec(example: &str, a: &ArgumentDefinition) -> (r: bool)
    ensures
        r == mentions_param(example@, a@),
{
    let e = chars_of(example);
    let mut m = a.name.clone();
    push_str(&mut m, "::");
    if crate::text::contains_exec(&e, &chars_of(m.as_str())) {
        return true;
    }
    let mut k: usize = 0;
    while k < a.aliases.len()
        invariant
            k <= a.aliases@.len(),
            e@ == example@,
            forall|j: int| 0 <= j < k ==> !crate::text::contains(example@, #[trigger] strs(a.aliases@)[j] + "::"@),
        decreases a.aliases@.len() - k,
    {
        let mut am = a.aliases[k].clone();
        push_str(&mut am, "::");
        assert(strs(a.aliases@)[k as int] == a.aliases@[k as int]@);
        if crate::text::contains_exec(&e, &chars_of(am.as_str())) {
            assert(crate::text::contains(example@, a@.aliases[k as int] + "::"@));
            return true;
        }
        k = k + 1;
    }
    false
}

/// The examples shown for a parameter; see `param_examples`.
pub fn derive_param_examples(command: &CommandDefinition, arg: &ArgumentDefinition) -> (r: Vec<String>)
    ensures
        strs(r@) == param_examples(command@, arg@),
{
    let mut first = command.full_name();
    push_str(&mut first, " ");
    push_str(&mut first, arg.name.as_str());
    push_str(&mut first, "::");
    push_str(&mut first, kind_placeholder(&arg.kind).as_str());
    let mut r: Vec<String> = Vec::new();
    r.push(first);
    let exs = command.examples();
    let ghost ev = strs(exs@);
    let ghost f = |e: Seq<char>| mentions_param(e, arg@);
    let mut i: usize = 0;
    assert(ev.take(0) =~= Seq::<Seq<char>>::empty());
    reveal(Seq::filter);
    assert(strs(r@) =~= seq![strs(r@)[0]] + ev.take(0).filter(f));
    while i < exs.len()
        invariant
            i <= exs@.len(),
            ev == strs(exs@),
            ev == command@.examples,
            r@.len() >= 1,
            strs(r@) == seq![strs(r@)[0]] + ev.take(i as int).filter(f),
            strs(r@)[0] == full_name_of(command@) + " "@ + arg@.name + "::"@ + placeholder_text(arg@.kind),
            f == (|e: Seq<char>| mentions_param(e, arg@)),
        decreases exs@.len() - i,
    {
        reveal(Seq::filter);
        assert(ev.take(i as int + 1).drop_last() =~= ev.take(i as int));
        assert(ev[i as int] == exs@[i as int]@);
        let ghost before = strs(r@);
        if mentions_param_exec(exs[i].as_str(), arg) {
            r.push(exs[i].clone());
            assert(strs(r@) =~= before.push(ev[i as int]));
        }
        i = i + 1;
        assert(strs(r@) =~= seq![strs(r@)[0]] + ev.take(i as int).filter(f));
    }
    assert(ev.take(exs@.len() as int) =~= ev);
    r
}

/// A parameter that answers to `name`: by its name or one of its aliases.
pub open spec fn answers_to(a: ArgumentView, name: Seq<char>) -> bool {
    a.name == name || a.aliases.contains(name)
}

/// The position of the first argument that answers to `name`.
pub open spec fn is_first_answering(args: Seq<ArgumentView>, name: Seq<char>, i: int) -> bool {
    0 <= i < args.len() && answers_to(args[i], name) && forall|j: int| 0 <= j < i ==> !answers_to(#[trigger] args[j], name)
}

/// Finds the parameter of a command that answers to a name: the position
/// of the first argument with that name or alias.
pub fn find_parameter(command: &CommandDefinition, param_name: &str) -> (r: Option<usize>)
    ensures
        r matches Some(i) ==> is_first_answering(command@.arguments, param_name@, i as int),
        r is None ==> forall|j: int| 0 <= j < command@.arguments.len() ==> !answers_to(#[trigger] command@.arguments[j], param_name@),
{
    let args = command.arguments();
    let mut i: usize = 0;
    while i < args.len()
        invariant
            i <= args@.len(),
            args_view(args@) == command@.arguments,
            forall|j: int| 0 <= j < i ==> !answers_to(#[trigger] command@.arguments[j], param_name@),
        decreases args@.len() - i,
    {
        let a = &args[i];
        assert(command@.arguments[i as int] == a@);
        if crate::text::str_eq(a.name.as_str(), param_name) {
            return Some(i);
        }
        let mut k: usize = 0;
        while k < a.aliases.len()
            invariant
                k <= a.aliases@.len(),
                i < args@.len(),
                args_view(args@) == command@.arguments,
                command@.arguments[i as int] == a@,
                forall|j: int| 0 <= j < i ==> !answers_to(#[trigger] command@.arguments[j], param_name@),
                forall|m: int| 0 <= m < k ==> strs(a.aliases@)[m] != param_name@,
            decreases a.aliases@.len() - k,
        {
            assert(strs(a.aliases@)[k as int] == a.aliases@[k as int]@);
            if crate::text::str_eq(a.aliases[k].as_str(), param_name) {
                assert(a@.aliases.contains(param_name@));
                return Some(i);
            }
            k = k + 1;
        }
        assert(!a@.aliases.contains(param_name@));
        i = i + 1;
    }
    None
}

/// The names of the arguments.
pub open spec fn arg_names(args: Seq<ArgumentView>) -> Seq<Seq<char>> {
    args.map_values(|a: ArgumentView| a.name)
}

/// The message for a parameter a command does not have.
pub open spec fn missing_param_text(c: CommandView, p: Seq<char>) -> Seq<char> {
    if c.arguments.len() == 0 {
        "Parameter '"@ + p + "' not found: command '"@ + full_name_of(c) + "' takes no parameters."@
    } else {
        "Parameter '"@ + p + "' not found for command '"@ + full_name_of(c) + "'. Valid parameters: "@
            + join(arg_names(c.arguments), ", "@) + ".\nUse '"@ + full_name_of(c) + " ??' for command help."@
    }
}

/// What help a parameter request gets.
#[derive(Debug)]
pub enum ParameterHelp {
    /// The parameter at this position answers; its page is rendered.
    Found(usize),
    /// No parameter answers; the message names the valid ones.
    NotFound(String),
}

/// Looks up a parameter for its help page, or explains which parameters exist.
pub fn parameter_help_or_listing(command: &CommandDefinition, param_name: &str) -> (r: ParameterHelp)
    ensures
        r matches ParameterHelp::Found(i) ==> is_first_answering(command@.arguments, param_name@, i as int),
        r matches ParameterHelp::NotFound(m) ==> m@ == missing_param_text(command@, param_name@)
            && forall|j: int| 0 <= j < command@.arguments.len() ==> !answers_to(#[trigger] command@.arguments[j], param_name@),
{
    match find_parameter(command, param_name) {
        Some(i) => ParameterHelp::Found(i),
        None => {
            let full = command.full_name();
            let args = command.arguments();
            let mut m = owned("Parameter '");
            push_str(&mut m, param_name);
            if args.len() == 0 {
                push_str(&mut m, "' not found: command '");
                push_str(&mut m, full.as_str());
                push_str(&mut m, "' takes no parameters.");
            } else {
                push_str(&mut m, "' not found for command '");
                push_str(&mut m, full.as_str());
                push_str(&mut m, "'. Valid parameters: ");
                let mut names: Vec<String> = Vec::new();
                let mut i: usize = 0;
                while i < args.len()
                    invariant
                        i <= args@.len(),
                        args_view(args@) == command@.arguments,
                        strs(names@) == arg_names(command@.arguments).take(i as int),
                    decreases args@.len() - i,
                {
                    let ghost before = strs(names@);
                    names.push(args[i].name.clone());
                    assert(strs(names@) =~= before.push(args@[i as int]@.name));
                    assert(arg_names(command@.arguments).take(i as int + 1) =~= before.push(args@[i as int]@.name));
                    i = i + 1;
                }
                assert(arg_names(command@.arguments).take(args@.len() as int) =~= arg_names(command@.arguments));
                push_joined(&mut m, &names, ", ");
                push_str(&mut m, ".\nUse '");
                push_str(&mut m, full.as_str());
                push_str(&mut m, " ??' for command help.");
            }
            assert(m@ =~= missing_param_text(command@, param_name@));
            ParameterHelp::NotFound(m)
        },
    }
}

/// A word with its first character upper-cased.
pub open spec fn capitalized(w: Seq<char>) -> Seq<char> {
    if w.len() == 0 { Seq::<char>::empty() } else { crate::debug_text::char_uppercase_text(w[0]) + w.drop_first() }
}

/// A category name for display: its `_`-separated words capitalised and
/// joined with spaces.
pub open spec fn category_title(category: Seq<char>) -> Seq<char> {
    join(crate::text::split_on(category, '_').map_values(|w: Seq<char>| capitalized(w)), " "@)
}

/// A category name for display, such as `File Operations` for `file_operations`.
pub fn format_category_name(category: &str) -> (r: String)
    ensures
        r@ == category_title(category@),
{
    let parts = crate::text::split_exec(&chars_of(category), '_');
    let ghost pv = parts@.map_values(|v: Vec<char>| v@);
    let mut words: Vec<String> = Vec::new();
    let mut i: usize = 0;
    while i < parts.len()
        invariant
            i <= parts@.len(),
            pv == parts@.map_values(|v: Vec<char>| v@),
            strs(words@) == pv.map_values(|w: Seq<char>| capitalized(w)).take(i as int),
        decreases parts@.len() - i,
    {
        let p = &parts[i];
        let mut w = String::new();
        if p.len() > 0 {
            w = crate::debug_text::char_to_uppercase(p[0]);
            crate::text::push_chars(&mut w, &crate::text::subvec(p, 1, p.len()));
            assert(p@.subrange(1, p@.len() as int) =~= p@.drop_first());
        }
        assert(w@ =~= capitalized(pv[i as int]));
        let ghost before = strs(words@);
        words.push(w);
        assert(strs(words@) =~= before.push(capitalized(pv[i as int])));
        assert(pv.map_values(|w: Seq<char>| capitalized(w)).take(i as int + 1) =~= before.push(capitalized(pv[i as int])));
        i = i + 1;
    }
    assert(pv.map_values(|w: Seq<char>| capitalized(w)).take(parts@.len() as int) =~= pv.map_values(|w: Seq<char>| capitalized(w)));
    let mut out = String::new();
    push_joined(&mut out, &words, " ");
    assert(out@ =~= category_title(category@));
    out
}

/// The category a command without one is listed under: none.
pub fn auto_categorize(name: &str) -> (r: String)
    ensures
        r@.len() == 0,
{
    String::new()
}

/// The description shown in listings: the short one when set.
pub fn cmd_effective_description(command: &CommandDefinition) -> (r: &str)
    ensures
        r@ == (if command@.short_desc.len() > 0 { command@.short_desc } else { command@.description }),
{
    if chars_of(command.short_desc()).len() > 0 {
        command.short_desc()
    } else {
        command.description()
    }
}

} // verus!
