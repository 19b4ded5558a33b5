//! Generation of the Rust source of an aggregated command table: one
//! static definition per command and a perfect-hash map built by the
//! code generator of the `phf` crates.

use vstd::prelude::*;
use crate::data::argument::{ ArgumentDefinition, ArgumentView, args_view };
use crate::data::command_definition::{ CommandDefinition, CommandView };
use crate::data::command_status::StatusView;
use crate::data::kind::{ Kind, KindView, strs };
use crate::debug_text::{ to_uppercase, uppercase_text, str_debug };
use crate::text::{ owned, push_str, push_char, chars_of, dec_text, push_decimal, string_of };

verus! {

broadcast use vstd::string::group_string_axioms;

/// `s` with `\\`, `"`, and the line feed, carriage return and tab escaped
/// as in a Rust string literal.
pub open spec fn escape_literal(s: Seq<char>) -> Seq<char>
    decreases s.len(),
{
    if s.len() == 0 {
        Seq::<char>::empty()
    } else {
        let c = s.last();
        escape_literal(s.drop_last()) + if c == '\\' {
            seq!['\\', '\\']
        } else if c == '"' {
            seq!['\\', '"']
        } else if c == '\n' {
            seq!['\\', 'n']
        } else if c == '\r' {
            seq!['\\', 'r']
        } else if c == '\t' {
            seq!['\\', 't']
        } else {
            seq![c]
        }
    }
}

/// Appends `s` escaped; see `escape_literal`.
fn push_escaped_literal(out: &mut String, s: &str)
    ensures
        final(out)@ == old(out)@ + escape_literal(s@),
{
    let v = chars_of(s);
    let ghost start = old(out)@;
    let mut i: usize = 0;
    while i < v.len()
        invariant
            i <= v@.len(),
            out@ == start + escape_literal(v@.take(i as int)),
        decreases v@.len() - i,
    {
        assert(v@.take(i as int + 1).drop_last() =~= v@.take(i as int));
        let c = v[i];
        if c == '\\' {
            push_char(out, '\\');
            push_char(out, '\\');
        } else if c == '"' {
            push_char(out, '\\');
            push_char(out, '"');
        } else if c == '\n' {
            push_char(out, '\\');
            push_char(out, 'n');
        } else if c == '\r' {
            push_char(out, '\\');
            push_char(out, 'r');
        } else if c == '\t' {
            push_char(out, '\\');
            push_char(out, 't');
        } else {
            push_char(out, c);
        }
        i = i + 1;
        assert(out@ =~= start + escape_literal(v@.take(i as int)));
    }
    assert(v@.take(v@.len() as int) =~= v@);
}

/// The escaped text of a string; see `escape_literal`.
pub fn escape_string(s: &str) -> (r: String)
    ensures
        r@ == escape_literal(s@),
{
    let mut out = String::new();
    push_escaped_literal(&mut out, s);
    out
}

/// The quoted, escaped items of a list, each followed by `, `.
pub open spec fn quoted_items(items: Seq<Seq<char>>) -> Seq<char>
    decreases items.len(),
{
    if items.len() == 0 {
        Seq::<char>::empty()
    } else {
        quoted_items(items.drop_last()) + "\""@ + escape_literal(items.last()) + "\", "@
    }
}

/// A string-list constant on one line.
pub open spec fn string_array_line(items: Seq<Seq<char>>, name: Seq<char>) -> Seq<char> {
    "const "@ + name + ": &[&str] = &["@ + quoted_items(items) + "];\n"@
}

/// Appends a string-list constant on one line.
pub fn generate_string_array(out: &mut String, items: &Vec<String>, name: &str)
    ensures
        final(out)@ == old(out)@ + string_array_line(strs(items@), name@),
{
    let ghost start = old(out)@;
    let ghost iv = strs(items@);
    push_str(out, "const ");
    push_str(out, name);
    push_str(out, ": &[&str] = &[");
    let ghost head = out@;
    let mut i: usize = 0;
    assert(iv.take(0) =~= Seq::<Seq<char>>::empty());
    while i < items.len()
        invariant
            i <= items@.len(),
            iv == strs(items@),
            out@ == head + quoted_items(iv.take(i as int)),
        decreases items@.len() - i,
    {
        assert(iv.take(i as int + 1).drop_last() =~= iv.take(i as int));
        push_str(out, "\"");
        push_escaped_literal(out, items[i].as_str());
        push_str(out, "\", ");
        i = i + 1;
        assert(out@ =~= head + quoted_items(iv.take(i as int)));
    }
    assert(iv.take(items@.len() as int) =~= iv);
    push_str(out, "];\n");
    assert(out@ =~= start + string_array_line(iv, name@));
}

/// `true` or `false`.
pub open spec fn bool_word(b: bool) -> Seq<char> {
    if b { "true"@ } else { "false"@ }
}

fn push_bool_word(out: &mut String, b: bool)
    ensures
        final(out)@ == old(out)@ + bool_word(b),
{
    if b {
        push_str(out, "true");
    } else {
        push_str(out, "false");
    }
}

/// A delimiter argument: `Some( 'c' )` or `None`.
pub open spec fn delim_arg(d: Option<char>) -> Seq<char> {
    match d {
        Some(c) => "Some( '"@ + seq![c] + "' )"@,
        None => "None"@,
    }
}

fn push_delim_arg(out: &mut String, d: Option<char>)
    ensures
        final(out)@ == old(out)@ + delim_arg(d),
{
    match d {
        Some(c) => {
            push_str(out, "Some( '");
            push_char(out, c);
            push_str(out, "' )");
        },
        None => push_str(out, "None"),
    }
    assert(out@ =~= old(out)@ + delim_arg(d));
}

/// The name stem of an argument's constants.
pub open spec fn arg_stem(base: Seq<char>, idx: nat) -> Seq<char> {
    base + "_"@ + dec_text(idx)
}

/// What precedes an argument's definition for its kind: the list of an
/// enum's choices.
pub open spec fn kind_prelude(k: KindView, base: Seq<char>, idx: nat) -> Seq<char> {
    match k {
        KindView::Enum(values) => string_array_line(values, arg_stem(base, idx) + "_ENUM_VALUES"@),
        _ => Seq::<char>::empty(),
    }
}

/// The static kind written for a kind; inner kinds of lists and maps are
/// written as strings, and objects as JSON strings.
pub open spec fn static_kind(k: KindView, base: Seq<char>, idx: nat) -> Seq<char> {
    match k {
        KindView::String => "StaticKind::String"@,
        KindView::Integer => "StaticKind::Integer"@,
        KindView::Float => "StaticKind::Float"@,
        KindView::Boolean => "StaticKind::Boolean"@,
        KindView::Path => "StaticKind::Path"@,
        KindView::File => "StaticKind::File"@,
        KindView::Directory => "StaticKind::Directory"@,
        KindView::Url => "StaticKind::Url"@,
        KindView::DateTime => "StaticKind::DateTime"@,
        KindView::Pattern => "StaticKind::Pattern"@,
        KindView::JsonString => "StaticKind::JsonString"@,
        KindView::Enum(_) => "StaticKind::Enum( &"@ + arg_stem(base, idx) + "_ENUM_VALUES"@ + " )"@,
        KindView::List(_, d) => "StaticKind::List( &StaticKind::String, "@ + delim_arg(d) + " )"@,
        KindView::MapOf(_, _, e, kv) => "StaticKind::Map( &StaticKind::String, &StaticKind::String, "@ + delim_arg(e)
            + ", "@ + delim_arg(kv) + " )"@,
        KindView::Object => "StaticKind::JsonString"@,
    }
}

fn stem_exec(base: &str, idx: u64) -> (r: String)
    ensures
        r@ == arg_stem(base@, idx as nat),
{
    let mut s = owned(base);
    push_str(&mut s, "_");
    push_decimal(&mut s, idx);
    s
}

fn with_suffix(a: &str, b: &str) -> (r: String)
    ensures
        r@ == a@ + b@,
{
    let mut s = owned(a);
    push_str(&mut s, b);
    s
}

/// Appends the prelude of a kind and returns its static kind text.
pub fn generate_kind_string(kind: &Kind, base: &str, idx: u64, out: &mut String) -> (r: String)
    ensures
        final(out)@ == old(out)@ + kind_prelude(kind@, base@, idx as nat),
        r@ == static_kind(kind@, base@, idx as nat),
{
    match kind {
        Kind::String => owned("StaticKind::String"),
        Kind::Integer => owned("StaticKind::Integer"),
        Kind::Float => owned("StaticKind::Float"),
        Kind::Boolean => owned("StaticKind::Boolean"),
        Kind::Path => owned("StaticKind::Path"),
        Kind::File => owned("StaticKind::File"),
        Kind::Directory => owned("StaticKind::Directory"),
        Kind::Url => owned("StaticKind::Url"),
        Kind::DateTime => owned("StaticKind::DateTime"),
        Kind::Pattern => owned("StaticKind::Pattern"),
        Kind::JsonString => owned("StaticKind::JsonString"),
        Kind::Enum(values) => {
            let name = with_suffix(stem_exec(base, idx).as_str(), "_ENUM_VALUES");
            generate_string_array(out, values, name.as_str());
            let mut s = owned("StaticKind::Enum( &");
            push_str(&mut s, name.as_str());
            push_str(&mut s, " )");
            s
        },
        Kind::List(_, d) => {
            let mut s = owned("StaticKind::List( &StaticKind::String, ");
            push_delim_arg(&mut s, *d);
            push_str(&mut s, " )");
            s
        },
        Kind::MapOf(_, _, e, kv) => {
            let mut s = owned("StaticKind::Map( &StaticKind::String, &StaticKind::String, ");
            push_delim_arg(&mut s, *e);
            push_str(&mut s, ", ");
            push_delim_arg(&mut s, *kv);
            push_str(&mut s, " )");
            s
        },
        Kind::Object => owned("StaticKind::JsonString"),
    }
}

/// A string-list constant when the list is not empty.
pub open spec fn array_if_any(items: Seq<Seq<char>>, name: Seq<char>) -> Seq<char> {
    if items.len() > 0 { string_array_line(items, name) } else { Seq::<char>::empty() }
}

fn push_array_if_any(out: &mut String, items: &Vec<String>, name: &str)
    ensures
        final(out)@ == old(out)@ + array_if_any(strs(items@), name@),
{
    if items.len() > 0 {
        generate_string_array(out, items, name);
    } else {
        assert(out@ =~= old(out)@ + array_if_any(strs(items@), name@));
    }
}

/// A builder call on its own line when the list is not empty.
pub open spec fn call_if_any(items: Seq<Seq<char>>, call: Seq<char>, name: Seq<char>) -> Seq<char> {
    if items.len() > 0 { "\n"@ + call + name + " )"@ } else { Seq::<char>::empty() }
}

fn push_call_if_any(out: &mut String, items: &Vec<String>, call: &str, name: &str)
    ensures
        final(out)@ == old(out)@ + call_if_any(strs(items@), call@, name@),
{
    if items.len() > 0 {
        push_str(out, "\n");
        push_str(out, call);
        push_str(out, name);
        push_str(out, " )");
    }
    assert(out@ =~= old(out)@ + call_if_any(strs(items@), call@, name@));
}

/// The default call of an argument's attributes, when it has a default.
pub open spec fn default_call(d: Option<Seq<char>>) -> Seq<char> {
    match d {
        Some(v) => "\n  .with_default( \""@ + escape_literal(v) + "\" )"@,
        None => Seq::<char>::empty(),
    }
}

fn push_default_call(out: &mut String, d: &Option<String>)
    ensures
        final(out)@ == old(out)@ + default_call(crate::data::command_status::opt_view(*d)),
{
    match d {
        Some(v) => {
            push_str(out, "\n  .with_default( \"");
            push_escaped_literal(out, v.as_str());
            push_str(out, "\" )");
        },
        None => {},
    }
    assert(out@ =~= old(out)@ + default_call(crate::data::command_status::opt_view(*d)));
}

/// The attribute constant of an argument.
pub open spec fn attributes_const(s: Seq<char>, a: ArgumentView) -> Seq<char> {
    "const "@ + s + "_ATTRS: StaticArgumentAttributes = StaticArgumentAttributes::new()\n"@ + "  .with_optional( "@ + bool_word(a.optional) + " )\n"@ + "  .with_sensitive( "@ + bool_word(a.sensitive) + " )\n"@ + "  .with_interactive( "@ + bool_word(a.interactive) + " )\n"@ + "  .with_multiple( "@ + bool_word(a.multiple) + " )"@ + default_call(a.default) + ";\n\n"@
}

fn push_attributes_const(out: &mut String, s: &str, a: &ArgumentDefinition)
    ensures
        final(out)@ == old(out)@ + attributes_const(s@, a@),
{
    let ghost start = old(out)@;
    push_str(out, "const ");
    let ghost mut acc = "const "@;
    push_str(out, s);
    proof { acc = crate::text::lemma_extend(start, acc, s@); }
    push_str(out, "_ATTRS: StaticArgumentAttributes = StaticArgumentAttributes::new()\n");
    proof { acc = crate::text::lemma_extend(start, acc, "_ATTRS: StaticArgumentAttributes = StaticArgumentAttributes::new()\n"@); }
    push_str(out, "  .with_optional( ");
    proof { acc = crate::text::lemma_extend(start, acc, "  .with_optional( "@); }
    push_bool_word(out, a.attributes.optional);
    proof { acc = crate::text::lemma_extend(start, acc, bool_word(a@.optional)); }
    push_str(out, " )\n");
    proof { acc = crate::text::lemma_extend(start, acc, " )\n"@); }
    push_str(out, "  .with_sensitive( ");
    proof { acc = crate::text::lemma_extend(start, acc, "  .with_sensitive( "@); }
    push_bool_word(out, a.attributes.sensitive);
    proof { acc = crate::text::lemma_extend(start, acc, bool_word(a@.sensitive)); }
    push_str(out, " )\n");
    proof { acc = crate::text::lemma_extend(start, acc, " )\n"@); }
    push_str(out, "  .with_interactive( ");
    proof { acc = crate::text::lemma_extend(start, acc, "  .with_interactive( "@); }
    push_bool_word(out, a.attributes.interactive);
    proof { acc = crate::text::lemma_extend(start, acc, bool_word(a@.interactive)); }
    push_str(out, " )\n");
    proof { acc = crate::text::lemma_extend(start, acc, " )\n"@); }
    push_str(out, "  .with_multiple( ");
    proof { acc = crate::text::lemma_extend(start, acc, "  .with_multiple( "@); }
    push_bool_word(out, a.attributes.multiple);
    proof { acc = crate::text::lemma_extend(start, acc, bool_word(a@.multiple)); }
    push_str(out, " )");
    proof { acc = crate::text::lemma_extend(start, acc, " )"@); }
    push_default_call(out, &a.attributes.default);
    proof { acc = crate::text::lemma_extend(start, acc, default_call(a@.default)); }
    push_str(out, ";\n\n");
    proof { acc = crate::text::lemma_extend(start, acc, ";\n\n"@); }
}

/// The definition constant of an argument, given its static kind.
pub open spec fn argument_const(s: Seq<char>, a: ArgumentView, kind: Seq<char>) -> Seq<char> {
    "const "@ + s + "_ARG: StaticArgumentDefinition = StaticArgumentDefinition::new(\n"@ + "  \""@ + escape_literal(a.name) + "\",\n"@ + "  "@ + kind + ",\n"@ + "  \""@ + escape_literal(a.description) + "\",\n"@ + ")\n"@ + ".with_hint( \""@ + escape_literal(a.hint) + "\" )\n"@ + ".with_attributes( "@ + s + "_ATTRS )"@ + call_if_any(a.aliases, ".with_aliases( "@, s + "_ALIASES"@) + call_if_any(a.tags, ".with_tags( "@, s + "_TAGS"@) + ";\n\n"@
}

fn push_argument_const(out: &mut String, s: &str, a: &ArgumentDefinition, kind: &str)
    ensures
        final(out)@ == old(out)@ + argument_const(s@, a@, kind@),
{
    let ghost start = old(out)@;
    push_str(out, "const ");
    push_str(out, s);
    let ghost mut acc = "const "@;
    proof { acc = crate::text::lemma_extend(start, acc, s@); }
    push_str(out, "_ARG: StaticArgumentDefinition = StaticArgumentDefinition::new(\n");
    proof { acc = crate::text::lemma_extend(start, acc, "_ARG: StaticArgumentDefinition = StaticArgumentDefinition::new(\n"@); }
    push_str(out, "  \"");
    proof { acc = crate::text::lemma_extend(start, acc, "  \""@); }
    push_escaped_literal(out, a.name.as_str());
    proof { acc = crate::text::lemma_extend(start, acc, escape_literal(a@.name)); }
    push_str(out, "\",\n");
    proof { acc = crate::text::lemma_extend(start, acc, "\",\n"@); }
    push_str(out, "  ");
    proof { acc = crate::text::lemma_extend(start, acc, "  "@); }
    push_str(out, kind);
    proof { acc = crate::text::lemma_extend(start, acc, kind@); }
    push_str(out, ",\n");
    proof { acc = crate::text::lemma_extend(start, acc, ",\n"@); }
    push_str(out, "  \"");
    proof { acc = crate::text::lemma_extend(start, acc, "  \""@); }
    push_escaped_literal(out, a.description.as_str());
    proof { acc = crate::text::lemma_extend(start, acc, escape_literal(a@.description)); }
    push_str(out, "\",\n");
    proof { acc = crate::text::lemma_extend(start, acc, "\",\n"@); }
    push_str(out, ")\n");
    proof { acc = crate::text::lemma_extend(start, acc, ")\n"@); }
    push_str(out, ".with_hint( \"");
    proof { acc = crate::text::lemma_extend(start, acc, ".with_hint( \""@); }
    push_escaped_literal(out, a.hint.as_str());
    proof { acc = crate::text::lemma_extend(start, acc, escape_literal(a@.hint)); }
    push_str(out, "\" )\n");
    proof { acc = crate::text::lemma_extend(start, acc, "\" )\n"@); }
    push_str(out, ".with_attributes( ");
    proof { acc = crate::text::lemma_extend(start, acc, ".with_attributes( "@); }
    push_str(out, s);
    proof { acc = crate::text::lemma_extend(start, acc, s@); }
    push_str(out, "_ATTRS )");
    proof { acc = crate::text::lemma_extend(start, acc, "_ATTRS )"@); }
    push_call_if_any(out, &a.aliases, ".with_aliases( ", with_suffix(s, "_ALIASES").as_str());
    proof { acc = crate::text::lemma_extend(start, acc, call_if_any(a@.aliases, ".with_aliases( "@, s@ + "_ALIASES"@)); }
    push_call_if_any(out, &a.tags, ".with_tags( ", with_suffix(s, "_TAGS").as_str());
    proof { acc = crate::text::lemma_extend(start, acc, call_if_any(a@.tags, ".with_tags( "@, s@ + "_TAGS"@)); }
    push_str(out, ";\n\n");
    proof { acc = crate::text::lemma_extend(start, acc, ";\n\n"@); }
}

/// The constants generated for the `idx`-th argument of a command whose
/// constants are named from `base`: its aliases and tags (when any), its
/// attributes, the choices of an enum kind, and its definition.
pub open spec fn argument_definition(a: ArgumentView, base: Seq<char>, idx: nat) -> Seq<char> {
    let s = arg_stem(base, idx);
    array_if_any(a.aliases, s + "_ALIASES"@) + array_if_any(a.tags, s + "_TAGS"@) + attributes_const(s, a)
        + kind_prelude(a.kind, base, idx) + argument_const(s, a, static_kind(a.kind, base, idx))
}

/// Appends the constants of one argument; see `argument_definition`.
pub fn generate_argument_definition(out: &mut String, arg: &ArgumentDefinition, base: &str, idx: u64)
    ensures
        final(out)@ == old(out)@ + argument_definition(arg@, base@, idx as nat),
{
    let ghost start = old(out)@;
    let s = stem_exec(base, idx);
    push_array_if_any(out, &arg.aliases, with_suffix(s.as_str(), "_ALIASES").as_str());
    push_array_if_any(out, &arg.tags, with_suffix(s.as_str(), "_TAGS").as_str());
    push_attributes_const(out, s.as_str(), arg);
    let kind = generate_kind_string(&arg.kind, base, idx, out);
    push_argument_const(out, s.as_str(), arg, kind.as_str());
    assert(out@ =~= start + argument_definition(arg@, base@, idx as nat));
}

/// The status word written for a status.
pub open spec fn status_word(st: StatusView) -> Seq<char> {
    match st {
        StatusView::Active => "active"@,
        StatusView::Deprecated { .. } => "deprecated"@,
        StatusView::Experimental => "experimental"@,
        StatusView::Internal => "internal"@,
    }
}

/// The status word written into a generated definition reads back, through
/// the status-word parser (`CommandStatus::from_status_word`), as a status
/// of the same kind as the command's: active as active, deprecated as
/// deprecated, experimental as experimental, internal as internal.
pub proof fn lemma_status_word_reads_back(st: StatusView)
    ensures
        ({
            let back = crate::data::command_status::status_of_lower_word(crate::debug_text::lowercase_text(status_word(st)));
            &&& (back is Active <==> st is Active)
            &&& (back is Deprecated <==> st is Deprecated)
            &&& (back is Experimental <==> st is Experimental)
            &&& (back is Internal <==> st is Internal)
        }),
{
    reveal_strlit("active");
    reveal_strlit("stable");
    reveal_strlit("deprecated");
    reveal_strlit("experimental");
    reveal_strlit("internal");
    let w = status_word(st);
    assert(vstd::utf8::is_ascii_chars(w));
    assert(w.map_values(|c: char| crate::text::ascii_lower(c)) =~= w);
}

fn status_word_exec(c: &CommandDefinition) -> (r: &'static str)
    ensures
        r@ == status_word(c@.status),
{
    match c.status() {
        crate::data::command_status::CommandStatus::Active => "active",
        crate::data::command_status::CommandStatus::Deprecated { .. } => "deprecated",
        crate::data::command_status::CommandStatus::Experimental => "experimental",
        crate::data::command_status::CommandStatus::Internal => "internal",
    }
}

/// A field line with a quoted, escaped value.
pub open spec fn quoted_field(field: Seq<char>, value: Seq<char>) -> Seq<char> {
    "  "@ + field + ": \""@ + escape_literal(value) + "\",\n"@
}

fn push_quoted_field(out: &mut String, field: &str, value: &str)
    ensures
        final(out)@ == old(out)@ + quoted_field(field@, value@),
{
    push_str(out, "  ");
    push_str(out, field);
    push_str(out, ": \"");
    push_escaped_literal(out, value);
    push_str(out, "\",\n");
    assert(out@ =~= old(out)@ + quoted_field(field@, value@));
}

/// A field line naming a list constant, or `&[]` for an empty list.
pub open spec fn list_field(field: Seq<char>, empty: bool, name: Seq<char>) -> Seq<char> {
    "  "@ + field + ": "@ + (if empty { "&[]"@ } else { name }) + ",\n"@
}

fn push_list_field(out: &mut String, field: &str, empty: bool, name: &str)
    ensures
        final(out)@ == old(out)@ + list_field(field@, empty, name@),
{
    push_str(out, "  ");
    push_str(out, field);
    push_str(out, ": ");
    if empty {
        push_str(out, "&[]");
    } else {
        push_str(out, name);
    }
    push_str(out, ",\n");
    assert(out@ =~= old(out)@ + list_field(field@, empty, name@));
}

/// A field line with a boolean value.
pub open spec fn flag_field(field: Seq<char>, b: bool) -> Seq<char> {
    "  "@ + field + ": "@ + bool_word(b) + ",\n"@
}

fn push_flag_field(out: &mut String, field: &str, b: bool)
    ensures
        final(out)@ == old(out)@ + flag_field(field@, b),
{
    push_str(out, "  ");
    push_str(out, field);
    push_str(out, ": ");
    push_bool_word(out, b);
    push_str(out, ",\n");
    assert(out@ =~= old(out)@ + flag_field(field@, b));
}

/// The fields of a command's static definition; list fields name the constants
/// generated for them, or are empty.
pub open spec fn command_definition_body(c: CommandView, base: Seq<char>) -> Seq<char> {
    quoted_field("name"@, c.name) + quoted_field("namespace"@, c.namespace) + quoted_field("description"@, c.description) + list_field("arguments"@, c.arguments.len() == 0, base + "_ARGS"@) + "  routine_link: None,\n"@ + quoted_field("hint"@, c.hint) + quoted_field("status"@, status_word(c.status)) + quoted_field("version"@, c.version) + list_field("tags"@, c.tags.len() == 0, base + "_TAGS"@) + list_field("aliases"@, c.aliases.len() == 0, base + "_ALIASES"@) + list_field("permissions"@, c.permissions.len() == 0, base + "_PERMISSIONS"@) + flag_field("idempotent"@, c.idempotent) + quoted_field("deprecation_message"@, c.deprecation_message) + quoted_field("http_method_hint"@, c.http_method_hint) + list_field("examples"@, c.examples.len() == 0, base + "_EXAMPLES"@) + flag_field("auto_help_enabled"@, c.auto_help_enabled) + quoted_field("category"@, c.category) + flag_field("show_version_in_help"@, c.show_version_in_help)
}

pub fn generate_command_definition_body(out: &mut String, c: &CommandDefinition, base: &str)
    ensures
        final(out)@ == old(out)@ + command_definition_body(c@, base@),
{
    let ghost start = old(out)@;
    push_quoted_field(out, "name", c.name().as_str());
    let ghost mut acc = quoted_field("name"@, c@.name);
    push_quoted_field(out, "namespace", c.namespace());
    proof { acc = crate::text::lemma_extend(start, acc, quoted_field("namespace"@, c@.namespace)); }
    push_quoted_field(out, "description", c.description());
    proof { acc = crate::text::lemma_extend(start, acc, quoted_field("description"@, c@.description)); }
    push_list_field(out, "arguments", c.arguments().len() == 0, with_suffix(base, "_ARGS").as_str());
    proof { acc = crate::text::lemma_extend(start, acc, list_field("arguments"@, c@.arguments.len() == 0, base@ + "_ARGS"@)); }
    push_str(out, "  routine_link: None,\n");
    proof { acc = crate::text::lemma_extend(start, acc, "  routine_link: None,\n"@); }
    push_quoted_field(out, "hint", c.hint());
    proof { acc = crate::text::lemma_extend(start, acc, quoted_field("hint"@, c@.hint)); }
    push_quoted_field(out, "status", status_word_exec(c));
    proof { acc = crate::text::lemma_extend(start, acc, quoted_field("status"@, status_word(c@.status))); }
    push_quoted_field(out, "version", c.version().as_str());
    proof { acc = crate::text::lemma_extend(start, acc, quoted_field("version"@, c@.version)); }
    push_list_field(out, "tags", c.tags().len() == 0, with_suffix(base, "_TAGS").as_str());
    proof { acc = crate::text::lemma_extend(start, acc, list_field("tags"@, c@.tags.len() == 0, base@ + "_TAGS"@)); }
    push_list_field(out, "aliases", c.aliases().len() == 0, with_suffix(base, "_ALIASES").as_str());
    proof { acc = crate::text::lemma_extend(start, acc, list_field("aliases"@, c@.aliases.len() == 0, base@ + "_ALIASES"@)); }
    push_list_field(out, "permissions", c.permissions().len() == 0, with_suffix(base, "_PERMISSIONS").as_str());
    proof { acc = crate::text::lemma_extend(start, acc, list_field("permissions"@, c@.permissions.len() == 0, base@ + "_PERMISSIONS"@)); }
    push_flag_field(out, "idempotent", c.idempotent());
    proof { acc = crate::text::lemma_extend(start, acc, flag_field("idempotent"@, c@.idempotent)); }
    push_quoted_field(out, "deprecation_message", c.deprecation_message());
    proof { acc = crate::text::lemma_extend(start, acc, quoted_field("deprecation_message"@, c@.deprecation_message)); }
    push_quoted_field(out, "http_method_hint", c.http_method_hint());
    proof { acc = crate::text::lemma_extend(start, acc, quoted_field("http_method_hint"@, c@.http_method_hint)); }
    push_list_field(out, "examples", c.examples().len() == 0, with_suffix(base, "_EXAMPLES").as_str());
    proof { acc = crate::text::lemma_extend(start, acc, list_field("examples"@, c@.examples.len() == 0, base@ + "_EXAMPLES"@)); }
    push_flag_field(out, "auto_help_enabled", c.auto_help_enabled());
    proof { acc = crate::text::lemma_extend(start, acc, flag_field("auto_help_enabled"@, c@.auto_help_enabled)); }
    push_quoted_field(out, "category", c.category());
    proof { acc = crate::text::lemma_extend(start, acc, quoted_field("category"@, c@.category)); }
    push_flag_field(out, "show_version_in_help", c.show_version_in_help());
    proof { acc = crate::text::lemma_extend(start, acc, flag_field("show_version_in_help"@, c@.show_version_in_help)); }
}

/// The line of one entry of a `phf::Map` literal: the key's `Debug` form
/// and the value expression.
pub open spec fn phf_entry_line(key: Seq<char>, value: Seq<char>) -> Seq<char> {
    "\n        ("@ + str_debug(key) + ", "@ + value + "),"@
}

/// The line of one displacement pair of a `phf::Map` literal.
pub open spec fn phf_disp_line(d: (u32, u32)) -> Seq<char> {
    "\n        ("@ + dec_text(d.0 as nat) + ", "@ + dec_text(d.1 as nat) + "),"@
}

/// The lines of the displacement pairs, in order.
pub open spec fn phf_disp_lines(disps: Seq<(u32, u32)>) -> Seq<char>
    decreases disps.len(),
{
    if disps.len() == 0 {
        Seq::<char>::empty()
    } else {
        phf_disp_lines(disps.drop_last()) + phf_disp_line(disps.last())
    }
}

/// The entry lines of the keys and their values, taken in the order that
/// `order` lists their positions.
pub open spec fn phf_entry_lines(keys: Seq<Seq<char>>, values: Seq<Seq<char>>, order: Seq<int>) -> Seq<char>
    decreases order.len(),
{
    if order.len() == 0 {
        Seq::<char>::empty()
    } else {
        phf_entry_lines(keys, values, order.drop_last()) + phf_entry_line(keys[order.last()], values[order.last()])
    }
}

/// `order` lists each position `0..n` exactly once.
pub open spec fn is_order_of(order: Seq<int>, n: nat) -> bool {
    &&& order.len() == n
    &&& forall|i: int| 0 <= i < order.len() ==> 0 <= #[trigger] order[i] < n
    &&& order.no_duplicates()
}

/// The `phf::Map` literal for the crate path, a hash key, the displacement
/// pairs and the entries of the keys and values in the order `order`.
pub open spec fn phf_map_literal(
    path: Seq<char>,
    keys: Seq<Seq<char>>,
    values: Seq<Seq<char>>,
    key: u64,
    disps: Seq<(u32, u32)>,
    order: Seq<int>,
) -> Seq<char> {
    path + "::Map {\n    key: "@ + dec_text(key as nat) + ",\n    disps: &["@ + phf_disp_lines(disps)
        + "\n    ],\n    entries: &["@ + phf_entry_lines(keys, values, order) + "\n    ],\n}"@
}

/// What every `phf::Map` literal that the `phf_codegen` crate writes for
/// the crate path `path`, the keys `keys` and the value expressions
/// `values` is: the literal for some hash key, one displacement pair per
/// bucket of five keys (rounded up), and one entry line for each key with
/// its value, the keys in some order that lists each of them once.
pub open spec fn is_phf_map_text(path: Seq<char>, keys: Seq<Seq<char>>, values: Seq<Seq<char>>, t: Seq<char>) -> bool {
    exists|key: u64, disps: Seq<(u32, u32)>, order: Seq<int>|
        #![trigger phf_map_literal(path, keys, values, key, disps, order)]
        disps.len() == (keys.len() + 4) / 5 && is_order_of(order, keys.len())
            && t == phf_map_literal(path, keys, values, key, disps, order)
}

/// `phf_codegen::Map` (with `phf_path`, one `entry` per key and `build`),
/// displayed: the source of a perfect-hash map literal from the keys to the
/// value expressions. The text is the head with the path and the hash key,
/// one line per displacement pair (one pair per bucket of five keys), and
/// one entry line per key, with the key's `Debug` form and the value exactly
/// as given; the generator places every key in a slot of its own, so the
/// entries list each key once. The hash key, the displacement values and
/// the order of the entries come from a generator whose random source is
/// not the same on every platform, so the contract leaves them open. The
/// builder panics on a repeated key, which `requires` rules out.
#[verifier::external_body]
fn phf_map_text(path: &str, keys: &Vec<String>, values: &Vec<String>) -> (r: String)
    requires
        keys@.len() == values@.len(),
        forall|i: int, j: int| 0 <= i < j < keys@.len() ==> keys@[i]@ != keys@[j]@,
    ensures
        is_phf_map_text(path@, strs(keys@), strs(values@), r@),
{
    let mut map = phf_codegen::Map::<&str>::new();
    map.phf_path(path);
    for (k, v) in keys.iter().zip(values.iter()) {
        map.entry(k.as_str(), v.as_str());
    }
    format!("{}", map.build())
}

/// `a` comes before `b` in code-point order (the order of `String`).
pub open spec fn str_less(a: Seq<char>, b: Seq<char>) -> bool
    decreases a.len(),
{
    if a.len() == 0 {
        b.len() > 0
    } else if b.len() == 0 {
        false
    } else if a[0] != b[0] {
        (a[0] as u32) < (b[0] as u32)
    } else {
        str_less(a.drop_first(), b.drop_first())
    }
}

/// Tells whether `a` comes before `b`; see `str_less`.
fn str_less_exec(a: &Vec<char>, b: &Vec<char>) -> (r: bool)
    ensures
        r == str_less(a@, b@),
{
    let mut i: usize = 0;
    assert(a@.skip(0) =~= a@);
    assert(b@.skip(0) =~= b@);
    while i < a.len() && i < b.len() && a[i] == b[i]
        invariant
            i <= a@.len(),
            i <= b@.len(),
            str_less(a@, b@) == str_less(a@.skip(i as int), b@.skip(i as int)),
        decreases a@.len() - i,
    {
        assert(a@.skip(i as int).drop_first() =~= a@.skip(i as int + 1));
        assert(b@.skip(i as int).drop_first() =~= b@.skip(i as int + 1));
        i = i + 1;
    }
    assert(a@.skip(i as int).len() == a@.len() - i);
    if i == a.len() {
        i < b.len()
    } else if i == b.len() {
        false
    } else {
        assert(a@.skip(i as int)[0] == a@[i as int]);
        assert(b@.skip(i as int)[0] == b@[i as int]);
        (a[i] as u32) < (b[i] as u32)
    }
}

/// `k` inserted into `s` before the first element that it comes before.
pub open spec fn insert_sorted(s: Seq<Seq<char>>, k: Seq<char>) -> Seq<Seq<char>>
    decreases s.len(),
{
    if s.len() == 0 {
        seq![k]
    } else if str_less(k, s[0]) {
        seq![k] + s
    } else {
        seq![s[0]] + insert_sorted(s.drop_first(), k)
    }
}

/// The keys in ascending order.
pub open spec fn sort_keys(ks: Seq<Seq<char>>) -> Seq<Seq<char>>
    decreases ks.len(),
{
    if ks.len() == 0 {
        Seq::<Seq<char>>::empty()
    } else {
        insert_sorted(sort_keys(ks.drop_last()), ks.last())
    }
}

proof fn lemma_insert_at(s: Seq<Seq<char>>, k: Seq<char>, j: int)
    requires
        0 <= j <= s.len(),
        forall|m: int| 0 <= m < j ==> !str_less(k, #[trigger] s[m]),
        j < s.len() ==> str_less(k, s[j]),
    ensures
        insert_sorted(s, k) == s.take(j) + seq![k] + s.skip(j),
    decreases s.len(),
{
    if s.len() == 0 {
        assert(s.take(j) + seq![k] + s.skip(j) =~= seq![k]);
    } else if j == 0 {
        assert(s.take(j) + seq![k] + s.skip(j) =~= seq![k] + s);
    } else {
        let d = s.drop_first();
        assert forall|m: int| 0 <= m < j - 1 implies !str_less(k, #[trigger] d[m]) by {
            assert(d[m] == s[m + 1]);
        }
        if j < s.len() {
            assert(d[j - 1] == s[j]);
        }
        lemma_insert_at(d, k, j - 1);
        assert(s.take(j) + seq![k] + s.skip(j) =~= seq![s[0]] + (d.take(j - 1) + seq![k] + d.skip(j - 1)));
    }
}

fn insert_key(sorted: &mut Vec<String>, k: String)
    ensures
        strs(final(sorted)@) == insert_sorted(strs(old(sorted)@), k@),
{
    let ghost sv = strs(sorted@);
    let kv = chars_of(k.as_str());
    let mut j: usize = 0;
    while j < sorted.len() && !str_less_exec(&kv, &chars_of(sorted[j].as_str()))
        invariant
            j <= sorted@.len(),
            sv == strs(sorted@),
            kv@ == k@,
            forall|m: int| 0 <= m < j ==> !str_less(k@, #[trigger] sv[m]),
        decreases sorted@.len() - j,
    {
        j = j + 1;
    }
    proof {
        lemma_insert_at(sv, k@, j as int);
    }
    let ghost kk = k@;
    sorted.insert(j, k);
    assert(strs(sorted@) =~= sv.take(j as int) + seq![kk] + sv.skip(j as int));
}

/// The keys in ascending order; see `sort_keys`.
pub fn sorted_keys(keys: &Vec<String>) -> (r: Vec<String>)
    ensures
        strs(r@) == sort_keys(strs(keys@)),
{
    let ghost kv = strs(keys@);
    let mut sorted: Vec<String> = Vec::new();
    let mut i: usize = 0;
    assert(kv.take(0) =~= Seq::<Seq<char>>::empty());
    assert(strs(sorted@) =~= Seq::<Seq<char>>::empty());
    while i < keys.len()
        invariant
            i <= keys@.len(),
            kv == strs(keys@),
            strs(sorted@) == sort_keys(kv.take(i as int)),
        decreases keys@.len() - i,
    {
        assert(kv.take(i as int + 1).drop_last() =~= kv.take(i as int));
        insert_key(&mut sorted, keys[i].clone());
        i = i + 1;
    }
    assert(kv.take(keys@.len() as int) =~= kv);
    sorted
}

proof fn lemma_insert_sorted_distinct(s: Seq<Seq<char>>, k: Seq<char>)
    requires
        s.no_duplicates(),
        !s.contains(k),
    ensures
        insert_sorted(s, k).no_duplicates(),
        forall|x: Seq<char>| insert_sorted(s, k).contains(x) <==> (s.contains(x) || x == k),
    decreases s.len(),
{
    let r = insert_sorted(s, k);
    if s.len() == 0 {
        assert forall|x: Seq<char>| r.contains(x) <==> (s.contains(x) || x == k) by {
            if r.contains(x) {
                assert(r[0] == x);
            }
            if x == k {
                assert(r[0] == k);
            }
        }
    } else if str_less(k, s[0]) {
        assert forall|i: int, j: int| 0 <= i < j < r.len() implies r[i] != r[j] by {
            if i == 0 {
                assert(r[j] == s[j - 1]);
            } else {
                assert(r[i] == s[i - 1] && r[j] == s[j - 1]);
            }
        }
        assert forall|x: Seq<char>| r.contains(x) <==> (s.contains(x) || x == k) by {
            if r.contains(x) {
                let i = choose|i: int| 0 <= i < r.len() && r[i] == x;
                if i > 0 {
                    assert(s[i - 1] == x);
                }
            }
            if s.contains(x) {
                let i = choose|i: int| 0 <= i < s.len() && s[i] == x;
                assert(r[i + 1] == x);
            }
            if x == k {
                assert(r[0] == x);
            }
        }
    } else {
        let d = s.drop_first();
        assert(d.no_duplicates()) by {
            assert forall|i: int, j: int| 0 <= i < j < d.len() implies d[i] != d[j] by {
                assert(d[i] == s[i + 1] && d[j] == s[j + 1]);
            }
        }
        assert(!d.contains(k)) by {
            if d.contains(k) {
                let i = choose|i: int| 0 <= i < d.len() && d[i] == k;
                assert(s[i + 1] == k);
            }
        }
        lemma_insert_sorted_distinct(d, k);
        let t = insert_sorted(d, k);
        assert(!t.contains(s[0])) by {
            if t.contains(s[0]) {
                if d.contains(s[0]) {
                    let i = choose|i: int| 0 <= i < d.len() && d[i] == s[0];
                    assert(s[i + 1] == s[0]);
                } else {
                    assert(s.contains(k));
                }
            }
        }
        assert forall|i: int, j: int| 0 <= i < j < r.len() implies r[i] != r[j] by {
            if i == 0 {
                assert(r[j] == t[j - 1]);
                assert(t.contains(r[j]));
            } else {
                assert(r[i] == t[i - 1] && r[j] == t[j - 1]);
            }
        }
        assert forall|x: Seq<char>| r.contains(x) <==> (s.contains(x) || x == k) by {
            if r.contains(x) {
                let i = choose|i: int| 0 <= i < r.len() && r[i] == x;
                if i > 0 {
                    assert(t[i - 1] == x);
                    if d.contains(x) {
                        let m = choose|m: int| 0 <= m < d.len() && d[m] == x;
                        assert(s[m + 1] == x);
                    }
                } else {
                    assert(s[0] == x);
                }
            }
            if s.contains(x) {
                let i = choose|i: int| 0 <= i < s.len() && s[i] == x;
                if i == 0 {
                    assert(r[0] == x);
                } else {
                    assert(d[i - 1] == x);
                    assert(d.contains(x));
                    assert(t.contains(x));
                    let m = choose|m: int| 0 <= m < t.len() && t[m] == x;
                    assert(r[m + 1] == x);
                }
            }
            if x == k {
                assert(t.contains(k));
                let m = choose|m: int| 0 <= m < t.len() && t[m] == k;
                assert(r[m + 1] == k);
            }
        }
    }
}

/// Sorting keeps the keys, and keeps distinct keys distinct.
pub proof fn lemma_sort_keys_distinct(ks: Seq<Seq<char>>)
    requires
        ks.no_duplicates(),
    ensures
        sort_keys(ks).no_duplicates(),
        forall|x: Seq<char>| sort_keys(ks).contains(x) <==> ks.contains(x),
    decreases ks.len(),
{
    if ks.len() > 0 {
        let d = ks.drop_last();
        assert(d.no_duplicates()) by {
            assert forall|i: int, j: int| 0 <= i < j < d.len() implies d[i] != d[j] by {
                assert(d[i] == ks[i] && d[j] == ks[j]);
            }
        }
        lemma_sort_keys_distinct(d);
        assert(!d.contains(ks.last())) by {
            if d.contains(ks.last()) {
                let i = choose|i: int| 0 <= i < d.len() && d[i] == ks.last();
                assert(ks[i] == ks[ks.len() - 1]);
            }
        }
        lemma_insert_sorted_distinct(sort_keys(d), ks.last());
        assert forall|x: Seq<char>| sort_keys(ks).contains(x) <==> ks.contains(x) by {
            if ks.contains(x) {
                let i = choose|i: int| 0 <= i < ks.len() && ks[i] == x;
                if i < ks.len() - 1 {
                    assert(d[i] == x);
                }
            }
            if d.contains(x) {
                let i = choose|i: int| 0 <= i < d.len() && d[i] == x;
                assert(ks[i] == x);
            }
        }
    } else {
        assert(sort_keys(ks) =~= ks);
    }
}

/// `s` with `.` and `-` replaced by `_`.
pub open spec fn underscored(s: Seq<char>) -> Seq<char> {
    s.map_values(|c: char| if c == '.' || c == '-' { '_' } else { c })
}

/// The stem of a command's constant names: its key with `.` and `-` made
/// `_`, upper-cased.
pub open spec fn const_base(name: Seq<char>) -> Seq<char> {
    uppercase_text(underscored(name))
}

fn const_base_exec(name: &str) -> (r: String)
    ensures
        r@ == const_base(name@),
{
    let v = chars_of(name);
    let mut u: Vec<char> = Vec::new();
    let mut i: usize = 0;
    while i < v.len()
        invariant
            i <= v@.len(),
            u@ == underscored(v@.take(i as int)),
        decreases v@.len() - i,
    {
        let c = v[i];
        u.push(if c == '.' || c == '-' { '_' } else { c });
        i = i + 1;
        assert(u@ =~= underscored(v@.take(i as int)));
    }
    assert(v@.take(v@.len() as int) =~= v@);
    to_uppercase(string_of(&u).as_str())
}

/// The constants of a command's arguments, in order.
pub open spec fn arg_defs(args: Seq<ArgumentView>, base: Seq<char>) -> Seq<char>
    decreases args.len(),
{
    if args.len() == 0 {
        Seq::<char>::empty()
    } else {
        arg_defs(args.drop_last(), base) + argument_definition(args.last(), base, (args.len() - 1) as nat)
    }
}

/// The names of the first `n` argument constants, each followed by `, `.
pub open spec fn arg_list_refs(base: Seq<char>, n: nat) -> Seq<char>
    decreases n,
{
    if n == 0 {
        Seq::<char>::empty()
    } else {
        arg_list_refs(base, (n - 1) as nat) + arg_stem(base, (n - 1) as nat) + "_ARG, "@
    }
}

/// The list of a command's argument constants, when it has arguments.
pub open spec fn args_array(c: CommandView, base: Seq<char>) -> Seq<char> {
    if c.arguments.len() > 0 {
        "const "@ + base + "_ARGS: &[StaticArgumentDefinition] = &["@ + arg_list_refs(base, c.arguments.len())
            + "];\n\n"@
    } else {
        Seq::<char>::empty()
    }
}

/// A command's list constants: its arguments, tags, aliases, permissions
/// and examples, each when there are any.
pub open spec fn command_arrays(c: CommandView, b: Seq<char>) -> Seq<char> {
    args_array(c, b) + array_if_any(c.tags, b + "_TAGS"@) + array_if_any(c.aliases, b + "_ALIASES"@)
        + array_if_any(c.permissions, b + "_PERMISSIONS"@) + array_if_any(c.examples, b + "_EXAMPLES"@)
}

/// A command's own static definition.
pub open spec fn command_static(c: CommandView, b: Seq<char>) -> Seq<char> {
    "\nstatic "@ + b + "_CMD: StaticCommandDefinition = StaticCommandDefinition {\n"@
        + command_definition_body(c, b) + "};\n\n"@
}

/// Everything generated for one command under its key.
#[verifier::opaque]
pub open spec fn command_section(name: Seq<char>, c: CommandView) -> Seq<char> {
    let b = const_base(name);
    arg_defs(c.arguments, b) + command_arrays(c, b) + command_static(c, b)
}

/// The sections of all commands, in order.
pub open spec fn sections(es: Seq<(Seq<char>, CommandView)>) -> Seq<char>
    decreases es.len(),
{
    if es.len() == 0 {
        Seq::<char>::empty()
    } else {
        sections(es.drop_last()) + command_section(es.last().0, es.last().1)
    }
}

/// The keys of the commands.
pub open spec fn entry_keys(es: Seq<(Seq<char>, CommandView)>) -> Seq<Seq<char>> {
    es.map_values(|e: (Seq<char>, CommandView)| e.0)
}

/// The value expression of each key's table entry.
pub open spec fn entry_refs(keys: Seq<Seq<char>>) -> Seq<Seq<char>> {
    keys.map_values(|k: Seq<char>| "&"@ + const_base(k) + "_CMD"@)
}

/// The head of the generated source.
pub open spec fn source_head() -> Seq<char> {
    "use unilang::phf::{self, Map};\nuse unilang::static_data::{StaticCommandDefinition, StaticArgumentDefinition, StaticArgumentAttributes, StaticKind};\n\n"@
}

/// The source of an aggregated command table: each command's constants in
/// the given order, then the table itself, whose value is the map literal
/// `map_text`.
#[verifier::opaque]
pub open spec fn registry_source(es: Seq<(Seq<char>, CommandView)>, map_text: Seq<char>) -> Seq<char> {
    source_head() + sections(es)
        + "pub static AGGREGATED_COMMANDS: Map<&'static str, &'static StaticCommandDefinition> = "@
        + map_text + ";\n"@
}

/// The keys of the table, in ascending order.
pub open spec fn registry_keys(es: Seq<(Seq<char>, CommandView)>) -> Seq<Seq<char>> {
    sort_keys(entry_keys(es))
}

/// The value expressions of the table, one per key in ascending order.
pub open spec fn registry_values(es: Seq<(Seq<char>, CommandView)>) -> Seq<Seq<char>> {
    entry_refs(registry_keys(es))
}

/// The commands as characters.
pub open spec fn entries_of(v: Seq<(String, CommandDefinition)>) -> Seq<(Seq<char>, CommandView)> {
    v.map_values(|e: (String, CommandDefinition)| (e.0@, e.1@))
}

fn push_arg_defs(out: &mut String, args: &Vec<ArgumentDefinition>, base: &str)
    ensures
        final(out)@ == old(out)@ + arg_defs(args_view(args@), base@),
{
    let ghost start = old(out)@;
    let ghost av = args_view(args@);
    let mut i: usize = 0;
    assert(av.take(0) =~= Seq::<ArgumentView>::empty());
    while i < args.len()
        invariant
            i <= args@.len(),
            av == args_view(args@),
            out@ == start + arg_defs(av.take(i as int), base@),
        decreases args@.len() - i,
    {
        assert(av.take(i as int + 1).drop_last() =~= av.take(i as int));
        assert(av[i as int] == args@[i as int]@);
        generate_argument_definition(out, &args[i], base, i as u64);
        proof {
            vstd::seq_lib::lemma_concat_associative(start, arg_defs(av.take(i as int), base@),
                argument_definition(av[i as int], base@, i as nat));
        }
        i = i + 1;
    }
    assert(av.take(args@.len() as int) =~= av);
}

fn push_args_array(out: &mut String, c: &CommandDefinition, base: &str)
    ensures
        final(out)@ == old(out)@ + args_array(c@, base@),
{
    let ghost start = old(out)@;
    let n = c.arguments().len();
    if n > 0 {
        push_str(out, "const ");
        push_str(out, base);
        push_str(out, "_ARGS: &[StaticArgumentDefinition] = &[");
        let ghost head = out@;
        let mut i: usize = 0;
        while i < n
            invariant
                i <= n,
                out@ == head + arg_list_refs(base@, i as nat),
            decreases n - i,
        {
            push_str(out, stem_exec(base, i as u64).as_str());
            push_str(out, "_ARG, ");
            i = i + 1;
            assert(out@ =~= head + arg_list_refs(base@, i as nat));
        }
        push_str(out, "];\n\n");
    }
    assert(out@ =~= start + args_array(c@, base@));
}

fn push_command_arrays(out: &mut String, c: &CommandDefinition, b: &str)
    ensures
        final(out)@ == old(out)@ + command_arrays(c@, b@),
{
    let ghost start = old(out)@;
    let ghost bv = b@;
    push_args_array(out, c, b);
    push_array_if_any(out, c.tags(), with_suffix(b, "_TAGS").as_str());
    let ghost mut acc = args_array(c@, bv);
    proof { acc = crate::text::lemma_extend(start, acc, array_if_any(c@.tags, bv + "_TAGS"@)); }
    push_array_if_any(out, c.aliases(), with_suffix(b, "_ALIASES").as_str());
    proof { acc = crate::text::lemma_extend(start, acc, array_if_any(c@.aliases, bv + "_ALIASES"@)); }
    push_array_if_any(out, c.permissions(), with_suffix(b, "_PERMISSIONS").as_str());
    proof { acc = crate::text::lemma_extend(start, acc, array_if_any(c@.permissions, bv + "_PERMISSIONS"@)); }
    push_array_if_any(out, c.examples(), with_suffix(b, "_EXAMPLES").as_str());
    proof { acc = crate::text::lemma_extend(start, acc, array_if_any(c@.examples, bv + "_EXAMPLES"@)); }
}

fn push_command_static(out: &mut String, c: &CommandDefinition, b: &str)
    ensures
        final(out)@ == old(out)@ + command_static(c@, b@),
{
    let ghost start = old(out)@;
    let ghost bv = b@;
    push_str(out, "\nstatic ");
    push_str(out, b);
    let ghost mut acc = "\nstatic "@;
    proof { acc = crate::text::lemma_extend(start, acc, bv); }
    push_str(out, "_CMD: StaticCommandDefinition = StaticCommandDefinition {\n");
    proof { acc = crate::text::lemma_extend(start, acc, "_CMD: StaticCommandDefinition = StaticCommandDefinition {\n"@); }
    generate_command_definition_body(out, c, b);
    proof { acc = crate::text::lemma_extend(start, acc, command_definition_body(c@, bv)); }
    push_str(out, "};\n\n");
    proof { acc = crate::text::lemma_extend(start, acc, "};\n\n"@); }
}

fn push_command_section(out: &mut String, name: &str, c: &CommandDefinition)
    ensures
        final(out)@ == old(out)@ + command_section(name@, c@),
{
    let ghost start = old(out)@;
    let b = const_base_exec(name);
    let bs = b.as_str();
    push_arg_defs(out, c.arguments(), bs);
    push_command_arrays(out, c, bs);
    let ghost mut acc = arg_defs(c@.arguments, b@);
    proof { acc = crate::text::lemma_extend(start, acc, command_arrays(c@, b@)); }
    push_command_static(out, c, bs);
    proof {
        vstd::seq_lib::lemma_concat_associative(start, arg_defs(c@.arguments, b@) + command_arrays(c@, b@),
            command_static(c@, b@));
        reveal(command_section);
    }
}

fn push_sections(out: &mut String, commands: &Vec<(String, CommandDefinition)>)
    ensures
        final(out)@ == old(out)@ + sections(entries_of(commands@)),
{
    let ghost es = entries_of(commands@);
    let ghost head = old(out)@;
    let mut i: usize = 0;
    assert(es.take(0) =~= Seq::<(Seq<char>, CommandView)>::empty());
    assert(head + Seq::<char>::empty() =~= head);
    while i < commands.len()
        invariant
            i <= commands@.len(),
            es == entries_of(commands@),
            out@ == head + sections(es.take(i as int)),
        decreases commands@.len() - i,
    {
        assert(es.take(i as int + 1).drop_last() =~= es.take(i as int));
        assert(es[i as int] == (commands@[i as int].0@, commands@[i as int].1@));
        push_command_section(out, commands[i].0.as_str(), &commands[i].1);
        proof {
            vstd::seq_lib::lemma_concat_associative(head, sections(es.take(i as int)),
                command_section(es[i as int].0, es[i as int].1));
        }
        i = i + 1;
    }
    assert(es.take(commands@.len() as int) =~= es);
}

fn command_keys(commands: &Vec<(String, CommandDefinition)>) -> (keys: Vec<String>)
    ensures
        strs(keys@) == entry_keys(entries_of(commands@)),
{
    let ghost es = entries_of(commands@);
    let mut keys: Vec<String> = Vec::new();
    let mut k: usize = 0;
    while k < commands.len()
        invariant
            k <= commands@.len(),
            es == entries_of(commands@),
            strs(keys@) == entry_keys(es).take(k as int),
        decreases commands@.len() - k,
    {
        let ghost before = strs(keys@);
        keys.push(commands[k].0.clone());
        assert(strs(keys@) =~= before.push(commands@[k as int].0@));
        assert(entry_keys(es).take(k as int + 1) =~= entry_keys(es).take(k as int).push(commands@[k as int].0@));
        k = k + 1;
    }
    assert(entry_keys(es).take(commands@.len() as int) =~= entry_keys(es));
    keys
}

fn key_refs(sorted: &Vec<String>) -> (refs: Vec<String>)
    ensures
        strs(refs@) == entry_refs(strs(sorted@)),
        refs@.len() == sorted@.len(),
{
    let mut refs: Vec<String> = Vec::new();
    let mut j: usize = 0;
    while j < sorted.len()
        invariant
            j <= sorted@.len(),
            strs(refs@) == entry_refs(strs(sorted@)).take(j as int),
        decreases sorted@.len() - j,
    {
        let mut v = owned("&");
        push_str(&mut v, const_base_exec(sorted[j].as_str()).as_str());
        push_str(&mut v, "_CMD");
        let ghost before = strs(refs@);
        refs.push(v);
        assert(strs(refs@) =~= before.push(entry_refs(strs(sorted@))[j as int]));
        assert(entry_refs(strs(sorted@)).take(j as int + 1) =~= before.push(entry_refs(strs(sorted@))[j as int]));
        j = j + 1;
    }
    assert(entry_refs(strs(sorted@)).take(sorted@.len() as int) =~= entry_refs(strs(sorted@)));
    assert(strs(refs@).len() == refs@.len());
    refs
}

/// The source of an aggregated command table whose map literal is
/// `map_text`; see `registry_source`.
pub fn registry_source_with_map(commands: &Vec<(String, CommandDefinition)>, map_text: &str) -> (r: String)
    ensures
        r@ == registry_source(entries_of(commands@), map_text@),
{
    let ghost es = entries_of(commands@);
    let mut out = owned("use unilang::phf::{self, Map};\nuse unilang::static_data::{StaticCommandDefinition, StaticArgumentDefinition, StaticArgumentAttributes, StaticKind};\n\n");
    push_sections(&mut out, commands);
    push_str(&mut out, "pub static AGGREGATED_COMMANDS: Map<&'static str, &'static StaticCommandDefinition> = ");
    push_str(&mut out, map_text);
    push_str(&mut out, ";\n");
    proof {
        reveal(registry_source);
        reveal_strlit("use unilang::phf::{self, Map};\nuse unilang::static_data::{StaticCommandDefinition, StaticArgumentDefinition, StaticArgumentAttributes, StaticKind};\n\n");
    }
    assert(out@ =~= registry_source(es, map_text@));
    out
}

/// The source of an aggregated command table, its map literal built by
/// `phf_codegen` from the keys in ascending order and their value
/// expressions; see `registry_source` and `is_phf_map_text`. The keys must
/// be distinct, as the keys of a map are.
pub fn registry_source_of(commands: &Vec<(String, CommandDefinition)>) -> (r: String)
    requires
        entry_keys(entries_of(commands@)).no_duplicates(),
    ensures
        exists|m: Seq<char>|
            #![trigger registry_source(entries_of(commands@), m)]
            is_phf_map_text("phf"@, registry_keys(entries_of(commands@)), registry_values(entries_of(commands@)), m)
                && r@ == registry_source(entries_of(commands@), m),
{
    let ghost es = entries_of(commands@);
    let keys = command_keys(commands);
    let sorted = sorted_keys(&keys);
    let refs = key_refs(&sorted);
    proof {
        lemma_sort_keys_distinct(entry_keys(es));
        let sv = strs(sorted@);
        assert forall|a: int, b: int| 0 <= a < b < sorted@.len() implies sorted@[a]@ != sorted@[b]@ by {
            assert(sv[a] == sorted@[a]@ && sv[b] == sorted@[b]@);
        }
    }
    let map_text = phf_map_text("phf", &sorted, &refs);
    let out = registry_source_with_map(commands, map_text.as_str());
    assert(is_phf_map_text("phf"@, registry_keys(es), registry_values(es), map_text@));
    out
}
} // verus!
