//! Hints suggesting a better kind for string arguments whose defaults
//! read as booleans or integers.

use vstd::prelude::*;
use crate::build::manifest::{ ManifestArgument, KindField, text_or, flag_or, text_or_exec, flag_or_exec };
use crate::debug_text::{ to_lowercase, lowercase_text };
use crate::text::{
    owned, push_str, push_char, chars_of, chars_eq_str, contains, contains_exec, all_digits, digits_value,
    dec_text, push_decimal, is_ascii_digit,
};

verus! {

broadcast use vstd::string::group_string_axioms;

/// A suggestion about an argument's kind.
#[derive(Debug)]
pub enum TypeHint {
    /// A string argument whose default is `true` or `false`.
    BooleanAsString { argument_name: String, default_value: String },
    /// A string argument whose default is a whole number.
    IntegerAsString { argument_name: String, default_value: String },
}

/// The value of a hint.
pub enum HintView {
    BooleanAsString { argument_name: Seq<char>, default_value: Seq<char> },
    IntegerAsString { argument_name: Seq<char>, default_value: Seq<char> },
}

impl View for TypeHint {
    type V = HintView;

    open spec fn view(&self) -> HintView {
        match self {
            TypeHint::BooleanAsString { argument_name, default_value } => HintView::BooleanAsString {
                argument_name: argument_name@,
                default_value: default_value@,
            },
            TypeHint::IntegerAsString { argument_name, default_value } => HintView::IntegerAsString {
                argument_name: argument_name@,
                default_value: default_value@,
            },
        }
    }
}

/// Looks at argument declarations for kinds that could be more precise.
#[derive(Debug)]
pub struct TypeAnalyzer {
    suppress_warnings: bool,
}

/// Words in a name that suggest a boolean.
pub open spec fn boolean_words() -> Seq<Seq<char>> {
    seq!["enable"@, "disable"@, "flag"@, "is_"@, "has_"@, "can_"@, "should_"@, "dry_run"@, "dry-run"@, "force"@,
        "quiet"@, "verbose"@, "clone"@, "parallel"@, "recursive"@, "skip"@, "ignore"@]
}

/// Words in a name that suggest an integer.
pub open spec fn integer_words() -> Seq<Seq<char>> {
    seq!["count"@, "limit"@, "max"@, "min"@, "size"@, "length"@, "verbosity"@, "level"@, "timeout"@, "retry"@,
        "retries"@, "attempts"@, "depth"@, "width"@, "height"@, "num"@]
}

/// `s` contains one of the words.
pub open spec fn contains_any(s: Seq<char>, words: Seq<Seq<char>>) -> bool {
    exists|k: int| 0 <= k < words.len() && contains(s, #[trigger] words[k])
}

/// A name or description that suggests a boolean.
pub open spec fn suggests_boolean(name: Seq<char>, description: Seq<char>) -> bool {
    contains_any(lowercase_text(name), boolean_words()) || contains(description, "true/false"@)
        || contains(description, "(true|false)"@) || contains(description, "true or false"@)
}

/// A name that suggests an integer.
pub open spec fn suggests_integer(name: Seq<char>) -> bool {
    contains_any(lowercase_text(name), integer_words())
}

/// A default that reads as a plain positive whole number: digits only, no
/// leading zero, within the range of `i64`.
pub open spec fn is_plain_integer(d: Seq<char>) -> bool {
    d.len() > 0 && all_digits(d) && d[0] != '0' && digits_value(d) <= 9223372036854775807
}

/// The hints for one argument: a boolean hint, then an integer hint.
pub open spec fn argument_hints(suppress_all: bool, a: ManifestArgument) -> Seq<HintView> {
    let name = text_or(a.name, Seq::<char>::empty());
    let default = match a.default {
        Some(d) => Some(d@),
        None => match a.plain_default {
            Some(d) => Some(d@),
            None => None,
        },
    };
    let is_string = a.kind matches KindField::Name(k) && k@ == "String"@;
    if suppress_all || flag_or(a.suppress_type_hint, false) || !is_string || default is None {
        Seq::<HintView>::empty()
    } else {
        let d = default->0;
        let b = if (d == "true"@ || d == "false"@) && suggests_boolean(name, text_or(a.description, Seq::<char>::empty())) {
            seq![HintView::BooleanAsString { argument_name: name, default_value: d }]
        } else {
            Seq::<HintView>::empty()
        };
        let i = if is_plain_integer(d) && suggests_integer(name) {
            seq![HintView::IntegerAsString { argument_name: name, default_value: d }]
        } else {
            Seq::<HintView>::empty()
        };
        b + i
    }
}

fn contains_any_exec(s: &Vec<char>, words: &Vec<&str>) -> (r: bool)
    ensures
        r == (exists|k: int| 0 <= k < words@.len() && contains(s@, #[trigger] words@[k]@)),
{
    let mut k: usize = 0;
    while k < words.len()
        invariant
            k <= words@.len(),
            forall|m: int| 0 <= m < k ==> !contains(s@, #[trigger] words@[m]@),
        decreases words@.len() - k,
    {
        if contains_exec(s, &chars_of(words[k])) {
            return true;
        }
        k = k + 1;
    }
    false
}

/// Whether a name or description suggests a boolean.
pub fn context_suggests_boolean(name: &str, description: &str) -> (r: bool)
    ensures
        r == suggests_boolean(name@, description@),
{
    let lower = to_lowercase(name);
    let words: Vec<&str> = vec!["enable", "disable", "flag", "is_", "has_", "can_", "should_", "dry_run", "dry-run",
        "force", "quiet", "verbose", "clone", "parallel", "recursive", "skip", "ignore"];
    let ghost wv = words@.map_values(|w: &str| w@);
    proof {
        assert(wv =~= boolean_words());
    }
    let named = contains_any_exec(&chars_of(lower.as_str()), &words);
    proof {
        if named {
            let k = choose|k: int| 0 <= k < words@.len() && contains(lower@, #[trigger] words@[k]@);
            assert(contains(lower@, boolean_words()[k]));
        } else {
            assert forall|k: int| 0 <= k < boolean_words().len() implies !contains(lower@, #[trigger] boolean_words()[k]) by {
                assert(boolean_words()[k] == words@[k]@);
            }
        }
    }
    let d = chars_of(description);
    named || contains_exec(&d, &chars_of("true/false")) || contains_exec(&d, &chars_of("(true|false)"))
        || contains_exec(&d, &chars_of("true or false"))
}

/// Whether a name suggests an integer.
pub fn context_suggests_integer(name: &str) -> (r: bool)
    ensures
        r == suggests_integer(name@),
{
    let lower = to_lowercase(name);
    let words: Vec<&str> = vec!["count", "limit", "max", "min", "size", "length", "verbosity", "level", "timeout",
        "retry", "retries", "attempts", "depth", "width", "height", "num"];
    let ghost wv = words@.map_values(|w: &str| w@);
    proof {
        assert(wv =~= integer_words());
    }
    let named = contains_any_exec(&chars_of(lower.as_str()), &words);
    proof {
        if named {
            let k = choose|k: int| 0 <= k < words@.len() && contains(lower@, #[trigger] words@[k]@);
            assert(contains(lower@, integer_words()[k]));
        } else {
            assert forall|k: int| 0 <= k < integer_words().len() implies !contains(lower@, #[trigger] integer_words()[k]) by {
                assert(integer_words()[k] == words@[k]@);
            }
        }
    }
    named
}

fn is_plain_integer_exec(s: &str) -> (r: bool)
    ensures
        r == is_plain_integer(s@),
{
    let v = chars_of(s);
    if v.len() == 0 || v[0] == '0' {
        return false;
    }
    let mut val: u128 = 0;
    let mut i: usize = 0;
    assert(v@.take(0) =~= Seq::<char>::empty());
    while i < v.len()
        invariant
            i <= v@.len(),
            v@ == s@,
            all_digits(v@.take(i as int)),
            val == (if digits_value(v@.take(i as int)) > 9223372036854775807 { 9223372036854775808 } else {
                digits_value(v@.take(i as int))
            }),
        decreases v@.len() - i,
    {
        let c = v[i];
        if !('0' <= c && c <= '9') {
            assert(!is_ascii_digit(v@[i as int]));
            return false;
        }
        let ghost pre = v@.take(i as int);
        let ghost next = v@.take(i as int + 1);
        assert(next.drop_last() =~= pre);
        let dv: u128 = ((c as u32) - ('0' as u32)) as u128;
        if val > 9223372036854775807 {
            val = 9223372036854775808;
        } else {
            let t = val * 10 + dv;
            val = if t > 9223372036854775807 { 9223372036854775808 } else { t };
        }
        i = i + 1;
        assert forall|k: int| 0 <= k < next.len() implies is_ascii_digit(#[trigger] next[k]) by {
            if k < pre.len() {
                assert(next[k] == pre[k]);
            }
        }
    }
    assert(v@.take(v@.len() as int) =~= v@);
    val <= 9223372036854775807
}

impl TypeAnalyzer {
    /// An analyzer; `suppress_setting` is the value of the setting that
    /// silences all hints, which does so when it is `1`.
    pub fn new(suppress_setting: Option<&str>) -> (r: Self)
        ensures
            r.suppresses() == (match suppress_setting { Some(v) => v@ == "1"@, None => false }),
    {
        let suppress_warnings = match suppress_setting {
            Some(v) => crate::text::str_eq(v, "1"),
            None => false,
        };
        TypeAnalyzer { suppress_warnings }
    }

    /// Whether this analyzer silences all hints.
    pub closed spec fn suppresses(&self) -> bool {
        self.suppress_warnings
    }

    /// The hints for one argument.
    ///
    /// A string argument (not marked `suppress_type_hint`) whose default is
    /// `true`/`false` and whose name or description suggests a flag gets a
    /// boolean hint; one whose default is a plain whole number and whose name
    /// suggests a quantity gets an integer hint.
    pub fn analyze_argument(&self, arg: &ManifestArgument) -> (r: Vec<TypeHint>)
        ensures
            r@.map_values(|h: TypeHint| h@) == argument_hints(self.suppresses(), *arg),
    {
        let mut hints: Vec<TypeHint> = Vec::new();
        let name = text_or_exec(&arg.name, "");
        proof {
            reveal_strlit("");
        }
        let default = match &arg.default {
            Some(d) => Some(d.as_str()),
            None => match &arg.plain_default {
                Some(d) => Some(d.as_str()),
                None => None,
            },
        };
        let is_string = match &arg.kind {
            KindField::Name(k) => crate::text::str_eq(k.as_str(), "String"),
            _ => false,
        };
        if self.suppress_warnings || flag_or_exec(arg.suppress_type_hint, false) || !is_string {
            assert(hints@.map_values(|h: TypeHint| h@) =~= Seq::<HintView>::empty());
            return hints;
        }
        let d = match default {
            Some(d) => d,
            None => {
                assert(hints@.map_values(|h: TypeHint| h@) =~= Seq::<HintView>::empty());
                return hints;
            },
        };
        let ghost dd: Seq<char> = if arg.default is Some { arg.default->0@ } else { arg.plain_default->0@ };
        assert(d@ == dd);
        let dv = chars_of(d);
        let description = text_or_exec(&arg.description, "");
        let ghost b_part = if (dd == "true"@ || dd == "false"@) && suggests_boolean(name@, description@) {
            seq![HintView::BooleanAsString { argument_name: name@, default_value: dd }]
        } else {
            Seq::<HintView>::empty()
        };
        let ghost i_part = if is_plain_integer(dd) && suggests_integer(name@) {
            seq![HintView::IntegerAsString { argument_name: name@, default_value: dd }]
        } else {
            Seq::<HintView>::empty()
        };
        if (chars_eq_str(&dv, "true") || chars_eq_str(&dv, "false")) && context_suggests_boolean(name, description) {
            hints.push(TypeHint::BooleanAsString { argument_name: owned(name), default_value: owned(d) });
        }
        assert(hints@.map_values(|h: TypeHint| h@) =~= b_part);
        if is_plain_integer_exec(d) && context_suggests_integer(name) {
            hints.push(TypeHint::IntegerAsString { argument_name: owned(name), default_value: owned(d) });
        }
        assert(hints@.map_values(|h: TypeHint| h@) =~= b_part + i_part);
        assert(!self.suppresses());
        assert(!flag_or(arg.suppress_type_hint, false));
        assert(arg.kind matches KindField::Name(k) && k@ == "String"@);
        assert(text_or(arg.name, Seq::<char>::empty()) == name@);
        assert(text_or(arg.description, Seq::<char>::empty()) == description@);
        assert(argument_hints(self.suppresses(), *arg) == b_part + i_part);
        hints
    }
}

/// Renders hints as build-time advice.
#[derive(Debug)]
pub struct HintGenerator;

/// The advice for a string argument whose default reads as boolean.
pub open spec fn boolean_warning_text(name: Seq<char>, default: Seq<char>) -> Seq<char> {
    "\u{1f4a1} Type Hint: Argument '"@ + name + "' might be better as Boolean kind\n\nCurrent:\n- name: \""@ + name + "\"\nkind: \"String\"\nattributes:\ndefault: \""@ + default + "\"  # String literal\n\nSuggestion:\n- name: \""@ + name + "\"\nkind: \"Boolean\"\nattributes:\ndefault: "@ + default + "  # Boolean value (no quotes)\n\nBenefits:\n- Automatic validation (rejects invalid values like 'yes', '1')\n- Type-safe: cmd.get_boolean(\""@ + name + "\") instead of manual parsing\n- Better error messages for users\n\nIf intentional (e.g., code template): Add suppress_type_hint: true\nTo suppress all hints: export UNILANG_SUPPRESS_TYPE_HINTS=1\n"@
}

fn push_boolean_warning(out: &mut String, name: &str, default: &str)
    ensures
        final(out)@ == old(out)@ + boolean_warning_text(name@, default@),
{
    let ghost start = old(out)@;
    push_str(out, "\u{1f4a1} Type Hint: Argument '");
    push_str(out, name);
    let ghost mut acc = "\u{1f4a1} Type Hint: Argument '"@;
    proof { acc = crate::text::lemma_extend(start, acc, name@); }
    push_str(out, "' might be better as Boolean kind\n\nCurrent:\n- name: \"");
    proof { acc = crate::text::lemma_extend(start, acc, "' might be better as Boolean kind\n\nCurrent:\n- name: \""@); }
    push_str(out, name);
    proof { acc = crate::text::lemma_extend(start, acc, name@); }
    push_str(out, "\"\nkind: \"String\"\nattributes:\ndefault: \"");
    proof { acc = crate::text::lemma_extend(start, acc, "\"\nkind: \"String\"\nattributes:\ndefault: \""@); }
    push_str(out, default);
    proof { acc = crate::text::lemma_extend(start, acc, default@); }
    push_str(out, "\"  # String literal\n\nSuggestion:\n- name: \"");
    proof { acc = crate::text::lemma_extend(start, acc, "\"  # String literal\n\nSuggestion:\n- name: \""@); }
    push_str(out, name);
    proof { acc = crate::text::lemma_extend(start, acc, name@); }
    push_str(out, "\"\nkind: \"Boolean\"\nattributes:\ndefault: ");
    proof { acc = crate::text::lemma_extend(start, acc, "\"\nkind: \"Boolean\"\nattributes:\ndefault: "@); }
    push_str(out, default);
    proof { acc = crate::text::lemma_extend(start, acc, default@); }
    push_str(out, "  # Boolean value (no quotes)\n\nBenefits:\n- Automatic validation (rejects invalid values like 'yes', '1')\n- Type-safe: cmd.get_boolean(\"");
    proof { acc = crate::text::lemma_extend(start, acc, "  # Boolean value (no quotes)\n\nBenefits:\n- Automatic validation (rejects invalid values like 'yes', '1')\n- Type-safe: cmd.get_boolean(\""@); }
    push_str(out, name);
    proof { acc = crate::text::lemma_extend(start, acc, name@); }
    push_str(out, "\") instead of manual parsing\n- Better error messages for users\n\nIf intentional (e.g., code template): Add suppress_type_hint: true\nTo suppress all hints: export UNILANG_SUPPRESS_TYPE_HINTS=1\n");
    proof { acc = crate::text::lemma_extend(start, acc, "\") instead of manual parsing\n- Better error messages for users\n\nIf intentional (e.g., code template): Add suppress_type_hint: true\nTo suppress all hints: export UNILANG_SUPPRESS_TYPE_HINTS=1\n"@); }
}

/// The advice for a string argument whose default reads as integer.
pub open spec fn integer_warning_text(name: Seq<char>, default: Seq<char>) -> Seq<char> {
    "\u{1f4a1} Type Hint: Argument '"@ + name + "' might be better as Integer kind\n\nCurrent:\n- name: \""@ + name + "\"\nkind: \"String\"\nattributes:\ndefault: \""@ + default + "\"  # String literal\n\nSuggestion:\n- name: \""@ + name + "\"\nkind: \"Integer\"\nattributes:\ndefault: "@ + default + "  # Integer value (no quotes)\nvalidation_rules:\n- Min: 0  # Add appropriate range\n- Max: 100\n\nBenefits:\n- Automatic range validation\n- Type-safe: cmd.get_integer(\""@ + name + "\") instead of manual parsing\n\nIf intentional (version/ID/code): Add suppress_type_hint: true\nTo suppress all hints: export UNILANG_SUPPRESS_TYPE_HINTS=1\n"@
}

fn push_integer_warning(out: &mut String, name: &str, default: &str)
    ensures
        final(out)@ == old(out)@ + integer_warning_text(name@, default@),
{
    let ghost start = old(out)@;
    push_str(out, "\u{1f4a1} Type Hint: Argument '");
    push_str(out, name);
    let ghost mut acc = "\u{1f4a1} Type Hint: Argument '"@;
    proof { acc = crate::text::lemma_extend(start, acc, name@); }
    push_str(out, "' might be better as Integer kind\n\nCurrent:\n- name: \"");
    proof { acc = crate::text::lemma_extend(start, acc, "' might be better as Integer kind\n\nCurrent:\n- name: \""@); }
    push_str(out, name);
    proof { acc = crate::text::lemma_extend(start, acc, name@); }
    push_str(out, "\"\nkind: \"String\"\nattributes:\ndefault: \"");
    proof { acc = crate::text::lemma_extend(start, acc, "\"\nkind: \"String\"\nattributes:\ndefault: \""@); }
    push_str(out, default);
    proof { acc = crate::text::lemma_extend(start, acc, default@); }
    push_str(out, "\"  # String literal\n\nSuggestion:\n- name: \"");
    proof { acc = crate::text::lemma_extend(start, acc, "\"  # String literal\n\nSuggestion:\n- name: \""@); }
    push_str(out, name);
    proof { acc = crate::text::lemma_extend(start, acc, name@); }
    push_str(out, "\"\nkind: \"Integer\"\nattributes:\ndefault: ");
    proof { acc = crate::text::lemma_extend(start, acc, "\"\nkind: \"Integer\"\nattributes:\ndefault: "@); }
    push_str(out, default);
    proof { acc = crate::text::lemma_extend(start, acc, default@); }
    push_str(out, "  # Integer value (no quotes)\nvalidation_rules:\n- Min: 0  # Add appropriate range\n- Max: 100\n\nBenefits:\n- Automatic range validation\n- Type-safe: cmd.get_integer(\"");
    proof { acc = crate::text::lemma_extend(start, acc, "  # Integer value (no quotes)\nvalidation_rules:\n- Min: 0  # Add appropriate range\n- Max: 100\n\nBenefits:\n- Automatic range validation\n- Type-safe: cmd.get_integer(\""@); }
    push_str(out, name);
    proof { acc = crate::text::lemma_extend(start, acc, name@); }
    push_str(out, "\") instead of manual parsing\n\nIf intentional (version/ID/code): Add suppress_type_hint: true\nTo suppress all hints: export UNILANG_SUPPRESS_TYPE_HINTS=1\n");
    proof { acc = crate::text::lemma_extend(start, acc, "\") instead of manual parsing\n\nIf intentional (version/ID/code): Add suppress_type_hint: true\nTo suppress all hints: export UNILANG_SUPPRESS_TYPE_HINTS=1\n"@); }
}


/// The advice text for a hint.
pub open spec fn warning_text(h: HintView) -> Seq<char> {
    match h {
        HintView::BooleanAsString { argument_name, default_value } => boolean_warning_text(argument_name, default_value),
        HintView::IntegerAsString { argument_name, default_value } => integer_warning_text(argument_name, default_value),
    }
}

/// `n` copies of a character.
pub open spec fn repeated(c: char, n: nat) -> Seq<char> {
    Seq::new(n, |i: int| c)
}

fn push_repeated(out: &mut String, c: char, n: usize)
    ensures
        final(out)@ == old(out)@ + repeated(c, n as nat),
{
    let ghost start = old(out)@;
    let mut i: usize = 0;
    while i < n
        invariant
            i <= n,
            out@ == start + repeated(c, i as nat),
        decreases n - i,
    {
        push_char(out, c);
        i = i + 1;
        assert(out@ =~= start + repeated(c, i as nat));
    }
}

/// The advice for each hint, each followed by a rule and a blank line.
pub open spec fn hint_blocks(hs: Seq<HintView>) -> Seq<char>
    decreases hs.len(),
{
    if hs.len() == 0 {
        Seq::<char>::empty()
    } else {
        hint_blocks(hs.drop_last()) + warning_text(hs.last()) + "\n"@ + repeated('-', 80) + "\n"@ + "\n"@
    }
}

/// What the build step prints for a list of hints: nothing when there are
/// none; else a titled frame, each hint's advice and a closing note.
pub open spec fn hints_report(hs: Seq<HintView>) -> Seq<char> {
    if hs.len() == 0 {
        Seq::<char>::empty()
    } else {
        "\n"@ + repeated('=', 80) + "\n"@ + "\u{1f4cb} Unilang Type Hints ("@ + dec_text(hs.len()) + " suggestion"@
            + (if hs.len() == 1 { Seq::<char>::empty() } else { "s"@ }) + ")"@ + "\n"@ + repeated('=', 80) + "\n"@
            + "\n"@ + hint_blocks(hs) + "\u{2139}\u{fe0f}  Type hints help you choose appropriate argument types.\nThese are suggestions, not errors. Your build continues normally.\n"@ + "\n"@
    }
}

impl HintGenerator {
    /// The advice text for a hint.
    pub fn generate_warning(hint: &TypeHint) -> (r: String)
        ensures
            r@ == warning_text(hint@),
    {
        let mut out = String::new();
        match hint {
            TypeHint::BooleanAsString { argument_name, default_value } =>
                push_boolean_warning(&mut out, argument_name.as_str(), default_value.as_str()),
            TypeHint::IntegerAsString { argument_name, default_value } =>
                push_integer_warning(&mut out, argument_name.as_str(), default_value.as_str()),
        }
        assert(out@ =~= warning_text(hint@));
        out
    }

    /// The text printed for a list of hints; see `hints_report`.
    pub fn hints_text(hints: &Vec<TypeHint>) -> (r: String)
        ensures
            r@ == hints_report(hints@.map_values(|h: TypeHint| h@)),
    {
        let ghost hv = hints@.map_values(|h: TypeHint| h@);
        let mut out = String::new();
        if hints.len() == 0 {
            return out;
        }
        push_str(&mut out, "\n");
        push_repeated(&mut out, '=', 80);
        push_str(&mut out, "\n");
        push_str(&mut out, "\u{1f4cb} Unilang Type Hints (");
        push_decimal(&mut out, hints.len() as u64);
        push_str(&mut out, " suggestion");
        if hints.len() != 1 {
            push_str(&mut out, "s");
        }
        push_str(&mut out, ")");
        push_str(&mut out, "\n");
        push_repeated(&mut out, '=', 80);
        push_str(&mut out, "\n");
        push_str(&mut out, "\n");
        let ghost head = out@;
        let mut i: usize = 0;
        assert(hv.take(0) =~= Seq::<HintView>::empty());
        while i < hints.len()
            invariant
                i <= hints@.len(),
                hv == hints@.map_values(|h: TypeHint| h@),
                out@ == head + hint_blocks(hv.take(i as int)),
            decreases hints@.len() - i,
        {
            assert(hv.take(i as int + 1).drop_last() =~= hv.take(i as int));
            let w = HintGenerator::generate_warning(&hints[i]);
            push_str(&mut out, w.as_str());
            push_str(&mut out, "\n");
            push_repeated(&mut out, '-', 80);
            push_str(&mut out, "\n");
            push_str(&mut out, "\n");
            i = i + 1;
            assert(out@ =~= head + hint_blocks(hv.take(i as int)));
        }
        assert(hv.take(hints@.len() as int) =~= hv);
        push_str(&mut out, "\u{2139}\u{fe0f}  Type hints help you choose appropriate argument types.\nThese are suggestions, not errors. Your build continues normally.\n");
        push_str(&mut out, "\n");
        proof {
            reveal_strlit("s");
        }
        assert(out@ =~= hints_report(hv));
        out
    }
}

} // verus!
