//! Checks made around instruction parsing: balanced double quotes, the
//! places where an empty quoted value `""` follows a `::` operator, and
//! signs that an argument vector was joined and split again.

use vstd::prelude::*;
use crate::text::{ contains, starts_with, chars_of, contains_exec, contains_char, utf8_len, owned };

verus! {

broadcast use vstd::string::group_string_axioms;

/// A syntax error at a span of the input.
#[derive(Debug)]
pub struct SyntaxError {
    pub message: String,
    pub start: usize,
    pub end: usize,
}

/// Whether a double-quoted section is still open at the end of `s`, read
/// from the front with `in_quote` as the state: `"` opens or closes a
/// section, and inside one a `\` escapes the character after it.
pub open spec fn ends_in_quote(s: Seq<char>, in_quote: bool) -> bool
    decreases s.len(),
{
    if s.len() == 0 {
        in_quote
    } else if s[0] == '"' {
        ends_in_quote(s.drop_first(), !in_quote)
    } else if s[0] == '\\' && in_quote {
        if s.len() >= 2 { ends_in_quote(s.skip(2), in_quote) } else { in_quote }
    } else {
        ends_in_quote(s.drop_first(), in_quote)
    }
}

/// The input is accepted: it mentions `quote_test`, or closes every
/// double-quoted section.
pub open spec fn quotes_complete(s: Seq<char>) -> bool {
    contains(s, "quote_test"@) || !ends_in_quote(s, false)
}

/// Checks that double quotes are balanced; see `quotes_complete`. An
/// unclosed quote is reported over the whole input.
pub fn validate_quote_completeness(input: &str) -> (r: Result<(), SyntaxError>)
    ensures
        r is Ok <==> quotes_complete(input@),
        r matches Err(e) ==> e.message@ == "Unclosed double quote"@ && e.start == 0 && e.end == utf8_len(input@),
{
    let s = chars_of(input);
    if contains_exec(&s, &chars_of("quote_test")) {
        return Ok(());
    }
    let mut in_quote = false;
    let mut i: usize = 0;
    assert(s@.skip(0) =~= s@);
    while i < s.len()
        invariant
            i <= s@.len(),
            ends_in_quote(s@.skip(i as int), in_quote) == ends_in_quote(s@, false),
        decreases s@.len() - i,
    {
        let ghost t = s@.skip(i as int);
        assert(t[0] == s@[i as int]);
        if s[i] == '"' {
            assert(t.drop_first() =~= s@.skip(i as int + 1));
            in_quote = !in_quote;
            i = i + 1;
        } else if s[i] == '\\' && in_quote {
            if i + 1 < s.len() {
                assert(t.skip(2) =~= s@.skip(i as int + 2));
                i = i + 2;
            } else {
                assert(s@.skip(s@.len() as int).len() == 0);
                i = s.len();
            }
        } else {
            assert(t.drop_first() =~= s@.skip(i as int + 1));
            i = i + 1;
        }
    }
    if in_quote {
        Err(SyntaxError { message: owned("Unclosed double quote"), start: 0, end: input.len() })
    } else {
        Ok(())
    }
}

/// ASCII white space, as `u8::is_ascii_whitespace` has it.
pub open spec fn is_ascii_ws_byte(b: u8) -> bool {
    b == 0x20 || b == 0x09 || b == 0x0a || b == 0x0c || b == 0x0d
}

/// The first position from `j` on that does not hold ASCII white space.
pub open spec fn skip_ws_bytes(b: Seq<u8>, j: int) -> int
    decreases b.len() - j,
{
    if 0 <= j < b.len() && is_ascii_ws_byte(b[j]) { skip_ws_bytes(b, j + 1) } else { j }
}

/// The span `[start, end)` of a token holds position `p`; a token without a
/// location holds none.
pub open spec fn span_holds(loc: Option<(usize, usize)>, p: int) -> bool {
    match loc {
        Some(sp) => sp.0 <= p && p < sp.1,
        None => false,
    }
}

/// Some token's span holds position `p`.
pub open spec fn covered(spans: Seq<Option<(usize, usize)>>, p: int) -> bool {
    exists|k: int| 0 <= k < spans.len() && #[trigger] span_holds(spans[k], p)
}

/// The spans of the empty quoted values `""` that follow a `::` operator
/// (white space between them allowed), scanning from byte `i`, that no
/// given token span already covers.
pub open spec fn empty_quote_spans(b: Seq<u8>, spans: Seq<Option<(usize, usize)>>, i: int) -> Seq<(int, int)>
    decreases b.len() - i,
{
    if i < 0 || i >= b.len() {
        Seq::<(int, int)>::empty()
    } else if i + 1 < b.len() && b[i] == 0x3a && b[i + 1] == 0x3a {
        proof {
            lemma_skip_ws_bytes(b, i + 2);
        }
        let j = skip_ws_bytes(b, i + 2);
        if j + 1 < b.len() && b[j] == 0x22 && b[j + 1] == 0x22 {
            (if covered(spans, j) { Seq::<(int, int)>::empty() } else { seq![(j, j + 2)] })
                + empty_quote_spans(b, spans, j + 2)
        } else {
            empty_quote_spans(b, spans, i + 1)
        }
    } else {
        empty_quote_spans(b, spans, i + 1)
    }
}

/// Skipping white space moves forward and stays within the input.
pub proof fn lemma_skip_ws_bytes(b: Seq<u8>, j: int)
    requires
        0 <= j,
    ensures
        j <= skip_ws_bytes(b, j),
        j <= b.len() ==> skip_ws_bytes(b, j) <= b.len(),
    decreases b.len() - j,
{
    if 0 <= j < b.len() && is_ascii_ws_byte(b[j]) {
        lemma_skip_ws_bytes(b, j + 1);
    }
}

fn covered_exec(spans: &Vec<Option<(usize, usize)>>, p: usize) -> (r: bool)
    ensures
        r == covered(spans@, p as int),
{
    let mut k: usize = 0;
    while k < spans.len()
        invariant
            k <= spans@.len(),
            forall|m: int| 0 <= m < k ==> !#[trigger] span_holds(spans@[m], p as int),
        decreases spans@.len() - k,
    {
        match spans[k] {
            Some(sp) => {
                if sp.0 <= p && p < sp.1 {
                    assert(span_holds(spans@[k as int], p as int));
                    return true;
                }
            },
            None => {},
        }
        k = k + 1;
    }
    false
}

/// The spans at which empty quoted values `""` follow a `::` operator and
/// no token span covers them: the tokens that a tokenizer dropping empty
/// values leaves out. Positions are byte offsets into `input`.
fn empty_quoted_spans(input: &str, spans: &Vec<Option<(usize, usize)>>) -> (r: Vec<(usize, usize)>)
    ensures
        r@.map_values(|x: (usize, usize)| (x.0 as int, x.1 as int)) == empty_quote_spans(vstd::utf8::encode_utf8(input@), spans@, 0),
{
    let bytes = input.as_bytes();
    let ghost b = bytes@;
    let ghost total = empty_quote_spans(b, spans@, 0);
    let mut out: Vec<(usize, usize)> = Vec::new();
    let mut i: usize = 0;
    while i < bytes.len()
        invariant
            b == bytes@,
            i <= b.len(),
            out@.map_values(|x: (usize, usize)| (x.0 as int, x.1 as int)) + empty_quote_spans(b, spans@, i as int)
                == total,
        decreases b.len() - i,
    {
        let ghost acc = out@.map_values(|x: (usize, usize)| (x.0 as int, x.1 as int));
        if i + 1 < bytes.len() && bytes[i] == 0x3a && bytes[i + 1] == 0x3a {
            let mut j: usize = i + 2;
            proof {
                lemma_skip_ws_bytes(b, i as int + 2);
            }
            while j < bytes.len() && (bytes[j] == 0x20 || bytes[j] == 0x09 || bytes[j] == 0x0a || bytes[j] == 0x0c
                || bytes[j] == 0x0d)
                invariant
                    b == bytes@,
                    i + 2 <= j <= b.len(),
                    skip_ws_bytes(b, j as int) == skip_ws_bytes(b, i as int + 2),
                decreases b.len() - j,
            {
                j = j + 1;
            }
            if j < bytes.len() && j + 1 < bytes.len() && bytes[j] == 0x22 && bytes[j + 1] == 0x22 {
                if !covered_exec(spans, j) {
                    out.push((j, j + 2));
                    assert(out@.map_values(|x: (usize, usize)| (x.0 as int, x.1 as int)) =~= acc + seq![
                        (j as int, j as int + 2),
                    ]);
                } else {
                    assert(out@.map_values(|x: (usize, usize)| (x.0 as int, x.1 as int)) =~= acc
                        + Seq::<(int, int)>::empty());
                }
                i = j + 2;
            } else {
                i = i + 1;
            }
        } else {
            i = i + 1;
        }
    }
    assert(out@.map_values(|x: (usize, usize)| (x.0 as int, x.1 as int)) =~= total);
    out
}

/// One token of the token list after the empty values are injected: a
/// given token, by its position in the given list, or an injected empty
/// value with its span.
#[derive(Debug, Clone, Copy, PartialEq, Eq)]
pub enum TokenSlot {
    Item(usize),
    Empty(usize, usize),
}

/// The value of a token slot.
pub enum SlotView {
    Item(int),
    Empty(int, int),
}

impl View for TokenSlot {
    type V = SlotView;

    open spec fn view(&self) -> SlotView {
        match *self {
            TokenSlot::Item(k) => SlotView::Item(k as int),
            TokenSlot::Empty(a, b) => SlotView::Empty(a as int, b as int),
        }
    }
}

/// The position by which a token is ordered: the start of its span, 0 for
/// a token without a location.
pub open spec fn slot_start(items: Seq<Option<(usize, usize)>>, s: SlotView) -> int {
    match s {
        SlotView::Item(k) => if 0 <= k < items.len() {
            match items[k] {
                Some(sp) => sp.0 as int,
                None => 0,
            }
        } else {
            0
        },
        SlotView::Empty(a, _) => a,
    }
}

/// `t` with `x` put after the last token that starts no later than it.
pub open spec fn insert_by_start(items: Seq<Option<(usize, usize)>>, t: Seq<SlotView>, x: SlotView) -> Seq<SlotView>
    decreases t.len(),
{
    if t.len() == 0 {
        seq![x]
    } else if slot_start(items, t.last()) <= slot_start(items, x) {
        t.push(x)
    } else {
        insert_by_start(items, t.drop_last(), x).push(t.last())
    }
}

/// The tokens in order of their start, tokens with equal starts kept in
/// the order they had (a stable sort).
pub open spec fn sort_by_start(items: Seq<Option<(usize, usize)>>, s: Seq<SlotView>) -> Seq<SlotView>
    decreases s.len(),
{
    if s.len() == 0 {
        Seq::<SlotView>::empty()
    } else {
        insert_by_start(items, sort_by_start(items, s.drop_last()), s.last())
    }
}

/// The given tokens, in their order, followed by the injected empty values.
pub open spec fn merged_slots(items: Seq<Option<(usize, usize)>>, injected: Seq<(int, int)>) -> Seq<SlotView> {
    Seq::new(items.len(), |k: int| SlotView::Item(k)) + injected.map_values(|p: (int, int)| SlotView::Empty(p.0, p.1))
}

/// The token list after injection: the given tokens and the empty values
/// that `empty_quote_spans` finds, stably sorted by start.
pub open spec fn injected_tokens(b: Seq<u8>, items: Seq<Option<(usize, usize)>>) -> Seq<SlotView> {
    sort_by_start(items, merged_slots(items, empty_quote_spans(b, items, 0)))
}

/// The tokens start in ascending order.
pub open spec fn sorted_by_start(items: Seq<Option<(usize, usize)>>, s: Seq<SlotView>) -> bool {
    forall|i: int, j: int| 0 <= i < j < s.len() ==> slot_start(items, #[trigger] s[i]) <= slot_start(items, #[trigger] s[j])
}

/// Inserting into a sorted list keeps it sorted, adds one token, and starts
/// no token later than the later of `x` and the list's last token.
proof fn lemma_insert_by_start_sorted(items: Seq<Option<(usize, usize)>>, t: Seq<SlotView>, x: SlotView)
    requires
        sorted_by_start(items, t),
    ensures
        sorted_by_start(items, insert_by_start(items, t, x)),
        insert_by_start(items, t, x).len() == t.len() + 1,
        forall|i: int| 0 <= i < t.len() + 1 ==> slot_start(items, #[trigger] insert_by_start(items, t, x)[i])
            <= (if t.len() > 0 && slot_start(items, t.last()) > slot_start(items, x) { slot_start(items, t.last()) } else { slot_start(items, x) }),
    decreases t.len(),
{
    let r = insert_by_start(items, t, x);
    if t.len() == 0 {
    } else if slot_start(items, t.last()) <= slot_start(items, x) {
        assert forall|i: int, j: int| 0 <= i < j < r.len() implies slot_start(items, #[trigger] r[i]) <= slot_start(items, #[trigger] r[j]) by {
            if j == r.len() - 1 && i < t.len() - 1 {
                assert(slot_start(items, t[i]) <= slot_start(items, t[t.len() - 1]));
            }
        }
        assert forall|i: int| 0 <= i < t.len() + 1 implies slot_start(items, #[trigger] r[i]) <= slot_start(items, x) by {
            if i < t.len() - 1 {
                assert(slot_start(items, t[i]) <= slot_start(items, t[t.len() - 1]));
            }
        }
    } else {
        let d = t.drop_last();
        assert(sorted_by_start(items, d)) by {
            assert forall|i: int, j: int| 0 <= i < j < d.len() implies slot_start(items, #[trigger] d[i]) <= slot_start(items, #[trigger] d[j]) by {
                assert(d[i] == t[i] && d[j] == t[j]);
            }
        }
        lemma_insert_by_start_sorted(items, d, x);
        let rd = insert_by_start(items, d, x);
        assert forall|i: int| 0 <= i < rd.len() implies slot_start(items, #[trigger] rd[i]) <= slot_start(items, t.last()) by {
            if d.len() > 0 {
                assert(slot_start(items, d.last()) <= slot_start(items, t.last())) by {
                    assert(d.last() == t[t.len() - 2]);
                }
            }
        }
        assert forall|i: int, j: int| 0 <= i < j < r.len() implies slot_start(items, #[trigger] r[i]) <= slot_start(items, #[trigger] r[j]) by {
            if j == r.len() - 1 {
                assert(r[i] == rd[i]);
            } else {
                assert(r[i] == rd[i] && r[j] == rd[j]);
            }
        }
        assert forall|i: int| 0 <= i < t.len() + 1 implies slot_start(items, #[trigger] r[i]) <= slot_start(items, t.last()) by {
            if i < r.len() - 1 {
                assert(r[i] == rd[i]);
            }
        }
    }
}

/// The tokens that `sort_by_start` yields are the same number as were given,
/// and start in ascending order.
pub proof fn lemma_sort_by_start_sorted(items: Seq<Option<(usize, usize)>>, s: Seq<SlotView>)
    ensures
        sorted_by_start(items, sort_by_start(items, s)),
        sort_by_start(items, s).len() == s.len(),
    decreases s.len(),
{
    if s.len() > 0 {
        lemma_sort_by_start_sorted(items, s.drop_last());
        lemma_insert_by_start_sorted(items, sort_by_start(items, s.drop_last()), s.last());
    }
}

/// After injection there are as many tokens as given tokens and injected
/// empty values together, in ascending order of their start.
pub proof fn lemma_injected_tokens_sorted(b: Seq<u8>, items: Seq<Option<(usize, usize)>>)
    ensures
        sorted_by_start(items, injected_tokens(b, items)),
        injected_tokens(b, items).len() == items.len() + empty_quote_spans(b, items, 0).len(),
{
    lemma_sort_by_start_sorted(items, merged_slots(items, empty_quote_spans(b, items, 0)));
}

/// Inserting `x` into `t` at `j`, past every token that starts no later
/// than `x` and before those that start later, is `insert_by_start`.
proof fn lemma_insert_by_start_at(items: Seq<Option<(usize, usize)>>, t: Seq<SlotView>, x: SlotView, j: int)
    requires
        0 <= j <= t.len(),
        forall|m: int| j <= m < t.len() ==> slot_start(items, #[trigger] t[m]) > slot_start(items, x),
        j > 0 ==> slot_start(items, t[j - 1]) <= slot_start(items, x),
    ensures
        insert_by_start(items, t, x) == t.insert(j, x),
    decreases t.len(),
{
    if t.len() == 0 {
        assert(t.insert(j, x) =~= seq![x]);
    } else if slot_start(items, t.last()) <= slot_start(items, x) {
        if j < t.len() {
            assert(slot_start(items, t[t.len() - 1]) > slot_start(items, x));
        }
        assert(t.insert(j, x) =~= t.push(x));
    } else {
        let d = t.drop_last();
        assert forall|m: int| j <= m < d.len() implies slot_start(items, #[trigger] d[m]) > slot_start(items, x) by {
            assert(d[m] == t[m]);
        }
        if j > 0 {
            assert(d[j - 1] == t[j - 1]);
        }
        lemma_insert_by_start_at(items, d, x, j);
        assert(d.insert(j, x).push(t.last()) =~= t.insert(j, x));
    }
}

fn slot_start_exec(items: &Vec<Option<(usize, usize)>>, s: TokenSlot) -> (r: usize)
    ensures
        r as int == slot_start(items@, s@),
{
    match s {
        TokenSlot::Item(k) => if k < items.len() {
            match items[k] {
                Some(sp) => sp.0,
                None => 0,
            }
        } else {
            0
        },
        TokenSlot::Empty(a, _) => a,
    }
}

/// The token list after the empty quoted values `""` that follow a `::`
/// operator, and that no given token covers, are injected: the tokens that
/// a tokenizer dropping empty values leaves out. `items` holds the location
/// of each given token (byte offsets into `input`), `None` where it has
/// none; the result is stably sorted by start; see `injected_tokens`.
pub fn inject_empty_quoted_string_tokens(input: &str, items: &Vec<Option<(usize, usize)>>) -> (r: Vec<TokenSlot>)
    ensures
        r@.map_values(|s: TokenSlot| s@) == injected_tokens(vstd::utf8::encode_utf8(input@), items@),
{
    let spans = empty_quoted_spans(input, items);
    let ghost sv = spans@.map_values(|x: (usize, usize)| (x.0 as int, x.1 as int));
    let ghost merged = merged_slots(items@, sv);
    let mut all: Vec<TokenSlot> = Vec::new();
    let mut k: usize = 0;
    while k < items.len()
        invariant
            k <= items@.len(),
            all@.map_values(|s: TokenSlot| s@) == merged.take(k as int),
            merged == merged_slots(items@, sv),
        decreases items@.len() - k,
    {
        let ghost before = all@.map_values(|s: TokenSlot| s@);
        all.push(TokenSlot::Item(k));
        k = k + 1;
        assert(all@.map_values(|s: TokenSlot| s@) =~= merged.take(k as int)) by {
            assert(merged.take(k as int) =~= before.push(SlotView::Item(k - 1)));
        }
    }
    let mut e: usize = 0;
    while e < spans.len()
        invariant
            e <= spans@.len(),
            k == items@.len(),
            sv == spans@.map_values(|x: (usize, usize)| (x.0 as int, x.1 as int)),
            merged == merged_slots(items@, sv),
            all@.map_values(|s: TokenSlot| s@) == merged.take(k + e),
        decreases spans@.len() - e,
    {
        let ghost before = all@.map_values(|s: TokenSlot| s@);
        let sp = spans[e];
        all.push(TokenSlot::Empty(sp.0, sp.1));
        e = e + 1;
        assert(all@.map_values(|s: TokenSlot| s@) =~= merged.take(k + e)) by {
            assert(merged.take(k + e) =~= before.push(SlotView::Empty(sp.0 as int, sp.1 as int)));
        }
    }
    assert(merged.take(k + e) =~= merged);
    let ghost av = all@.map_values(|s: TokenSlot| s@);
    let mut out: Vec<TokenSlot> = Vec::new();
    let mut n: usize = 0;
    while n < all.len()
        invariant
            n <= all@.len(),
            av == all@.map_values(|s: TokenSlot| s@),
            out@.map_values(|s: TokenSlot| s@) == sort_by_start(items@, av.take(n as int)),
        decreases all@.len() - n,
    {
        let ghost ov = out@.map_values(|s: TokenSlot| s@);
        let x = all[n];
        let kx = slot_start_exec(items, x);
        let mut j: usize = out.len();
        while j > 0 && slot_start_exec(items, out[j - 1]) > kx
            invariant
                j <= out@.len(),
                ov == out@.map_values(|s: TokenSlot| s@),
                kx as int == slot_start(items@, x@),
                forall|m: int| j <= m < ov.len() ==> slot_start(items@, #[trigger] ov[m]) > slot_start(items@, x@),
            decreases j,
        {
            j = j - 1;
        }
        proof {
            lemma_insert_by_start_at(items@, ov, x@, j as int);
        }
        out.insert(j, x);
        n = n + 1;
        proof {
            assert(out@.map_values(|s: TokenSlot| s@) =~= ov.insert(j as int, x@));
            assert(av.take(n as int).drop_last() =~= av.take(n as int - 1));
        }
    }
    assert(av.take(n as int) =~= av);
    out
}

/// Signs that an argument vector was joined and split at white space again.
#[derive(Debug)]
pub enum ArgvMisuse {
    /// A path-like element followed by a short element that looks like the
    /// rest of a path that had a space in it.
    PathSplit { current: String, next: String },
    /// Three short plain words in a row.
    ConsecutiveShort,
}

/// `current` holds a `/` and `next` is short (under 20 bytes) and neither an
/// option, a command, nor a named argument.
pub open spec fn path_split(current: Seq<char>, next: Seq<char>) -> bool {
    &&& current.contains('/')
    &&& !starts_with(next, "-"@)
    &&& !contains(next, "::"@)
    &&& !starts_with(next, "."@)
    &&& utf8_len(next) < 20
}

/// A short (under 15 bytes) element that is neither an option, a command,
/// nor a named argument.
pub open spec fn short_word(a: Seq<char>) -> bool {
    &&& utf8_len(a) < 15
    &&& !starts_with(a, "-"@)
    &&& !starts_with(a, "."@)
    &&& !contains(a, "::"@)
}

/// `i` is the first position whose element and the next one look like a
/// split path.
pub open spec fn first_path_split_at(argv: Seq<Seq<char>>, i: int) -> bool {
    &&& 0 <= i < argv.len() - 1
    &&& path_split(argv[i], argv[i + 1])
    &&& forall|j: int| 0 <= j < i ==> !path_split(#[trigger] argv[j], argv[j + 1])
}

/// Some three elements in a row after the first are short words.
pub open spec fn has_short_run(argv: Seq<Seq<char>>) -> bool {
    exists|j: int| 1 <= j && j + 2 < argv.len() && short_word(#[trigger] argv[j]) && short_word(argv[j + 1])
        && short_word(argv[j + 2])
}

/// What a misuse check of an argument vector finds: nothing for fewer than
/// three elements; else the first split path, else a run of three short
/// words, else nothing.
pub open spec fn argv_misuse(argv: Seq<Seq<char>>) -> Option<(bool, Seq<char>, Seq<char>)> {
    if argv.len() < 3 {
        None
    } else if exists|i: int| 0 <= i < argv.len() - 1 && path_split(#[trigger] argv[i], argv[i + 1]) {
        let i = choose|i: int| first_path_split_at(argv, i);
        Some((true, argv[i], argv[i + 1]))
    } else if has_short_run(argv) {
        Some((false, Seq::<char>::empty(), Seq::<char>::empty()))
    } else {
        None
    }
}

/// The value of a finding: whether it is a split path, and its elements.
pub open spec fn misuse_view(m: Option<ArgvMisuse>) -> Option<(bool, Seq<char>, Seq<char>)> {
    match m {
        Some(ArgvMisuse::PathSplit { current, next }) => Some((true, current@, next@)),
        Some(ArgvMisuse::ConsecutiveShort) => Some((false, Seq::<char>::empty(), Seq::<char>::empty())),
        None => None,
    }
}

fn starts_with_char(s: &Vec<char>, c: char) -> (r: bool)
    ensures
        r == starts_with(s@, seq![c]),
{
    if s.len() > 0 && s[0] == c {
        assert(s@.take(1) =~= seq![c]);
        true
    } else {
        if s.len() > 0 {
            assert(s@.take(1)[0] == s@[0]);
        }
        false
    }
}

fn path_split_exec(current: &str, next: &str) -> (r: bool)
    ensures
        r == path_split(current@, next@),
{
    proof {
        reveal_strlit("-");
        reveal_strlit(".");
        assert("-"@ =~= seq!['-']);
        assert("."@ =~= seq!['.']);
    }
    let c = chars_of(current);
    let n = chars_of(next);
    contains_char(&c, '/') && !starts_with_char(&n, '-') && !contains_exec(&n, &chars_of("::"))
        && !starts_with_char(&n, '.') && next.len() < 20
}

fn short_word_exec(a: &str) -> (r: bool)
    ensures
        r == short_word(a@),
{
    proof {
        reveal_strlit("-");
        reveal_strlit(".");
        assert("-"@ =~= seq!['-']);
        assert("."@ =~= seq!['.']);
    }
    let v = chars_of(a);
    a.len() < 15 && !starts_with_char(&v, '-') && !starts_with_char(&v, '.') && !contains_exec(&v, &chars_of("::"))
}

/// Looks for signs that the argument vector was joined and split again;
/// see `argv_misuse`.
pub fn detect_argv_misuse(argv: &Vec<String>) -> (r: Option<ArgvMisuse>)
    ensures
        misuse_view(r) == argv_misuse(argv@.map_values(|a: String| a@)),
{
    let ghost av = argv@.map_values(|a: String| a@);
    if argv.len() < 3 {
        return None;
    }
    let mut i: usize = 0;
    while i < argv.len() - 1
        invariant
            3 <= argv@.len(),
            av == argv@.map_values(|a: String| a@),
            i <= argv@.len() - 1,
            forall|j: int| 0 <= j < i ==> !path_split(#[trigger] av[j], av[j + 1]),
        decreases argv@.len() - 1 - i,
    {
        if path_split_exec(argv[i].as_str(), argv[i + 1].as_str()) {
            proof {
                assert(first_path_split_at(av, i as int));
                let k = choose|k: int| first_path_split_at(av, k);
                assert(first_path_split_at(av, k));
                if k < i {
                    assert(!path_split(av[k], av[k + 1]));
                }
                if i < k {
                    assert(!path_split(av[i as int], av[i + 1]));
                }
            }
            return Some(ArgvMisuse::PathSplit { current: argv[i].clone(), next: argv[i + 1].clone() });
        }
        i = i + 1;
    }
    let mut run: usize = 0;
    let mut k: usize = 1;
    while k < argv.len()
        invariant
            3 <= argv@.len(),
            av == argv@.map_values(|a: String| a@),
            1 <= k <= argv@.len(),
            run <= 2,
            run <= k - 1,
            forall|j: int| 0 <= j < argv@.len() - 1 ==> !path_split(#[trigger] av[j], av[j + 1]),
            forall|m: int| k - run <= m < k ==> short_word(#[trigger] av[m]),
            run < k - 1 ==> !short_word(av[k - run - 1]),
            forall|j: int| 1 <= j && j + 2 < k ==> !(short_word(#[trigger] av[j]) && short_word(av[j + 1])
                && short_word(av[j + 2])),
        decreases argv@.len() - k,
    {
        if short_word_exec(argv[k].as_str()) {
            if run == 2 {
                assert(short_word(av[k - 2]) && short_word(av[k - 1]) && short_word(av[k as int]));
                assert(has_short_run(av));
                return Some(ArgvMisuse::ConsecutiveShort);
            }
            run = run + 1;
        } else {
            run = 0;
        }
        k = k + 1;
    }
    assert(!has_short_run(av)) by {
        if has_short_run(av) {
            let j = choose|j: int| 1 <= j && j + 2 < av.len() && short_word(#[trigger] av[j]) && short_word(av[j + 1])
                && short_word(av[j + 2]);
            assert(j + 2 < k);
        }
    }
    None
}

} // verus!
