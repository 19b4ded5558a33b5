//! The `Debug` renderings of strings, characters and lists that help pages
//! and diagnostics embed.

use vstd::prelude::*;
use crate::text::{ chars_of, push_str, push_char, join, ascii_lower, ascii_upper };
use vstd::utf8::is_ascii_chars;

verus! {

broadcast use vstd::string::group_string_axioms;

/// What `char::escape_debug` yields for one character.
pub uninterp spec fn char_escape_debug(c: char) -> Seq<char>;

/// Graphic ASCII: a printable, non-space ASCII character.
pub open spec fn is_graphic_ascii(c: char) -> bool {
    0x21 <= (c as u32) && (c as u32) <= 0x7e
}

/// The escaped form of one character, as `char::escape_debug` writes it:
/// `\t`, `\r`, `\n`, `\\`, `'` and `"` take a backslash, the space and
/// every other graphic ASCII character stay as they are, and the rest of
/// Unicode is escaped as the standard library's tables say.
pub open spec fn escaped_char(c: char) -> Seq<char> {
    if c == '\t' {
        seq!['\\', 't']
    } else if c == '\r' {
        seq!['\\', 'r']
    } else if c == '\n' {
        seq!['\\', 'n']
    } else if c == '\\' || c == '\'' || c == '"' {
        seq!['\\', c]
    } else if c == ' ' || is_graphic_ascii(c) {
        seq![c]
    } else {
        char_escape_debug(c)
    }
}

/// `char::escape_debug` (std): the escaped form of one character.
///
/// Its documentation fixes these cases, which the contract states: `\t`,
/// `\r`, `\n`, `\\`, `'` and `"` become a backslash escape, the space and
/// every other graphic ASCII character stay as they are. For the rest of
/// Unicode the result is named, not stated: it depends on the printable and
/// grapheme-extend tables of the standard library.
#[verifier::external_body]
fn escape_debug_char(c: char) -> (r: String)
    ensures
        r@ == char_escape_debug(c),
        r@ == escaped_char(c),
{
    c.escape_debug().to_string()
}

/// One character of a string's `Debug` rendering: single quotes stay bare.
pub open spec fn str_char_debug(c: char) -> Seq<char> {
    if c == '\'' {
        seq!['\'']
    } else {
        escaped_char(c)
    }
}

/// The escaped body of a string's `Debug` rendering.
pub open spec fn str_debug_body(s: Seq<char>) -> Seq<char>
    decreases s.len(),
{
    if s.len() == 0 {
        Seq::<char>::empty()
    } else {
        str_debug_body(s.drop_last()) + str_char_debug(s.last())
    }
}

/// The `Debug` rendering of a string: quoted and escaped.
pub open spec fn str_debug(s: Seq<char>) -> Seq<char> {
    seq!['"'] + str_debug_body(s) + seq!['"']
}

/// The `Debug` rendering of a character: single-quoted, double quotes bare.
pub open spec fn char_debug(c: char) -> Seq<char> {
    seq!['\''] + (if c == '"' {
        seq!['"']
    } else {
        escaped_char(c)
    }) + seq!['\'']
}

/// The `Debug` rendering of an optional character.
pub open spec fn opt_char_debug(o: Option<char>) -> Seq<char> {
    match o {
        Some(c) => "Some("@ + char_debug(c) + ")"@,
        None => "None"@,
    }
}

/// The `Debug` rendering of a list of strings: `["a", "b"]`.
pub open spec fn strings_debug(v: Seq<Seq<char>>) -> Seq<char> {
    seq!['['] + join(v.map_values(|s: Seq<char>| str_debug(s)), ", "@) + seq![']']
}

/// Appends the `Debug` rendering of `s`.
pub fn push_str_debug(out: &mut String, s: &str)
    ensures
        final(out)@ == old(out)@ + str_debug(s@),
{
    let v = chars_of(s);
    let ghost start = old(out)@;
    push_char(out, '"');
    let mut i: usize = 0;
    while i < v.len()
        invariant
            i <= v@.len(),
            v@ == s@,
            out@ == start + seq!['"'] + str_debug_body(v@.take(i as int)),
        decreases v@.len() - i,
    {
        let c = v[i];
        let ghost pre = v@.take(i as int);
        if c == '\'' {
            push_char(out, '\'');
        } else {
            let e = escape_debug_char(c);
            push_str(out, e.as_str());
        }
        i = i + 1;
        proof {
            let t = v@.take(i as int);
            assert(t.drop_last() =~= pre);
            assert(t.last() == c);
            assert(out@ =~= start + seq!['"'] + str_debug_body(t));
        }
    }
    push_char(out, '"');
    proof {
        assert(v@.take(v@.len() as int) =~= s@);
        assert(out@ =~= start + str_debug(s@));
    }
}

/// Appends the `Debug` rendering of a character.
pub fn push_char_debug(out: &mut String, c: char)
    ensures
        final(out)@ == old(out)@ + char_debug(c),
{
    let ghost start = old(out)@;
    push_char(out, '\'');
    if c == '"' {
        push_char(out, '"');
    } else {
        let e = escape_debug_char(c);
        push_str(out, e.as_str());
    }
    push_char(out, '\'');
    assert(out@ =~= start + char_debug(c));
}

/// Appends the `Debug` rendering of an optional character.
pub fn push_opt_char_debug(out: &mut String, o: Option<char>)
    ensures
        final(out)@ == old(out)@ + opt_char_debug(o),
{
    let ghost start = old(out)@;
    match o {
        Some(c) => {
            push_str(out, "Some(");
            push_char_debug(out, c);
            push_str(out, ")");
            assert(out@ =~= start + opt_char_debug(o));
        },
        None => {
            push_str(out, "None");
        },
    }
}

/// Appends the `Debug` rendering of a list of strings.
pub fn push_strings_debug(out: &mut String, v: &Vec<String>)
    ensures
        final(out)@ == old(out)@ + strings_debug(v@.map_values(|s: String| s@)),
{
    let ghost start = old(out)@;
    let ghost views = v@.map_values(|s: String| s@);
    let ghost dbg = views.map_values(|s: Seq<char>| str_debug(s));
    push_char(out, '[');
    let mut i: usize = 0;
    while i < v.len()
        invariant
            i <= v@.len(),
            views == v@.map_values(|s: String| s@),
            dbg == views.map_values(|s: Seq<char>| str_debug(s)),
            out@ == start + seq!['['] + join(dbg.take(i as int), ", "@),
        decreases v@.len() - i,
    {
        let ghost before = out@;
        if i > 0 {
            push_str(out, ", ");
        }
        push_str_debug(out, v[i].as_str());
        i = i + 1;
        proof {
            let t = dbg.take(i as int);
            assert(t.drop_last() =~= dbg.take(i - 1));
            assert(t.last() == str_debug(v@[i - 1]@));
            if i == 1 {
                assert(dbg.take(0) =~= Seq::<Seq<char>>::empty());
                assert(t =~= seq![t.last()]);
                assert(out@ =~= start + seq!['['] + join(t, ", "@));
            } else {
                assert(out@ =~= start + seq!['['] + join(t, ", "@));
            }
        }
    }
    push_char(out, ']');
    proof {
        assert(dbg.take(v@.len() as int) =~= dbg);
        assert(out@ =~= start + strings_debug(views));
    }
}

/// What `str::to_lowercase` yields.
pub uninterp spec fn unicode_lowercase(s: Seq<char>) -> Seq<char>;

/// The lower-case form of a text, as `str::to_lowercase` writes it: the
/// ASCII lower-casing for ASCII text, the Unicode lower-case form beyond.
pub open spec fn lowercase_text(s: Seq<char>) -> Seq<char> {
    if is_ascii_chars(s) {
        s.map_values(|c: char| ascii_lower(c))
    } else {
        unicode_lowercase(s)
    }
}

/// `str::to_lowercase` (std): the Unicode lower-case form.
///
/// For ASCII text the documentation fixes the result to the ASCII
/// lower-casing, which the contract states; beyond ASCII it is named.
#[verifier::external_body]
pub(crate) fn to_lowercase(s: &str) -> (r: String)
    ensures
        r@ == unicode_lowercase(s@),
        r@ == lowercase_text(s@),
{
    s.to_lowercase()
}

/// What `char::to_uppercase` yields for one character.
pub uninterp spec fn char_uppercase(c: char) -> Seq<char>;

/// The upper-case form of one character, as `char::to_uppercase` writes
/// it: an ASCII lower-case letter becomes its upper-case letter, ASCII
/// upper-case letters and digits stay, and the rest follows Unicode.
pub open spec fn char_uppercase_text(c: char) -> Seq<char> {
    if 'a' <= c && c <= 'z' {
        seq![((c as u32) - 32) as char]
    } else if ('A' <= c && c <= 'Z') || ('0' <= c && c <= '9') {
        seq![c]
    } else {
        char_uppercase(c)
    }
}

/// `char::to_uppercase` (std), collected into a string.
///
/// For an ASCII lower-case letter the documentation fixes the result to its
/// ASCII upper-case letter, which the contract states; otherwise it is named.
#[verifier::external_body]
pub(crate) fn char_to_uppercase(c: char) -> (r: String)
    ensures
        r@ == char_uppercase(c),
        r@ == char_uppercase_text(c),
{
    c.to_uppercase().collect::<String>()
}

/// What `str::to_uppercase` yields.
pub uninterp spec fn unicode_uppercase(s: Seq<char>) -> Seq<char>;

/// The upper-case form of a text, as `str::to_uppercase` writes it: the
/// ASCII upper-casing for ASCII text, the Unicode upper-case form beyond.
pub open spec fn uppercase_text(s: Seq<char>) -> Seq<char> {
    if is_ascii_chars(s) {
        s.map_values(|c: char| ascii_upper(c))
    } else {
        unicode_uppercase(s)
    }
}

/// `str::to_uppercase` (std): the Unicode upper-case form.
///
/// For ASCII text the documentation fixes the result to the ASCII
/// upper-casing, which the contract states; beyond ASCII it is named.
#[verifier::external_body]
pub(crate) fn to_uppercase(s: &str) -> (r: String)
    ensures
        r@ == unicode_uppercase(s@),
        r@ == uppercase_text(s@),
{
    s.to_uppercase()
}

} // verus!
