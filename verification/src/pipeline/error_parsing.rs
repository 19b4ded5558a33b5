//! Reading structured facts back out of the texts of error messages: the
//! name of an argument that asks for interactive input, the command an
//! error is about, the commands a help text lists, and the suggestions of
//! a "Did you mean" message.

use vstd::prelude::*;
use crate::text::{
    is_ws, is_ws_exec, contains, starts_with, is_first_occurrence, occurs_at, split_on, trim, chars_of,
    find_exec, contains_exec, starts_with_exec, trim_exec, split_exec, string_of, owned, push_str,
};

verus! {

broadcast use vstd::string::group_string_axioms;

/// A test on one character.
#[derive(Debug, Clone, Copy)]
pub enum CharTest {
    /// The character itself.
    Is(char),
    /// White space.
    Space,
    /// Anything but white space.
    NonSpace,
}

/// `c` passes the test.
pub open spec fn passes(c: char, t: CharTest) -> bool {
    match t {
        CharTest::Is(x) => c == x,
        CharTest::Space => is_ws(c),
        CharTest::NonSpace => !is_ws(c),
    }
}

/// `i` is the first position of `s` whose character passes the test.
pub open spec fn first_pass_at(s: Seq<char>, t: CharTest, i: int) -> bool {
    &&& 0 <= i < s.len()
    &&& passes(s[i], t)
    &&& forall|j: int| 0 <= j < i ==> !passes(#[trigger] s[j], t)
}

/// The first position whose character passes the test, if any.
pub open spec fn find_class(s: Seq<char>, t: CharTest) -> Option<int> {
    if exists|i: int| 0 <= i < s.len() && passes(#[trigger] s[i], t) {
        Some(choose|i: int| first_pass_at(s, t, i))
    } else {
        None
    }
}

/// `s` up to the first character that passes the test, or all of it.
pub open spec fn before_class(s: Seq<char>, t: CharTest) -> Seq<char> {
    match find_class(s, t) {
        Some(e) => s.take(e),
        None => s,
    }
}

/// The first position at which `p` occurs in `s`, if any.
pub open spec fn find_sub(s: Seq<char>, p: Seq<char>) -> Option<int> {
    if contains(s, p) {
        Some(choose|i: int| is_first_occurrence(s, p, i))
    } else {
        None
    }
}

/// The text after the first `marker` up to the next `'`, when both are there.
pub open spec fn quoted_after(msg: Seq<char>, marker: Seq<char>) -> Option<Seq<char>> {
    match find_sub(msg, marker) {
        Some(st) => {
            let rest = msg.skip(st + marker.len());
            match find_class(rest, CharTest::Is('\'')) {
                Some(e) => Some(rest.take(e)),
                None => None,
            }
        },
        None => None,
    }
}

/// The first word after the first `marker`, when there is one.
pub open spec fn word_after(msg: Seq<char>, marker: Seq<char>) -> Option<Seq<char>> {
    match find_sub(msg, marker) {
        Some(st) => {
            let rest = msg.skip(st + marker.len());
            match find_class(rest, CharTest::NonSpace) {
                Some(a) => Some(before_class(rest.skip(a), CharTest::Space)),
                None => None,
            }
        },
        None => None,
    }
}

/// The argument an interactive-input error names: quoted after
/// `The argument '`, else the word after `Interactive Argument Required:`,
/// else quoted after `argument '`.
pub open spec fn interactive_argument(msg: Seq<char>) -> Option<Seq<char>> {
    if quoted_after(msg, "The argument '"@) is Some {
        quoted_after(msg, "The argument '"@)
    } else if word_after(msg, "Interactive Argument Required:"@) is Some {
        word_after(msg, "Interactive Argument Required:"@)
    } else {
        quoted_after(msg, "argument '"@)
    }
}

/// The command an error names: the text after `for command ` up to white
/// space, else quoted after `command '`.
pub open spec fn command_in_error(msg: Seq<char>) -> Option<Seq<char>> {
    match find_sub(msg, "for command "@) {
        Some(st) => Some(before_class(msg.skip(st + 12), CharTest::Space)),
        None => quoted_after(msg, "command '"@),
    }
}

/// The lines of a text, split at line feeds, with no last empty line. A
/// carriage return before a line feed stays on its line (the lines read
/// here are trimmed, which removes it).
pub open spec fn text_lines(s: Seq<char>) -> Seq<Seq<char>> {
    let parts = split_on(s, '\n');
    if parts.last().len() == 0 { parts.drop_last() } else { parts }
}

/// The command a trimmed line of a command list names: after a leading
/// `.`, else after its first `.`, up to a space.
pub open spec fn listed_command(line: Seq<char>) -> Option<Seq<char>> {
    if line.len() > 0 && line[0] == '.' {
        Some(before_class(line.drop_first(), CharTest::Is(' ')))
    } else {
        match find_class(line, CharTest::Is('.')) {
            Some(d) => Some(before_class(line.skip(d + 1), CharTest::Is(' '))),
            None => None,
        }
    }
}

/// A trimmed line that ends a command list: empty, or starting with `Use`
/// or `For`.
pub open spec fn ends_listing(line: Seq<char>) -> bool {
    line.len() == 0 || starts_with(line, "Use"@) || starts_with(line, "For"@)
}

/// The commands listed in the lines after an `Available commands:` line,
/// up to the end of the list.
pub open spec fn commands_listed(lines: Seq<Seq<char>>, in_listing: bool) -> Seq<Seq<char>>
    decreases lines.len(),
{
    if lines.len() == 0 {
        Seq::<Seq<char>>::empty()
    } else {
        let line = trim(lines[0]);
        if contains(line, "Available commands:"@) {
            commands_listed(lines.drop_first(), true)
        } else if !in_listing {
            commands_listed(lines.drop_first(), false)
        } else if ends_listing(line) {
            Seq::<Seq<char>>::empty()
        } else {
            match listed_command(line) {
                Some(c) => seq![c] + commands_listed(lines.drop_first(), true),
                None => commands_listed(lines.drop_first(), true),
            }
        }
    }
}

/// The white-space separated words of `s`, in order.
pub open spec fn words(s: Seq<char>) -> Seq<Seq<char>>
    decreases s.len(),
{
    if s.len() == 0 {
        Seq::<Seq<char>>::empty()
    } else {
        let prev = words(s.drop_last());
        let c = s.last();
        if is_ws(c) {
            prev
        } else if s.len() >= 2 && !is_ws(s[s.len() - 2]) {
            prev.update(prev.len() - 1, prev.last().push(c))
        } else {
            prev.push(seq![c])
        }
    }
}

/// `s` without any trailing `c`.
pub open spec fn trim_end_char(s: Seq<char>, c: char) -> Seq<char>
    decreases s.len(),
{
    if s.len() > 0 && s.last() == c { trim_end_char(s.drop_last(), c) } else { s }
}

/// The words that start with `.`, without trailing `,` and then trailing `?`.
pub open spec fn dotted_words(ws: Seq<Seq<char>>) -> Seq<Seq<char>>
    decreases ws.len(),
{
    if ws.len() == 0 {
        Seq::<Seq<char>>::empty()
    } else {
        let w = ws.last();
        dotted_words(ws.drop_last()) + if w.len() > 0 && w[0] == '.' {
            seq![trim_end_char(trim_end_char(w, ','), '?')]
        } else {
            Seq::<Seq<char>>::empty()
        }
    }
}

/// The commands suggested after the first `Did you mean:`.
pub open spec fn suggestions(msg: Seq<char>) -> Seq<Seq<char>> {
    match find_sub(msg, "Did you mean:"@) {
        Some(st) => dotted_words(words(msg.skip(st + 13))),
        None => Seq::<Seq<char>>::empty(),
    }
}

/// A line per command, each `  .` and the name.
pub open spec fn command_lines(cs: Seq<Seq<char>>) -> Seq<char>
    decreases cs.len(),
{
    if cs.len() == 0 {
        Seq::<char>::empty()
    } else {
        command_lines(cs.drop_last()) + "  ."@ + cs.last() + "\n"@
    }
}

/// The help content for a list of commands.
pub open spec fn help_content(cs: Seq<Seq<char>>) -> Seq<char> {
    if cs.len() == 0 {
        "No commands available."@
    } else {
        "Available commands:\n"@ + command_lines(cs)
    }
}

proof fn lemma_find_class_at(s: Seq<char>, t: CharTest, i: int)
    requires
        first_pass_at(s, t, i),
    ensures
        find_class(s, t) == Some(i),
{
    assert(0 <= i < s.len() && passes(s[i], t));
    let k = choose|k: int| first_pass_at(s, t, k);
    assert(first_pass_at(s, t, k));
    if k < i {
        assert(!passes(s[k], t));
    } else if i < k {
        assert(!passes(s[i], t));
    }
}

proof fn lemma_find_sub_at(s: Seq<char>, p: Seq<char>, i: int)
    requires
        is_first_occurrence(s, p, i),
    ensures
        find_sub(s, p) == Some(i),
{
    assert(occurs_at(s, p, i));
    assert(contains(s, p));
    let k = choose|k: int| is_first_occurrence(s, p, k);
    assert(is_first_occurrence(s, p, k));
    if k < i {
        assert(!occurs_at(s, p, k));
    } else if i < k {
        assert(!occurs_at(s, p, i));
    }
}

/// The first position whose character passes the test; see `find_class`.
pub fn find_class_exec(s: &Vec<char>, t: CharTest) -> (r: Option<usize>)
    ensures
        match r {
            Some(i) => find_class(s@, t) == Some(i as int) && i < s@.len(),
            None => find_class(s@, t) is None,
        },
{
    let mut i: usize = 0;
    while i < s.len()
        invariant
            i <= s@.len(),
            forall|j: int| 0 <= j < i ==> !passes(#[trigger] s@[j], t),
        decreases s@.len() - i,
    {
        let c = s[i];
        let hit = match t {
            CharTest::Is(x) => c == x,
            CharTest::Space => is_ws_exec(c),
            CharTest::NonSpace => !is_ws_exec(c),
        };
        if hit {
            proof {
                lemma_find_class_at(s@, t, i as int);
            }
            return Some(i);
        }
        i = i + 1;
    }
    None
}

/// `s` up to the first character that passes the test; see `before_class`.
pub fn before_class_exec(s: &Vec<char>, t: CharTest) -> (r: Vec<char>)
    ensures
        r@ == before_class(s@, t),
{
    match find_class_exec(s, t) {
        Some(e) => crate::text::subvec(s, 0, e),
        None => {
            assert(s@.subrange(0, s@.len() as int) =~= s@);
            crate::text::subvec(s, 0, s.len())
        },
    }
}

/// The first position of `p` in `s`; see `find_sub`.
pub fn find_sub_exec(s: &Vec<char>, p: &str) -> (r: Option<usize>)
    ensures
        r matches Some(i) ==> find_sub(s@, p@) == Some(i as int),
        r matches Some(i) ==> i + p@.len() <= s.len(),
        r is None ==> find_sub(s@, p@) is None,
{
    let pv = chars_of(p);
    match find_exec(s, &pv) {
        Some(i) => {
            proof {
                lemma_find_sub_at(s@, p@, i as int);
            }
            Some(i)
        },
        None => None,
    }
}

fn skip_exec(s: &Vec<char>, from: usize) -> (r: Vec<char>)
    requires
        from <= s@.len(),
    ensures
        r@ == s@.skip(from as int),
{
    let r = crate::text::subvec(s, from, s.len());
    assert(r@ =~= s@.skip(from as int));
    r
}

fn quoted_after_exec(msg: &Vec<char>, marker: &str) -> (r: Option<Vec<char>>)
    ensures
        match r {
            Some(v) => quoted_after(msg@, marker@) == Some(v@),
            None => quoted_after(msg@, marker@) is None,
        },
{
    let pv = chars_of(marker);
    match find_sub_exec(msg, marker) {
        Some(st) => {
            let rest = skip_exec(msg, st + pv.len());
            match find_class_exec(&rest, CharTest::Is('\'')) {
                Some(e) => Some(crate::text::subvec(&rest, 0, e)),
                None => None,
            }
        },
        None => None,
    }
}

fn word_after_exec(msg: &Vec<char>, marker: &str) -> (r: Option<Vec<char>>)
    ensures
        match r {
            Some(v) => word_after(msg@, marker@) == Some(v@),
            None => word_after(msg@, marker@) is None,
        },
{
    let pv = chars_of(marker);
    match find_sub_exec(msg, marker) {
        Some(st) => {
            let rest = skip_exec(msg, st + pv.len());
            match find_class_exec(&rest, CharTest::NonSpace) {
                Some(a) => Some(before_class_exec(&skip_exec(&rest, a), CharTest::Space)),
                None => None,
            }
        },
        None => None,
    }
}

fn some_string(v: Option<Vec<char>>) -> (r: Option<String>)
    ensures
        match v {
            Some(x) => r matches Some(s) && s@ == x@,
            None => r is None,
        },
{
    match v {
        Some(x) => Some(string_of(&x)),
        None => None,
    }
}

/// The argument an interactive-input error names; see `interactive_argument`.
pub fn extract_interactive_argument(error_msg: &str) -> (r: Option<String>)
    ensures
        match r {
            Some(s) => interactive_argument(error_msg@) == Some(s@),
            None => interactive_argument(error_msg@) is None,
        },
{
    let m = chars_of(error_msg);
    match quoted_after_exec(&m, "The argument '") {
        Some(v) => {
            return some_string(Some(v));
        },
        None => {},
    }
    match word_after_exec(&m, "Interactive Argument Required:") {
        Some(v) => {
            return some_string(Some(v));
        },
        None => {},
    }
    some_string(quoted_after_exec(&m, "argument '"))
}

/// The command an error names; see `command_in_error`.
pub fn extract_command_from_error(error_msg: &str) -> (r: Option<String>)
    ensures
        match r {
            Some(s) => command_in_error(error_msg@) == Some(s@),
            None => command_in_error(error_msg@) is None,
        },
{
    let m = chars_of(error_msg);
    proof {
        reveal_strlit("for command ");
    }
    match find_sub_exec(&m, "for command ") {
        Some(st) => some_string(Some(before_class_exec(&skip_exec(&m, st + 12), CharTest::Space))),
        None => some_string(quoted_after_exec(&m, "command '")),
    }
}

fn text_lines_exec(s: &Vec<char>) -> (r: Vec<Vec<char>>)
    ensures
        r@.map_values(|v: Vec<char>| v@) == text_lines(s@),
{
    let mut parts = split_exec(s, '\n');
    let ghost pv = parts@.map_values(|v: Vec<char>| v@);
    proof {
        crate::text::lemma_split_nonempty(s@, '\n');
    }
    let n = parts.len();
    if parts[n - 1].len() == 0 {
        parts.pop();
        assert(parts@.map_values(|v: Vec<char>| v@) =~= pv.drop_last());
    }
    parts
}

fn listed_command_exec(line: &Vec<char>) -> (r: Option<Vec<char>>)
    ensures
        match r {
            Some(v) => listed_command(line@) == Some(v@),
            None => listed_command(line@) is None,
        },
{
    if line.len() > 0 && line[0] == '.' {
        let rest = skip_exec(line, 1);
        assert(rest@ =~= line@.drop_first());
        Some(before_class_exec(&rest, CharTest::Is(' ')))
    } else {
        match find_class_exec(line, CharTest::Is('.')) {
            Some(d) => Some(before_class_exec(&skip_exec(line, d + 1), CharTest::Is(' '))),
            None => None,
        }
    }
}

/// The commands a help text lists after its `Available commands:` line;
/// see `commands_listed`.
pub fn extract_available_commands(error_msg: &str) -> (r: Vec<String>)
    ensures
        r@.map_values(|s: String| s@) == commands_listed(text_lines(error_msg@), false),
{
    let m = chars_of(error_msg);
    let lines = text_lines_exec(&m);
    let ghost lv = lines@.map_values(|v: Vec<char>| v@);
    let ghost total = commands_listed(lv, false);
    let mut commands: Vec<String> = Vec::new();
    let mut in_listing = false;
    let mut i: usize = 0;
    assert(lv.skip(0) =~= lv);
    let marker = chars_of("Available commands:");
    let use_word = chars_of("Use");
    let for_word = chars_of("For");
    while i < lines.len()
        invariant_except_break
            i <= lines@.len(),
            lv == lines@.map_values(|v: Vec<char>| v@),
            marker@ == "Available commands:"@,
            use_word@ == "Use"@,
            for_word@ == "For"@,
            commands@.map_values(|s: String| s@) + commands_listed(lv.skip(i as int), in_listing) == total,
        ensures
            commands@.map_values(|s: String| s@) == total,
        decreases lines@.len() - i,
    {
        let ghost acc = commands@.map_values(|s: String| s@);
        let ghost rest = lv.skip(i as int);
        assert(rest[0] == lv[i as int]);
        assert(rest.drop_first() =~= lv.skip(i as int + 1));
        let line = trim_exec(&lines[i]);
        if contains_exec(&line, &marker) {
            in_listing = true;
        } else if in_listing {
            if line.len() == 0 || starts_with_exec(&line, &use_word) || starts_with_exec(&line, &for_word) {
                assert(acc + Seq::<Seq<char>>::empty() =~= acc);
                break;
            }
            match listed_command_exec(&line) {
                Some(c) => {
                    let cs = string_of(&c);
                    commands.push(cs);
                    assert(commands@.map_values(|s: String| s@) =~= acc.push(c@));
                    assert(acc + (seq![c@] + commands_listed(lv.skip(i as int + 1), true)) =~= acc.push(c@)
                        + commands_listed(lv.skip(i as int + 1), true));
                },
                None => {},
            }
        }
        i = i + 1;
    }
    commands
}

fn words_exec(s: &Vec<char>) -> (r: Vec<Vec<char>>)
    ensures
        r@.map_values(|v: Vec<char>| v@) == words(s@),
{
    let mut ws: Vec<Vec<char>> = Vec::new();
    let mut i: usize = 0;
    assert(s@.take(0) =~= Seq::<char>::empty());
    while i < s.len()
        invariant
            i <= s@.len(),
            ws@.map_values(|v: Vec<char>| v@) == words(s@.take(i as int)),
            (i > 0 && !is_ws(s@[i - 1])) ==> ws@.len() > 0,
        decreases s@.len() - i,
    {
        let ghost prev = ws@.map_values(|v: Vec<char>| v@);
        let ghost t = s@.take(i as int + 1);
        assert(t.drop_last() =~= s@.take(i as int));
        assert(t.last() == s@[i as int]);
        let c = s[i];
        if is_ws_exec(c) {
        } else if i > 0 && !is_ws_exec(s[i - 1]) {
            assert(t[t.len() - 2] == s@[i - 1]);
            let mut last = ws.pop().unwrap();
            last.push(c);
            ws.push(last);
            assert(ws@.map_values(|v: Vec<char>| v@) =~= prev.update(prev.len() - 1, prev.last().push(c)));
        } else {
            if i > 0 {
                assert(t[t.len() - 2] == s@[i - 1]);
            }
            let mut w: Vec<char> = Vec::new();
            w.push(c);
            ws.push(w);
            assert(ws@.map_values(|v: Vec<char>| v@) =~= prev.push(seq![c]));
        }
        i = i + 1;
    }
    assert(s@.take(s@.len() as int) =~= s@);
    ws
}

fn trim_end_char_exec(s: &Vec<char>, c: char) -> (r: Vec<char>)
    ensures
        r@ == trim_end_char(s@, c),
{
    let mut j: usize = s.len();
    assert(s@.take(j as int) =~= s@);
    while j > 0 && s[j - 1] == c
        invariant
            j <= s@.len(),
            trim_end_char(s@.take(j as int), c) == trim_end_char(s@, c),
        decreases j,
    {
        assert(s@.take(j as int).drop_last() =~= s@.take(j as int - 1));
        j = j - 1;
    }
    crate::text::subvec(s, 0, j)
}

/// The commands a "Did you mean" message suggests; see `suggestions`.
pub fn extract_command_suggestions(error_msg: &str) -> (r: Vec<String>)
    ensures
        r@.map_values(|s: String| s@) == suggestions(error_msg@),
{
    let m = chars_of(error_msg);
    let mut out: Vec<String> = Vec::new();
    proof {
        reveal_strlit("Did you mean:");
    }
    match find_sub_exec(&m, "Did you mean:") {
        Some(st) => {
            let ws = words_exec(&skip_exec(&m, st + 13));
            let ghost wv = ws@.map_values(|v: Vec<char>| v@);
            let mut i: usize = 0;
            assert(wv.take(0) =~= Seq::<Seq<char>>::empty());
            while i < ws.len()
                invariant
                    i <= ws@.len(),
                    wv == ws@.map_values(|v: Vec<char>| v@),
                    out@.map_values(|s: String| s@) == dotted_words(wv.take(i as int)),
                decreases ws@.len() - i,
            {
                assert(wv.take(i as int + 1).drop_last() =~= wv.take(i as int));
                assert(wv.take(i as int + 1).last() == ws@[i as int]@);
                let ghost before = out@.map_values(|s: String| s@);
                if ws[i].len() > 0 && ws[i][0] == '.' {
                    let w = trim_end_char_exec(&trim_end_char_exec(&ws[i], ','), '?');
                    out.push(string_of(&w));
                    assert(out@.map_values(|s: String| s@) =~= before + seq![w@]);
                } else {
                    assert(out@.map_values(|s: String| s@) =~= before + Seq::<Seq<char>>::empty());
                }
                i = i + 1;
            }
            assert(wv.take(ws@.len() as int) =~= wv);
        },
        None => {
            assert(out@.map_values(|s: String| s@) =~= Seq::<Seq<char>>::empty());
        },
    }
    out
}

/// The help content for a list of commands; see `help_content`.
pub fn format_help_content(commands: &Vec<String>) -> (r: String)
    ensures
        r@ == help_content(commands@.map_values(|s: String| s@)),
{
    let ghost cv = commands@.map_values(|s: String| s@);
    if commands.len() == 0 {
        return owned("No commands available.");
    }
    let mut content = owned("Available commands:\n");
    let ghost head = content@;
    let mut i: usize = 0;
    assert(cv.take(0) =~= Seq::<Seq<char>>::empty());
    while i < commands.len()
        invariant
            i <= commands@.len(),
            cv == commands@.map_values(|s: String| s@),
            content@ == head + command_lines(cv.take(i as int)),
        decreases commands@.len() - i,
    {
        assert(cv.take(i as int + 1).drop_last() =~= cv.take(i as int));
        assert(cv.take(i as int + 1).last() == commands@[i as int]@);
        push_str(&mut content, "  .");
        push_str(&mut content, commands[i].as_str());
        push_str(&mut content, "\n");
        i = i + 1;
        assert(content@ =~= head + command_lines(cv.take(i as int)));
    }
    assert(cv.take(commands@.len() as int) =~= cv);
    content
}

} // verus!
