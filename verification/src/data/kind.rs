//! `Kind`: the data type of an argument, with its textual form and parser.

use vstd::prelude::*;
use crate::error::Error;
use crate::text::{
    chars_of, owned, push_str, push_char, push_chars, chars_eq_str, starts_with, ends_with,
    starts_with_exec, ends_with_exec, subvec, trim, trim_start, trim_end, trim_exec, split_on, split_exec, join,
    lemma_split_nonempty, is_ws,
};
use crate::debug_text::{ str_debug, strings_debug, opt_char_debug, push_strings_debug, push_opt_char_debug };

verus! {

broadcast use vstd::string::group_string_axioms;

/// The data type and structure of an argument or value.
#[derive(Debug)]
pub enum Kind {
    /// Text.
    String,
    /// Whole number.
    Integer,
    /// Floating-point number.
    Float,
    /// `true` or `false`.
    Boolean,
    /// File-system path.
    Path,
    /// Path of an existing file.
    File,
    /// Path of an existing directory.
    Directory,
    /// One of the listed choices.
    Enum(Vec<String>),
    /// Web address.
    Url,
    /// Date and time.
    DateTime,
    /// Regular expression.
    Pattern,
    /// List of items of one kind, with an optional item delimiter.
    List(Box<Kind>, Option<char>),
    /// Map of keys to values, with optional entry and key-value delimiters.
    MapOf(Box<Kind>, Box<Kind>, Option<char>, Option<char>),
    /// JSON text.
    JsonString,
    /// Arbitrary structured data.
    Object,
}

/// The mathematical value of a `Kind`.
pub enum KindView {
    String,
    Integer,
    Float,
    Boolean,
    Path,
    File,
    Directory,
    Enum(Seq<Seq<char>>),
    Url,
    DateTime,
    Pattern,
    List(Box<KindView>, Option<char>),
    MapOf(Box<KindView>, Box<KindView>, Option<char>, Option<char>),
    JsonString,
    Object,
}

/// The characters of each string.
pub open spec fn strs(v: Seq<String>) -> Seq<Seq<char>> {
    v.map_values(|s: String| s@)
}

/// The value of a kind.
pub open spec fn kind_view(k: Kind) -> KindView
    decreases k,
{
    match k {
        Kind::String => KindView::String,
        Kind::Integer => KindView::Integer,
        Kind::Float => KindView::Float,
        Kind::Boolean => KindView::Boolean,
        Kind::Path => KindView::Path,
        Kind::File => KindView::File,
        Kind::Directory => KindView::Directory,
        Kind::Enum(c) => KindView::Enum(strs(c@)),
        Kind::Url => KindView::Url,
        Kind::DateTime => KindView::DateTime,
        Kind::Pattern => KindView::Pattern,
        Kind::List(i, d) => KindView::List(Box::new(kind_view(*i)), d),
        Kind::MapOf(a, b, e, kv) => KindView::MapOf(Box::new(kind_view(*a)), Box::new(kind_view(*b)), e, kv),
        Kind::JsonString => KindView::JsonString,
        Kind::Object => KindView::Object,
    }
}

impl View for Kind {
    type V = KindView;

    open spec fn view(&self) -> KindView {
        kind_view(*self)
    }
}

/// An optional delimiter written as `,` followed by the delimiter.
pub open spec fn delim_text(d: Option<char>) -> Seq<char> {
    match d {
        Some(c) => seq![',', c],
        None => Seq::<char>::empty(),
    }
}

/// The textual form of a kind (its `Display` form).
pub open spec fn kind_text(k: KindView) -> Seq<char>
    decreases k,
{
    match k {
        KindView::String => "String"@,
        KindView::Integer => "Integer"@,
        KindView::Float => "Float"@,
        KindView::Boolean => "Boolean"@,
        KindView::Path => "Path"@,
        KindView::File => "File"@,
        KindView::Directory => "Directory"@,
        KindView::Enum(c) => "Enum("@ + join(c, seq![',']) + ")"@,
        KindView::Url => "Url"@,
        KindView::DateTime => "DateTime"@,
        KindView::Pattern => "Pattern"@,
        KindView::List(i, d) => "List("@ + kind_text(*i) + delim_text(d) + ")"@,
        KindView::MapOf(a, b, e, kv) => "Map("@ + kind_text(*a) + seq![','] + kind_text(*b) + ")"@
            + delim_text(e) + delim_text(kv),
        KindView::JsonString => "JsonString"@,
        KindView::Object => "Object"@,
    }
}

/// The `Debug` form of a kind.
pub open spec fn kind_debug(k: KindView) -> Seq<char>
    decreases k,
{
    match k {
        KindView::Enum(c) => "Enum("@ + strings_debug(c) + ")"@,
        KindView::List(i, d) => "List("@ + kind_debug(*i) + ", "@ + opt_char_debug(d) + ")"@,
        KindView::MapOf(a, b, e, kv) => "Map("@ + kind_debug(*a) + ", "@ + kind_debug(*b) + ", "@
            + opt_char_debug(e) + ", "@ + opt_char_debug(kv) + ")"@,
        _ => kind_text(k),
    }
}

/// The trimmed, non-empty pieces among `ps`.
pub open spec fn clean_parts(ps: Seq<Seq<char>>) -> Seq<Seq<char>>
    decreases ps.len(),
{
    if ps.len() == 0 {
        Seq::<Seq<char>>::empty()
    } else {
        let r = clean_parts(ps.drop_last());
        let t = trim(ps.last());
        if t.len() > 0 {
            r.push(t)
        } else {
            r
        }
    }
}

/// The trimmed, non-empty comma-separated pieces of `inner`.
pub open spec fn list_parts(inner: Seq<char>) -> Seq<Seq<char>> {
    clean_parts(split_on(inner, ','))
}

/// Length bound for trimming.
pub proof fn lemma_trim_len(s: Seq<char>)
    ensures
        trim(s).len() <= s.len(),
{
    lemma_trim_start_len(s);
    lemma_trim_end_len(trim_start(s));
}

proof fn lemma_trim_start_len(s: Seq<char>)
    ensures
        trim_start(s).len() <= s.len(),
    decreases s.len(),
{
    if s.len() > 0 && is_ws(s[0]) {
        lemma_trim_start_len(s.drop_first());
    }
}

proof fn lemma_trim_end_len(s: Seq<char>)
    ensures
        trim_end(s).len() <= s.len(),
    decreases s.len(),
{
    if s.len() > 0 && is_ws(s.last()) {
        lemma_trim_end_len(s.drop_last());
    }
}

proof fn lemma_split_parts_len(s: Seq<char>, sep: char)
    ensures
        forall|i: int| 0 <= i < split_on(s, sep).len() ==> (#[trigger] split_on(s, sep)[i]).len() <= s.len(),
    decreases s.len(),
{
    if s.len() > 0 {
        lemma_split_parts_len(s.drop_last(), sep);
        lemma_split_nonempty(s.drop_last(), sep);
    }
}

proof fn lemma_clean_parts_len(ps: Seq<Seq<char>>, bound: int)
    requires
        forall|i: int| 0 <= i < ps.len() ==> (#[trigger] ps[i]).len() <= bound,
    ensures
        forall|i: int| 0 <= i < clean_parts(ps).len() ==> (#[trigger] clean_parts(ps)[i]).len() <= bound,
    decreases ps.len(),
{
    if ps.len() > 0 {
        let init = ps.drop_last();
        assert forall|i: int| 0 <= i < init.len() implies (#[trigger] init[i]).len() <= bound by {
            assert(init[i] == ps[i]);
        }
        lemma_clean_parts_len(init, bound);
        lemma_trim_len(ps.last());
        assert(ps.last() == ps[ps.len() - 1]);
        let r = clean_parts(init);
        let t = trim(ps.last());
        if t.len() > 0 {
            assert forall|i: int| 0 <= i < r.push(t).len() implies (#[trigger] r.push(t)[i]).len() <= bound by {
                if i < r.len() {
                    assert(r.push(t)[i] == r[i]);
                }
            }
        }
    }
}

/// Every piece of `list_parts(inner)` is at most as long as `inner`.
pub proof fn lemma_list_parts_short(inner: Seq<char>)
    ensures
        forall|i: int| 0 <= i < list_parts(inner).len() ==> (#[trigger] list_parts(inner)[i]).len() <= inner.len(),
{
    lemma_split_parts_len(inner, ',');
    lemma_clean_parts_len(split_on(inner, ','), inner.len() as int);
}

/// The delimiter selected by the piece at `idx`, if there is one.
pub open spec fn delim_at(parts: Seq<Seq<char>>, idx: int) -> Option<char> {
    if parts.len() > idx && parts[idx].len() > 0 {
        Some(parts[idx][0])
    } else {
        None
    }
}

/// The kind that a text names, or the message with which it is rejected.
///
/// The text is trimmed; plain names map to their kind; `Enum(a,b)` lists its
/// trimmed non-empty choices; `List(item[,delim])` and
/// `Map(key,value[,entry_delim[,kv_delim]])` parse their element kinds
/// recursively and take the first character of each delimiter piece.
pub open spec fn kind_from_text(s: Seq<char>) -> Result<KindView, Seq<char>>
    decreases s.len(),
{
    let t = trim(s);
    if t == "String"@ {
        Ok(KindView::String)
    } else if t == "Integer"@ {
        Ok(KindView::Integer)
    } else if t == "Float"@ {
        Ok(KindView::Float)
    } else if t == "Boolean"@ {
        Ok(KindView::Boolean)
    } else if t == "Path"@ {
        Ok(KindView::Path)
    } else if t == "File"@ {
        Ok(KindView::File)
    } else if t == "Directory"@ {
        Ok(KindView::Directory)
    } else if t == "Url"@ {
        Ok(KindView::Url)
    } else if t == "DateTime"@ {
        Ok(KindView::DateTime)
    } else if t == "Pattern"@ {
        Ok(KindView::Pattern)
    } else if t == "JsonString"@ {
        Ok(KindView::JsonString)
    } else if t == "Object"@ {
        Ok(KindView::Object)
    } else if starts_with(t, "Enum("@) && ends_with(t, ")"@) && t.len() >= 6 {
        let inner = t.subrange(5, t.len() - 1);
        if inner.len() == 0 {
            Err("Empty enum choices"@)
        } else {
            Ok(KindView::Enum(list_parts(inner)))
        }
    } else if starts_with(t, "List("@) && ends_with(t, ")"@) && t.len() >= 6 {
        let inner = t.subrange(5, t.len() - 1);
        let parts = list_parts(inner);
        if parts.len() == 0 {
            Err("List requires item type"@)
        } else {
            proof {
                lemma_list_parts_short(inner);
                lemma_trim_len(s);
            }
            match kind_from_text(parts[0]) {
                Ok(item) => Ok(KindView::List(Box::new(item), delim_at(parts, 1))),
                Err(e) => Err(e),
            }
        }
    } else if starts_with(t, "Map("@) && ends_with(t, ")"@) && t.len() >= 5 {
        let inner = t.subrange(4, t.len() - 1);
        let parts = list_parts(inner);
        if parts.len() < 2 {
            Err("Map requires key and value types"@)
        } else {
            proof {
                lemma_list_parts_short(inner);
                lemma_trim_len(s);
            }
            match kind_from_text(parts[0]) {
                Ok(key) => match kind_from_text(parts[1]) {
                    Ok(value) => Ok(
                        KindView::MapOf(Box::new(key), Box::new(value), delim_at(parts, 2), delim_at(parts, 3)),
                    ),
                    Err(e) => Err(e),
                },
                Err(e) => Err(e),
            }
        }
    } else {
        Err("Unknown kind: "@ + s)
    }
}

/// A copy of a list of strings.
pub fn clone_strings(v: &Vec<String>) -> (r: Vec<String>)
    ensures
        r@ == v@,
{
    let mut r: Vec<String> = Vec::new();
    let mut i: usize = 0;
    while i < v.len()
        invariant
            i <= v@.len(),
            r@ == v@.take(i as int),
        decreases v@.len() - i,
    {
        r.push(v[i].clone());
        i = i + 1;
        assert(r@ =~= v@.take(i as int));
    }
    assert(v@.take(v@.len() as int) =~= v@);
    r
}

impl Clone for Kind {
    fn clone(&self) -> (r: Self)
        ensures
            r@ == self@,
        decreases self,
    {
        match self {
            Kind::String => Kind::String,
            Kind::Integer => Kind::Integer,
            Kind::Float => Kind::Float,
            Kind::Boolean => Kind::Boolean,
            Kind::Path => Kind::Path,
            Kind::File => Kind::File,
            Kind::Directory => Kind::Directory,
            Kind::Enum(c) => Kind::Enum(clone_strings(c)),
            Kind::Url => Kind::Url,
            Kind::DateTime => Kind::DateTime,
            Kind::Pattern => Kind::Pattern,
            Kind::List(i, d) => Kind::List(Box::new((**i).clone()), *d),
            Kind::MapOf(a, b, e, kv) => Kind::MapOf(Box::new((**a).clone()), Box::new((**b).clone()), *e, *kv),
            Kind::JsonString => Kind::JsonString,
            Kind::Object => Kind::Object,
        }
    }
}

/// Appends an optional delimiter as `,` followed by it.
fn push_delim(out: &mut String, d: Option<char>)
    ensures
        final(out)@ == old(out)@ + delim_text(d),
{
    match d {
        Some(c) => {
            push_char(out, ',');
            push_char(out, c);
            assert(final(out)@ =~= old(out)@ + delim_text(d));
        },
        None => {
            assert(out@ =~= old(out)@ + delim_text(d));
        },
    }
}

/// Appends the pieces joined with `sep`.
pub fn push_joined(out: &mut String, v: &Vec<String>, sep: &str)
    ensures
        final(out)@ == old(out)@ + join(strs(v@), sep@),
{
    let ghost start = old(out)@;
    let ghost views = strs(v@);
    let mut i: usize = 0;
    while i < v.len()
        invariant
            i <= v@.len(),
            views == strs(v@),
            out@ == start + join(views.take(i as int), sep@),
        decreases v@.len() - i,
    {
        if i > 0 {
            push_str(out, sep);
        }
        push_str(out, v[i].as_str());
        i = i + 1;
        proof {
            let t = views.take(i as int);
            assert(t.drop_last() =~= views.take(i - 1));
            assert(t.last() == v@[i - 1]@);
            if i == 1 {
                assert(t =~= seq![t.last()]);
                assert(views.take(0) =~= Seq::<Seq<char>>::empty());
            }
            assert(out@ =~= start + join(t, sep@));
        }
    }
    assert(views.take(v@.len() as int) =~= views);
}

impl Kind {
    /// Appends the textual form of this kind.
    pub fn push_text(&self, out: &mut String)
        ensures
            final(out)@ == old(out)@ + kind_text(self@),
        decreases self,
    {
        let ghost start = old(out)@;
        match self {
            Kind::String => push_str(out, "String"),
            Kind::Integer => push_str(out, "Integer"),
            Kind::Float => push_str(out, "Float"),
            Kind::Boolean => push_str(out, "Boolean"),
            Kind::Path => push_str(out, "Path"),
            Kind::File => push_str(out, "File"),
            Kind::Directory => push_str(out, "Directory"),
            Kind::Url => push_str(out, "Url"),
            Kind::DateTime => push_str(out, "DateTime"),
            Kind::Pattern => push_str(out, "Pattern"),
            Kind::JsonString => push_str(out, "JsonString"),
            Kind::Object => push_str(out, "Object"),
            Kind::Enum(c) => {
                push_str(out, "Enum(");
                push_joined(out, c, ",");
                push_str(out, ")");
                proof {
                    reveal_strlit(",");
                    assert(","@ =~= seq![',']);
                    assert(out@ =~= start + kind_text(self@));
                }
            },
            Kind::List(i, d) => {
                push_str(out, "List(");
                (**i).push_text(out);
                push_delim(out, *d);
                push_str(out, ")");
                assert(out@ =~= start + kind_text(self@));
            },
            Kind::MapOf(a, b, e, kv) => {
                push_str(out, "Map(");
                (**a).push_text(out);
                push_char(out, ',');
                (**b).push_text(out);
                push_str(out, ")");
                push_delim(out, *e);
                push_delim(out, *kv);
                assert(out@ =~= start + kind_text(self@));
            },
        }
    }

    /// The textual form of this kind, such as `List(Integer,;)`.
    pub fn to_text(&self) -> (r: String)
        ensures
            r@ == kind_text(self@),
    {
        let mut out = String::new();
        self.push_text(&mut out);
        assert(out@ =~= kind_text(self@));
        out
    }

    /// Appends the `Debug` form of this kind.
    pub fn push_debug(&self, out: &mut String)
        ensures
            final(out)@ == old(out)@ + kind_debug(self@),
        decreases self,
    {
        let ghost start = old(out)@;
        match self {
            Kind::Enum(c) => {
                push_str(out, "Enum(");
                push_strings_debug(out, c);
                push_str(out, ")");
                assert(out@ =~= start + kind_debug(self@));
            },
            Kind::List(i, d) => {
                push_str(out, "List(");
                (**i).push_debug(out);
                push_str(out, ", ");
                push_opt_char_debug(out, *d);
                push_str(out, ")");
                assert(out@ =~= start + kind_debug(self@));
            },
            Kind::MapOf(a, b, e, kv) => {
                push_str(out, "Map(");
                (**a).push_debug(out);
                push_str(out, ", ");
                (**b).push_debug(out);
                push_str(out, ", ");
                push_opt_char_debug(out, *e);
                push_str(out, ", ");
                push_opt_char_debug(out, *kv);
                push_str(out, ")");
                assert(out@ =~= start + kind_debug(self@));
            },
            _ => {
                self.push_text(out);
            },
        }
    }

    /// The `Debug` form of this kind, such as `List(Integer, Some(';'))`.
    pub fn to_debug_text(&self) -> (r: String)
        ensures
            r@ == kind_debug(self@),
    {
        let mut out = String::new();
        self.push_debug(&mut out);
        assert(out@ =~= kind_debug(self@));
        out
    }

    /// Whether this is `Kind::String`.
    pub fn is_string(&self) -> (r: bool)
        ensures
            r == (self@ is String),
    {
        match self {
            Kind::String => true,
            _ => false,
        }
    }

    /// Whether this is a `Kind::List`.
    pub fn is_list(&self) -> (r: bool)
        ensures
            r == (self@ is List),
    {
        match self {
            Kind::List(_, _) => true,
            _ => false,
        }
    }

    /// Reads the kind that a text names.
    ///
    /// Rejects, with `Error::Registration`, an `Enum()` without choices, a
    /// `List()` without an item kind, a `Map` with fewer than two element
    /// kinds, and any other unknown name.
    pub fn parse(s: &str) -> (r: Result<Kind, Error>)
        ensures
            r matches Ok(k) ==> kind_from_text(s@) == Ok::<KindView, Seq<char>>(k@),
            r matches Err(e) ==> e matches Error::Registration(m) && kind_from_text(s@) == Err::<KindView, Seq<char>>(m@),
    {
        let v = chars_of(s);
        parse_chars(&v)
    }
}

/// The trimmed, non-empty comma-separated pieces of `inner`.
fn list_parts_exec(inner: &Vec<char>) -> (r: Vec<Vec<char>>)
    ensures
        r@.map_values(|p: Vec<char>| p@) == list_parts(inner@),
{
    let pieces = split_exec(inner, ',');
    let ghost pv = pieces@.map_values(|p: Vec<char>| p@);
    let mut r: Vec<Vec<char>> = Vec::new();
    let mut i: usize = 0;
    while i < pieces.len()
        invariant
            i <= pieces@.len(),
            pv == pieces@.map_values(|p: Vec<char>| p@),
            pv == split_on(inner@, ','),
            r@.map_values(|p: Vec<char>| p@) == clean_parts(pv.take(i as int)),
        decreases pieces@.len() - i,
    {
        let t = trim_exec(&pieces[i]);
        let ghost before = r@.map_values(|p: Vec<char>| p@);
        proof {
            let tk = pv.take(i as int + 1);
            assert(tk.drop_last() =~= pv.take(i as int));
            assert(tk.last() == pieces@[i as int]@);
        }
        if t.len() > 0 {
            r.push(t);
            assert(r@.map_values(|p: Vec<char>| p@) =~= before.push(t@));
        }
        i = i + 1;
    }
    assert(pv.take(pieces@.len() as int) =~= pv);
    r
}

fn delim_at_exec(parts: &Vec<Vec<char>>, idx: usize) -> (r: Option<char>)
    ensures
        r == delim_at(parts@.map_values(|p: Vec<char>| p@), idx as int),
{
    if parts.len() > idx && parts[idx].len() > 0 {
        Some(parts[idx][0])
    } else {
        None
    }
}

fn registration(msg: &str) -> (e: Error)
    ensures
        e matches Error::Registration(m) && m@ == msg@,
{
    Error::Registration(owned(msg))
}

fn parse_chars(s: &Vec<char>) -> (r: Result<Kind, Error>)
    ensures
        r matches Ok(k) ==> kind_from_text(s@) == Ok::<KindView, Seq<char>>(k@),
        r matches Err(e) ==> e matches Error::Registration(m) && kind_from_text(s@) == Err::<KindView, Seq<char>>(m@),
    decreases s@.len(),
{
    let t = trim_exec(s);
    proof {
        reveal_strlit("Enum(");
        reveal_strlit("List(");
        reveal_strlit("Map(");
        reveal_strlit(")");
    }
    if chars_eq_str(&t, "String") {
        return Ok(Kind::String);
    }
    if chars_eq_str(&t, "Integer") {
        return Ok(Kind::Integer);
    }
    if chars_eq_str(&t, "Float") {
        return Ok(Kind::Float);
    }
    if chars_eq_str(&t, "Boolean") {
        return Ok(Kind::Boolean);
    }
    if chars_eq_str(&t, "Path") {
        return Ok(Kind::Path);
    }
    if chars_eq_str(&t, "File") {
        return Ok(Kind::File);
    }
    if chars_eq_str(&t, "Directory") {
        return Ok(Kind::Directory);
    }
    if chars_eq_str(&t, "Url") {
        return Ok(Kind::Url);
    }
    if chars_eq_str(&t, "DateTime") {
        return Ok(Kind::DateTime);
    }
    if chars_eq_str(&t, "Pattern") {
        return Ok(Kind::Pattern);
    }
    if chars_eq_str(&t, "JsonString") {
        return Ok(Kind::JsonString);
    }
    if chars_eq_str(&t, "Object") {
        return Ok(Kind::Object);
    }
    let close = chars_of(")");
    let ends_close = ends_with_exec(&t, &close);
    let enum_open = chars_of("Enum(");
    if starts_with_exec(&t, &enum_open) && ends_close && t.len() >= 6 {
        let inner = subvec(&t, 5, t.len() - 1);
        if inner.len() == 0 {
            return Err(registration("Empty enum choices"));
        }
        let parts = list_parts_exec(&inner);
        let mut choices: Vec<String> = Vec::new();
        let mut i: usize = 0;
        while i < parts.len()
            invariant
                i <= parts@.len(),
                strs(choices@) == parts@.map_values(|p: Vec<char>| p@).take(i as int),
            decreases parts@.len() - i,
        {
            let c = crate::text::string_of(&parts[i]);
            let ghost before = choices@;
            let ghost cv = c@;
            choices.push(c);
            assert(strs(choices@) =~= strs(before).push(cv));
            i = i + 1;
            assert(strs(choices@) =~= parts@.map_values(|p: Vec<char>| p@).take(i as int));
        }
        assert(parts@.map_values(|p: Vec<char>| p@).take(parts@.len() as int) =~= parts@.map_values(|p: Vec<char>| p@));
        return Ok(Kind::Enum(choices));
    }
    let list_open = chars_of("List(");
    if starts_with_exec(&t, &list_open) && ends_close && t.len() >= 6 {
        let inner = subvec(&t, 5, t.len() - 1);
        let parts = list_parts_exec(&inner);
        if parts.len() == 0 {
            return Err(registration("List requires item type"));
        }
        proof {
            lemma_list_parts_short(inner@);
            lemma_trim_len(s@);
            assert(parts@.map_values(|p: Vec<char>| p@)[0] == parts@[0]@);
        }
        let item = parse_chars(&parts[0])?;
        let d = delim_at_exec(&parts, 1);
        return Ok(Kind::List(Box::new(item), d));
    }
    let map_open = chars_of("Map(");
    if starts_with_exec(&t, &map_open) && ends_close && t.len() >= 5 {
        let inner = subvec(&t, 4, t.len() - 1);
        let parts = list_parts_exec(&inner);
        if parts.len() < 2 {
            return Err(registration("Map requires key and value types"));
        }
        proof {
            lemma_list_parts_short(inner@);
            lemma_trim_len(s@);
            assert(parts@.map_values(|p: Vec<char>| p@)[0] == parts@[0]@);
            assert(parts@.map_values(|p: Vec<char>| p@)[1] == parts@[1]@);
        }
        let key = parse_chars(&parts[0])?;
        let value = parse_chars(&parts[1])?;
        let e = delim_at_exec(&parts, 2);
        let kv = delim_at_exec(&parts, 3);
        return Ok(Kind::MapOf(Box::new(key), Box::new(value), e, kv));
    }
    let mut m = owned("Unknown kind: ");
    push_chars(&mut m, s);
    Err(Error::Registration(m))
}

/// A kind without parameters.
pub open spec fn is_plain_kind(k: KindView) -> bool {
    !(k is Enum) && !(k is List) && !(k is MapOf)
}

/// The text of a kind without parameters reads back as that kind.
pub proof fn lemma_plain_kind_text_roundtrip(k: KindView)
    requires
        is_plain_kind(k),
    ensures
        kind_from_text(kind_text(k)) == Ok::<KindView, Seq<char>>(k),
{
    reveal_strlit("String");
    reveal_strlit("Integer");
    reveal_strlit("Float");
    reveal_strlit("Boolean");
    reveal_strlit("Path");
    reveal_strlit("File");
    reveal_strlit("Directory");
    reveal_strlit("Url");
    reveal_strlit("DateTime");
    reveal_strlit("Pattern");
    reveal_strlit("JsonString");
    reveal_strlit("Object");
    let t = kind_text(k);
    assert(t.len() > 0);
    assert(!is_ws(t[0]) && !is_ws(t.last()));
    crate::text::lemma_trim_noop(t);
}

/// The facts about a plain kind's text that parsing relies on: it is not
/// empty, holds no comma and no white space.
proof fn lemma_plain_kind_text_shape(k: KindView)
    requires
        is_plain_kind(k),
    ensures
        kind_text(k).len() > 0,
        !kind_text(k).contains(','),
        forall|i: int| 0 <= i < kind_text(k).len() ==> !is_ws(#[trigger] kind_text(k)[i]),
{
    reveal_strlit("String");
    reveal_strlit("Integer");
    reveal_strlit("Float");
    reveal_strlit("Boolean");
    reveal_strlit("Path");
    reveal_strlit("File");
    reveal_strlit("Directory");
    reveal_strlit("Url");
    reveal_strlit("DateTime");
    reveal_strlit("Pattern");
    reveal_strlit("JsonString");
    reveal_strlit("Object");
}

/// `clean_parts` keeps pieces that are not empty and have no white space
/// at their ends as they are.
proof fn lemma_clean_parts_keep(ps: Seq<Seq<char>>)
    requires
        forall|i: int| 0 <= i < ps.len() ==> (#[trigger] ps[i]).len() > 0 && !is_ws(ps[i][0]) && !is_ws(ps[i].last()),
    ensures
        clean_parts(ps) == ps,
    decreases ps.len(),
{
    if ps.len() > 0 {
        let init = ps.drop_last();
        assert forall|i: int| 0 <= i < init.len() implies (#[trigger] init[i]).len() > 0 && !is_ws(init[i][0]) && !is_ws(init[i].last()) by {
            assert(init[i] == ps[i]);
        }
        lemma_clean_parts_keep(init);
        assert(ps.last() == ps[ps.len() - 1]);
        crate::text::lemma_trim_noop(ps.last());
        assert(init.push(ps.last()) =~= ps);
    }
}

/// The text of `Map(key, value)`, for plain key and value kinds and no
/// delimiters, reads back as that map: the key kind from the first piece
/// and the value kind from the second.
pub proof fn lemma_map_kind_text_roundtrip(key: KindView, value: KindView)
    requires
        is_plain_kind(key),
        is_plain_kind(value),
    ensures
        kind_from_text(kind_text(KindView::MapOf(Box::new(key), Box::new(value), None, None)))
            == Ok::<KindView, Seq<char>>(KindView::MapOf(Box::new(key), Box::new(value), None, None)),
{
    let m = KindView::MapOf(Box::new(key), Box::new(value), None, None);
    let kt = kind_text(key);
    let vt = kind_text(value);
    lemma_plain_kind_text_shape(key);
    lemma_plain_kind_text_shape(value);
    lemma_plain_kind_text_roundtrip(key);
    lemma_plain_kind_text_roundtrip(value);
    reveal_strlit("Map(");
    reveal_strlit(")");
    let t = kind_text(m);
    assert(t =~= "Map("@ + kt + seq![','] + vt + ")"@);
    assert(t[0] == 'M' && t.last() == ')');
    crate::text::lemma_trim_noop(t);
    let inner = t.subrange(4, t.len() - 1);
    assert(inner =~= kt + seq![','] + vt);
    crate::text::lemma_split_append_sep(kt, vt, ',');
    crate::text::lemma_split_without_sep(kt, ',');
    crate::text::lemma_split_without_sep(vt, ',');
    let ps = seq![kt, vt];
    assert(split_on(inner, ',') =~= ps);
    assert(!is_ws(kt[0]) && !is_ws(kt[kt.len() - 1]));
    assert(!is_ws(vt[0]) && !is_ws(vt[vt.len() - 1]));
    lemma_clean_parts_keep(ps);
    assert(list_parts(inner) == ps);
    reveal_strlit("String");
    reveal_strlit("Integer");
    reveal_strlit("Float");
    reveal_strlit("Boolean");
    reveal_strlit("Path");
    reveal_strlit("File");
    reveal_strlit("Directory");
    reveal_strlit("Url");
    reveal_strlit("DateTime");
    reveal_strlit("Pattern");
    reveal_strlit("JsonString");
    reveal_strlit("Object");
    reveal_strlit("Enum(");
    reveal_strlit("List(");
    assert(starts_with(t, "Map("@)) by {
        assert(t.take(4) =~= "Map("@);
    }
    assert(ends_with(t, ")"@)) by {
        assert(t.skip(t.len() - 1) =~= ")"@);
    }
    assert(!starts_with(t, "Enum("@)) by {
        assert(t.take(5)[0] == 'M');
    }
    assert(!starts_with(t, "List("@)) by {
        assert(t.take(5)[0] == 'M');
    }
}

/// The text of `List(item)` or `List(item,d)`, for a plain item kind and a
/// delimiter that is neither a comma nor white space, reads back as that
/// list.
pub proof fn lemma_list_kind_text_roundtrip(item: KindView, d: Option<char>)
    requires
        is_plain_kind(item),
        d matches Some(c) ==> c != ',' && !is_ws(c),
    ensures
        kind_from_text(kind_text(KindView::List(Box::new(item), d)))
            == Ok::<KindView, Seq<char>>(KindView::List(Box::new(item), d)),
{
    let l = KindView::List(Box::new(item), d);
    let it = kind_text(item);
    lemma_plain_kind_text_shape(item);
    lemma_plain_kind_text_roundtrip(item);
    reveal_strlit("List(");
    reveal_strlit(")");
    let t = kind_text(l);
    assert(t =~= "List("@ + it + delim_text(d) + ")"@);
    assert(t[0] == 'L' && t.last() == ')');
    crate::text::lemma_trim_noop(t);
    let inner = t.subrange(5, t.len() - 1);
    assert(inner =~= it + delim_text(d));
    crate::text::lemma_split_without_sep(it, ',');
    let ps = match d {
        Some(c) => seq![it, seq![c]],
        None => seq![it],
    };
    match d {
        Some(c) => {
            assert(inner =~= it + seq![','] + seq![c]);
            crate::text::lemma_split_append_sep(it, seq![c], ',');
            assert(!seq![c].contains(',')) by {
                if seq![c].contains(',') {
                    let k = choose|k: int| 0 <= k < 1 && seq![c][k] == ',';
                }
            }
            crate::text::lemma_split_without_sep(seq![c], ',');
            assert(split_on(inner, ',') =~= ps);
            assert(seq![c].last() == c);
        },
        None => {
            assert(inner =~= it);
            assert(split_on(inner, ',') =~= ps);
        },
    }
    assert(!is_ws(it[0]) && !is_ws(it[it.len() - 1]));
    lemma_clean_parts_keep(ps);
    assert(list_parts(inner) == ps);
    reveal_strlit("String");
    reveal_strlit("Integer");
    reveal_strlit("Float");
    reveal_strlit("Boolean");
    reveal_strlit("Path");
    reveal_strlit("File");
    reveal_strlit("Directory");
    reveal_strlit("Url");
    reveal_strlit("DateTime");
    reveal_strlit("Pattern");
    reveal_strlit("JsonString");
    reveal_strlit("Object");
    reveal_strlit("Enum(");
    assert(starts_with(t, "List("@)) by {
        assert(t.take(5) =~= "List("@);
    }
    assert(ends_with(t, ")"@)) by {
        assert(t.skip(t.len() - 1) =~= ")"@);
    }
    assert(!starts_with(t, "Enum("@)) by {
        assert(t.take(5)[0] == 'L');
    }
}

/// The text of `Enum(choices)` reads back as those choices, when there is
/// at least one and each is non-empty, holds no comma and has no white
/// space at its ends.
pub proof fn lemma_enum_kind_text_roundtrip(choices: Seq<Seq<char>>)
    requires
        choices.len() >= 1,
        forall|i: int| 0 <= i < choices.len() ==> (#[trigger] choices[i]).len() > 0 && !choices[i].contains(',')
            && !is_ws(choices[i][0]) && !is_ws(choices[i].last()),
    ensures
        kind_from_text(kind_text(KindView::Enum(choices))) == Ok::<KindView, Seq<char>>(KindView::Enum(choices)),
{
    reveal_strlit("Enum(");
    reveal_strlit(")");
    let inner = join(choices, seq![',']);
    let t = kind_text(KindView::Enum(choices));
    assert(t =~= "Enum("@ + inner + ")"@);
    assert(t[0] == 'E' && t.last() == ')');
    crate::text::lemma_trim_noop(t);
    assert(t.subrange(5, t.len() - 1) =~= inner);
    crate::text::lemma_split_join(choices, ',');
    lemma_clean_parts_keep(choices);
    assert(list_parts(inner) == choices);
    assert(inner.len() > 0) by {
        crate::text::lemma_split_nonempty(inner, ',');
        if inner.len() == 0 {
            assert(split_on(inner, ',') =~= seq![Seq::<char>::empty()]);
            assert(choices[0].len() == 0);
        }
    }
    reveal_strlit("String");
    reveal_strlit("Integer");
    reveal_strlit("Float");
    reveal_strlit("Boolean");
    reveal_strlit("Path");
    reveal_strlit("File");
    reveal_strlit("Directory");
    reveal_strlit("Url");
    reveal_strlit("DateTime");
    reveal_strlit("Pattern");
    reveal_strlit("JsonString");
    reveal_strlit("Object");
    assert(starts_with(t, "Enum("@)) by {
        assert(t.take(5) =~= "Enum("@);
    }
    assert(ends_with(t, ")"@)) by {
        assert(t.skip(t.len() - 1) =~= ")"@);
    }
}

/// A map written with both delimiters, `Map(key,value,e,kv)`, for plain key
/// and value kinds and delimiters that are neither commas nor white space,
/// reads as that map: key kind, value kind, entry delimiter `e` and
/// key-value delimiter `kv`, in that order.
pub proof fn lemma_map_with_delimiters_text(key: KindView, value: KindView, e: char, kv: char)
    requires
        is_plain_kind(key),
        is_plain_kind(value),
        e != ',' && !is_ws(e),
        kv != ',' && !is_ws(kv),
    ensures
        kind_from_text("Map("@ + kind_text(key) + seq![','] + kind_text(value) + seq![',', e, ',', kv] + ")"@)
            == Ok::<KindView, Seq<char>>(KindView::MapOf(Box::new(key), Box::new(value), Some(e), Some(kv))),
{
    let kt = kind_text(key);
    let vt = kind_text(value);
    lemma_plain_kind_text_shape(key);
    lemma_plain_kind_text_shape(value);
    lemma_plain_kind_text_roundtrip(key);
    lemma_plain_kind_text_roundtrip(value);
    reveal_strlit("Map(");
    reveal_strlit(")");
    let t = "Map("@ + kt + seq![','] + vt + seq![',', e, ',', kv] + ")"@;
    assert(t[0] == 'M' && t.last() == ')');
    crate::text::lemma_trim_noop(t);
    let inner = t.subrange(4, t.len() - 1);
    let ps = seq![kt, vt, seq![e], seq![kv]];
    assert(inner =~= join(ps, seq![','])) by {
        reveal_with_fuel(join, 5);
        assert(ps.drop_last().drop_last().drop_last() =~= seq![kt]);
        assert(ps.drop_last().drop_last() =~= seq![kt, vt]);
        assert(ps.drop_last() =~= seq![kt, vt, seq![e]]);
    }
    assert forall|i: int| 0 <= i < ps.len() implies !(#[trigger] ps[i]).contains(',') by {
        if i == 2 {
            if seq![e].contains(',') {
                let k = choose|k: int| 0 <= k < 1 && seq![e][k] == ',';
            }
        }
        if i == 3 {
            if seq![kv].contains(',') {
                let k = choose|k: int| 0 <= k < 1 && seq![kv][k] == ',';
            }
        }
    }
    crate::text::lemma_split_join(ps, ',');
    assert(!is_ws(kt[0]) && !is_ws(kt[kt.len() - 1]));
    assert(!is_ws(vt[0]) && !is_ws(vt[vt.len() - 1]));
    assert(seq![e].last() == e && seq![kv].last() == kv);
    lemma_clean_parts_keep(ps);
    assert(list_parts(inner) == ps);
    reveal_strlit("String");
    reveal_strlit("Integer");
    reveal_strlit("Float");
    reveal_strlit("Boolean");
    reveal_strlit("Path");
    reveal_strlit("File");
    reveal_strlit("Directory");
    reveal_strlit("Url");
    reveal_strlit("DateTime");
    reveal_strlit("Pattern");
    reveal_strlit("JsonString");
    reveal_strlit("Object");
    reveal_strlit("Enum(");
    reveal_strlit("List(");
    assert(starts_with(t, "Map("@)) by {
        assert(t.take(4) =~= "Map("@);
    }
    assert(ends_with(t, ")"@)) by {
        assert(t.skip(t.len() - 1) =~= ")"@);
    }
    assert(!starts_with(t, "Enum("@)) by {
        assert(t.take(5)[0] == 'M');
    }
    assert(!starts_with(t, "List("@)) by {
        assert(t.take(5)[0] == 'M');
    }
}

impl core::str::FromStr for Kind {
    type Err = Error;

    fn from_str(s: &str) -> Result<Kind, Error> {
        Kind::parse(s)
    }
}

} // verus!
