//! A bounded cache of interned strings, such as command names built from
//! their path segments. The cache keeps each string once, ordered from the
//! least recently used to the most recently used, and drops the least
//! recently used when it grows past its limit.

use vstd::prelude::*;
use crate::text::{ owned, push_str, chars_of, str_eq, join, utf8_len };

verus! {

broadcast use vstd::string::group_string_axioms;

/// The number of strings a cache holds unless told otherwise.
pub const DEFAULT_CACHE_SIZE_LIMIT: usize = 10000;

/// Interned strings, least recently used first, with the number it may hold.
#[derive(Debug)]
pub struct StringInterner {
    cache: Vec<&'static str>,
    size_limit: usize,
}

/// Figures about a cache.
#[derive(Debug, Clone)]
pub struct InternerStats {
    /// Strings held.
    pub cached_strings: usize,
    /// Strings it may hold.
    pub size_limit: usize,
    /// Bytes of the held strings, counting each as key and as value.
    pub memory_usage_estimate: usize,
}

/// The cache after `s` is interned: when it holds `s`, that entry moves to
/// the back as the most recently used; else `s` is appended and the least
/// recently used strings beyond the limit are dropped.
pub open spec fn interned_into(cache: Seq<Seq<char>>, limit: nat, s: Seq<char>) -> Seq<Seq<char>> {
    if cache.contains(s) {
        cache.remove(cache.index_of(s)).push(s)
    } else {
        let grown = cache.push(s);
        if grown.len() > limit { grown.skip(grown.len() - limit) } else { grown }
    }
}

/// The bytes of the strings, in UTF-8.
pub open spec fn bytes_total(cache: Seq<Seq<char>>) -> nat
    decreases cache.len(),
{
    if cache.len() == 0 {
        0
    } else {
        bytes_total(cache.drop_last()) + utf8_len(cache.last()) as nat
    }
}

/// The command name of path segments: `.` followed by the segments joined
/// with `.`, a leading empty segment dropped when more follow; `.` alone
/// for no segments.
pub open spec fn command_name_of(segments: Seq<Seq<char>>) -> Seq<char> {
    if segments.len() == 0 {
        "."@
    } else {
        let effective = if segments[0].len() == 0 && segments.len() > 1 { segments.drop_first() } else { segments };
        "."@ + join(effective, "."@)
    }
}

/// `Box::leak` (std) of a string's boxed form: a reference to the same
/// text that lives for the rest of the process.
#[verifier::external_body]
fn leak_text(s: String) -> (r: &'static str)
    ensures
        r@ == s@,
{
    Box::leak(s.into_boxed_str())
}

impl StringInterner {
    /// The held strings, least recently used first.
    pub closed spec fn cache_view(&self) -> Seq<Seq<char>> {
        self.cache@.map_values(|s: &'static str| s@)
    }

    /// The number of strings it may hold.
    pub closed spec fn limit(&self) -> nat {
        self.size_limit as nat
    }

    /// Each string is held once, and no more than the limit.
    pub open spec fn wf(&self) -> bool {
        &&& self.cache_view().no_duplicates()
        &&& self.cache_view().len() <= self.limit()
    }

    /// An empty cache with the default limit.
    pub fn new() -> (r: Self)
        ensures
            r.wf(),
            r.cache_view().len() == 0,
            r.limit() == DEFAULT_CACHE_SIZE_LIMIT,
    {
        Self::with_capacity(DEFAULT_CACHE_SIZE_LIMIT)
    }

    /// An empty cache that holds at most `size_limit` strings.
    pub fn with_capacity(size_limit: usize) -> (r: Self)
        ensures
            r.wf(),
            r.cache_view().len() == 0,
            r.limit() == size_limit,
    {
        let r = StringInterner { cache: Vec::new(), size_limit };
        assert(r.cache_view() =~= Seq::<Seq<char>>::empty());
        r
    }

    /// Interns `s`, returning a reference to its text that lives for the
    /// rest of the process: the held one when the cache holds `s`, so that
    /// repeated interning shares one allocation; see `interned_into`.
    pub fn intern(&mut self, s: &str) -> (r: &'static str)
        requires
            old(self).wf(),
        ensures
            r@ == s@,
            final(self).wf(),
            final(self).limit() == old(self).limit(),
            final(self).cache_view() == interned_into(old(self).cache_view(), old(self).limit(), s@),
    {
        let ghost cv = self.cache_view();
        let mut i: usize = 0;
        while i < self.cache.len()
            invariant
                i <= self.cache@.len(),
                cv == self.cache_view(),
                cv == old(self).cache_view(),
                self.limit() == old(self).limit(),
                self.wf(),
                forall|j: int| 0 <= j < i ==> cv[j] != s@,
            decreases self.cache@.len() - i,
        {
            if str_eq(self.cache[i], s) {
                proof {
                    lemma_index_of_unique(cv, i as int, s@);
                }
                let held = self.cache.remove(i);
                self.cache.push(held);
                proof {
                    assert(self.cache_view() =~= cv.remove(i as int).push(s@));
                    lemma_interned_no_duplicates(cv, self.limit(), s@);
                }
                return held;
            }
            i = i + 1;
        }
        assert(!cv.contains(s@));
        let fresh = leak_text(owned(s));
        self.cache.push(fresh);
        let ghost grown = cv.push(s@);
        assert(self.cache_view() =~= grown);
        proof {
            lemma_interned_no_duplicates(cv, self.limit(), s@);
        }
        if self.cache.len() > self.size_limit {
            let drop = self.cache.len() - self.size_limit;
            let mut kept: Vec<&'static str> = Vec::new();
            let mut k: usize = drop;
            while k < self.cache.len()
                invariant
                    drop <= k <= self.cache@.len(),
                    drop == self.cache@.len() - self.size_limit,
                    self.cache_view() == grown,
                    kept@.map_values(|t: &'static str| t@) == grown.subrange(drop as int, k as int),
                decreases self.cache@.len() - k,
            {
                let ghost before = kept@.map_values(|t: &'static str| t@);
                let c = self.cache[k];
                assert(c@ == grown[k as int]);
                kept.push(c);
                k = k + 1;
                assert(kept@.map_values(|t: &'static str| t@) =~= before.push(grown[k as int - 1]));
                assert(grown.subrange(drop as int, k as int) =~= grown.subrange(drop as int, k as int - 1).push(
                    grown[k as int - 1]));
            }
            self.cache = kept;
            assert(self.cache_view() =~= grown.skip(drop as int));
        }
        fresh
    }

    /// Interns the command name of the path segments; see `command_name_of`.
    pub fn intern_command_name(&mut self, path_slices: &[&str]) -> (r: &'static str)
        requires
            old(self).wf(),
        ensures
            r@ == command_name_of(path_slices@.map_values(|p: &str| p@)),
            final(self).wf(),
            final(self).limit() == old(self).limit(),
            final(self).cache_view() == interned_into(
                old(self).cache_view(),
                old(self).limit(),
                command_name_of(path_slices@.map_values(|p: &str| p@)),
            ),
    {
        let ghost segs = path_slices@.map_values(|p: &str| p@);
        if path_slices.len() == 0 {
            return self.intern(".");
        }
        let start: usize = if chars_of(path_slices[0]).len() == 0 && path_slices.len() > 1 { 1 } else { 0 };
        let ghost eff = segs.skip(start as int);
        assert(start == 1 ==> eff =~= segs.drop_first());
        assert(start == 0 ==> eff =~= segs);
        let mut name = owned(".");
        let ghost head = name@;
        let mut i: usize = start;
        while i < path_slices.len()
            invariant
                start <= i <= path_slices@.len(),
                start <= 1,
                segs == path_slices@.map_values(|p: &str| p@),
                eff == segs.skip(start as int),
                name@ == head + join(eff.take(i - start), "."@),
            decreases path_slices@.len() - i,
        {
            if i > start {
                push_str(&mut name, ".");
            }
            push_str(&mut name, path_slices[i]);
            i = i + 1;
            proof {
                let t = eff.take(i - start);
                assert(t.drop_last() =~= eff.take(i - 1 - start));
                assert(t.last() == path_slices@[i - 1]@);
                if i - start == 1 {
                    assert(t =~= seq![t.last()]);
                    assert(eff.take(0) =~= Seq::<Seq<char>>::empty());
                }
                assert(name@ =~= head + join(t, "."@));
            }
        }
        assert(eff.take(path_slices@.len() - start) =~= eff);
        self.intern(name.as_str())
    }

    /// The number of held strings, the limit, and the bytes of the held
    /// strings counted twice (as key and as value). The byte count must
    /// fit in a `usize`.
    pub fn stats(&self) -> (r: InternerStats)
        requires
            2 * bytes_total(self.cache_view()) <= usize::MAX,
        ensures
            r.cached_strings == self.cache_view().len(),
            r.size_limit == self.limit(),
            r.memory_usage_estimate == 2 * bytes_total(self.cache_view()),
            self.wf() ==> r.cached_strings <= r.size_limit,
    {
        let ghost cv = self.cache_view();
        let mut total: usize = 0;
        let mut i: usize = 0;
        while i < self.cache.len()
            invariant
                i <= self.cache@.len(),
                cv == self.cache_view(),
                2 * bytes_total(cv) <= usize::MAX,
                total == 2 * bytes_total(cv.take(i as int)),
            decreases self.cache@.len() - i,
        {
            proof {
                assert(cv.take(i as int + 1).drop_last() =~= cv.take(i as int));
                lemma_bytes_total_prefix(cv, i as int + 1);
            }
            let n = self.cache[i].len();
            assert(n == utf8_len(cv[i as int]));
            total = total + n + n;
            i = i + 1;
        }
        assert(cv.take(self.cache@.len() as int) =~= cv);
        InternerStats { cached_strings: self.cache.len(), size_limit: self.size_limit, memory_usage_estimate: total }
    }

    /// Drops every held string; the limit stays.
    pub fn clear(&mut self)
        ensures
            final(self).wf(),
            final(self).cache_view().len() == 0,
            final(self).limit() == old(self).limit(),
    {
        self.cache = Vec::new();
        assert(self.cache_view() =~= Seq::<Seq<char>>::empty());
    }
}

/// In a cache that holds each string once, `index_of` finds the one place
/// of a held string.
proof fn lemma_index_of_unique(cache: Seq<Seq<char>>, i: int, s: Seq<char>)
    requires
        cache.no_duplicates(),
        0 <= i < cache.len(),
        cache[i] == s,
    ensures
        cache.contains(s),
        cache.index_of(s) == i,
{
    assert(cache.contains(s));
    let j = cache.index_of(s);
    assert(0 <= j < cache.len() && cache[j] == s);
}

/// The cache after interning holds each string once when the cache before
/// did.
proof fn lemma_interned_no_duplicates(cache: Seq<Seq<char>>, limit: nat, s: Seq<char>)
    requires
        cache.no_duplicates(),
    ensures
        interned_into(cache, limit, s).no_duplicates(),
{
    if cache.contains(s) {
        let i = cache.index_of(s);
        let moved = cache.remove(i).push(s);
        assert forall|a: int, b: int| 0 <= a < b < moved.len() implies moved[a] != moved[b] by {
            if b == moved.len() - 1 {
                if a < i {
                    assert(moved[a] == cache[a]);
                } else {
                    assert(moved[a] == cache[a + 1]);
                }
            } else if a < i && b < i {
                assert(moved[a] == cache[a] && moved[b] == cache[b]);
            } else if a < i {
                assert(moved[a] == cache[a] && moved[b] == cache[b + 1]);
            } else {
                assert(moved[a] == cache[a + 1] && moved[b] == cache[b + 1]);
            }
        }
    } else {
        let grown = cache.push(s);
        assert forall|a: int, b: int| 0 <= a < b < grown.len() implies grown[a] != grown[b] by {
            if b == grown.len() - 1 {
                assert(grown[a] == cache[a]);
            }
        }
        if grown.len() > limit {
            let d = grown.len() - limit;
            let r = grown.skip(d);
            assert forall|a: int, b: int| 0 <= a < b < r.len() implies r[a] != r[b] by {
                assert(r[a] == grown[a + d] && r[b] == grown[b + d]);
            }
        }
    }
}

/// Interning makes the string the most recently used entry, as long as
/// the cache may hold at least one string; interning it a second time
/// then changes nothing.
pub proof fn lemma_intern_twice(cache: Seq<Seq<char>>, limit: nat, s: Seq<char>)
    requires
        limit > 0,
        cache.no_duplicates(),
    ensures
        interned_into(cache, limit, s).contains(s),
        interned_into(cache, limit, s).last() == s,
        interned_into(interned_into(cache, limit, s), limit, s) == interned_into(cache, limit, s),
{
    let r = interned_into(cache, limit, s);
    if !cache.contains(s) {
        let grown = cache.push(s);
        if grown.len() > limit {
            assert(r[r.len() - 1] == grown[grown.len() - 1]);
        }
    }
    assert(r[r.len() - 1] == s);
    lemma_interned_no_duplicates(cache, limit, s);
    lemma_index_of_unique(r, r.len() - 1, s);
    assert(r.remove(r.len() - 1).push(s) =~= r);
}

/// A call that changes a cache: interning a string (`intern`, or
/// `intern_command_name` with the command name), or `clear`.
pub enum InternCall {
    Intern(Seq<char>),
    Clear,
}

/// The cache after the calls, in order, starting from `cache`.
pub open spec fn after_calls(cache: Seq<Seq<char>>, limit: nat, calls: Seq<InternCall>) -> Seq<Seq<char>>
    decreases calls.len(),
{
    if calls.len() == 0 {
        cache
    } else {
        let before = after_calls(cache, limit, calls.drop_last());
        match calls.last() {
            InternCall::Intern(s) => interned_into(before, limit, s),
            InternCall::Clear => Seq::<Seq<char>>::empty(),
        }
    }
}

/// Starting from an empty cache, every sequence of calls leaves each string
/// held once and no more strings than the limit; right after `clear` the
/// cache holds nothing and its strings count no bytes.
pub proof fn lemma_calls_stay_within_limit(limit: nat, calls: Seq<InternCall>)
    ensures
        after_calls(Seq::<Seq<char>>::empty(), limit, calls).no_duplicates(),
        after_calls(Seq::<Seq<char>>::empty(), limit, calls).len() <= limit,
        calls.len() > 0 && calls.last() is Clear ==> after_calls(Seq::<Seq<char>>::empty(), limit, calls).len() == 0
            && bytes_total(after_calls(Seq::<Seq<char>>::empty(), limit, calls)) == 0,
    decreases calls.len(),
{
    if calls.len() > 0 {
        lemma_calls_stay_within_limit(limit, calls.drop_last());
        let before = after_calls(Seq::<Seq<char>>::empty(), limit, calls.drop_last());
        match calls.last() {
            InternCall::Intern(s) => {
                lemma_interned_no_duplicates(before, limit, s);
            },
            InternCall::Clear => {},
        }
    }
}

/// The bytes of a prefix are at most those of the whole.
proof fn lemma_bytes_total_prefix(cache: Seq<Seq<char>>, n: int)
    requires
        0 <= n <= cache.len(),
    ensures
        bytes_total(cache.take(n)) <= bytes_total(cache),
    decreases cache.len(),
{
    if n < cache.len() {
        lemma_bytes_total_prefix(cache.drop_last(), n);
        assert(cache.drop_last().take(n) =~= cache.take(n));
    } else {
        assert(cache.take(n) =~= cache);
    }
}

impl Default for StringInterner {
    /// An empty cache with the default limit.
    fn default() -> (r: Self)
        ensures
            r.wf(),
            r.cache_view().len() == 0,
            r.limit() == DEFAULT_CACHE_SIZE_LIMIT,
    {
        StringInterner::new()
    }
}

} // verus!
