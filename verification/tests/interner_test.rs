//! The bounded string cache.

use unilang::interner::{ StringInterner, DEFAULT_CACHE_SIZE_LIMIT };

#[test]
fn intern_returns_same_text_and_caches_once() {
    let mut i = StringInterner::new();
    assert_eq!(i.intern("hello"), "hello");
    assert_eq!(i.intern("hello"), "hello");
    let stats = i.stats();
    assert_eq!(stats.cached_strings, 1);
    assert_eq!(stats.size_limit, DEFAULT_CACHE_SIZE_LIMIT);
    assert_eq!(stats.memory_usage_estimate, 10);
}

#[test]
fn least_recently_used_strings_are_dropped_past_the_limit() {
    let mut i = StringInterner::with_capacity(2);
    i.intern("a");
    i.intern("b");
    i.intern("c");
    assert_eq!(i.stats().cached_strings, 2);
    i.intern("b");
    assert_eq!(i.stats().cached_strings, 2);
    assert_eq!(i.stats().memory_usage_estimate, 4);
}

#[test]
fn a_cache_hit_refreshes_the_entry() {
    let mut i = StringInterner::with_capacity(2);
    i.intern("a");
    i.intern("bb");
    assert_eq!(i.intern("a"), "a");
    i.intern("ccc");
    let stats = i.stats();
    assert_eq!(stats.cached_strings, 2);
    // "bb" was the least recently used and left; "a" and "ccc" stay.
    assert_eq!(stats.memory_usage_estimate, 8);
}

#[test]
fn a_cached_string_is_shared() {
    let mut i = StringInterner::with_capacity(2);
    let first = i.intern("shared");
    let again = i.intern("shared");
    assert!(std::ptr::eq(first, again));
    i.intern("b");
    i.intern("shared");
    i.intern("c");
    // "shared" was used more recently than "b", so it stays cached.
    assert!(std::ptr::eq(first, i.intern("shared")));
    assert_eq!(i.intern_command_name(&["x", "y"]), ".x.y");
}

#[test]
fn zero_limit_holds_nothing() {
    let mut i = StringInterner::with_capacity(0);
    assert_eq!(i.intern("x"), "x");
    assert_eq!(i.stats().cached_strings, 0);
}

#[test]
fn command_names_from_segments() {
    let mut i = StringInterner::new();
    assert_eq!(i.intern_command_name(&[]), ".");
    assert_eq!(i.intern_command_name(&["command", "sub"]), ".command.sub");
    assert_eq!(i.intern_command_name(&["", "command", "sub"]), ".command.sub");
    assert_eq!(i.intern_command_name(&[""]), ".");
    assert_eq!(i.intern_command_name(&["solo"]), ".solo");
}

#[test]
fn clear_empties_cache() {
    let mut i = StringInterner::with_capacity(5);
    i.intern("a");
    i.intern("é");
    assert_eq!(i.stats().memory_usage_estimate, 6);
    i.clear();
    assert_eq!(i.stats().cached_strings, 0);
    assert_eq!(i.stats().size_limit, 5);
}
