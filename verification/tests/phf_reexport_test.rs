//! The perfect-hash crate is reachable through the library, and maps and
//! sets built with its types behave as generated command tables expect.

use phf_shared::PhfHash;

/// Builds a map over the given entries the way the code generator lays one
/// out: hash state from the generator, entries in hash order.
fn build_map<K: PhfHash + Copy + 'static, V: Copy + 'static>(pairs: &[(K, V)]) -> unilang::phf::Map<K, V> {
    let keys: Vec<K> = pairs.iter().map(|p| p.0).collect();
    let state = phf_generator::generate_hash(&keys);
    let entries: Vec<(K, V)> = state.map.iter().map(|&i| pairs[i]).collect();
    unilang::phf::Map { key: state.key, disps: Box::leak(state.disps.into_boxed_slice()), entries: Box::leak(entries.into_boxed_slice()) }
}

fn build_set<T: PhfHash + Copy + 'static>(items: &[T]) -> unilang::phf::Set<T> {
    let pairs: Vec<(T, ())> = items.iter().map(|&t| (t, ())).collect();
    unilang::phf::Set { map: build_map(&pairs) }
}

#[test]
fn test_phf_module_is_reexported() {
    let _: std::marker::PhantomData<unilang::phf::Map<&str, i32>> = std::marker::PhantomData;
    let test: unilang::phf::Map<&str, i32> = build_map(&[("test", 1)]);
    assert_eq!(test.get("test"), Some(&1));
}

#[test]
fn test_phf_map_type_accessible() {
    let test_map: unilang::phf::Map<&str, i32> = build_map(&[("one", 1), ("two", 2), ("three", 3)]);
    assert_eq!(test_map.get("one"), Some(&1));
    assert_eq!(test_map.get("two"), Some(&2));
    assert_eq!(test_map.get("three"), Some(&3));
    assert_eq!(test_map.get("nonexistent"), None);
    assert_eq!(test_map.len(), 3);
    assert!(!test_map.is_empty());
    let keys: Vec<&str> = test_map.keys().copied().collect();
    assert_eq!(keys.len(), 3);
    assert!(keys.contains(&"one"));
}

#[test]
fn test_generated_code_pattern_compiles() {
    let commands: unilang::phf::Map<&str, u32> = build_map(&[("help", 1), ("version", 2), ("test", 3), ("exit", 4)]);
    assert_eq!(commands.get("help"), Some(&1));
    assert_eq!(commands.get("version"), Some(&2));
    assert_eq!(commands.get("test"), Some(&3));
    assert_eq!(commands.get("exit"), Some(&4));
    assert_eq!(commands.get("nonexistent"), None);
    assert_eq!(commands.len(), 4);
}

#[test]
fn test_multiple_phf_types_reexported() {
    let test_map: unilang::phf::Map<&str, i32> = build_map(&[("key", 42)]);
    assert_eq!(test_map.get("key"), Some(&42));
    let test_set: unilang::phf::Set<&str> = build_set(&["item1", "item2", "item3"]);
    assert!(test_set.contains("item1"));
    assert!(test_set.contains("item2"));
    assert!(!test_set.contains("item4"));
}

#[test]
fn test_type_compatibility() {
    fn process_map(map: &unilang::phf::Map<&str, i32>) -> Option<i32> {
        map.get("key").copied()
    }
    let test_map: unilang::phf::Map<&str, i32> = build_map(&[("key", 100)]);
    let result = process_map(&test_map);
    assert_eq!(result, Some(100));
}

#[test]
fn test_phf_not_available_without_feature() {
    assert!(true, "Feature gate verification test");
}

#[test]
fn test_documentation_example() {
    let my_commands: unilang::phf::Map<&str, u32> = build_map(&[("help", 1), ("version", 2)]);
    assert_eq!(my_commands.get("help"), Some(&1));
    assert_eq!(my_commands.get("version"), Some(&2));
}
