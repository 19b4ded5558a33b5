//! The perfect-hash usage shown in the documentation.

use phf_shared::PhfHash;

fn build_map<K: PhfHash + Copy + 'static, V: Copy + 'static>(pairs: &[(K, V)]) -> unilang::phf::Map<K, V> {
    let keys: Vec<K> = pairs.iter().map(|p| p.0).collect();
    let state = phf_generator::generate_hash(&keys);
    let entries: Vec<(K, V)> = state.map.iter().map(|&i| pairs[i]).collect();
    unilang::phf::Map { key: state.key, disps: Box::leak(state.disps.into_boxed_slice()), entries: Box::leak(entries.into_boxed_slice()) }
}

#[test]
fn test_basic_usage_example() {
    let commands: unilang::phf::Map<&str, u32> = build_map(&[("help", 1), ("version", 2)]);
    assert_eq!(commands.get("help"), Some(&1));
    assert_eq!(commands.get("version"), Some(&2));
    println!("✅ Basic usage example works");
}

#[test]
fn test_migration_after_example() {
    let map: unilang::phf::Map<&str, i32> = build_map(&[("key", 1)]);
    assert_eq!(map.get("key"), Some(&1));
    println!("✅ Migration 'after' example works");
}

#[test]
fn test_troubleshooting_example() {
    let test: unilang::phf::Map<&str, i32> = build_map(&[("test", 42)]);
    assert_eq!(test.get("test"), Some(&42));
    println!("✅ Troubleshooting example pattern works");
}
