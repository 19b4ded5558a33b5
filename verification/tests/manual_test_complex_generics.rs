//! Perfect-hash maps with composite keys and values.

use phf_shared::PhfHash;

fn build_map<K: PhfHash + Copy + 'static, V: Copy + 'static>(pairs: &[(K, V)]) -> unilang::phf::Map<K, V> {
    let keys: Vec<K> = pairs.iter().map(|p| p.0).collect();
    let state = phf_generator::generate_hash(&keys);
    let entries: Vec<(K, V)> = state.map.iter().map(|&i| pairs[i]).collect();
    unilang::phf::Map { key: state.key, disps: Box::leak(state.disps.into_boxed_slice()), entries: Box::leak(entries.into_boxed_slice()) }
}

#[test]
fn test_nested_types() {
    let numbers: &'static [i32] = &[1, 2, 3];
    let primes: &'static [i32] = &[2, 3, 5, 7];
    let map_with_vec: unilang::phf::Map<&str, &[i32]> = build_map(&[("numbers", numbers), ("primes", primes)]);
    assert_eq!(map_with_vec.get("numbers"), Some(&&[1, 2, 3][..]));
    assert_eq!(map_with_vec.get("primes").unwrap().len(), 4);
    println!("✅ Nested types work correctly");
}

#[test]
fn test_tuple_values() {
    let coords: unilang::phf::Map<&str, (i32, i32)> = build_map(&[("origin", (0, 0)), ("point_a", (10, 20)), ("point_b", (-5, 15))]);
    assert_eq!(coords.get("origin"), Some(&(0, 0)));
    assert_eq!(coords.get("point_a"), Some(&(10, 20)));
    println!("✅ Tuple values work correctly");
}

#[test]
fn test_integer_keys() {
    let int_map: unilang::phf::Map<u32, &str> = build_map(&[(1u32, "one"), (2u32, "two"), (100u32, "hundred")]);
    assert_eq!(int_map.get(&1), Some(&"one"));
    assert_eq!(int_map.get(&100), Some(&"hundred"));
    assert_eq!(int_map.get(&50), None);
    println!("✅ Integer keys work correctly");
}

#[test]
fn test_byte_string_keys() {
    let hello: &'static [u8] = b"hello";
    let world: &'static [u8] = b"world";
    let byte_map: unilang::phf::Map<&[u8], &str> = build_map(&[(hello, "greeting"), (world, "noun")]);
    assert_eq!(byte_map.get(b"hello" as &[u8]), Some(&"greeting"));
    assert_eq!(byte_map.get(b"world" as &[u8]), Some(&"noun"));
    println!("✅ Byte string keys work correctly");
}
