//! Keyed entry lists.

use unilang::keyed::{ insert_keyed, get_keyed, find_key };

#[test]
fn insert_replaces_in_place_and_appends() {
    let mut es: Vec<(String, String)> = Vec::new();
    insert_keyed(&mut es, "a".to_string(), "1".to_string());
    insert_keyed(&mut es, "b".to_string(), "2".to_string());
    insert_keyed(&mut es, "a".to_string(), "3".to_string());
    assert_eq!(es, vec![("a".to_string(), "3".to_string()), ("b".to_string(), "2".to_string())]);
    assert_eq!(get_keyed(&es, "a"), Some(&"3".to_string()));
    assert_eq!(get_keyed(&es, "c"), None);
    assert_eq!(find_key(&es, "b"), Some(1));
}
