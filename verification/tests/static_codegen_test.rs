//! Pieces of the aggregated static table source.

use unilang::multi_yaml::codegen::{ escape_string, generate_string_array, generate_kind_string, sorted_keys };
use unilang::data::kind::Kind;

#[test]
fn escapes_for_rust_literals() {
    assert_eq!(escape_string("a\"b\\c\nd\te\r"), "a\\\"b\\\\c\\nd\\te\\r");
    assert_eq!(escape_string("plain"), "plain");
}

#[test]
fn string_array_constant() {
    let mut out = String::new();
    generate_string_array(&mut out, &vec!["x".to_string(), "y\"z".to_string()], "TAGS");
    assert_eq!(out, "const TAGS: &[&str] = &[\"x\", \"y\\\"z\", ];\n");
}

#[test]
fn kind_expressions() {
    let mut out = String::new();
    assert_eq!(generate_kind_string(&Kind::Integer, "CMD", 0, &mut out), "StaticKind::Integer");
    assert_eq!(generate_kind_string(&Kind::Object, "CMD", 0, &mut out), "StaticKind::JsonString");
    assert_eq!(
        generate_kind_string(&Kind::List(Box::new(Kind::Integer), Some(',')), "CMD", 1, &mut out),
        "StaticKind::List( &StaticKind::String, Some( ',' ) )"
    );
    assert!(out.is_empty());
    let e = generate_kind_string(&Kind::Enum(vec!["a".to_string()]), "CMD", 2, &mut out);
    assert_eq!(e, "StaticKind::Enum( &CMD_2_ENUM_VALUES )");
    assert_eq!(out, "const CMD_2_ENUM_VALUES: &[&str] = &[\"a\", ];\n");
}

#[test]
fn keys_sort_by_code_point() {
    let keys = vec![".b".to_string(), ".a".to_string(), ".B".to_string(), ".ab".to_string()];
    assert_eq!(sorted_keys(&keys), vec![".B", ".a", ".ab", ".b"]);
}
