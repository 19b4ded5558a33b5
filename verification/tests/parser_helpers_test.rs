//! Quote balance, empty quoted values and argument-vector misuse.

use unilang::parser_helpers::{ validate_quote_completeness, inject_empty_quoted_string_tokens, detect_argv_misuse, ArgvMisuse, TokenSlot };

#[test]
fn balanced_quotes_pass() {
    assert!(validate_quote_completeness(r#".cmd a::"b c""#).is_ok());
    assert!(validate_quote_completeness(r#"say "esc \" quote""#).is_ok());
    assert!(validate_quote_completeness("plain").is_ok());
}

#[test]
fn unclosed_quote_fails_over_input() {
    let e = validate_quote_completeness(r#".cmd a::"open"#).unwrap_err();
    assert_eq!(e.message, "Unclosed double quote");
    assert_eq!(e.start, 0);
    assert_eq!(e.end, 13);
    assert!(validate_quote_completeness(r#"x "\"#).is_err());
}

#[test]
fn quote_test_inputs_are_skipped() {
    assert!(validate_quote_completeness(r#"quote_test "open"#).is_ok());
}

#[test]
fn empty_quotes_after_operator_found() {
    assert_eq!(
        inject_empty_quoted_string_tokens(r#".cmd a::"" b:: """#, &vec![]),
        vec![TokenSlot::Empty(8, 10), TokenSlot::Empty(15, 17)]
    );
    assert_eq!(inject_empty_quoted_string_tokens(r#".cmd a::"""#, &vec![Some((8, 10))]), vec![TokenSlot::Item(0)]);
    assert_eq!(inject_empty_quoted_string_tokens(r#".cmd a::"x""#, &vec![]), vec![]);
}

#[test]
fn injected_tokens_are_merged_and_stably_sorted() {
    let items = vec![Some((0, 4)), Some((5, 6)), Some((6, 8)), None];
    assert_eq!(
        inject_empty_quoted_string_tokens(r#".cmd a::"""#, &items),
        vec![TokenSlot::Item(0), TokenSlot::Item(3), TokenSlot::Item(1), TokenSlot::Item(2), TokenSlot::Empty(8, 10)]
    );
    // A token without a location covers nothing, so the value is injected.
    assert_eq!(
        inject_empty_quoted_string_tokens(r#"a::"" b"#, &vec![Some((6, 7)), None]),
        vec![TokenSlot::Item(1), TokenSlot::Empty(3, 5), TokenSlot::Item(0)]
    );
}

#[test]
fn short_argv_is_not_checked() {
    assert!(detect_argv_misuse(&vec!["src/my".to_string(), "project".to_string()]).is_none());
}

#[test]
fn split_path_is_found() {
    let argv = vec![".cmd".to_string(), "path::src/my".to_string(), "project".to_string()];
    match detect_argv_misuse(&argv) {
        Some(ArgvMisuse::PathSplit { current, next }) => {
            assert_eq!(current, "path::src/my");
            assert_eq!(next, "project");
        },
        other => panic!("unexpected {:?}", other),
    }
}

#[test]
fn three_short_words_are_found() {
    let argv = vec![".deploy".to_string(), "to".to_string(), "production".to_string(), "server".to_string()];
    assert!(matches!(detect_argv_misuse(&argv), Some(ArgvMisuse::ConsecutiveShort)));
    let ok = vec![".cmd".to_string(), "a::1".to_string(), "b::2".to_string(), "c::3".to_string()];
    assert!(detect_argv_misuse(&ok).is_none());
}
