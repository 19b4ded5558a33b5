//! Routine links.

use unilang::loader::resolve_routine_link;
use unilang::data::output::ErrorCode;

#[test]
fn unresolved_routine_fails_when_run() {
    let routine = resolve_routine_link("my_lib::run").unwrap();
    assert_eq!(routine.link(), "my_lib::run");
    let err = routine.call().unwrap_err();
    assert_eq!(err.code, ErrorCode::CommandNotImplemented);
    assert_eq!(
        err.message,
        "Routine link 'my_lib::run' cannot be resolved: dynamic library loading is not yet implemented"
    );
}
