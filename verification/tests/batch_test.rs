//! Batch and sequence summaries.

use unilang::pipeline::batch::BatchResult;
use unilang::pipeline::result::CommandResult;

fn result(command: &str, success: bool) -> CommandResult {
    CommandResult {
        command: command.to_string(),
        outputs: vec![],
        success,
        error: if success { None } else { Some("failed".to_string()) },
    }
}

#[test]
fn batch_counts_every_outcome() {
    let r = BatchResult::of_batch(vec![
        result(".a", true),
        result(".b", false),
        result(".c", true),
        result(".d", false),
        result(".e", true),
    ]);
    assert_eq!(r.total_commands, 5);
    assert_eq!(r.results.len(), 5);
    assert_eq!(r.successful_commands, 3);
    assert_eq!(r.failed_commands, 2);
    assert!(!r.all_succeeded());
    assert!(r.any_failed());
}

#[test]
fn sequence_stops_at_first_failure() {
    let r = BatchResult::of_sequence(4, vec![result(".a", true), result(".b", true), result(".c", false), result(".d", true)]);
    assert_eq!(r.total_commands, 4);
    assert_eq!(r.results.len(), 3);
    assert_eq!(r.results[2].command, ".c");
    assert_eq!(r.successful_commands, 2);
    assert_eq!(r.failed_commands, 1);
    let all = BatchResult::of_sequence(2, vec![result(".a", true), result(".b", true)]);
    assert!(all.all_succeeded());
    assert!(!all.any_failed());
    assert_eq!(all.successful_commands, 2);
}

#[test]
fn empty_batch_succeeds() {
    let r = BatchResult::of_batch(vec![]);
    assert_eq!(r.total_commands, 0);
    assert!(r.all_succeeded());
}
