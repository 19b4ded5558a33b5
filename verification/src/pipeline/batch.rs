//! Summaries of running several commands: how many ran, succeeded and
//! failed, for a batch that runs every command and for a sequence that
//! stops at the first failure.

use vstd::prelude::*;
use crate::pipeline::result::CommandResult;

verus! {

/// The results of a batch of commands and their counts.
#[derive(Debug, Clone)]
pub struct BatchResult {
    /// The result of each command that ran, in order.
    pub results: Vec<CommandResult>,
    /// Commands given.
    pub total_commands: usize,
    /// Commands that succeeded.
    pub successful_commands: usize,
    /// Commands that failed.
    pub failed_commands: usize,
}

/// Whether each result is a success.
pub open spec fn outcomes(rs: Seq<CommandResult>) -> Seq<bool> {
    rs.map_values(|r: CommandResult| r.success)
}

/// The number of successes among the outcomes.
pub open spec fn successes(outcomes: Seq<bool>) -> nat
    decreases outcomes.len(),
{
    if outcomes.len() == 0 {
        0
    } else {
        successes(outcomes.drop_last()) + if outcomes.last() { 1nat } else { 0nat }
    }
}

/// `i` is the position of the first failure.
pub open spec fn first_failure_at(rs: Seq<CommandResult>, i: int) -> bool {
    0 <= i < rs.len() && !rs[i].success && forall|j: int| 0 <= j < i ==> (#[trigger] rs[j]).success
}

/// The results that a sequence gets to: up to and including the first
/// failure.
pub open spec fn run_until_failure(rs: Seq<CommandResult>) -> Seq<CommandResult> {
    if exists|i: int| 0 <= i < rs.len() && !(#[trigger] rs[i]).success {
        rs.take((choose|i: int| first_failure_at(rs, i)) + 1)
    } else {
        rs
    }
}

proof fn lemma_successes_bound(outcomes: Seq<bool>)
    ensures
        successes(outcomes) <= outcomes.len(),
    decreases outcomes.len(),
{
    if outcomes.len() > 0 {
        lemma_successes_bound(outcomes.drop_last());
    }
}

proof fn lemma_all_succeed(rs: Seq<CommandResult>)
    requires
        forall|j: int| 0 <= j < rs.len() ==> (#[trigger] rs[j]).success,
    ensures
        successes(outcomes(rs)) == rs.len(),
    decreases rs.len(),
{
    if rs.len() > 0 {
        assert(outcomes(rs).drop_last() =~= outcomes(rs.drop_last()));
        assert(rs.drop_last().len() == rs.len() - 1);
        assert forall|j: int| 0 <= j < rs.drop_last().len() implies (#[trigger] rs.drop_last()[j]).success by {
            assert(rs.drop_last()[j] == rs[j]);
        }
        lemma_all_succeed(rs.drop_last());
        assert(outcomes(rs).last() == rs[rs.len() - 1].success);
    }
}

fn count_successes(results: &Vec<CommandResult>) -> (r: usize)
    ensures
        r == successes(outcomes(results@)),
{
    let ghost ov = outcomes(results@);
    let mut ok: usize = 0;
    let mut i: usize = 0;
    while i < results.len()
        invariant
            i <= results@.len(),
            ov == outcomes(results@),
            ok == successes(ov.take(i as int)),
        decreases results@.len() - i,
    {
        assert(ov.take(i as int + 1).drop_last() =~= ov.take(i as int));
        assert(ov.take(i as int + 1).last() == results@[i as int].success);
        proof {
            lemma_successes_bound(ov.take(i as int));
        }
        if results[i].success {
            ok = ok + 1;
        }
        i = i + 1;
    }
    assert(ov.take(results@.len() as int) =~= ov);
    ok
}

impl BatchResult {
    /// No command failed.
    pub fn all_succeeded(&self) -> (r: bool)
        ensures
            r == (self.failed_commands == 0),
    {
        self.failed_commands == 0
    }

    /// Some command failed.
    pub fn any_failed(&self) -> (r: bool)
        ensures
            r == (self.failed_commands > 0),
    {
        self.failed_commands > 0
    }

    /// The summary of a batch in which every command ran, with their
    /// results in order: a failure does not stop the commands after it.
    pub fn of_batch(results: Vec<CommandResult>) -> (r: Self)
        ensures
            r.results@ == results@,
            r.total_commands == results@.len(),
            r.successful_commands == successes(outcomes(results@)),
            r.successful_commands + r.failed_commands == r.total_commands,
    {
        let ok = count_successes(&results);
        proof {
            lemma_successes_bound(outcomes(results@));
        }
        let total = results.len();
        BatchResult { results, total_commands: total, successful_commands: ok, failed_commands: total - ok }
    }

    /// The summary of a sequence of `total_commands` commands that stops at
    /// the first failure: of the given results, in order, those up to and
    /// including the first failure are kept (see `run_until_failure`); they
    /// all succeeded but that last one, so at most one failure counts.
    pub fn of_sequence(total_commands: usize, results: Vec<CommandResult>) -> (r: Self)
        ensures
            r.results@ == run_until_failure(results@),
            r.total_commands == total_commands,
            r.successful_commands == successes(outcomes(run_until_failure(results@))),
            r.failed_commands == run_until_failure(results@).len() - successes(outcomes(run_until_failure(results@))),
            r.failed_commands <= 1,
    {
        let mut rs = results;
        let ghost all = rs@;
        let mut i: usize = 0;
        while i < rs.len()
            invariant
                i <= rs@.len(),
                rs@ == all,
                all == results@,
                forall|j: int| 0 <= j < i ==> (#[trigger] all[j]).success,
            decreases rs@.len() - i,
        {
            if !rs[i].success {
                proof {
                    assert(!all[i as int].success);
                    assert(exists|q: int| 0 <= q < all.len() && !(#[trigger] all[q]).success);
                    assert(first_failure_at(all, i as int));
                    let k = choose|k: int| first_failure_at(all, k);
                    assert(first_failure_at(all, k));
                    if k < i {
                        assert(all[k].success);
                    }
                    if i < k {
                        assert(all[i as int].success);
                    }
                    assert(k == i);
                    assert(run_until_failure(all) == all.take(i as int + 1));
                }
                rs.truncate(i + 1);
                proof {
                    let ran = rs@;
                    assert(ran =~= all.take(i as int + 1));
                    assert forall|j: int| 0 <= j < ran.drop_last().len() implies (#[trigger] ran.drop_last()[j]).success by {
                        assert(ran.drop_last()[j] == all[j]);
                    }
                    lemma_all_succeed(ran.drop_last());
                    assert(outcomes(ran).drop_last() =~= outcomes(ran.drop_last()));
                    assert(!outcomes(ran).last());
                }
                let ok = i;
                return BatchResult { results: rs, total_commands, successful_commands: ok, failed_commands: 1 };
            }
            i = i + 1;
        }
        proof {
            lemma_all_succeed(all);
        }
        let ok = rs.len();
        BatchResult { results: rs, total_commands, successful_commands: ok, failed_commands: 0 }
    }
}

} // verus!
