//! Submission outcomes and their aggregation into a tally.

use vstd::prelude::*;

verus! {

/// The resolution of one submission: the transaction identifier the node
/// returned, or the error detail. Any remote-call failure counts as a
/// failure; anything else counts as a success.
pub enum SubmissionOutcome {
    Success(Vec<u8>),
    Failure(String),
}

/// Running counts of succeeded and failed submissions.
#[derive(Debug, PartialEq, Eq, Structural, Clone, Copy)]
pub struct Tally {
    pub succeeded_count: u64,
    pub failed_count: u64,
}

/// How many outcomes of the sequence are successes.
pub open spec fn count_succeeded(s: Seq<SubmissionOutcome>) -> int
    decreases s.len(),
{
    if s.len() == 0 {
        0
    } else {
        count_succeeded(s.drop_last()) + if s.last() is Success {
            1int
        } else {
            0int
        }
    }
}

/// How many outcomes of the sequence are failures.
pub open spec fn count_failed(s: Seq<SubmissionOutcome>) -> int
    decreases s.len(),
{
    if s.len() == 0 {
        0
    } else {
        count_failed(s.drop_last()) + if s.last() is Failure {
            1int
        } else {
            0int
        }
    }
}

/// Every outcome of a batch is classified as exactly one of success or
/// failure: the two counts always cover the whole batch, so a failure
/// among the outcomes never keeps a sibling from being counted.
pub proof fn lemma_all_outcomes_classified(s: Seq<SubmissionOutcome>)
    ensures
        count_succeeded(s) + count_failed(s) == s.len(),
        0 <= count_succeeded(s) <= s.len(),
        0 <= count_failed(s) <= s.len(),
    decreases s.len(),
{
    if s.len() != 0 {
        lemma_all_outcomes_classified(s.drop_last());
    }
}

impl Tally {
    /// A tally with nothing counted yet.
    pub fn new() -> (t: Tally)
        ensures
            t.succeeded_count == 0,
            t.failed_count == 0,
    {
        Tally { succeeded_count: 0, failed_count: 0 }
    }
}

/// Classifies every outcome of one resolved batch into a delta tally:
/// exactly the successes are counted as succeeded and exactly the failures
/// as failed, whatever order they resolved in.
pub fn classify(outcomes: &Vec<SubmissionOutcome>) -> (t: Tally)
    ensures
        t.succeeded_count == count_succeeded(outcomes@),
        t.failed_count == count_failed(outcomes@),
        t.succeeded_count + t.failed_count == outcomes@.len(),
{
    let mut succeeded: u64 = 0;
    let mut failed: u64 = 0;
    let n = outcomes.len();
    let mut i: usize = 0;
    proof {
        assert(outcomes@.subrange(0, 0) =~= Seq::<SubmissionOutcome>::empty());
    }
    while i < n
        invariant
            n == outcomes@.len(),
            0 <= i <= n,
            succeeded == count_succeeded(outcomes@.subrange(0, i as int)),
            failed == count_failed(outcomes@.subrange(0, i as int)),
            succeeded + failed == i,
        decreases n - i,
    {
        proof {
            let prefix = outcomes@.subrange(0, i as int);
            let next = outcomes@.subrange(0, i + 1);
            assert(next.drop_last() =~= prefix);
            lemma_all_outcomes_classified(prefix);
        }
        match &outcomes[i] {
            SubmissionOutcome::Success(_) => {
                succeeded = succeeded + 1;
            },
            SubmissionOutcome::Failure(_) => {
                failed = failed + 1;
            },
        }
        i = i + 1;
    }
    proof {
        assert(outcomes@.subrange(0, n as int) =~= outcomes@);
    }
    Tally { succeeded_count: succeeded, failed_count: failed }
}

} // verus!
