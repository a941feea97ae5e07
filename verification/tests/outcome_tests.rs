use txflood::nonce::NonceAllocator;
use txflood::outcome::{classify, SubmissionOutcome, Tally};

fn success() -> SubmissionOutcome {
    SubmissionOutcome::Success(vec![0u8; 32])
}

fn failure() -> SubmissionOutcome {
    SubmissionOutcome::Failure(String::from("mempool full"))
}

#[test]
fn classify_counts_every_outcome() {
    let outcomes = vec![success(), failure(), success(), failure(), failure()];
    let tally = classify(&outcomes);
    assert_eq!(tally.succeeded_count, 2);
    assert_eq!(tally.failed_count, 3);
}

#[test]
fn classify_empty_batch() {
    let tally = classify(&Vec::new());
    assert_eq!(tally, Tally { succeeded_count: 0, failed_count: 0 });
}

#[test]
fn classify_all_successes() {
    let outcomes = vec![success(), success(), success()];
    let tally = classify(&outcomes);
    assert_eq!(tally.succeeded_count, 3);
    assert_eq!(tally.failed_count, 0);
}

#[test]
fn fresh_tally_is_zero() {
    let tally = Tally::new();
    assert_eq!(tally.succeeded_count, 0);
    assert_eq!(tally.failed_count, 0);
}

#[test]
fn allocator_issues_consecutive_nonces_from_baseline() {
    let mut nonces = NonceAllocator::new(5);
    assert_eq!(nonces.allocate(), 5);
    assert_eq!(nonces.allocate(), 6);
    assert_eq!(nonces.allocate(), 7);
}

#[test]
fn allocator_starts_at_zero_baseline() {
    let mut nonces = NonceAllocator::new(0);
    assert_eq!(nonces.allocate(), 0);
    assert_eq!(nonces.allocate(), 1);
}
