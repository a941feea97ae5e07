use txflood::config::{Config, Transaction};
use txflood::orchestrator::{Action, Event, InitError, Orchestrator, Phase, SubmissionRequest};
use txflood::outcome::{SubmissionOutcome, Tally};

fn intent(tag: u8) -> Transaction {
    Transaction { to: vec![tag; 20], calldata: vec![tag, tag], value: tag as u64 }
}

fn config(templates: Vec<Transaction>, total: u64, per_block: u64, pause: u64) -> Config {
    Config {
        transactions: templates,
        tx_amount: total,
        tx_per_block: per_block,
        block_mining_ms_pause: pause,
        rpc_url: String::from("ws://localhost:8545"),
    }
}

/// Drives a whole run: submissions whose nonce is listed in `fail_nonces`
/// resolve as failures, all others as successes. Returns every batch that
/// was handed out and the final tally.
fn run_to_completion(
    mut orch: Orchestrator,
    fail_nonces: &[u64],
    block_ok: bool,
) -> (Vec<Vec<SubmissionRequest>>, Tally, Orchestrator) {
    let mut batches = Vec::new();
    let first = orch.step(Event::Start);
    assert!(matches!(first, Action::SetNonce(0)));
    let mut action = orch.step(Event::NonceSet(true));
    loop {
        match action {
            Action::Submit(batch) => {
                let outcomes: Vec<SubmissionOutcome> = batch
                    .iter()
                    .map(|r| {
                        if fail_nonces.contains(&r.nonce) {
                            SubmissionOutcome::Failure(String::from("rejected"))
                        } else {
                            SubmissionOutcome::Success(vec![0u8; 32])
                        }
                    })
                    .collect();
                batches.push(batch);
                let after_barrier = orch.step(Event::BatchResolved(outcomes));
                assert!(matches!(after_barrier, Action::ProduceBlock));
                let after_block = orch.step(Event::BlockProduced(block_ok));
                assert!(matches!(after_block, Action::Pace(_)));
                action = orch.step(Event::Paced);
            }
            Action::Report(tally) => return (batches, tally, orch),
            _ => panic!("unexpected action"),
        }
    }
}

#[test]
fn ten_transactions_three_per_block() {
    let orch = Orchestrator::new(config(vec![intent(1)], 10, 3, 5)).unwrap();
    let (batches, tally, orch) = run_to_completion(orch, &[], true);
    let sizes: Vec<usize> = batches.iter().map(|b| b.len()).collect();
    assert_eq!(sizes, vec![3, 3, 3, 1]);
    assert_eq!(tally.succeeded_count, 10);
    assert_eq!(tally.failed_count, 0);
    assert_eq!(orch.batches_paced(), 4);
    assert_eq!(orch.legacy_block_count(), 3);
    assert_eq!(orch.phase(), Phase::Done);
}

#[test]
fn two_templates_alternate_and_nonces_ascend() {
    let orch = Orchestrator::new(config(vec![intent(0xaa), intent(0xbb)], 6, 2, 0)).unwrap();
    let (batches, tally, _) = run_to_completion(orch, &[], true);
    assert_eq!(batches.len(), 3);
    let mut expected_nonce = 0u64;
    for batch in &batches {
        assert_eq!(batch.len(), 2);
        assert_eq!(batch[0].tx.to, vec![0xaa; 20]);
        assert_eq!(batch[1].tx.to, vec![0xbb; 20]);
        for request in batch {
            assert_eq!(request.nonce, expected_nonce);
            expected_nonce += 1;
        }
    }
    assert_eq!(expected_nonce, 6);
    assert_eq!(tally.succeeded_count, 6);
}

#[test]
fn failure_in_second_batch_counted_nonces_unaffected() {
    let orch = Orchestrator::new(config(vec![intent(1)], 6, 2, 0)).unwrap();
    // nonce 2 is the first request of the second batch
    let (batches, tally, _) = run_to_completion(orch, &[2], true);
    assert_eq!(tally.failed_count, 1);
    assert_eq!(tally.succeeded_count, 5);
    let nonces: Vec<u64> = batches.iter().flatten().map(|r| r.nonce).collect();
    assert_eq!(nonces, vec![0, 1, 2, 3, 4, 5]);
}

#[test]
fn sibling_outcomes_all_classified_despite_failure() {
    let orch = Orchestrator::new(config(vec![intent(1)], 3, 3, 0)).unwrap();
    // one failure among three concurrent submissions of the same batch
    let (batches, tally, _) = run_to_completion(orch, &[1], true);
    assert_eq!(batches.len(), 1);
    assert_eq!(tally.succeeded_count, 2);
    assert_eq!(tally.failed_count, 1);
}

#[test]
fn block_production_failure_does_not_stop_the_loop() {
    let orch = Orchestrator::new(config(vec![intent(1)], 4, 3, 0)).unwrap();
    // every block production reports failure; the run still completes
    let (batches, tally, orch) = run_to_completion(orch, &[], false);
    assert_eq!(batches.len(), 2);
    assert_eq!(tally.succeeded_count, 4);
    assert_eq!(tally.failed_count, 0);
    assert_eq!(orch.batches_paced(), 2);
}

#[test]
fn zero_total_reports_immediately() {
    let mut orch = Orchestrator::new(config(vec![intent(1)], 0, 3, 9)).unwrap();
    assert!(matches!(orch.step(Event::Start), Action::SetNonce(0)));
    match orch.step(Event::NonceSet(true)) {
        Action::Report(tally) => {
            assert_eq!(tally.succeeded_count, 0);
            assert_eq!(tally.failed_count, 0);
        }
        _ => panic!("expected an immediate report"),
    }
    assert_eq!(orch.batches_paced(), 0);
    assert_eq!(orch.phase(), Phase::Done);
}

#[test]
fn exact_multiple_has_full_last_batch() {
    let orch = Orchestrator::new(config(vec![intent(1)], 6, 3, 0)).unwrap();
    let (batches, _, orch) = run_to_completion(orch, &[], true);
    let sizes: Vec<usize> = batches.iter().map(|b| b.len()).collect();
    assert_eq!(sizes, vec![3, 3]);
    assert_eq!(orch.legacy_block_count(), 2);
}

#[test]
fn single_partial_batch() {
    let orch = Orchestrator::new(config(vec![intent(1)], 2, 10, 0)).unwrap();
    let (batches, tally, orch) = run_to_completion(orch, &[], true);
    let sizes: Vec<usize> = batches.iter().map(|b| b.len()).collect();
    assert_eq!(sizes, vec![2]);
    assert_eq!(tally.succeeded_count, 2);
    // the legacy figure undercounts the one partial batch
    assert_eq!(orch.legacy_block_count(), 0);
    assert_eq!(orch.batches_paced(), 1);
}

#[test]
fn templates_cycle_by_global_index_across_batches() {
    let orch = Orchestrator::new(config(vec![intent(0x0a), intent(0x0b)], 5, 3, 0)).unwrap();
    let (batches, _, _) = run_to_completion(orch, &[], true);
    let tags: Vec<u8> = batches.iter().flatten().map(|r| r.tx.to[0]).collect();
    assert_eq!(tags, vec![0x0a, 0x0b, 0x0a, 0x0b, 0x0a]);
}

#[test]
fn empty_template_set_is_fatal() {
    assert_eq!(
        Orchestrator::new(config(vec![], 5, 3, 0)).err().unwrap(),
        InitError::EmptyTemplateSet
    );
}

#[test]
fn zero_per_block_limit_is_fatal() {
    assert_eq!(
        Orchestrator::new(config(vec![intent(1)], 5, 0, 0)).err().unwrap(),
        InitError::ZeroPerBlockLimit
    );
}

#[test]
fn failed_nonce_reset_aborts_the_run() {
    let mut orch = Orchestrator::new(config(vec![intent(1)], 5, 3, 0)).unwrap();
    assert!(matches!(orch.step(Event::Start), Action::SetNonce(0)));
    assert!(matches!(orch.step(Event::NonceSet(false)), Action::Abort));
    assert_eq!(orch.phase(), Phase::Aborted);
}

#[test]
fn requests_carry_the_template_calldata_and_value() {
    let template = Transaction { to: vec![7; 20], calldata: vec![0xde, 0xad], value: 31337 };
    let orch = Orchestrator::new(config(vec![template], 1, 1, 0)).unwrap();
    let (batches, _, _) = run_to_completion(orch, &[], true);
    assert_eq!(batches.len(), 1);
    assert_eq!(batches[0][0].tx.calldata, vec![0xde, 0xad]);
    assert_eq!(batches[0][0].tx.value, 31337);
    assert_eq!(batches[0][0].nonce, 0);
}
