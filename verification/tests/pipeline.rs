use stake_o_matic::pipeline::{
    delegation_allowed, next_batch, preflight, total_fee, Batch, FailureReason, NextStep,
    Preflight, StatusReply, TxState, POLL_INTERVAL_MS,
};

fn memos(n: usize) -> Vec<String> {
    (0..n).map(|i| format!("memo {}", i)).collect()
}

fn pending_batch(n: usize) -> Batch {
    let mut batch = Batch::new(memos(n));
    for i in 0..n {
        assert!(batch.record_submission(i, Some(format!("sig {}", i))));
    }
    batch
}

#[test]
fn poll_interval_is_two_seconds() {
    assert_eq!(POLL_INTERVAL_MS, 2000);
}

#[test]
fn total_fee_adds_up() {
    assert_eq!(total_fee(&vec![]), Some(0));
    assert_eq!(total_fee(&vec![5000, 5000, 10000]), Some(20000));
    assert_eq!(total_fee(&vec![u64::MAX, 1]), None);
}

#[test]
fn preflight_checks_fees_then_mode() {
    assert_eq!(preflight(false, &vec![5000, 5000], 9999), Preflight::InsufficientFunds);
    assert_eq!(preflight(true, &vec![5000, 5000], 9999), Preflight::InsufficientFunds);
    assert_eq!(preflight(false, &vec![5000, 5000], 10000), Preflight::Proceed);
    assert_eq!(preflight(true, &vec![5000, 5000], 10000), Preflight::ReviewRequired);
    assert_eq!(preflight(false, &vec![u64::MAX, 1], u64::MAX), Preflight::InsufficientFunds);
}

#[test]
fn empty_batch_is_a_plain_no_op() {
    assert_eq!(preflight(true, &vec![], 0), Preflight::Proceed);
    assert_eq!(preflight(false, &vec![], 0), Preflight::Proceed);
    let batch = Batch::new(vec![]);
    assert_eq!(batch.next_step(), NextStep::Done);
    assert!(batch.outcomes().is_empty());
}

#[test]
fn new_batch_is_unsent() {
    let batch = Batch::new(memos(2));
    assert_eq!(batch.len(), 2);
    assert_eq!(batch.state(0), Some(TxState::Unsent));
    assert_eq!(batch.state(1), Some(TxState::Unsent));
    assert_eq!(batch.state(2), None);
    assert_eq!(batch.next_step(), NextStep::Submit);
}

#[test]
fn submission_moves_to_pending_or_failure() {
    let mut batch = Batch::new(memos(2));
    assert!(batch.record_submission(0, Some("first".to_string())));
    assert!(batch.record_submission(1, None));
    assert_eq!(batch.state(0), Some(TxState::Pending));
    assert_eq!(batch.state(1), Some(TxState::FinalizedFailure(FailureReason::Rejected)));
    assert!(!batch.record_submission(0, None));
    assert!(!batch.record_submission(0, Some("again".to_string())));
    assert!(!batch.record_submission(2, Some("stray".to_string())));
    assert_eq!(batch.state(0), Some(TxState::Pending));
    assert_eq!(batch.correlation_id(0), Some("first".to_string()));
    assert_eq!(batch.correlation_id(1), None);
    assert_eq!(batch.correlation_id(2), None);
    assert_eq!(batch.pending_ids(), vec!["first".to_string()]);
    assert_eq!(batch.next_step(), NextStep::Poll);
    assert_eq!(batch.pending_positions(), vec![0]);
    assert_eq!(batch.outcomes(), vec![(false, "memo 1".to_string())]);
}

#[test]
fn statuses_finalize_pending_transactions() {
    let mut batch = Batch::new(memos(4));
    assert!(batch.record_submission(0, Some("a".to_string())));
    assert!(batch.record_submission(1, None));
    assert!(batch.record_submission(2, Some("c".to_string())));
    assert!(batch.record_submission(3, Some("d".to_string())));
    assert_eq!(batch.pending_positions(), vec![0, 2, 3]);
    assert_eq!(batch.pending_ids(), vec!["a".to_string(), "c".to_string(), "d".to_string()]);
    batch.apply_statuses(&vec![
        StatusReply::Confirming,
        StatusReply::Finalized { failed: false },
        StatusReply::Finalized { failed: true },
    ]);
    assert_eq!(batch.state(0), Some(TxState::Pending));
    assert_eq!(batch.state(1), Some(TxState::FinalizedFailure(FailureReason::Rejected)));
    assert_eq!(batch.state(2), Some(TxState::FinalizedSuccess));
    assert_eq!(batch.state(3), Some(TxState::FinalizedFailure(FailureReason::ExecutionFailed)));
    assert_eq!(batch.next_step(), NextStep::Poll);
    assert_eq!(batch.pending_ids(), vec!["a".to_string()]);
    batch.apply_statuses(&vec![StatusReply::Unknown]);
    assert_eq!(batch.state(0), Some(TxState::Pending));
    batch.apply_statuses(&vec![StatusReply::Finalized { failed: false }]);
    assert_eq!(batch.next_step(), NextStep::Done);
    assert_eq!(
        batch.outcomes(),
        vec![
            (true, "memo 0".to_string()),
            (false, "memo 1".to_string()),
            (true, "memo 2".to_string()),
            (false, "memo 3".to_string()),
        ]
    );
}

#[test]
fn missing_replies_leave_transactions_pending() {
    let mut batch = pending_batch(3);
    batch.apply_statuses(&vec![StatusReply::Finalized { failed: false }]);
    assert_eq!(batch.pending_positions(), vec![1, 2]);
    batch.apply_statuses(&vec![]);
    assert_eq!(batch.pending_positions(), vec![1, 2]);
    assert_eq!(batch.len(), 3);
}

#[test]
fn blockhash_expiry_fails_every_pending_transaction() {
    let mut batch = pending_batch(3);
    // First poll: the blockhash is valid, nothing has been finalized yet.
    assert_eq!(batch.next_step(), NextStep::Poll);
    batch.apply_statuses(&vec![
        StatusReply::Confirming,
        StatusReply::Unknown,
        StatusReply::Confirming,
    ]);
    assert_eq!(batch.pending_positions(), vec![0, 1, 2]);
    // Second poll: the blockhash is reported invalid.
    assert_eq!(batch.next_step(), NextStep::Poll);
    batch.expire();
    for i in 0..3 {
        assert_eq!(batch.state(i), Some(TxState::FinalizedFailure(FailureReason::Expired)));
    }
    assert_eq!(batch.next_step(), NextStep::Done);
    assert!(batch.pending_positions().is_empty());
    assert!(batch.pending_ids().is_empty());
    assert_eq!(
        batch.outcomes(),
        vec![
            (false, "memo 0".to_string()),
            (false, "memo 1".to_string()),
            (false, "memo 2".to_string()),
        ]
    );
}

#[test]
fn expiry_leaves_finalized_transactions_alone() {
    let mut batch = pending_batch(2);
    batch.apply_statuses(&vec![StatusReply::Finalized { failed: false }]);
    batch.expire();
    assert_eq!(batch.state(0), Some(TxState::FinalizedSuccess));
    assert_eq!(batch.state(1), Some(TxState::FinalizedFailure(FailureReason::Expired)));
}

#[test]
fn failed_create_blocks_the_delegations() {
    let ok = vec![(true, "a".to_string()), (true, "b".to_string())];
    let failed = vec![(true, "a".to_string()), (false, "b".to_string())];
    assert!(delegation_allowed(&ok));
    assert!(delegation_allowed(&vec![]));
    assert!(!delegation_allowed(&failed));
    assert!(next_batch(&failed, memos(3)).is_none());
    let next = next_batch(&ok, memos(3)).unwrap();
    assert_eq!(next.len(), 3);
    assert_eq!(next.next_step(), NextStep::Submit);
}
