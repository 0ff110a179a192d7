use stake_o_matic::classifier::{
    classify, classify_block_producers, confirmed_set, count_slots, evaluation_start,
    is_confirmed, production_ratio,
    ClassifyError, EpochWindow, LeaderEntry, ProducerClass,
};
use stake_o_matic::keys::parse_key;

const ALICE: &str = "Vote111111111111111111111111111111111111111";
const BOB: &str = "Stake11111111111111111111111111111111111111";
const CAROL: &str = "11111111111111111111111111111111";

fn entry(identity: &str, relative_slots: Vec<usize>) -> LeaderEntry {
    LeaderEntry { identity: identity.to_string(), relative_slots }
}

fn window(first_slot: u64, last_slot: u64) -> EpochWindow {
    EpochWindow { epoch: 3, first_slot, last_slot }
}

#[test]
fn ratio_is_floor_division() {
    assert_eq!(production_ratio(3, 4), 75);
    assert_eq!(production_ratio(4, 4), 100);
    assert_eq!(production_ratio(2, 3), 66);
    assert_eq!(production_ratio(1, 3), 33);
    assert_eq!(production_ratio(0, 5), 0);
}

#[test]
fn ratio_does_not_overflow() {
    assert_eq!(production_ratio(usize::MAX, usize::MAX), 100);
}

#[test]
fn threshold_is_strict() {
    assert_eq!(classify(3, 4, 75), ProducerClass::Poor);
    assert_eq!(classify(4, 4, 75), ProducerClass::Quality);
    assert_eq!(classify(76, 100, 75), ProducerClass::Quality);
    assert_eq!(classify(75, 100, 75), ProducerClass::Poor);
}

#[test]
fn no_assigned_slot_is_unevaluated() {
    assert_eq!(classify(0, 0, 75), ProducerClass::Unevaluated);
    assert_eq!(classify(0, 0, 0), ProducerClass::Unevaluated);
}

#[test]
fn is_confirmed_finds_slots() {
    let confirmed = confirmed_set(&vec![100, 102, 105, 102]);
    assert_eq!(confirmed.len(), 3);
    assert!(is_confirmed(&confirmed, 102));
    assert!(!is_confirmed(&confirmed, 103));
    assert!(!is_confirmed(&confirmed_set(&vec![]), 0));
}

#[test]
fn count_slots_skips_slots_before_the_start() {
    let confirmed = confirmed_set(&vec![100, 101, 102, 103, 105]);
    // slots 100..=105; start at 102: assigned 102, 103, 104, 105
    assert_eq!(count_slots(100, 102, &vec![0, 1, 2, 3, 4, 5], &confirmed), (4, 3));
    assert_eq!(count_slots(100, 100, &vec![0, 1, 2, 3, 4, 5], &confirmed), (6, 5));
    assert_eq!(count_slots(100, 200, &vec![0, 1, 2], &confirmed), (0, 0));
}

#[test]
fn count_slots_beyond_the_last_slot_number() {
    let confirmed = confirmed_set(&vec![u64::MAX, 0]);
    assert_eq!(count_slots(u64::MAX, 0, &vec![0, 1], &confirmed), (2, 1));
}

#[test]
fn classification_splits_quality_and_poor() {
    let schedule = vec![
        entry(ALICE, vec![0, 1, 2, 3]),
        entry(BOB, vec![4, 5, 6, 7]),
        entry(CAROL, vec![]),
    ];
    // Alice produced 4 of 4, Bob 3 of 4.
    let confirmed = vec![1000, 1001, 1002, 1003, 1004, 1005, 1006];
    let got = classify_block_producers(&window(1000, 1431), 0, &schedule, &confirmed, 75).unwrap();
    assert_eq!(got.quality, vec![parse_key(ALICE).unwrap()]);
    assert_eq!(got.poor, vec![parse_key(BOB).unwrap()]);
}

#[test]
fn unassigned_validator_is_in_neither_set() {
    let schedule = vec![entry(ALICE, vec![0, 1]), entry(CAROL, vec![2])];
    // The window starts at 1002: Alice has no slot left in it.
    let confirmed = vec![1000, 1001, 1002];
    let got =
        classify_block_producers(&window(1000, 1431), 1002, &schedule, &confirmed, 75).unwrap();
    let alice = parse_key(ALICE).unwrap();
    assert!(!got.quality.contains(&alice));
    assert!(!got.poor.contains(&alice));
    assert_eq!(got.quality, vec![parse_key(CAROL).unwrap()]);
    assert!(got.poor.is_empty());
}

#[test]
fn history_must_start_before_the_last_slot() {
    let schedule = vec![entry(ALICE, vec![0])];
    assert_eq!(
        classify_block_producers(&window(1000, 1431), 1431, &schedule, &vec![], 75).unwrap_err(),
        ClassifyError::HistoryUnavailable { start_slot: 1431, last_slot: 1431 }
    );
    assert_eq!(
        classify_block_producers(&window(1000, 1431), 2000, &schedule, &vec![], 75).unwrap_err(),
        ClassifyError::HistoryUnavailable { start_slot: 2000, last_slot: 1431 }
    );
    assert!(classify_block_producers(&window(1000, 1431), 1430, &schedule, &vec![], 75).is_ok());
    assert_eq!(
        classify_block_producers(&window(1431, 1431), 0, &schedule, &vec![], 75).unwrap_err(),
        ClassifyError::HistoryUnavailable { start_slot: 1431, last_slot: 1431 }
    );
}

#[test]
fn unreadable_identity_matters_only_with_slots() {
    let idle = vec![entry("garbage", vec![]), entry(ALICE, vec![0])];
    assert!(classify_block_producers(&window(0, 10), 0, &idle, &vec![0], 75).is_ok());
    let busy = vec![entry(ALICE, vec![0]), entry("garbage", vec![1])];
    assert_eq!(
        classify_block_producers(&window(0, 10), 0, &busy, &vec![0], 75).unwrap_err(),
        ClassifyError::InvalidIdentity { index: 1 }
    );
}

#[test]
fn evaluation_starts_at_the_later_slot() {
    assert_eq!(evaluation_start(&window(1000, 1431), 0), Ok(1000));
    assert_eq!(evaluation_start(&window(1000, 1431), 1200), Ok(1200));
    assert_eq!(
        evaluation_start(&window(1000, 1431), 1431),
        Err(ClassifyError::HistoryUnavailable { start_slot: 1431, last_slot: 1431 })
    );
}
