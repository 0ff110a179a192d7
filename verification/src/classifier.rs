//! Block-production classification: which validators produced a block in
//! enough of their leader slots during an epoch.

use crate::keys::{key_views, parse_key, parsed_key, Key};
use std::collections::HashSet;
use vstd::prelude::*;
use vstd::std_specs::hash::*;

verus! {

/// One validator's part of a leader schedule: its identity as base-58 text
/// and the slots it leads, counted from the first slot of the epoch.
#[derive(Clone, Debug)]
pub struct LeaderEntry {
    pub identity: String,
    pub relative_slots: Vec<usize>,
}

/// An epoch and the slots it spans.
#[derive(Clone, Copy, Debug)]
pub struct EpochWindow {
    pub epoch: u64,
    pub first_slot: u64,
    pub last_slot: u64,
}

/// How a validator did in its leader slots.
#[derive(Clone, Copy, Debug, PartialEq, Eq)]
pub enum ProducerClass {
    /// Produced a block in more than the threshold percentage of its slots.
    Quality,
    /// Had slots, and did not exceed the threshold.
    Poor,
    /// Had no slot in the evaluated window.
    Unevaluated,
}

/// The two classes of evaluated validators, each in schedule order.
#[derive(Clone, Debug)]
pub struct BlockProducers {
    pub quality: Vec<Key>,
    pub poor: Vec<Key>,
}

/// Why no classification was made.
#[derive(Clone, Copy, Debug, PartialEq, Eq)]
pub enum ClassifyError {
    /// The retained history starts at or after the last slot of the epoch.
    HistoryUnavailable { start_slot: u64, last_slot: u64 },
    /// The schedule entry at `index` has slots in the window but its identity
    /// is not a key.
    InvalidIdentity { index: usize },
}

/// Default threshold: a quality producer exceeds this percentage.
pub const DEFAULT_QUALITY_PERCENTAGE: usize = 75;

/// First slot that is evaluated: the epoch's first slot, or the first slot
/// still retained if that is later.
pub open spec fn clamped_start(first_slot: u64, minimum_slot: u64) -> u64 {
    if minimum_slot > first_slot {
        minimum_slot
    } else {
        first_slot
    }
}

/// Whether `slot` is among the confirmed slots.
pub open spec fn slot_confirmed(confirmed: Set<u64>, slot: int) -> bool {
    0 <= slot <= u64::MAX && confirmed.contains(slot as u64)
}

/// Whether the leader slot at offset `relative` falls in the window.
pub open spec fn slot_assigned(first_slot: int, start: int, relative: usize) -> bool {
    first_slot + relative >= start
}

/// Number of leader slots at or after `start`.
pub open spec fn assigned_count(first_slot: int, start: int, relative: Seq<usize>) -> nat
    decreases relative.len(),
{
    if relative.len() == 0 {
        0
    } else {
        assigned_count(first_slot, start, relative.drop_last()) + if slot_assigned(
            first_slot,
            start,
            relative.last(),
        ) {
            1nat
        } else {
            0nat
        }
    }
}

/// Number of leader slots at or after `start` that are confirmed.
pub open spec fn produced_count(
    first_slot: int,
    start: int,
    relative: Seq<usize>,
    confirmed: Set<u64>,
) -> nat
    decreases relative.len(),
{
    if relative.len() == 0 {
        0
    } else {
        produced_count(first_slot, start, relative.drop_last(), confirmed) + if slot_assigned(
            first_slot,
            start,
            relative.last(),
        ) && slot_confirmed(confirmed, first_slot + relative.last()) {
            1nat
        } else {
            0nat
        }
    }
}

/// Percentage of assigned slots in which a block was produced, rounded down.
pub open spec fn ratio_of(produced: nat, assigned: nat) -> nat
    recommends
        assigned > 0,
{
    produced * 100 / assigned
}

/// The class that the counts give: none without an assigned slot, quality
/// where the ratio is strictly above the threshold, poor otherwise.
pub open spec fn class_of(produced: nat, assigned: nat, threshold: nat) -> ProducerClass {
    if assigned == 0 {
        ProducerClass::Unevaluated
    } else if ratio_of(produced, assigned) > threshold {
        ProducerClass::Quality
    } else {
        ProducerClass::Poor
    }
}

/// The class of one schedule entry.
pub open spec fn entry_class(
    entry: LeaderEntry,
    first_slot: int,
    start: int,
    confirmed: Set<u64>,
    threshold: nat,
) -> ProducerClass {
    class_of(
        produced_count(first_slot, start, entry.relative_slots@, confirmed),
        assigned_count(first_slot, start, entry.relative_slots@),
        threshold,
    )
}

/// Whether an entry is evaluated but its identity is not a key.
pub open spec fn entry_unreadable(
    entry: LeaderEntry,
    first_slot: int,
    start: int,
    confirmed: Set<u64>,
    threshold: nat,
) -> bool {
    entry_class(entry, first_slot, start, confirmed, threshold) != ProducerClass::Unevaluated
        && parsed_key(entry.identity@) is None
}

/// The identities of the entries of one class, in schedule order.
pub open spec fn producers_of(
    schedule: Seq<LeaderEntry>,
    first_slot: int,
    start: int,
    confirmed: Set<u64>,
    threshold: nat,
    class: ProducerClass,
) -> Seq<Seq<u8>>
    decreases schedule.len(),
{
    if schedule.len() == 0 {
        Seq::empty()
    } else {
        let rest = producers_of(
            schedule.drop_last(),
            first_slot,
            start,
            confirmed,
            threshold,
            class,
        );
        let entry = schedule.last();
        if entry_class(entry, first_slot, start, confirmed, threshold) == class && parsed_key(
            entry.identity@,
        ) is Some {
            rest.push(parsed_key(entry.identity@).unwrap())
        } else {
            rest
        }
    }
}

/// The set of the listed slots.
pub fn confirmed_set(blocks: &Vec<u64>) -> (r: HashSet<u64>)
    ensures
        r@ == blocks@.to_set(),
{
    broadcast use group_hash_axioms;

    let mut set: HashSet<u64> = HashSet::new();
    let mut i: usize = 0;
    while i < blocks.len()
        invariant
            i <= blocks.len(),
            set@ =~= blocks@.take(i as int).to_set(),
        decreases blocks.len() - i,
    {
        proof {
            let before = blocks@.take(i as int);
            let next = blocks@.take(i + 1);
            assert(next =~= before.push(blocks@[i as int]));
            assert forall|s: u64| next.to_set().contains(s) <==> before.to_set().insert(
                blocks@[i as int],
            ).contains(s) by {
                if next.contains(s) {
                    let k = choose|k: int| 0 <= k < next.len() && next[k] == s;
                    if k < i {
                        assert(before[k] == s);
                    }
                }
                if before.contains(s) {
                    let k = choose|k: int| 0 <= k < before.len() && before[k] == s;
                    assert(next[k] == s);
                }
                assert(next[i as int] == blocks@[i as int]);
            }
            assert(next.to_set() =~= before.to_set().insert(blocks@[i as int]));
        }
        set.insert(blocks[i]);
        i = i + 1;
    }
    proof {
        assert(blocks@.take(i as int) =~= blocks@);
    }
    set
}

/// Whether `slot` is among the confirmed slots.
pub fn is_confirmed(confirmed: &HashSet<u64>, slot: u64) -> (r: bool)
    ensures
        r == slot_confirmed(confirmed@, slot as int),
{
    broadcast use group_hash_axioms;

    confirmed.contains(&slot)
}

/// Counts a validator's leader slots at or after `start`, and those among
/// them that are confirmed. Returns (assigned, produced).
pub fn count_slots(
    first_slot: u64,
    start: u64,
    relative_slots: &Vec<usize>,
    confirmed: &HashSet<u64>,
) -> (r: (usize, usize))
    ensures
        r.0 == assigned_count(first_slot as int, start as int, relative_slots@),
        r.1 == produced_count(first_slot as int, start as int, relative_slots@, confirmed@),
        r.1 <= r.0,
{
    let mut assigned: usize = 0;
    let mut produced: usize = 0;
    let mut i: usize = 0;
    while i < relative_slots.len()
        invariant
            i <= relative_slots.len(),
            produced <= assigned <= i,
            assigned == assigned_count(
                first_slot as int,
                start as int,
                relative_slots@.take(i as int),
            ),
            produced == produced_count(
                first_slot as int,
                start as int,
                relative_slots@.take(i as int),
                confirmed@,
            ),
        decreases relative_slots.len() - i,
    {
        let relative: usize = relative_slots[i];
        proof {
            let next = relative_slots@.take(i + 1);
            assert(next.drop_last() =~= relative_slots@.take(i as int));
            assert(next.last() == relative);
        }
        let slot: u128 = first_slot as u128 + relative as u128;
        if slot >= start as u128 {
            assigned = assigned + 1;
            if slot <= u64::MAX as u128 {
                if is_confirmed(confirmed, slot as u64) {
                    produced = produced + 1;
                }
            }
        }
        i = i + 1;
    }
    proof {
        assert(relative_slots@.take(i as int) =~= relative_slots@);
    }
    (assigned, produced)
}

/// Percentage of assigned slots in which a block was produced, rounded down.
pub fn production_ratio(produced: usize, assigned: usize) -> (r: u128)
    requires
        assigned > 0,
    ensures
        r == ratio_of(produced as nat, assigned as nat),
        r == (produced * 100) / (assigned as int),
{
    (produced as u128 * 100) / (assigned as u128)
}

/// Classifies a validator by its counts.
pub fn classify(produced: usize, assigned: usize, threshold: usize) -> (r: ProducerClass)
    ensures
        r == class_of(produced as nat, assigned as nat, threshold as nat),
        assigned == 0 <==> r == ProducerClass::Unevaluated,
{
    if assigned == 0 {
        ProducerClass::Unevaluated
    } else if production_ratio(produced, assigned) > threshold as u128 {
        ProducerClass::Quality
    } else {
        ProducerClass::Poor
    }
}

/// The first slot that is evaluated, where it lies before the epoch's last
/// slot: the slot from which confirmed blocks and the leader schedule are
/// to be read.
pub fn evaluation_start(window: &EpochWindow, minimum_slot: u64) -> (r: Result<u64, ClassifyError>)
    ensures
        r == (if clamped_start(window.first_slot, minimum_slot) < window.last_slot {
            Ok::<u64, ClassifyError>(clamped_start(window.first_slot, minimum_slot))
        } else {
            Err::<u64, ClassifyError>(
                ClassifyError::HistoryUnavailable {
                    start_slot: clamped_start(window.first_slot, minimum_slot),
                    last_slot: window.last_slot,
                },
            )
        }),
{
    let start: u64 = if minimum_slot > window.first_slot {
        minimum_slot
    } else {
        window.first_slot
    };
    if start >= window.last_slot {
        Err(ClassifyError::HistoryUnavailable { start_slot: start, last_slot: window.last_slot })
    } else {
        Ok(start)
    }
}

/// Classifies the validators of a leader schedule over an epoch.
///
/// The window starts at the epoch's first slot, or at the first retained slot
/// if that is later. Where it does not start before the epoch's last slot,
/// nothing can be evaluated. A validator without a leader slot in the window
/// is in neither class.
pub fn classify_block_producers(
    window: &EpochWindow,
    minimum_slot: u64,
    schedule: &Vec<LeaderEntry>,
    confirmed: &Vec<u64>,
    threshold: usize,
) -> (r: Result<BlockProducers, ClassifyError>)
    ensures
        ({
            let first = window.first_slot as int;
            let start = clamped_start(window.first_slot, minimum_slot);
            match r {
                Ok(p) => {
                    &&& start < window.last_slot
                    &&& forall|j: int|
                        0 <= j < schedule.len() ==> !entry_unreadable(
                            #[trigger] schedule@[j],
                            first,
                            start as int,
                            confirmed@.to_set(),
                            threshold as nat,
                        )
                    &&& key_views(p.quality@) == producers_of(
                        schedule@,
                        first,
                        start as int,
                        confirmed@.to_set(),
                        threshold as nat,
                        ProducerClass::Quality,
                    )
                    &&& key_views(p.poor@) == producers_of(
                        schedule@,
                        first,
                        start as int,
                        confirmed@.to_set(),
                        threshold as nat,
                        ProducerClass::Poor,
                    )
                },
                Err(ClassifyError::HistoryUnavailable { start_slot, last_slot }) => {
                    &&& start >= window.last_slot
                    &&& start_slot == start
                    &&& last_slot == window.last_slot
                },
                Err(ClassifyError::InvalidIdentity { index }) => {
                    &&& start < window.last_slot
                    &&& index < schedule.len()
                    &&& entry_unreadable(
                        schedule@[index as int],
                        first,
                        start as int,
                        confirmed@.to_set(),
                        threshold as nat,
                    )
                    &&& forall|j: int|
                        0 <= j < index ==> !entry_unreadable(
                            #[trigger] schedule@[j],
                            first,
                            start as int,
                            confirmed@.to_set(),
                            threshold as nat,
                        )
                },
            }
        }),
{
    let first_slot = window.first_slot;
    let start: u64 = match evaluation_start(window, minimum_slot) {
        Ok(start) => start,
        Err(e) => {
            return Err(e);
        },
    };
    let confirmed_slots = confirmed_set(confirmed);
    let mut quality: Vec<Key> = Vec::new();
    let mut poor: Vec<Key> = Vec::new();
    let mut i: usize = 0;
    proof {
        assert(key_views(quality@) =~= Seq::<Seq<u8>>::empty());
        assert(key_views(poor@) =~= Seq::<Seq<u8>>::empty());
    }
    while i < schedule.len()
        invariant
            i <= schedule.len(),
            start == clamped_start(window.first_slot, minimum_slot),
            first_slot == window.first_slot,
            start < window.last_slot,
            confirmed_slots@ == confirmed@.to_set(),
            forall|j: int|
                0 <= j < i ==> !entry_unreadable(
                    #[trigger] schedule@[j],
                    first_slot as int,
                    start as int,
                    confirmed@.to_set(),
                    threshold as nat,
                ),
            key_views(quality@) == producers_of(
                schedule@.take(i as int),
                first_slot as int,
                start as int,
                confirmed@.to_set(),
                threshold as nat,
                ProducerClass::Quality,
            ),
            key_views(poor@) == producers_of(
                schedule@.take(i as int),
                first_slot as int,
                start as int,
                confirmed@.to_set(),
                threshold as nat,
                ProducerClass::Poor,
            ),
        decreases schedule.len() - i,
    {
        let entry = &schedule[i];
        let counts = count_slots(first_slot, start, &entry.relative_slots, &confirmed_slots);
        let class = classify(counts.1, counts.0, threshold);
        proof {
            let next = schedule@.take(i + 1);
            assert(next.drop_last() =~= schedule@.take(i as int));
            assert(next.last() == schedule@[i as int]);
        }
        match class {
            ProducerClass::Unevaluated => {},
            ProducerClass::Quality => {
                match parse_key(entry.identity.as_str()) {
                    None => {
                        return Err(ClassifyError::InvalidIdentity { index: i });
                    },
                    Some(key) => {
                        let ghost before = quality@;
                        quality.push(key);
                        assert(key_views(quality@) =~= key_views(before).push(key@));
                    },
                }
            },
            ProducerClass::Poor => {
                match parse_key(entry.identity.as_str()) {
                    None => {
                        return Err(ClassifyError::InvalidIdentity { index: i });
                    },
                    Some(key) => {
                        let ghost before = poor@;
                        poor.push(key);
                        assert(key_views(poor@) =~= key_views(before).push(key@));
                    },
                }
            },
        }
        i = i + 1;
    }
    proof {
        assert(schedule@.take(i as int) =~= schedule@);
    }
    Ok(BlockProducers { quality, poor })
}

/// A validator whose every schedule entry has no leader slot in the window
/// is in neither class.
pub proof fn unassigned_is_unclassified(
    schedule: Seq<LeaderEntry>,
    first_slot: int,
    start: int,
    confirmed: Set<u64>,
    threshold: nat,
    class: ProducerClass,
    key: Seq<u8>,
)
    requires
        class != ProducerClass::Unevaluated,
        forall|j: int|
            0 <= j < schedule.len() && parsed_key((#[trigger] schedule[j]).identity@) == Some(key)
                ==> assigned_count(first_slot, start, schedule[j].relative_slots@) == 0,
    ensures
        !producers_of(schedule, first_slot, start, confirmed, threshold, class).contains(key),
    decreases schedule.len(),
{
    if schedule.len() > 0 {
        let rest = schedule.drop_last();
        assert forall|j: int|
            0 <= j < rest.len() && parsed_key((#[trigger] rest[j]).identity@) == Some(
                key,
            ) implies assigned_count(first_slot, start, rest[j].relative_slots@) == 0 by {
            assert(rest[j] == schedule[j]);
        }
        unassigned_is_unclassified(rest, first_slot, start, confirmed, threshold, class, key);
        let before = producers_of(rest, first_slot, start, confirmed, threshold, class);
        let entry = schedule.last();
        assert(entry == schedule[schedule.len() - 1]);
        let all = producers_of(schedule, first_slot, start, confirmed, threshold, class);
        if all.contains(key) {
            let k = choose|k: int| 0 <= k < all.len() && all[k] == key;
            if k < before.len() {
                assert(before[k] == key);
                assert(before.contains(key));
            }
        }
    }
}

/// Every listed identity comes from a schedule entry of that class.
pub proof fn producer_has_entry(
    schedule: Seq<LeaderEntry>,
    first_slot: int,
    start: int,
    confirmed: Set<u64>,
    threshold: nat,
    class: ProducerClass,
    key: Seq<u8>,
)
    requires
        producers_of(schedule, first_slot, start, confirmed, threshold, class).contains(key),
    ensures
        exists|j: int|
            0 <= j < schedule.len() && parsed_key((#[trigger] schedule[j]).identity@) == Some(key)
                && entry_class(schedule[j], first_slot, start, confirmed, threshold) == class,
    decreases schedule.len(),
{
    let all = producers_of(schedule, first_slot, start, confirmed, threshold, class);
    if schedule.len() > 0 {
        let rest = schedule.drop_last();
        let before = producers_of(rest, first_slot, start, confirmed, threshold, class);
        let k = choose|k: int| 0 <= k < all.len() && all[k] == key;
        if k < before.len() {
            assert(before[k] == key);
            producer_has_entry(rest, first_slot, start, confirmed, threshold, class, key);
            let j = choose|j: int|
                0 <= j < rest.len() && parsed_key((#[trigger] rest[j]).identity@) == Some(key)
                    && entry_class(rest[j], first_slot, start, confirmed, threshold) == class;
            assert(schedule[j] == rest[j]);
        } else {
            let j = schedule.len() - 1;
            assert(schedule[j] == schedule.last());
        }
    }
}

/// Where no two schedule entries name the same validator, the two classes
/// are disjoint: no validator is both a quality and a poor producer.
pub proof fn classes_are_disjoint(
    schedule: Seq<LeaderEntry>,
    first_slot: int,
    start: int,
    confirmed: Set<u64>,
    threshold: nat,
    key: Seq<u8>,
)
    requires
        forall|i: int, j: int|
            0 <= i < j < schedule.len() && parsed_key((#[trigger] schedule[i]).identity@) is Some
                ==> parsed_key(schedule[i].identity@) != parsed_key(
                (#[trigger] schedule[j]).identity@,
            ),
    ensures
        !(producers_of(
            schedule,
            first_slot,
            start,
            confirmed,
            threshold,
            ProducerClass::Quality,
        ).contains(key) && producers_of(
            schedule,
            first_slot,
            start,
            confirmed,
            threshold,
            ProducerClass::Poor,
        ).contains(key)),
{
    let quality = producers_of(
        schedule,
        first_slot,
        start,
        confirmed,
        threshold,
        ProducerClass::Quality,
    );
    let poor = producers_of(schedule, first_slot, start, confirmed, threshold, ProducerClass::Poor);
    if quality.contains(key) && poor.contains(key) {
        producer_has_entry(
            schedule,
            first_slot,
            start,
            confirmed,
            threshold,
            ProducerClass::Quality,
            key,
        );
        producer_has_entry(
            schedule,
            first_slot,
            start,
            confirmed,
            threshold,
            ProducerClass::Poor,
            key,
        );
        let i = choose|i: int|
            0 <= i < schedule.len() && parsed_key((#[trigger] schedule[i]).identity@) == Some(key)
                && entry_class(schedule[i], first_slot, start, confirmed, threshold)
                == ProducerClass::Quality;
        let j = choose|j: int|
            0 <= j < schedule.len() && parsed_key((#[trigger] schedule[j]).identity@) == Some(key)
                && entry_class(schedule[j], first_slot, start, confirmed, threshold)
                == ProducerClass::Poor;
        if i < j {
            assert(parsed_key(schedule[i].identity@) != parsed_key(schedule[j].identity@));
        } else if j < i {
            assert(parsed_key(schedule[j].identity@) != parsed_key(schedule[i].identity@));
        }
    }
}

} // verus!
