//! Following a batch of transactions from submission to finality.
//!
//! The caller does the outside work (fees, signing, sending, waiting, status
//! lookups) and reports each result here; the batch holds the state of every
//! transaction and says what is to be done next.

use vstd::prelude::*;

verus! {

/// Why a transaction failed.
#[derive(Clone, Copy, Debug, PartialEq, Eq)]
pub enum FailureReason {
    /// It was refused on submission.
    Rejected,
    /// The batch's blockhash expired while it was pending.
    Expired,
    /// It was finalized with an execution error.
    ExecutionFailed,
}

/// The state of one transaction.
#[derive(Clone, Copy, Debug, PartialEq, Eq)]
pub enum TxState {
    Unsent,
    Pending,
    FinalizedSuccess,
    FinalizedFailure(FailureReason),
}

/// What a status lookup says of one pending transaction.
#[derive(Clone, Copy, Debug, PartialEq, Eq)]
pub enum StatusReply {
    /// The chain does not know the transaction.
    Unknown,
    /// It still gathers confirmations.
    Confirming,
    /// No confirmation remains to be gathered.
    Finalized { failed: bool },
}

/// What to do with a batch before anything is sent.
#[derive(Clone, Copy, Debug, PartialEq, Eq)]
pub enum Preflight {
    /// The authority cannot pay the fees: nothing is sent.
    InsufficientFunds,
    /// A simulated run with transactions to send: stop for review.
    ReviewRequired,
    /// Sign and submit every transaction.
    Proceed,
}

/// What a batch asks for next.
#[derive(Clone, Copy, Debug, PartialEq, Eq)]
pub enum NextStep {
    /// Some transaction was not submitted yet.
    Submit,
    /// Wait, then check the blockhash and look up the pending transactions.
    Poll,
    /// No transaction is unsent or pending.
    Done,
}

/// Milliseconds between two polls.
pub const POLL_INTERVAL_MS: u64 = 2000;

/// A batch of transactions, by position: the memo and the state of each,
/// and the correlation id under which a submitted one is looked up.
#[derive(Debug)]
pub struct Batch {
    memos: Vec<String>,
    ids: Vec<Option<String>>,
    states: Vec<TxState>,
}

/// The sum of the fees.
pub open spec fn fee_sum(fees: Seq<u64>) -> nat
    decreases fees.len(),
{
    if fees.len() == 0 {
        0
    } else {
        fee_sum(fees.drop_last()) + fees.last() as nat
    }
}

/// The decision before sending: the fees of all transactions must be
/// covered; a simulated run stops before a batch that is not empty.
pub open spec fn preflight_of(dry_run: bool, fees: Seq<u64>, balance: u64) -> Preflight {
    if fee_sum(fees) > balance {
        Preflight::InsufficientFunds
    } else if dry_run && fees.len() > 0 {
        Preflight::ReviewRequired
    } else {
        Preflight::Proceed
    }
}

/// Number of pending transactions before position `i`.
pub open spec fn pending_before(states: Seq<TxState>, i: int) -> nat
    decreases i,
{
    if i <= 0 {
        0
    } else {
        pending_before(states, i - 1) + if states[i - 1] == TxState::Pending {
            1nat
        } else {
            0nat
        }
    }
}

/// The state that a reply leaves a pending transaction in.
pub open spec fn state_for(reply: StatusReply) -> TxState {
    match reply {
        StatusReply::Finalized { failed } => if failed {
            TxState::FinalizedFailure(FailureReason::ExecutionFailed)
        } else {
            TxState::FinalizedSuccess
        },
        _ => TxState::Pending,
    }
}

/// The state at position `i` after the replies, which answer the pending
/// transactions in the order of their positions. A pending transaction
/// without a reply stays pending; the others are not touched.
pub open spec fn state_after(states: Seq<TxState>, replies: Seq<StatusReply>, i: int) -> TxState {
    if states[i] == TxState::Pending && pending_before(states, i) < replies.len() {
        state_for(replies[pending_before(states, i) as int])
    } else {
        states[i]
    }
}

/// The state at position `i` after the blockhash expired.
pub open spec fn state_expired(states: Seq<TxState>, i: int) -> TxState {
    if states[i] == TxState::Pending {
        TxState::FinalizedFailure(FailureReason::Expired)
    } else {
        states[i]
    }
}

/// Whether a state is final.
pub open spec fn is_final(s: TxState) -> bool {
    s == TxState::FinalizedSuccess || s is FinalizedFailure
}

/// The positions of the pending transactions, ascending.
pub open spec fn pending_positions_of(states: Seq<TxState>) -> Seq<usize>
    decreases states.len(),
{
    if states.len() == 0 {
        Seq::empty()
    } else {
        let rest = pending_positions_of(states.drop_last());
        if states.last() == TxState::Pending {
            rest.push((states.len() - 1) as usize)
        } else {
            rest
        }
    }
}

/// The finalized transactions, each as success and memo, by position.
pub open spec fn outcomes_of(states: Seq<TxState>, memos: Seq<Seq<char>>) -> Seq<(bool, Seq<char>)>
    decreases states.len(),
{
    if states.len() == 0 || memos.len() != states.len() {
        Seq::empty()
    } else {
        let rest = outcomes_of(states.drop_last(), memos.drop_last());
        if is_final(states.last()) {
            rest.push((states.last() == TxState::FinalizedSuccess, memos.last()))
        } else {
            rest
        }
    }
}

/// The views of a list of outcomes.
pub open spec fn outcome_views(outcomes: Seq<(bool, String)>) -> Seq<(bool, Seq<char>)> {
    outcomes.map_values(|p: (bool, String)| (p.0, p.1@))
}

/// The view of a correlation id, where there is one.
pub open spec fn id_view(id: Option<String>) -> Option<Seq<char>> {
    match id {
        Some(s) => Some(s@),
        None => None,
    }
}

/// The views of a list of correlation ids.
pub open spec fn id_views(ids: Seq<Option<String>>) -> Seq<Option<Seq<char>>> {
    ids.map_values(|id: Option<String>| id_view(id))
}

/// The correlation ids of the pending transactions, by position.
pub open spec fn pending_ids_of(states: Seq<TxState>, ids: Seq<Option<Seq<char>>>) -> Seq<
    Seq<char>,
>
    decreases states.len(),
{
    if states.len() == 0 || ids.len() != states.len() {
        Seq::empty()
    } else {
        let rest = pending_ids_of(states.drop_last(), ids.drop_last());
        if states.last() == TxState::Pending && ids.last() is Some {
            rest.push(ids.last().unwrap())
        } else {
            rest
        }
    }
}

/// The views of a list of memos.
pub open spec fn memo_views(memos: Seq<String>) -> Seq<Seq<char>> {
    memos.map_values(|m: String| m@)
}

/// What the batch asks for with the given states.
pub open spec fn next_step_of(states: Seq<TxState>) -> NextStep {
    if exists|i: int| 0 <= i < states.len() && #[trigger] states[i] == TxState::Unsent {
        NextStep::Submit
    } else if exists|i: int| 0 <= i < states.len() && #[trigger] states[i] == TxState::Pending {
        NextStep::Poll
    } else {
        NextStep::Done
    }
}

/// Whether the next stage may run: every transaction of this one succeeded.
pub open spec fn all_succeeded(outcomes: Seq<(bool, Seq<char>)>) -> bool {
    forall|i: int| 0 <= i < outcomes.len() ==> (#[trigger] outcomes[i]).0
}

/// The sum of the fees, where it fits.
pub fn total_fee(fees: &Vec<u64>) -> (r: Option<u64>)
    ensures
        r is Some <==> fee_sum(fees@) <= u64::MAX,
        r is Some ==> r.unwrap() == fee_sum(fees@),
{
    let mut total: u64 = 0;
    let mut i: usize = 0;
    while i < fees.len()
        invariant
            i <= fees.len(),
            total == fee_sum(fees@.take(i as int)),
        decreases fees.len() - i,
    {
        proof {
            let next = fees@.take(i + 1);
            assert(next.drop_last() =~= fees@.take(i as int));
            assert(next.last() == fees@[i as int]);
            fee_sum_grows(fees@, i + 1);
        }
        match total.checked_add(fees[i]) {
            Some(sum) => {
                total = sum;
            },
            None => {
                return None;
            },
        }
        i = i + 1;
    }
    proof {
        assert(fees@.take(i as int) =~= fees@);
    }
    Some(total)
}

/// The fees of a part of a batch are at most those of the whole.
pub proof fn fee_sum_grows(fees: Seq<u64>, n: int)
    requires
        0 <= n <= fees.len(),
    ensures
        fee_sum(fees.take(n)) <= fee_sum(fees),
    decreases fees.len() - n,
{
    if n == fees.len() {
        assert(fees.take(n) =~= fees);
    } else {
        fee_sum_grows(fees, n + 1);
        let next = fees.take(n + 1);
        assert(next.drop_last() =~= fees.take(n));
    }
}

/// Decides whether a batch with the given fees is sent.
pub fn preflight(dry_run: bool, fees: &Vec<u64>, balance: u64) -> (r: Preflight)
    ensures
        r == preflight_of(dry_run, fees@, balance),
{
    match total_fee(fees) {
        None => Preflight::InsufficientFunds,
        Some(required) => {
            if required > balance {
                Preflight::InsufficientFunds
            } else if dry_run && fees.len() > 0 {
                Preflight::ReviewRequired
            } else {
                Preflight::Proceed
            }
        },
    }
}

/// Whether every outcome is a success.
pub fn delegation_allowed(create_outcomes: &Vec<(bool, String)>) -> (r: bool)
    ensures
        r == all_succeeded(outcome_views(create_outcomes@)),
        (exists|i: int| 0 <= i < create_outcomes.len() && !(#[trigger] create_outcomes@[i]).0)
            ==> !r,
{
    let mut i: usize = 0;
    while i < create_outcomes.len()
        invariant
            i <= create_outcomes.len(),
            forall|j: int| 0 <= j < i ==> (#[trigger] create_outcomes@[j]).0,
        decreases create_outcomes.len() - i,
    {
        if !create_outcomes[i].0 {
            assert(!outcome_views(create_outcomes@)[i as int].0);
            return false;
        }
        i = i + 1;
    }
    assert forall|j: int| 0 <= j < outcome_views(create_outcomes@).len() implies (
    #[trigger] outcome_views(create_outcomes@)[j]).0 by {
        assert(create_outcomes@[j].0);
    }
    true
}

impl Batch {
    /// The state of each transaction, by position.
    pub closed spec fn states(&self) -> Seq<TxState> {
        self.states@
    }

    /// The memo of each transaction, by position.
    pub closed spec fn memos(&self) -> Seq<Seq<char>> {
        memo_views(self.memos@)
    }

    /// The correlation id of each transaction that was accepted, by position.
    pub closed spec fn ids(&self) -> Seq<Option<Seq<char>>> {
        id_views(self.ids@)
    }

    /// Every transaction has a memo and a state, and every pending one a
    /// correlation id.
    pub closed spec fn wf(&self) -> bool {
        &&& self.memos@.len() == self.states@.len()
        &&& self.ids@.len() == self.states@.len()
        &&& forall|i: int|
            0 <= i < self.states@.len() && #[trigger] self.states@[i] == TxState::Pending
                ==> self.ids@[i] is Some
    }

    /// A batch of unsent transactions with the given memos.
    pub fn new(memos: Vec<String>) -> (r: Batch)
        ensures
            r.wf(),
            r.memos() == memo_views(memos@),
            r.states().len() == memos.len(),
            r.ids().len() == memos.len(),
            forall|i: int| 0 <= i < r.states().len() ==> r.states()[i] == TxState::Unsent,
            forall|i: int| 0 <= i < r.ids().len() ==> r.ids()[i] is None,
    {
        let mut states: Vec<TxState> = Vec::new();
        let mut ids: Vec<Option<String>> = Vec::new();
        let mut i: usize = 0;
        while i < memos.len()
            invariant
                i <= memos.len(),
                states.len() == i,
                ids.len() == i,
                forall|j: int| 0 <= j < i ==> states@[j] == TxState::Unsent,
                forall|j: int| 0 <= j < i ==> ids@[j] is None,
            decreases memos.len() - i,
        {
            states.push(TxState::Unsent);
            ids.push(None);
            i = i + 1;
        }
        Batch { memos, ids, states }
    }

    /// Number of transactions.
    pub fn len(&self) -> (r: usize)
        requires
            self.wf(),
        ensures
            r == self.states().len(),
            r == self.memos().len(),
    {
        self.states.len()
    }

    /// The state of the transaction at `position`, if there is one.
    pub fn state(&self, position: usize) -> (r: Option<TxState>)
        ensures
            r == (if position < self.states().len() {
                Some(self.states()[position as int])
            } else {
                None
            }),
    {
        if position < self.states.len() {
            Some(self.states[position])
        } else {
            None
        }
    }

    /// The correlation id of the transaction at `position`, if it has one.
    pub fn correlation_id(&self, position: usize) -> (r: Option<String>)
        requires
            self.wf(),
        ensures
            id_view(r) == (if position < self.ids().len() {
                self.ids()[position as int]
            } else {
                None
            }),
    {
        if position < self.ids.len() {
            match &self.ids[position] {
                Some(id) => Some(id.clone()),
                None => None,
            }
        } else {
            None
        }
    }

    /// Records what became of submitting the transaction at `position`: with
    /// a correlation id it was accepted and is pending, without one it was
    /// refused and has failed. Returns whether there was an unsent
    /// transaction there; otherwise nothing changes.
    pub fn record_submission(&mut self, position: usize, outcome: Option<String>) -> (r: bool)
        requires
            old(self).wf(),
        ensures
            final(self).wf(),
            final(self).memos() == old(self).memos(),
            r == (position < old(self).states().len() && old(self).states()[position as int]
                == TxState::Unsent),
            r ==> final(self).states() == old(self).states().update(
                position as int,
                if outcome is Some {
                    TxState::Pending
                } else {
                    TxState::FinalizedFailure(FailureReason::Rejected)
                },
            ),
            r ==> final(self).ids() == old(self).ids().update(position as int, id_view(outcome)),
            !r ==> final(self).states() == old(self).states(),
            !r ==> final(self).ids() == old(self).ids(),
    {
        if position >= self.states.len() {
            return false;
        }
        match self.states[position] {
            TxState::Unsent => {
                let next = if outcome.is_some() {
                    TxState::Pending
                } else {
                    TxState::FinalizedFailure(FailureReason::Rejected)
                };
                self.states.set(position, next);
                self.ids.set(position, outcome);
                assert(id_views(self.ids@) =~= id_views(old(self).ids@).update(
                    position as int,
                    id_view(outcome),
                ));
                true
            },
            _ => false,
        }
    }

    /// What is to be done next.
    pub fn next_step(&self) -> (r: NextStep)
        ensures
            r == next_step_of(self.states()),
    {
        let mut pending: bool = false;
        let mut i: usize = 0;
        while i < self.states.len()
            invariant
                i <= self.states.len(),
                forall|j: int| 0 <= j < i ==> self.states@[j] != TxState::Unsent,
                pending == (exists|j: int| 0 <= j < i && #[trigger] self.states@[j] == TxState::Pending),
            decreases self.states.len() - i,
        {
            match self.states[i] {
                TxState::Unsent => {
                    return NextStep::Submit;
                },
                TxState::Pending => {
                    pending = true;
                },
                _ => {},
            }
            i = i + 1;
        }
        if pending {
            NextStep::Poll
        } else {
            NextStep::Done
        }
    }

    /// The positions of the pending transactions, ascending: the order in
    /// which a status lookup answers them.
    pub fn pending_positions(&self) -> (r: Vec<usize>)
        ensures
            r@ == pending_positions_of(self.states()),
    {
        let mut out: Vec<usize> = Vec::new();
        let mut i: usize = 0;
        while i < self.states.len()
            invariant
                i <= self.states.len(),
                out@ == pending_positions_of(self.states@.take(i as int)),
            decreases self.states.len() - i,
        {
            proof {
                let next = self.states@.take(i + 1);
                assert(next.drop_last() =~= self.states@.take(i as int));
                assert(next.last() == self.states@[i as int]);
            }
            match self.states[i] {
                TxState::Pending => {
                    out.push(i);
                },
                _ => {},
            }
            i = i + 1;
        }
        proof {
            assert(self.states@.take(i as int) =~= self.states@);
        }
        out
    }

    /// The correlation ids of the pending transactions, by position: what a
    /// status lookup is asked for.
    pub fn pending_ids(&self) -> (r: Vec<String>)
        requires
            self.wf(),
        ensures
            memo_views(r@) == pending_ids_of(self.states(), self.ids()),
            r.len() == pending_positions_of(self.states()).len(),
    {
        let mut out: Vec<String> = Vec::new();
        let mut i: usize = 0;
        proof {
            assert(memo_views(out@) =~= Seq::<Seq<char>>::empty());
            assert(id_views(self.ids@).take(0) =~= Seq::<Option<Seq<char>>>::empty());
        }
        while i < self.states.len()
            invariant
                i <= self.states.len(),
                self.wf(),
                memo_views(out@) == pending_ids_of(
                    self.states@.take(i as int),
                    id_views(self.ids@).take(i as int),
                ),
                out.len() == pending_positions_of(self.states@.take(i as int)).len(),
            decreases self.states.len() - i,
        {
            proof {
                let next = self.states@.take(i + 1);
                let names = id_views(self.ids@).take(i + 1);
                assert(next.drop_last() =~= self.states@.take(i as int));
                assert(names.drop_last() =~= id_views(self.ids@).take(i as int));
                assert(next.last() == self.states@[i as int]);
                assert(names.last() == id_view(self.ids@[i as int]));
            }
            let ghost before = out@;
            match self.states[i] {
                TxState::Pending => {
                    match &self.ids[i] {
                        Some(id) => {
                            out.push(id.clone());
                            assert(memo_views(out@) =~= memo_views(before).push(id@));
                        },
                        None => {},
                    }
                },
                _ => {},
            }
            i = i + 1;
        }
        proof {
            assert(self.states@.take(i as int) =~= self.states@);
            assert(id_views(self.ids@).take(i as int) =~= id_views(self.ids@));
        }
        out
    }

    /// The blockhash of the batch is no longer valid: every pending
    /// transaction has failed as expired, and nothing else changes.
    pub fn expire(&mut self)
        requires
            old(self).wf(),
        ensures
            final(self).wf(),
            final(self).memos() == old(self).memos(),
            final(self).ids() == old(self).ids(),
            final(self).states().len() == old(self).states().len(),
            forall|i: int|
                0 <= i < old(self).states().len() ==> #[trigger] final(self).states()[i]
                    == state_expired(old(self).states(), i),
            forall|i: int|
                0 <= i < final(self).states().len() ==> #[trigger] final(self).states()[i]
                    != TxState::Pending,
    {
        let mut i: usize = 0;
        while i < self.states.len()
            invariant
                i <= self.states.len(),
                self.memos == old(self).memos,
                self.ids == old(self).ids,
                old(self).wf(),
                self.states.len() == old(self).states.len(),
                forall|j: int|
                    0 <= j < i ==> #[trigger] self.states@[j] == state_expired(old(self).states@, j),
                forall|j: int|
                    i <= j < self.states.len() ==> #[trigger] self.states@[j] == old(
                        self,
                    ).states@[j],
            decreases self.states.len() - i,
        {
            match self.states[i] {
                TxState::Pending => {
                    self.states.set(i, TxState::FinalizedFailure(FailureReason::Expired));
                },
                _ => {},
            }
            i = i + 1;
        }
    }

    /// Takes the replies of a status lookup, which answer the pending
    /// transactions in the order of their positions. A transaction that is
    /// reported finalized has succeeded unless an error is attached; the
    /// others stay pending. No transaction becomes pending, and none that
    /// was final changes.
    pub fn apply_statuses(&mut self, replies: &Vec<StatusReply>)
        requires
            old(self).wf(),
        ensures
            final(self).wf(),
            final(self).memos() == old(self).memos(),
            final(self).ids() == old(self).ids(),
            final(self).states().len() == old(self).states().len(),
            forall|i: int|
                0 <= i < old(self).states().len() ==> #[trigger] final(self).states()[i]
                    == state_after(old(self).states(), replies@, i),
            forall|i: int|
                0 <= i < old(self).states().len() && #[trigger] final(self).states()[i]
                    == TxState::Pending ==> old(self).states()[i] == TxState::Pending,
            forall|i: int|
                0 <= i < old(self).states().len() && old(self).states()[i] != TxState::Pending
                    ==> #[trigger] final(self).states()[i] == old(self).states()[i],
    {
        let mut seen: usize = 0;
        let mut i: usize = 0;
        while i < self.states.len()
            invariant
                i <= self.states.len(),
                self.memos == old(self).memos,
                self.ids == old(self).ids,
                old(self).wf(),
                self.states.len() == old(self).states.len(),
                seen <= i,
                seen == pending_before(old(self).states@, i as int),
                forall|j: int|
                    0 <= j < i ==> #[trigger] self.states@[j] == state_after(
                        old(self).states@,
                        replies@,
                        j,
                    ),
                forall|j: int|
                    i <= j < self.states.len() ==> #[trigger] self.states@[j] == old(
                        self,
                    ).states@[j],
            decreases self.states.len() - i,
        {
            match self.states[i] {
                TxState::Pending => {
                    if seen < replies.len() {
                        match replies[seen] {
                            StatusReply::Finalized { failed } => {
                                let next = if failed {
                                    TxState::FinalizedFailure(FailureReason::ExecutionFailed)
                                } else {
                                    TxState::FinalizedSuccess
                                };
                                self.states.set(i, next);
                            },
                            _ => {},
                        }
                    }
                    seen = seen + 1;
                },
                _ => {},
            }
            i = i + 1;
        }
    }

    /// The finalized transactions, each as success and memo, by position.
    pub fn outcomes(&self) -> (r: Vec<(bool, String)>)
        requires
            self.wf(),
        ensures
            outcome_views(r@) == outcomes_of(self.states(), self.memos()),
    {
        let mut out: Vec<(bool, String)> = Vec::new();
        let mut i: usize = 0;
        proof {
            assert(outcome_views(out@) =~= Seq::<(bool, Seq<char>)>::empty());
            assert(memo_views(self.memos@).take(0) =~= Seq::<Seq<char>>::empty());
        }
        while i < self.states.len()
            invariant
                i <= self.states.len(),
                self.memos@.len() == self.states@.len(),
                outcome_views(out@) == outcomes_of(
                    self.states@.take(i as int),
                    memo_views(self.memos@).take(i as int),
                ),
            decreases self.states.len() - i,
        {
            proof {
                let next = self.states@.take(i + 1);
                let names = memo_views(self.memos@).take(i + 1);
                assert(next.drop_last() =~= self.states@.take(i as int));
                assert(names.drop_last() =~= memo_views(self.memos@).take(i as int));
                assert(next.last() == self.states@[i as int]);
                assert(names.last() == self.memos@[i as int]@);
            }
            let ghost before = out@;
            match self.states[i] {
                TxState::FinalizedSuccess => {
                    let memo = self.memos[i].clone();
                    out.push((true, memo));
                    assert(outcome_views(out@) =~= outcome_views(before).push(
                        (true, self.memos@[i as int]@),
                    ));
                },
                TxState::FinalizedFailure(_) => {
                    let memo = self.memos[i].clone();
                    out.push((false, memo));
                    assert(outcome_views(out@) =~= outcome_views(before).push(
                        (false, self.memos@[i as int]@),
                    ));
                },
                _ => {},
            }
            i = i + 1;
        }
        proof {
            assert(self.states@.take(i as int) =~= self.states@);
            assert(memo_views(self.memos@).take(i as int) =~= memo_views(self.memos@));
        }
        out
    }
}

/// The batch that follows a finished one: there is none unless every
/// transaction of the finished one succeeded, so that nothing is submitted
/// against an account that was not created.
pub fn next_batch(previous: &Vec<(bool, String)>, memos: Vec<String>) -> (r: Option<Batch>)
    ensures
        r is Some <==> all_succeeded(outcome_views(previous@)),
        match r {
            Some(batch) => {
                &&& batch.wf()
                &&& batch.memos() == memo_views(memos@)
                &&& batch.states().len() == memos.len()
                &&& forall|i: int|
                    0 <= i < batch.states().len() ==> batch.states()[i] == TxState::Unsent
                &&& forall|i: int| 0 <= i < batch.ids().len() ==> batch.ids()[i] is None
            },
            None => true,
        },
{
    if delegation_allowed(previous) {
        Some(Batch::new(memos))
    } else {
        None
    }
}

/// A transaction that failed keeps the next stage from running: the
/// outcomes of a batch with a failed transaction are not all successes.
pub proof fn failure_blocks_next_stage(states: Seq<TxState>, memos: Seq<Seq<char>>, i: int)
    requires
        states.len() == memos.len(),
        0 <= i < states.len(),
        states[i] is FinalizedFailure,
    ensures
        !all_succeeded(outcomes_of(states, memos)),
    decreases states.len(),
{
    let all = outcomes_of(states, memos);
    let rest = outcomes_of(states.drop_last(), memos.drop_last());
    if i == states.len() - 1 {
        assert(all == rest.push((false, memos.last())));
        assert(!all[all.len() - 1].0);
    } else {
        failure_blocks_next_stage(states.drop_last(), memos.drop_last(), i);
        let k = choose|k: int| 0 <= k < rest.len() && !(#[trigger] rest[k]).0;
        assert(all[k] == rest[k]);
    }
}

/// A batch that is done reports every transaction: its outcomes are, position
/// by position, whether the transaction succeeded, and its memo.
pub proof fn done_batch_reports_all(states: Seq<TxState>, memos: Seq<Seq<char>>)
    requires
        states.len() == memos.len(),
        next_step_of(states) == NextStep::Done,
    ensures
        outcomes_of(states, memos).len() == states.len(),
        forall|i: int|
            0 <= i < states.len() ==> #[trigger] outcomes_of(states, memos)[i] == (
                states[i] == TxState::FinalizedSuccess,
                memos[i],
            ),
    decreases states.len(),
{
    if states.len() > 0 {
        let rest = states.drop_last();
        let names = memos.drop_last();
        assert forall|i: int| 0 <= i < rest.len() implies #[trigger] rest[i] != TxState::Unsent
            && rest[i] != TxState::Pending by {
            assert(states[i] != TxState::Unsent);
            assert(states[i] != TxState::Pending);
        }
        done_batch_reports_all(rest, names);
        let last = states.len() - 1;
        assert(states[last] != TxState::Unsent);
        assert(states[last] != TxState::Pending);
        assert(is_final(states.last()));
        assert forall|i: int| 0 <= i < states.len() implies #[trigger] outcomes_of(
            states,
            memos,
        )[i] == (states[i] == TxState::FinalizedSuccess, memos[i]) by {
            if i < last {
                assert(outcomes_of(rest, names)[i] == (
                    rest[i] == TxState::FinalizedSuccess,
                    names[i],
                ));
            }
        }
    }
}

/// After an expiry no transaction is pending: if none is unsent either, the
/// batch is done.
pub proof fn expired_batch_is_done(before: Seq<TxState>, after: Seq<TxState>)
    requires
        after.len() == before.len(),
        forall|i: int| 0 <= i < before.len() ==> #[trigger] after[i] == state_expired(before, i),
        forall|i: int| 0 <= i < before.len() ==> #[trigger] before[i] != TxState::Unsent,
    ensures
        next_step_of(after) == NextStep::Done,
        forall|i: int|
            0 <= i < before.len() && before[i] == TxState::Pending ==> #[trigger] after[i]
                == TxState::FinalizedFailure(FailureReason::Expired),
{
    assert forall|i: int| 0 <= i < after.len() implies #[trigger] after[i] != TxState::Unsent
        && after[i] != TxState::Pending by {
        assert(after[i] == state_expired(before, i));
        assert(before[i] != TxState::Unsent);
    }
}

} // verus!
