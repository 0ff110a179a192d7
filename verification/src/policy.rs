//! The staking decisions: which stake accounts to create, and which to
//! delegate or deactivate, for each whitelisted validator.

use crate::keys::{contains_key, key_in, Key};
use vstd::prelude::*;

verus! {

/// A validator is current while its root slot is less than this many slots
/// behind the current slot.
pub const CURRENT_TOLERANCE: u64 = 256;

/// Default number of slots a validator may fall behind before it is destaked.
pub const DEFAULT_GRACE_DISTANCE: u64 = 21600;

/// The amounts and distances that the decisions depend on.
#[derive(Clone, Copy, Debug, PartialEq, Eq)]
pub struct PolicyConfig {
    /// Lamports staked with every whitelisted validator that is not delinquent.
    pub baseline_stake_amount: u64,
    /// Lamports staked in addition with quality block producers.
    pub bonus_stake_amount: u64,
    /// Slots behind the current slot after which a validator is destaked.
    pub delinquent_grace_slot_distance: u64,
    /// Whether the run only simulates.
    pub dry_run: bool,
}

/// Default baseline stake: 5000 SOL, in lamports.
pub const DEFAULT_BASELINE_STAKE: u64 = 5_000_000_000_000;

/// Default bonus stake: 50000 SOL, in lamports.
pub const DEFAULT_BONUS_STAKE: u64 = 50_000_000_000_000;

/// The default amounts and grace distance, for a real or a simulated run.
pub fn default_config(dry_run: bool) -> (r: PolicyConfig)
    ensures
        r == (PolicyConfig {
            baseline_stake_amount: DEFAULT_BASELINE_STAKE,
            bonus_stake_amount: DEFAULT_BONUS_STAKE,
            delinquent_grace_slot_distance: DEFAULT_GRACE_DISTANCE,
            dry_run,
        }),
{
    PolicyConfig {
        baseline_stake_amount: DEFAULT_BASELINE_STAKE,
        bonus_stake_amount: DEFAULT_BONUS_STAKE,
        delinquent_grace_slot_distance: DEFAULT_GRACE_DISTANCE,
        dry_run,
    }
}

/// Which of a validator's two stake accounts.
#[derive(Clone, Copy, Debug, PartialEq, Eq)]
pub enum AccountKind {
    Baseline,
    Bonus,
}

/// What was found at a stake account's address.
#[derive(Clone, Copy, Debug, PartialEq, Eq)]
pub struct ObservedAccount {
    pub address: Key,
    pub exists: bool,
    pub balance: u64,
}

/// A whitelisted validator as the chain shows it in this run.
#[derive(Clone, Copy, Debug, PartialEq, Eq)]
pub struct ValidatorState {
    pub identity: Key,
    pub vote_key: Key,
    pub root_slot: u64,
    pub baseline: ObservedAccount,
    pub bonus: ObservedAccount,
}

/// How far a validator's root slot is behind.
#[derive(Clone, Copy, Debug, PartialEq, Eq)]
pub enum Standing {
    /// Within the tolerance.
    Current,
    /// Behind the tolerance, within the grace distance.
    InGrace,
    /// Behind the grace distance.
    Delinquent,
}

/// Why an action is taken, or none.
#[derive(Clone, Copy, Debug, PartialEq, Eq)]
pub enum Reason {
    /// The stake account does not exist yet.
    MissingAccount,
    /// The validator is current.
    Current,
    /// The validator is current and a quality block producer.
    QualityProducer,
    /// The validator is current and no quality block producer.
    PoorProducer,
    /// The validator is behind the grace distance.
    Delinquent,
    /// The validator is behind, within the grace distance.
    InGrace,
}

/// What is to be done.
#[derive(Clone, Copy, Debug, PartialEq, Eq)]
pub enum ActionKind {
    CreateBaseline,
    CreateBonus,
    DelegateBaseline,
    DelegateBonus,
    DeactivateBaseline,
    DeactivateBonus,
    NoOp,
}

/// One action, for the validator at the given position of the input.
#[derive(Clone, Copy, Debug, PartialEq, Eq)]
pub struct Action {
    pub kind: ActionKind,
    pub validator: usize,
    pub reason: Reason,
}

/// One status event for the metrics collaborator.
#[derive(Clone, Copy, Debug, PartialEq, Eq)]
pub struct StatusReport {
    pub validator: usize,
    pub slot: u64,
    pub ok: bool,
}

/// The outcome of the decisions: the accounts to create, then the
/// delegations and deactivations, each in input order.
#[derive(Clone, Debug, PartialEq, Eq)]
pub struct Plan {
    pub create: Vec<Action>,
    pub delegate: Vec<Action>,
    /// Lamports that the new accounts take from the source account.
    pub funding_required: u64,
    pub reports: Vec<StatusReport>,
}

/// Why no plan was made.
#[derive(Clone, Copy, Debug, PartialEq, Eq)]
pub enum PlanError {
    /// An existing stake account does not hold its configured amount.
    BalanceMismatch { validator: usize, kind: AccountKind, found: u64, expected: u64 },
    /// The source account holds less than the new accounts take.
    InsufficientFunds { available: u64 },
}

/// The standing that a root slot gives at the current slot.
pub open spec fn standing_of(root_slot: u64, current_slot: u64, grace: u64) -> Standing {
    if root_slot > current_slot - CURRENT_TOLERANCE {
        Standing::Current
    } else if root_slot < current_slot - grace {
        Standing::Delinquent
    } else {
        Standing::InGrace
    }
}

/// The delegations and deactivations for one validator.
pub open spec fn delegations_for(standing: Standing, quality: bool, validator: usize) -> Seq<
    Action,
> {
    match standing {
        Standing::Current => seq![
            Action { kind: ActionKind::DelegateBaseline, validator, reason: Reason::Current },
            if quality {
                Action { kind: ActionKind::DelegateBonus, validator, reason: Reason::QualityProducer }
            } else {
                Action { kind: ActionKind::DeactivateBonus, validator, reason: Reason::PoorProducer }
            },
        ],
        Standing::Delinquent => seq![
            Action { kind: ActionKind::DeactivateBaseline, validator, reason: Reason::Delinquent },
            Action { kind: ActionKind::DeactivateBonus, validator, reason: Reason::Delinquent },
        ],
        Standing::InGrace => seq![
            Action { kind: ActionKind::NoOp, validator, reason: Reason::InGrace },
        ],
    }
}

/// Whether a validator is reported as ok.
pub open spec fn reported_ok(standing: Standing) -> bool {
    standing != Standing::Delinquent
}

/// The status events for one validator: a delinquent one is always reported,
/// the others only outside a dry run.
pub open spec fn reports_for(standing: Standing, dry_run: bool, validator: usize, slot: u64) -> Seq<
    StatusReport,
> {
    if standing == Standing::Delinquent || !dry_run {
        seq![StatusReport { validator, slot, ok: reported_ok(standing) }]
    } else {
        Seq::empty()
    }
}

/// The first stake account of a validator that exists with another balance
/// than configured.
pub open spec fn mismatch_of(v: ValidatorState, cfg: PolicyConfig) -> Option<
    (AccountKind, u64, u64),
> {
    if v.baseline.exists && v.baseline.balance != cfg.baseline_stake_amount {
        Some((AccountKind::Baseline, v.baseline.balance, cfg.baseline_stake_amount))
    } else if v.bonus.exists && v.bonus.balance != cfg.bonus_stake_amount {
        Some((AccountKind::Bonus, v.bonus.balance, cfg.bonus_stake_amount))
    } else {
        None
    }
}

/// The accounts to create for one validator.
pub open spec fn creates_for(v: ValidatorState, validator: usize) -> Seq<Action> {
    (if v.baseline.exists {
        Seq::<Action>::empty()
    } else {
        seq![Action { kind: ActionKind::CreateBaseline, validator, reason: Reason::MissingAccount }]
    }) + (if v.bonus.exists {
        Seq::<Action>::empty()
    } else {
        seq![Action { kind: ActionKind::CreateBonus, validator, reason: Reason::MissingAccount }]
    })
}

/// The lamports that one validator's new accounts take.
pub open spec fn funding_for(v: ValidatorState, cfg: PolicyConfig) -> nat {
    (if v.baseline.exists {
        0nat
    } else {
        cfg.baseline_stake_amount as nat
    }) + (if v.bonus.exists {
        0nat
    } else {
        cfg.bonus_stake_amount as nat
    })
}

/// All accounts to create, in input order.
pub open spec fn planned_creates(vs: Seq<ValidatorState>) -> Seq<Action>
    decreases vs.len(),
{
    if vs.len() == 0 {
        Seq::empty()
    } else {
        planned_creates(vs.drop_last()) + creates_for(vs.last(), (vs.len() - 1) as usize)
    }
}

/// All lamports that the new accounts take.
pub open spec fn funding_needed(vs: Seq<ValidatorState>, cfg: PolicyConfig) -> nat
    decreases vs.len(),
{
    if vs.len() == 0 {
        0
    } else {
        funding_needed(vs.drop_last(), cfg) + funding_for(vs.last(), cfg)
    }
}

/// All delegations and deactivations, in input order.
pub open spec fn planned_delegations(
    vs: Seq<ValidatorState>,
    cfg: PolicyConfig,
    current_slot: u64,
    quality: Seq<Key>,
) -> Seq<Action>
    decreases vs.len(),
{
    if vs.len() == 0 {
        Seq::empty()
    } else {
        let v = vs.last();
        planned_delegations(vs.drop_last(), cfg, current_slot, quality) + delegations_for(
            standing_of(v.root_slot, current_slot, cfg.delinquent_grace_slot_distance),
            key_in(quality, v.identity@),
            (vs.len() - 1) as usize,
        )
    }
}

/// All status events, in input order.
pub open spec fn planned_reports(vs: Seq<ValidatorState>, cfg: PolicyConfig, current_slot: u64) -> Seq<
    StatusReport,
>
    decreases vs.len(),
{
    if vs.len() == 0 {
        Seq::empty()
    } else {
        let v = vs.last();
        planned_reports(vs.drop_last(), cfg, current_slot) + reports_for(
            standing_of(v.root_slot, current_slot, cfg.delinquent_grace_slot_distance),
            cfg.dry_run,
            (vs.len() - 1) as usize,
            current_slot,
        )
    }
}

/// Whether `r` is the outcome of the decisions on the given state.
///
/// The first validator with a balance mismatch, if there is one, is the
/// error. Else the run needs the lamports of all missing accounts, and fails
/// if the source account holds less. Else the plan lists every action.
pub open spec fn is_outcome(
    cfg: PolicyConfig,
    vs: Seq<ValidatorState>,
    current_slot: u64,
    quality: Seq<Key>,
    source_balance: u64,
    r: Result<Plan, PlanError>,
) -> bool {
    match r {
        Err(PlanError::BalanceMismatch { validator, kind, found, expected }) => {
            &&& validator < vs.len()
            &&& mismatch_of(vs[validator as int], cfg) == Some((kind, found, expected))
            &&& forall|j: int| 0 <= j < validator ==> mismatch_of(#[trigger] vs[j], cfg) is None
        },
        Err(PlanError::InsufficientFunds { available }) => {
            &&& forall|j: int| 0 <= j < vs.len() ==> mismatch_of(#[trigger] vs[j], cfg) is None
            &&& available == source_balance
            &&& source_balance < funding_needed(vs, cfg)
        },
        Ok(plan) => {
            &&& forall|j: int| 0 <= j < vs.len() ==> mismatch_of(#[trigger] vs[j], cfg) is None
            &&& funding_needed(vs, cfg) <= source_balance
            &&& plan.funding_required == funding_needed(vs, cfg)
            &&& plan.create@ == planned_creates(vs)
            &&& plan.delegate@ == planned_delegations(vs, cfg, current_slot, quality)
            &&& plan.reports@ == planned_reports(vs, cfg, current_slot)
        },
    }
}

/// Whether two outcomes are the same: the same error, or plans with the same
/// lists and the same funding.
pub open spec fn same_outcome(a: Result<Plan, PlanError>, b: Result<Plan, PlanError>) -> bool {
    match (a, b) {
        (Ok(p), Ok(q)) => {
            &&& p.create@ == q.create@
            &&& p.delegate@ == q.delegate@
            &&& p.reports@ == q.reports@
            &&& p.funding_required == q.funding_required
        },
        (Err(e), Err(f)) => e == f,
        _ => false,
    }
}

/// The standing of a validator with the given root slot.
pub fn standing(root_slot: u64, current_slot: u64, grace_distance: u64) -> (r: Standing)
    ensures
        r == standing_of(root_slot, current_slot, grace_distance),
{
    if root_slot as u128 + CURRENT_TOLERANCE as u128 > current_slot as u128 {
        Standing::Current
    } else if (root_slot as u128 + grace_distance as u128) < current_slot as u128 {
        Standing::Delinquent
    } else {
        Standing::InGrace
    }
}

/// The delegations and deactivations for one validator: a current one gets
/// its baseline delegated and its bonus delegated or deactivated by quality,
/// a delinquent one has both deactivated, one in grace is left alone.
pub fn select_actions(standing: Standing, quality: bool, validator: usize) -> (r: Vec<Action>)
    ensures
        r@ == delegations_for(standing, quality, validator),
{
    let mut out: Vec<Action> = Vec::new();
    match standing {
        Standing::Current => {
            out.push(
                Action { kind: ActionKind::DelegateBaseline, validator, reason: Reason::Current },
            );
            if quality {
                out.push(
                    Action {
                        kind: ActionKind::DelegateBonus,
                        validator,
                        reason: Reason::QualityProducer,
                    },
                );
            } else {
                out.push(
                    Action {
                        kind: ActionKind::DeactivateBonus,
                        validator,
                        reason: Reason::PoorProducer,
                    },
                );
            }
        },
        Standing::Delinquent => {
            out.push(
                Action { kind: ActionKind::DeactivateBaseline, validator, reason: Reason::Delinquent },
            );
            out.push(
                Action { kind: ActionKind::DeactivateBonus, validator, reason: Reason::Delinquent },
            );
        },
        Standing::InGrace => {
            out.push(Action { kind: ActionKind::NoOp, validator, reason: Reason::InGrace });
        },
    }
    assert(out@ =~= delegations_for(standing, quality, validator));
    out
}

/// The balance check on one validator's two stake accounts.
pub fn check_balances(v: &ValidatorState, cfg: &PolicyConfig) -> (r: Option<(AccountKind, u64, u64)>)
    ensures
        r == mismatch_of(*v, *cfg),
{
    if v.baseline.exists && v.baseline.balance != cfg.baseline_stake_amount {
        Some((AccountKind::Baseline, v.baseline.balance, cfg.baseline_stake_amount))
    } else if v.bonus.exists && v.bonus.balance != cfg.bonus_stake_amount {
        Some((AccountKind::Bonus, v.bonus.balance, cfg.bonus_stake_amount))
    } else {
        None
    }
}

/// Decides what is to be done for the given validators, in their order.
pub fn plan(
    cfg: &PolicyConfig,
    validators: &Vec<ValidatorState>,
    current_slot: u64,
    quality: &Vec<Key>,
    source_balance: u64,
) -> (r: Result<Plan, PlanError>)
    ensures
        is_outcome(*cfg, validators@, current_slot, quality@, source_balance, r),
{
    let mut create: Vec<Action> = Vec::new();
    let mut delegate: Vec<Action> = Vec::new();
    let mut reports: Vec<StatusReport> = Vec::new();
    let mut total: u64 = 0;
    let mut exceeded: bool = false;
    let mut i: usize = 0;
    while i < validators.len()
        invariant
            i <= validators.len(),
            forall|j: int| 0 <= j < i ==> mismatch_of(#[trigger] validators@[j], *cfg) is None,
            create@ == planned_creates(validators@.take(i as int)),
            delegate@ == planned_delegations(
                validators@.take(i as int),
                *cfg,
                current_slot,
                quality@,
            ),
            reports@ == planned_reports(validators@.take(i as int), *cfg, current_slot),
            !exceeded ==> total == funding_needed(validators@.take(i as int), *cfg),
            exceeded ==> funding_needed(validators@.take(i as int), *cfg) > u64::MAX,
        decreases validators.len() - i,
    {
        let v = &validators[i];
        proof {
            let next = validators@.take(i + 1);
            assert(next.drop_last() =~= validators@.take(i as int));
            assert(next.last() == validators@[i as int]);
        }
        match check_balances(v, cfg) {
            Some((kind, found, expected)) => {
                return Err(PlanError::BalanceMismatch { validator: i, kind, found, expected });
            },
            None => {},
        }
        let ghost created = create@;
        if !v.baseline.exists {
            create.push(
                Action {
                    kind: ActionKind::CreateBaseline,
                    validator: i,
                    reason: Reason::MissingAccount,
                },
            );
            match total.checked_add(cfg.baseline_stake_amount) {
                Some(sum) => {
                    total = sum;
                },
                None => {
                    exceeded = true;
                },
            }
        }
        if !v.bonus.exists {
            create.push(
                Action { kind: ActionKind::CreateBonus, validator: i, reason: Reason::MissingAccount },
            );
            match total.checked_add(cfg.bonus_stake_amount) {
                Some(sum) => {
                    total = sum;
                },
                None => {
                    exceeded = true;
                },
            }
        }
        assert(create@ =~= created + creates_for(*v, i));
        let state = standing(v.root_slot, current_slot, cfg.delinquent_grace_slot_distance);
        let is_quality = contains_key(quality, &v.identity);
        let mut actions = select_actions(state, is_quality, i);
        let ghost delegated = delegate@;
        delegate.append(&mut actions);
        assert(delegate@ =~= delegated + delegations_for(state, is_quality, i));
        let ghost reported = reports@;
        match state {
            Standing::Delinquent => {
                reports.push(StatusReport { validator: i, slot: current_slot, ok: false });
            },
            _ => {
                if !cfg.dry_run {
                    reports.push(StatusReport { validator: i, slot: current_slot, ok: true });
                }
            },
        }
        assert(reports@ =~= reported + reports_for(state, cfg.dry_run, i, current_slot));
        i = i + 1;
    }
    proof {
        assert(validators@.take(i as int) =~= validators@);
    }
    if exceeded || source_balance < total {
        return Err(PlanError::InsufficientFunds { available: source_balance });
    }
    Ok(Plan { create, delegate, funding_required: total, reports })
}

/// The decisions are a function of the state they are made on: two outcomes
/// for the same configuration, validators, slot, quality set and source
/// balance are the same, action for action.
pub proof fn outcome_is_determined(
    cfg: PolicyConfig,
    vs: Seq<ValidatorState>,
    current_slot: u64,
    quality: Seq<Key>,
    source_balance: u64,
    a: Result<Plan, PlanError>,
    b: Result<Plan, PlanError>,
)
    requires
        is_outcome(cfg, vs, current_slot, quality, source_balance, a),
        is_outcome(cfg, vs, current_slot, quality, source_balance, b),
    ensures
        same_outcome(a, b),
{
    match (a, b) {
        (
            Err(PlanError::BalanceMismatch { validator: x, .. }),
            Err(PlanError::BalanceMismatch { validator: y, .. }),
        ) => {
            if x < y {
                assert(mismatch_of(vs[x as int], cfg) is None);
            } else if y < x {
                assert(mismatch_of(vs[y as int], cfg) is None);
            }
        },
        (Err(PlanError::BalanceMismatch { validator: x, .. }), _) => {
            assert(mismatch_of(vs[x as int], cfg) is None);
        },
        (_, Err(PlanError::BalanceMismatch { validator: y, .. })) => {
            assert(mismatch_of(vs[y as int], cfg) is None);
        },
        _ => {},
    }
}

/// An account is created only where it is missing: every planned creation
/// names a validator of the input whose account of that kind does not exist.
pub proof fn creates_only_missing(vs: Seq<ValidatorState>, a: Action)
    requires
        vs.len() <= usize::MAX,
        planned_creates(vs).contains(a),
    ensures
        a.validator < vs.len(),
        a.reason == Reason::MissingAccount,
        a.kind == ActionKind::CreateBaseline || a.kind == ActionKind::CreateBonus,
        a.kind == ActionKind::CreateBaseline ==> !vs[a.validator as int].baseline.exists,
        a.kind == ActionKind::CreateBonus ==> !vs[a.validator as int].bonus.exists,
    decreases vs.len(),
{
    if vs.len() > 0 {
        let rest = planned_creates(vs.drop_last());
        let own = creates_for(vs.last(), (vs.len() - 1) as usize);
        let all = planned_creates(vs);
        let k = choose|k: int| 0 <= k < all.len() && all[k] == a;
        if k < rest.len() {
            assert(rest[k] == a);
            creates_only_missing(vs.drop_last(), a);
            assert(vs.drop_last()[a.validator as int] == vs[a.validator as int]);
        } else {
            let v = vs.last();
            let first = if v.baseline.exists {
                Seq::<Action>::empty()
            } else {
                seq![
                    Action {
                        kind: ActionKind::CreateBaseline,
                        validator: (vs.len() - 1) as usize,
                        reason: Reason::MissingAccount,
                    },
                ]
            };
            assert(own[k - rest.len()] == a);
            assert(a.validator == vs.len() - 1);
            assert(vs[a.validator as int] == v);
            if k - rest.len() < first.len() {
                assert(first[k - rest.len()] == a);
            }
        }
    }
}

/// Where every stake account exists, nothing is created and no funding is
/// needed: a run after a successful one plans no creation again.
pub proof fn nothing_to_create_when_all_exist(vs: Seq<ValidatorState>, cfg: PolicyConfig)
    requires
        forall|j: int|
            0 <= j < vs.len() ==> (#[trigger] vs[j]).baseline.exists && vs[j].bonus.exists,
    ensures
        planned_creates(vs) == Seq::<Action>::empty(),
        funding_needed(vs, cfg) == 0,
    decreases vs.len(),
{
    if vs.len() > 0 {
        let rest = vs.drop_last();
        assert forall|j: int| 0 <= j < rest.len() implies (#[trigger] rest[j]).baseline.exists
            && rest[j].bonus.exists by {
            assert(rest[j] == vs[j]);
        }
        nothing_to_create_when_all_exist(rest, cfg);
        assert(vs.last() == vs[vs.len() - 1]);
        assert(planned_creates(vs) =~= Seq::<Action>::empty());
    }
}

/// Nothing is planned unless the source account can fund every new account:
/// a plan's funding is all that its new accounts take, and the source holds
/// at least that.
pub proof fn plan_is_funded(
    cfg: PolicyConfig,
    vs: Seq<ValidatorState>,
    current_slot: u64,
    quality: Seq<Key>,
    source_balance: u64,
    r: Result<Plan, PlanError>,
)
    requires
        is_outcome(cfg, vs, current_slot, quality, source_balance, r),
    ensures
        r is Ok <==> (forall|j: int| 0 <= j < vs.len() ==> mismatch_of(#[trigger] vs[j], cfg) is None)
            && funding_needed(vs, cfg) <= source_balance,
{
    match r {
        Err(PlanError::BalanceMismatch { validator, .. }) => {
            assert(mismatch_of(vs[validator as int], cfg) is Some);
        },
        _ => {},
    }
}

} // verus!
