use stake_o_matic::keys::Key;
use stake_o_matic::policy::{
    check_balances, default_config, plan, select_actions, standing, AccountKind, Action,
    ActionKind, ObservedAccount, PlanError, PolicyConfig, Reason, Standing, StatusReport,
    ValidatorState, CURRENT_TOLERANCE, DEFAULT_GRACE_DISTANCE,
};

fn key(b: u8) -> Key {
    Key { bytes: [b; 32] }
}

fn config(baseline: u64, bonus: u64, dry_run: bool) -> PolicyConfig {
    PolicyConfig {
        baseline_stake_amount: baseline,
        bonus_stake_amount: bonus,
        delinquent_grace_slot_distance: DEFAULT_GRACE_DISTANCE,
        dry_run,
    }
}

fn account(b: u8, exists: bool, balance: u64) -> ObservedAccount {
    ObservedAccount { address: key(b), exists, balance }
}

fn validator(id: u8, root_slot: u64, baseline: ObservedAccount, bonus: ObservedAccount) -> ValidatorState {
    ValidatorState { identity: key(id), vote_key: key(id + 100), root_slot, baseline, bonus }
}

fn action(kind: ActionKind, validator: usize, reason: Reason) -> Action {
    Action { kind, validator, reason }
}

#[test]
fn constants_are_as_documented() {
    assert_eq!(CURRENT_TOLERANCE, 256);
    assert_eq!(DEFAULT_GRACE_DISTANCE, 21_600);
}

#[test]
fn liveness_boundaries() {
    let now = 1_000_000;
    assert_eq!(standing(now, now, 21_600), Standing::Current);
    assert_eq!(standing(now - 255, now, 21_600), Standing::Current);
    assert_eq!(standing(now - 256, now, 21_600), Standing::InGrace);
    assert_eq!(standing(999_700, now, 21_600), Standing::InGrace);
    assert_eq!(standing(now - 21_600, now, 21_600), Standing::InGrace);
    assert_eq!(standing(978_399, now, 21_600), Standing::Delinquent);
}

#[test]
fn liveness_near_slot_zero() {
    assert_eq!(standing(0, 100, 21_600), Standing::Current);
    assert_eq!(standing(0, 255, 21_600), Standing::Current);
    assert_eq!(standing(0, 256, 21_600), Standing::InGrace);
    assert_eq!(standing(0, 21_600, 21_600), Standing::InGrace);
    assert_eq!(standing(0, 21_601, 21_600), Standing::Delinquent);
    assert_eq!(standing(u64::MAX, u64::MAX, u64::MAX), Standing::Current);
}

#[test]
fn actions_by_standing() {
    assert_eq!(
        select_actions(Standing::Current, true, 4),
        vec![
            action(ActionKind::DelegateBaseline, 4, Reason::Current),
            action(ActionKind::DelegateBonus, 4, Reason::QualityProducer),
        ]
    );
    assert_eq!(
        select_actions(Standing::Current, false, 4),
        vec![
            action(ActionKind::DelegateBaseline, 4, Reason::Current),
            action(ActionKind::DeactivateBonus, 4, Reason::PoorProducer),
        ]
    );
    assert_eq!(
        select_actions(Standing::Delinquent, true, 4),
        vec![
            action(ActionKind::DeactivateBaseline, 4, Reason::Delinquent),
            action(ActionKind::DeactivateBonus, 4, Reason::Delinquent),
        ]
    );
    assert_eq!(
        select_actions(Standing::InGrace, true, 4),
        vec![action(ActionKind::NoOp, 4, Reason::InGrace)]
    );
}

#[test]
fn balances_must_match_exactly() {
    let cfg = config(600, 900, false);
    let fine = validator(1, 0, account(10, true, 600), account(11, true, 900));
    assert_eq!(check_balances(&fine, &cfg), None);
    let missing = validator(1, 0, account(10, false, 5), account(11, false, 7));
    assert_eq!(check_balances(&missing, &cfg), None);
    let low = validator(1, 0, account(10, true, 599), account(11, true, 901));
    assert_eq!(check_balances(&low, &cfg), Some((AccountKind::Baseline, 599, 600)));
    let high = validator(1, 0, account(10, true, 600), account(11, true, 901));
    assert_eq!(check_balances(&high, &cfg), Some((AccountKind::Bonus, 901, 900)));
}

#[test]
fn insufficient_funds_abort_the_run() {
    let cfg = config(600, 0, false);
    let vs = vec![
        validator(1, 1_000_000, account(10, false, 0), account(11, true, 0)),
        validator(2, 1_000_000, account(20, false, 0), account(21, true, 0)),
    ];
    let got = plan(&cfg, &vs, 1_000_000, &vec![], 1000);
    assert_eq!(got, Err(PlanError::InsufficientFunds { available: 1000 }));
    let funded = plan(&cfg, &vs, 1_000_000, &vec![], 1200).unwrap();
    assert_eq!(funded.funding_required, 1200);
    assert_eq!(funded.create.len(), 2);
}

#[test]
fn funding_may_exceed_every_balance() {
    let cfg = config(u64::MAX, u64::MAX, false);
    let vs = vec![validator(1, 5, account(10, false, 0), account(11, false, 0))];
    assert_eq!(
        plan(&cfg, &vs, 5, &vec![], u64::MAX),
        Err(PlanError::InsufficientFunds { available: u64::MAX })
    );
}

#[test]
fn balance_mismatch_aborts_before_anything_else() {
    let cfg = config(600, 900, false);
    let vs = vec![
        validator(1, 1_000_000, account(10, false, 0), account(11, false, 0)),
        validator(2, 1_000_000, account(20, true, 600), account(21, true, 1)),
        validator(3, 1_000_000, account(30, true, 2), account(31, true, 900)),
    ];
    assert_eq!(
        plan(&cfg, &vs, 1_000_000, &vec![], 0),
        Err(PlanError::BalanceMismatch {
            validator: 1,
            kind: AccountKind::Bonus,
            found: 1,
            expected: 900
        })
    );
}

#[test]
fn grace_and_delinquency_scenario() {
    let cfg = config(600, 900, false);
    let vs = vec![
        validator(1, 999_700, account(10, true, 600), account(11, true, 900)),
        validator(2, 978_399, account(20, true, 600), account(21, true, 900)),
    ];
    let got = plan(&cfg, &vs, 1_000_000, &vec![key(1), key(2)], 0).unwrap();
    assert!(got.create.is_empty());
    assert_eq!(got.funding_required, 0);
    assert_eq!(
        got.delegate,
        vec![
            action(ActionKind::NoOp, 0, Reason::InGrace),
            action(ActionKind::DeactivateBaseline, 1, Reason::Delinquent),
            action(ActionKind::DeactivateBonus, 1, Reason::Delinquent),
        ]
    );
    assert_eq!(
        got.reports,
        vec![
            StatusReport { validator: 0, slot: 1_000_000, ok: true },
            StatusReport { validator: 1, slot: 1_000_000, ok: false },
        ]
    );
}

#[test]
fn dry_run_reports_delinquents_only() {
    let cfg = config(600, 900, true);
    let vs = vec![
        validator(1, 1_000_000, account(10, true, 600), account(11, true, 900)),
        validator(2, 999_700, account(20, true, 600), account(21, true, 900)),
        validator(3, 0, account(30, true, 600), account(31, true, 900)),
    ];
    let got = plan(&cfg, &vs, 1_000_000, &vec![], 0).unwrap();
    assert_eq!(got.reports, vec![StatusReport { validator: 2, slot: 1_000_000, ok: false }]);
}

#[test]
fn plan_lists_actions_in_input_order() {
    let cfg = config(600, 900, false);
    let vs = vec![
        validator(1, 1_000_000, account(10, false, 0), account(11, true, 900)),
        validator(2, 1_000_000, account(20, true, 600), account(21, false, 0)),
    ];
    let got = plan(&cfg, &vs, 1_000_000, &vec![key(2)], 1500).unwrap();
    assert_eq!(got.funding_required, 1500);
    assert_eq!(
        got.create,
        vec![
            action(ActionKind::CreateBaseline, 0, Reason::MissingAccount),
            action(ActionKind::CreateBonus, 1, Reason::MissingAccount),
        ]
    );
    assert_eq!(
        got.delegate,
        vec![
            action(ActionKind::DelegateBaseline, 0, Reason::Current),
            action(ActionKind::DeactivateBonus, 0, Reason::PoorProducer),
            action(ActionKind::DelegateBaseline, 1, Reason::Current),
            action(ActionKind::DelegateBonus, 1, Reason::QualityProducer),
        ]
    );
}

#[test]
fn plan_is_repeatable() {
    let cfg = config(600, 900, false);
    let vs = vec![
        validator(1, 1_000_000, account(10, false, 0), account(11, true, 900)),
        validator(2, 978_399, account(20, true, 600), account(21, false, 0)),
        validator(3, 999_700, account(30, true, 600), account(31, true, 900)),
    ];
    let quality = vec![key(1), key(3)];
    let first = plan(&cfg, &vs, 1_000_000, &quality, 5000);
    let second = plan(&cfg, &vs, 1_000_000, &quality, 5000);
    assert!(first.is_ok());
    assert_eq!(first, second);
}

#[test]
fn empty_input_gives_an_empty_plan() {
    let got = plan(&config(600, 900, false), &vec![], 10, &vec![], 0).unwrap();
    assert!(got.create.is_empty() && got.delegate.is_empty() && got.reports.is_empty());
    assert_eq!(got.funding_required, 0);
}

#[test]
fn default_amounts_are_in_lamports() {
    let cfg = default_config(true);
    assert_eq!(cfg.baseline_stake_amount, solana_sdk::native_token::sol_to_lamports(5000.));
    assert_eq!(cfg.bonus_stake_amount, solana_sdk::native_token::sol_to_lamports(50_000.));
    assert_eq!(cfg.delinquent_grace_slot_distance, 21_600);
    assert!(cfg.dry_run);
    assert!(!default_config(false).dry_run);
}
