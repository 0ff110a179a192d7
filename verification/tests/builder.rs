use stake_o_matic::accounts::StakeAccounts;
use stake_o_matic::builder::{
    build, build_all, instruction, memo, BuildContext, Instruction, Validator,
};
use stake_o_matic::keys::{key_to_text, Key};
use stake_o_matic::policy::{Action, ActionKind, Reason};

fn key(b: u8) -> Key {
    Key { bytes: [b; 32] }
}

fn context() -> BuildContext {
    BuildContext {
        source_stake_address: key(1),
        authority: key(2),
        baseline_stake_amount: 5_000_000_000_000,
        bonus_stake_amount: 50_000_000_000_000,
        baseline_sol: "5000".to_string(),
        bonus_sol: "50000".to_string(),
        quality_percentage: 75,
        epoch: 42,
    }
}

fn validator() -> Validator {
    Validator {
        identity: key(3),
        vote_key: key(4),
        accounts: StakeAccounts {
            baseline_seed: "base-seed".to_string(),
            baseline_address: key(5),
            bonus_seed: "bonus-seed".to_string(),
            bonus_address: key(6),
        },
    }
}

fn action(kind: ActionKind, reason: Reason) -> Action {
    Action { kind, validator: 0, reason }
}

#[test]
fn create_memos() {
    let (ctx, v) = (context(), validator());
    assert_eq!(
        memo(&action(ActionKind::CreateBaseline, Reason::MissingAccount), &ctx, &v),
        format!(
            "Creating baseline stake account for validator {} ({})",
            key_to_text(&key(3)),
            key_to_text(&key(5))
        )
    );
    assert_eq!(
        memo(&action(ActionKind::CreateBonus, Reason::MissingAccount), &ctx, &v),
        format!(
            "Creating bonus stake account for validator {} ({})",
            key_to_text(&key(3)),
            key_to_text(&key(6))
        )
    );
}

#[test]
fn delegation_memos() {
    let (ctx, v) = (context(), validator());
    assert_eq!(
        memo(&action(ActionKind::DelegateBaseline, Reason::Current), &ctx, &v),
        format!(
            "Validator {} is current, adding 5000 SOL stake ({})",
            key_to_text(&key(3)),
            key_to_text(&key(5))
        )
    );
    assert_eq!(
        memo(&action(ActionKind::DelegateBonus, Reason::QualityProducer), &ctx, &v),
        format!(
            "Validator {} produced a block in over 75% of their slots during epoch 42, adding 50000 SOL stake ({})",
            key_to_text(&key(3)),
            key_to_text(&key(6))
        )
    );
}

#[test]
fn deactivation_memos() {
    let (ctx, v) = (context(), validator());
    assert_eq!(
        memo(&action(ActionKind::DeactivateBonus, Reason::PoorProducer), &ctx, &v),
        format!(
            "Validator {} produced a block in less than 75% of their slots during epoch 42, removing 50000 SOL stake ({})",
            key_to_text(&key(3)),
            key_to_text(&key(6))
        )
    );
    assert_eq!(
        memo(&action(ActionKind::DeactivateBaseline, Reason::Delinquent), &ctx, &v),
        format!(
            "Validator {} is delinquent, removing 5000 SOL stake ({}",
            key_to_text(&key(3)),
            key_to_text(&key(5))
        )
    );
    assert_eq!(
        memo(&action(ActionKind::DeactivateBonus, Reason::Delinquent), &ctx, &v),
        format!(
            "Validator {} is delinquent, removing 50000 SOL stake ({}",
            key_to_text(&key(3)),
            key_to_text(&key(6))
        )
    );
}

#[test]
fn instructions_by_kind() {
    let (ctx, v) = (context(), validator());
    assert_eq!(
        instruction(ActionKind::CreateBaseline, &ctx, &v),
        Some(Instruction::SplitWithSeed {
            source: key(1),
            authority: key(2),
            lamports: 5_000_000_000_000,
            destination: key(5),
            base: key(2),
            seed: "base-seed".to_string(),
        })
    );
    assert_eq!(
        instruction(ActionKind::CreateBonus, &ctx, &v),
        Some(Instruction::SplitWithSeed {
            source: key(1),
            authority: key(2),
            lamports: 50_000_000_000_000,
            destination: key(6),
            base: key(2),
            seed: "bonus-seed".to_string(),
        })
    );
    assert_eq!(
        instruction(ActionKind::DelegateBaseline, &ctx, &v),
        Some(Instruction::DelegateStake { stake: key(5), authority: key(2), vote: key(4) })
    );
    assert_eq!(
        instruction(ActionKind::DelegateBonus, &ctx, &v),
        Some(Instruction::DelegateStake { stake: key(6), authority: key(2), vote: key(4) })
    );
    assert_eq!(
        instruction(ActionKind::DeactivateBaseline, &ctx, &v),
        Some(Instruction::DeactivateStake { stake: key(5), authority: key(2) })
    );
    assert_eq!(
        instruction(ActionKind::DeactivateBonus, &ctx, &v),
        Some(Instruction::DeactivateStake { stake: key(6), authority: key(2) })
    );
    assert_eq!(instruction(ActionKind::NoOp, &ctx, &v), None);
}

#[test]
fn build_gives_one_transaction_per_action() {
    let ctx = context();
    let validators = vec![validator()];
    let built = build(&action(ActionKind::DelegateBaseline, Reason::Current), &ctx, &validators)
        .unwrap();
    assert_eq!(built.payer, key(2));
    assert_eq!(
        built.instruction,
        Instruction::DelegateStake { stake: key(5), authority: key(2), vote: key(4) }
    );
    assert_eq!(
        built.memo,
        memo(&action(ActionKind::DelegateBaseline, Reason::Current), &ctx, &validators[0])
    );
    assert_eq!(build(&action(ActionKind::NoOp, Reason::InGrace), &ctx, &validators), None);
    let stray = Action { kind: ActionKind::DelegateBaseline, validator: 1, reason: Reason::Current };
    assert_eq!(build(&stray, &ctx, &validators), None);
}

#[test]
fn build_all_skips_no_ops() {
    let ctx = context();
    let validators = vec![validator()];
    let actions = vec![
        action(ActionKind::NoOp, Reason::InGrace),
        action(ActionKind::DeactivateBaseline, Reason::Delinquent),
        action(ActionKind::DeactivateBonus, Reason::Delinquent),
    ];
    let built = build_all(&actions, &ctx, &validators);
    assert_eq!(built.len(), 2);
    assert_eq!(built[0].0, 1);
    assert_eq!(built[1].0, 2);
    assert_eq!(
        built[1].1.instruction,
        Instruction::DeactivateStake { stake: key(6), authority: key(2) }
    );
}
