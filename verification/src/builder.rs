//! From an action to the one transaction that carries it out, unsigned, with
//! a memo that says what it does and why.

use crate::accounts::StakeAccounts;
use crate::keys::{key_text, key_to_text, Key};
use crate::policy::{Action, ActionKind, Reason};
use crate::text::{decimal_of, decimal_text};
use vstd::prelude::*;
use vstd::string::*;

verus! {

/// What the transactions of a run have in common. The two amounts are also
/// held as text, written in SOL.
#[derive(Clone, Debug, PartialEq, Eq)]
pub struct BuildContext {
    pub source_stake_address: Key,
    pub authority: Key,
    pub baseline_stake_amount: u64,
    pub bonus_stake_amount: u64,
    pub baseline_sol: String,
    pub bonus_sol: String,
    pub quality_percentage: usize,
    pub epoch: u64,
}

/// A validator with its keys and its two stake accounts.
#[derive(Clone, Debug, PartialEq, Eq)]
pub struct Validator {
    pub identity: Key,
    pub vote_key: Key,
    pub accounts: StakeAccounts,
}

/// One instruction of the stake program.
#[derive(Clone, Debug, PartialEq, Eq)]
pub enum Instruction {
    /// Split `lamports` off the source into a new account at `destination`,
    /// which is derived from `base` and `seed`.
    SplitWithSeed {
        source: Key,
        authority: Key,
        lamports: u64,
        destination: Key,
        base: Key,
        seed: String,
    },
    /// Delegate a stake account to a vote account.
    DelegateStake { stake: Key, authority: Key, vote: Key },
    /// Deactivate a stake account's delegation.
    DeactivateStake { stake: Key, authority: Key },
}

/// An unsigned transaction: one instruction, who pays, and a memo.
#[derive(Clone, Debug, PartialEq, Eq)]
pub struct TransactionIntent {
    pub instruction: Instruction,
    pub payer: Key,
    pub memo: String,
}

/// The memo of an account creation.
pub open spec fn create_memo(which: Seq<char>, node: Seq<char>, address: Seq<char>) -> Seq<char> {
    "Creating "@ + which + " stake account for validator "@ + node + " ("@ + address + ")"@
}

/// The memo of a baseline delegation.
pub open spec fn current_memo(node: Seq<char>, sol: Seq<char>, address: Seq<char>) -> Seq<char> {
    "Validator "@ + node + " is current, adding "@ + sol + " SOL stake ("@ + address + ")"@
}

/// The memo of a bonus delegation.
pub open spec fn quality_memo(
    node: Seq<char>,
    percentage: Seq<char>,
    epoch: Seq<char>,
    sol: Seq<char>,
    address: Seq<char>,
) -> Seq<char> {
    "Validator "@ + node + " produced a block in over "@ + percentage
        + "% of their slots during epoch "@ + epoch + ", adding "@ + sol + " SOL stake ("@
        + address + ")"@
}

/// The memo of a bonus deactivation for poor block production.
pub open spec fn poor_memo(
    node: Seq<char>,
    percentage: Seq<char>,
    epoch: Seq<char>,
    sol: Seq<char>,
    address: Seq<char>,
) -> Seq<char> {
    "Validator "@ + node + " produced a block in less than "@ + percentage
        + "% of their slots during epoch "@ + epoch + ", removing "@ + sol + " SOL stake ("@
        + address + ")"@
}

/// The memo of a deactivation for delinquency. It ends with the address.
pub open spec fn delinquent_memo(node: Seq<char>, sol: Seq<char>, address: Seq<char>) -> Seq<
    char,
> {
    "Validator "@ + node + " is delinquent, removing "@ + sol + " SOL stake ("@ + address
}

/// The memo of an action.
pub open spec fn memo_of(action: Action, ctx: BuildContext, v: Validator) -> Seq<char> {
    let node = key_text(v.identity@);
    let baseline = key_text(v.accounts.baseline_address@);
    let bonus = key_text(v.accounts.bonus_address@);
    let percentage = decimal_of(ctx.quality_percentage as nat);
    let epoch = decimal_of(ctx.epoch as nat);
    match action.kind {
        ActionKind::CreateBaseline => create_memo("baseline"@, node, baseline),
        ActionKind::CreateBonus => create_memo("bonus"@, node, bonus),
        ActionKind::DelegateBaseline => current_memo(node, ctx.baseline_sol@, baseline),
        ActionKind::DelegateBonus => quality_memo(node, percentage, epoch, ctx.bonus_sol@, bonus),
        ActionKind::DeactivateBaseline => delinquent_memo(node, ctx.baseline_sol@, baseline),
        ActionKind::DeactivateBonus => if action.reason == Reason::PoorProducer {
            poor_memo(node, percentage, epoch, ctx.bonus_sol@, bonus)
        } else {
            delinquent_memo(node, ctx.bonus_sol@, bonus)
        },
        ActionKind::NoOp => Seq::empty(),
    }
}

/// Whether an instruction is the one that carries out an action of the
/// given kind.
pub open spec fn instruction_for(
    instruction: Instruction,
    kind: ActionKind,
    ctx: BuildContext,
    v: Validator,
) -> bool {
    match kind {
        ActionKind::CreateBaseline => match instruction {
            Instruction::SplitWithSeed { source, authority, lamports, destination, base, seed } => {
                &&& source == ctx.source_stake_address
                &&& authority == ctx.authority
                &&& lamports == ctx.baseline_stake_amount
                &&& destination == v.accounts.baseline_address
                &&& base == ctx.authority
                &&& seed@ == v.accounts.baseline_seed@
            },
            _ => false,
        },
        ActionKind::CreateBonus => match instruction {
            Instruction::SplitWithSeed { source, authority, lamports, destination, base, seed } => {
                &&& source == ctx.source_stake_address
                &&& authority == ctx.authority
                &&& lamports == ctx.bonus_stake_amount
                &&& destination == v.accounts.bonus_address
                &&& base == ctx.authority
                &&& seed@ == v.accounts.bonus_seed@
            },
            _ => false,
        },
        ActionKind::DelegateBaseline => instruction == (Instruction::DelegateStake {
            stake: v.accounts.baseline_address,
            authority: ctx.authority,
            vote: v.vote_key,
        }),
        ActionKind::DelegateBonus => instruction == (Instruction::DelegateStake {
            stake: v.accounts.bonus_address,
            authority: ctx.authority,
            vote: v.vote_key,
        }),
        ActionKind::DeactivateBaseline => instruction == (Instruction::DeactivateStake {
            stake: v.accounts.baseline_address,
            authority: ctx.authority,
        }),
        ActionKind::DeactivateBonus => instruction == (Instruction::DeactivateStake {
            stake: v.accounts.bonus_address,
            authority: ctx.authority,
        }),
        ActionKind::NoOp => false,
    }
}

/// Whether `intent` is the transaction for `action` on validator `v`.
pub open spec fn is_intent_for(
    intent: TransactionIntent,
    action: Action,
    ctx: BuildContext,
    v: Validator,
) -> bool {
    &&& intent.payer == ctx.authority
    &&& intent.memo@ == memo_of(action, ctx, v)
    &&& instruction_for(intent.instruction, action.kind, ctx, v)
}

fn write_create_memo(which: &str, node: &str, address: &str) -> (r: String)
    ensures
        r@ == create_memo(which@, node@, address@),
{
    String::from_str("Creating ").concat(which).concat(" stake account for validator ").concat(
        node,
    ).concat(" (").concat(address).concat(")")
}

fn write_current_memo(node: &str, sol: &str, address: &str) -> (r: String)
    ensures
        r@ == current_memo(node@, sol@, address@),
{
    String::from_str("Validator ").concat(node).concat(" is current, adding ").concat(sol).concat(
        " SOL stake (",
    ).concat(address).concat(")")
}

fn write_quality_memo(node: &str, percentage: &str, epoch: &str, sol: &str, address: &str) -> (r:
    String)
    ensures
        r@ == quality_memo(node@, percentage@, epoch@, sol@, address@),
{
    String::from_str("Validator ").concat(node).concat(" produced a block in over ").concat(
        percentage,
    ).concat("% of their slots during epoch ").concat(epoch).concat(", adding ").concat(sol).concat(
        " SOL stake (",
    ).concat(address).concat(")")
}

fn write_poor_memo(node: &str, percentage: &str, epoch: &str, sol: &str, address: &str) -> (r:
    String)
    ensures
        r@ == poor_memo(node@, percentage@, epoch@, sol@, address@),
{
    String::from_str("Validator ").concat(node).concat(" produced a block in less than ").concat(
        percentage,
    ).concat("% of their slots during epoch ").concat(epoch).concat(", removing ").concat(
        sol,
    ).concat(" SOL stake (").concat(address)
    .concat(")")
}

fn write_delinquent_memo(node: &str, sol: &str, address: &str) -> (r: String)
    ensures
        r@ == delinquent_memo(node@, sol@, address@),
{
    String::from_str("Validator ").concat(node).concat(" is delinquent, removing ").concat(
        sol,
    ).concat(" SOL stake (").concat(address)
}

/// Writes the memo of an action.
pub fn memo(action: &Action, ctx: &BuildContext, v: &Validator) -> (r: String)
    ensures
        r@ == memo_of(*action, *ctx, *v),
{
    let node = key_to_text(&v.identity);
    let baseline = key_to_text(&v.accounts.baseline_address);
    let bonus = key_to_text(&v.accounts.bonus_address);
    match action.kind {
        ActionKind::CreateBaseline => write_create_memo(
            "baseline",
            node.as_str(),
            baseline.as_str(),
        ),
        ActionKind::CreateBonus => write_create_memo("bonus", node.as_str(), bonus.as_str()),
        ActionKind::DelegateBaseline => write_current_memo(
            node.as_str(),
            ctx.baseline_sol.as_str(),
            baseline.as_str(),
        ),
        ActionKind::DelegateBonus => {
            let percentage = decimal_text(ctx.quality_percentage as u64);
            let epoch = decimal_text(ctx.epoch);
            write_quality_memo(
                node.as_str(),
                percentage.as_str(),
                epoch.as_str(),
                ctx.bonus_sol.as_str(),
                bonus.as_str(),
            )
        },
        ActionKind::DeactivateBaseline => write_delinquent_memo(
            node.as_str(),
            ctx.baseline_sol.as_str(),
            baseline.as_str(),
        ),
        ActionKind::DeactivateBonus => {
            match action.reason {
                Reason::PoorProducer => {
                    let percentage = decimal_text(ctx.quality_percentage as u64);
                    let epoch = decimal_text(ctx.epoch);
                    write_poor_memo(
                        node.as_str(),
                        percentage.as_str(),
                        epoch.as_str(),
                        ctx.bonus_sol.as_str(),
                        bonus.as_str(),
                    )
                },
                _ => write_delinquent_memo(
                    node.as_str(),
                    ctx.bonus_sol.as_str(),
                    bonus.as_str(),
                ),
            }
        },
        ActionKind::NoOp => String::new(),
    }
}

/// The instruction that carries out an action of the given kind, if the
/// kind asks for one.
pub fn instruction(kind: ActionKind, ctx: &BuildContext, v: &Validator) -> (r: Option<Instruction>)
    ensures
        r is Some <==> kind != ActionKind::NoOp,
        r is Some ==> instruction_for(r.unwrap(), kind, *ctx, *v),
{
    match kind {
        ActionKind::CreateBaseline => Some(
            Instruction::SplitWithSeed {
                source: ctx.source_stake_address,
                authority: ctx.authority,
                lamports: ctx.baseline_stake_amount,
                destination: v.accounts.baseline_address,
                base: ctx.authority,
                seed: v.accounts.baseline_seed.clone(),
            },
        ),
        ActionKind::CreateBonus => Some(
            Instruction::SplitWithSeed {
                source: ctx.source_stake_address,
                authority: ctx.authority,
                lamports: ctx.bonus_stake_amount,
                destination: v.accounts.bonus_address,
                base: ctx.authority,
                seed: v.accounts.bonus_seed.clone(),
            },
        ),
        ActionKind::DelegateBaseline => Some(
            Instruction::DelegateStake {
                stake: v.accounts.baseline_address,
                authority: ctx.authority,
                vote: v.vote_key,
            },
        ),
        ActionKind::DelegateBonus => Some(
            Instruction::DelegateStake {
                stake: v.accounts.bonus_address,
                authority: ctx.authority,
                vote: v.vote_key,
            },
        ),
        ActionKind::DeactivateBaseline => Some(
            Instruction::DeactivateStake {
                stake: v.accounts.baseline_address,
                authority: ctx.authority,
            },
        ),
        ActionKind::DeactivateBonus => Some(
            Instruction::DeactivateStake {
                stake: v.accounts.bonus_address,
                authority: ctx.authority,
            },
        ),
        ActionKind::NoOp => None,
    }
}

/// The transaction for one action: there is exactly one unless the action
/// is to do nothing or names no validator of the list.
pub fn build(action: &Action, ctx: &BuildContext, validators: &Vec<Validator>) -> (r: Option<
    TransactionIntent,
>)
    ensures
        r is Some <==> action.validator < validators.len() && action.kind != ActionKind::NoOp,
        r is Some ==> is_intent_for(
            r.unwrap(),
            *action,
            *ctx,
            validators@[action.validator as int],
        ),
{
    if action.validator >= validators.len() {
        return None;
    }
    let v = &validators[action.validator];
    match instruction(action.kind, ctx, v) {
        None => None,
        Some(instruction) => {
            let memo = memo(action, ctx, v);
            Some(TransactionIntent { instruction, payer: ctx.authority, memo })
        },
    }
}

/// The transactions for a list of actions, in their order, without those
/// for which there is none. Each stands for the action at the position given
/// with it.
pub fn build_all(actions: &Vec<Action>, ctx: &BuildContext, validators: &Vec<Validator>) -> (r:
    Vec<(usize, TransactionIntent)>)
    ensures
        r.len() <= actions.len(),
        forall|k: int|
            0 <= k < r.len() ==> {
                let p = (#[trigger] r@[k]).0;
                &&& p < actions.len()
                &&& actions@[p as int].validator < validators.len()
                &&& is_intent_for(
                    r@[k].1,
                    actions@[p as int],
                    *ctx,
                    validators@[actions@[p as int].validator as int],
                )
            },
        forall|k: int, l: int| 0 <= k < l < r.len() ==> (#[trigger] r@[k]).0 < (#[trigger] r@[l]).0,
        forall|p: int|
            0 <= p < actions.len() && (#[trigger] actions@[p]).validator < validators.len()
                && actions@[p].kind != ActionKind::NoOp ==> exists|k: int|
                0 <= k < r.len() && (#[trigger] r@[k]).0 == p,
{
    let mut out: Vec<(usize, TransactionIntent)> = Vec::new();
    let mut i: usize = 0;
    while i < actions.len()
        invariant
            i <= actions.len(),
            out.len() <= i,
            forall|k: int|
                0 <= k < out.len() ==> {
                    let p = (#[trigger] out@[k]).0;
                    &&& p < i
                    &&& actions@[p as int].validator < validators.len()
                    &&& is_intent_for(
                        out@[k].1,
                        actions@[p as int],
                        *ctx,
                        validators@[actions@[p as int].validator as int],
                    )
                },
            forall|k: int, l: int|
                0 <= k < l < out.len() ==> (#[trigger] out@[k]).0 < (#[trigger] out@[l]).0,
            forall|p: int|
                0 <= p < i && (#[trigger] actions@[p]).validator < validators.len()
                    && actions@[p].kind != ActionKind::NoOp ==> exists|k: int|
                    0 <= k < out.len() && (#[trigger] out@[k]).0 == p,
        decreases actions.len() - i,
    {
        match build(&actions[i], ctx, validators) {
            Some(intent) => {
                let ghost before = out@;
                out.push((i, intent));
                assert forall|p: int|
                    0 <= p < i + 1 && (#[trigger] actions@[p]).validator < validators.len()
                        && actions@[p].kind != ActionKind::NoOp implies exists|k: int|
                    0 <= k < out.len() && (#[trigger] out@[k]).0 == p by {
                    if p < i {
                        let k = choose|k: int| 0 <= k < before.len() && (#[trigger] before[k]).0 == p;
                        assert(out@[k].0 == p);
                    } else {
                        assert(out@[out.len() - 1].0 == p);
                    }
                }
            },
            None => {},
        }
        i = i + 1;
    }
    out
}

} // verus!
