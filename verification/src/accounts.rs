//! Stake accounts: the seeds and addresses of a validator's two accounts,
//! what a lookup of one shows, and which vote accounts are whitelisted.

use crate::keys::{
    contains_key, derived_address, key_in, parse_key, parsed_key, same_key, stake_program_bytes,
    Key,
};
use crate::policy::ObservedAccount;
use vstd::prelude::*;
use vstd::string::*;
use vstd::utf8::*;

verus! {

/// Number of characters of a seed.
pub const SEED_LEN: usize = 32;

/// The two characters that a bonus seed starts with.
pub open spec fn bonus_prefix() -> Seq<char> {
    seq!['A', '{']
}

/// Whether seeds can be cut from a vote key's text: it is ASCII and has at
/// least 32 characters.
pub open spec fn seedable(vote_key: Seq<char>) -> bool {
    is_ascii_chars(vote_key) && vote_key.len() >= 32
}

/// The baseline seed: the first 32 characters of the vote key's text.
pub open spec fn baseline_seed_of(vote_key: Seq<char>) -> Seq<char> {
    vote_key.subrange(0, 32)
}

/// The bonus seed: the first 32 characters of the prefix followed by the
/// vote key's text.
pub open spec fn bonus_seed_of(vote_key: Seq<char>) -> Seq<char> {
    (bonus_prefix() + vote_key).subrange(0, 32)
}

/// The life cycle of a stake account.
#[derive(Clone, Copy, Debug, PartialEq, Eq)]
pub enum StakeLifecycle {
    Uninitialized,
    Initialized,
    Delegated,
    RewardsPool,
}

/// An account as a lookup returned it; `state` is absent where the data is
/// not that of a stake account.
#[derive(Clone, Copy, Debug, PartialEq, Eq)]
pub struct FetchedAccount {
    pub owner: Key,
    pub lamports: u64,
    pub state: Option<StakeLifecycle>,
}

/// Why a lookup shows no stake account.
#[derive(Clone, Copy, Debug, PartialEq, Eq)]
pub enum AccountError {
    /// Nothing was fetched.
    NotFound,
    /// The account belongs to another program.
    NotStakeAccount { owner: Key },
    /// The account's data is no stake state.
    Undecodable,
}

/// A validator's two stake accounts.
#[derive(Clone, Debug, PartialEq, Eq)]
pub struct StakeAccounts {
    pub baseline_seed: String,
    pub baseline_address: Key,
    pub bonus_seed: String,
    pub bonus_address: Key,
}

/// A vote account as the chain lists it: keys in base-58 text.
#[derive(Clone, Debug, PartialEq, Eq)]
pub struct VoteAccount {
    pub node_pubkey: String,
    pub vote_pubkey: String,
    pub root_slot: u64,
}

/// The balance and state of a stake account, or why there is none.
pub open spec fn stake_account_of(fetched: Option<FetchedAccount>, stake_program: Key) -> Result<
    (u64, StakeLifecycle),
    AccountError,
> {
    match fetched {
        None => Err(AccountError::NotFound),
        Some(a) => if a.owner@ != stake_program@ {
            Err(AccountError::NotStakeAccount { owner: a.owner })
        } else {
            match a.state {
                None => Err(AccountError::Undecodable),
                Some(s) => Ok((a.lamports, s)),
            }
        },
    }
}

/// Whether the vote account at `j` belongs to a whitelisted validator.
pub open spec fn is_whitelisted(account: VoteAccount, whitelist: Seq<Key>) -> bool {
    match parsed_key(account.node_pubkey@) {
        Some(k) => key_in(whitelist, k),
        None => false,
    }
}

/// The positions of the vote accounts of whitelisted validators, ascending.
pub open spec fn whitelisted_positions(accounts: Seq<VoteAccount>, whitelist: Seq<Key>) -> Seq<
    usize,
>
    decreases accounts.len(),
{
    if accounts.len() == 0 {
        Seq::empty()
    } else {
        let rest = whitelisted_positions(accounts.drop_last(), whitelist);
        if is_whitelisted(accounts.last(), whitelist) {
            rest.push((accounts.len() - 1) as usize)
        } else {
            rest
        }
    }
}

/// The baseline seed for a vote key, where one can be cut.
pub fn baseline_seed(vote_key: &str) -> (r: Option<String>)
    ensures
        r is Some <==> seedable(vote_key@),
        r is Some ==> r.unwrap()@ == baseline_seed_of(vote_key@) && is_ascii_chars(r.unwrap()@)
            && r.unwrap()@.len() == 32,
{
    if !vote_key.is_ascii() {
        return None;
    }
    if vote_key.unicode_len() < SEED_LEN {
        return None;
    }
    let head = vote_key.substring_ascii(0, SEED_LEN);
    Some(String::from_str(head))
}

/// The bonus seed for a vote key, where one can be cut.
pub fn bonus_seed(vote_key: &str) -> (r: Option<String>)
    ensures
        r is Some <==> seedable(vote_key@),
        r is Some ==> r.unwrap()@ == bonus_seed_of(vote_key@) && is_ascii_chars(r.unwrap()@)
            && r.unwrap()@.len() == 32,
{
    if !vote_key.is_ascii() {
        return None;
    }
    if vote_key.unicode_len() < SEED_LEN {
        return None;
    }
    let head = vote_key.substring_ascii(0, SEED_LEN - 2);
    let seed = String::from_str("A{").concat(head);
    proof {
        reveal_strlit("A{");
        assert("A{"@ =~= bonus_prefix());
        assert(seed@ =~= bonus_seed_of(vote_key@));
        is_ascii_chars_concat(seed@, bonus_prefix(), head@);
    }
    Some(seed)
}

/// The seeds and addresses of a validator's two stake accounts, derived from
/// the authority's key and the vote key's text. There are none where no
/// seeds can be cut.
pub fn stake_accounts(authority: &Key, vote_key: &str) -> (r: Option<StakeAccounts>)
    ensures
        r is Some <==> seedable(vote_key@),
        match r {
            Some(a) => {
                &&& a.baseline_seed@ == baseline_seed_of(vote_key@)
                &&& a.bonus_seed@ == bonus_seed_of(vote_key@)
                &&& Some(a.baseline_address@) == derived_address(
                    authority@,
                    baseline_seed_of(vote_key@),
                    stake_program_bytes(),
                )
                &&& Some(a.bonus_address@) == derived_address(
                    authority@,
                    bonus_seed_of(vote_key@),
                    stake_program_bytes(),
                )
            },
            None => true,
        },
{
    let baseline = match baseline_seed(vote_key) {
        Some(s) => s,
        None => {
            return None;
        },
    };
    let bonus = match bonus_seed(vote_key) {
        Some(s) => s,
        None => {
            return None;
        },
    };
    proof {
        is_ascii_chars_encode_utf8(baseline@);
        is_ascii_chars_encode_utf8(bonus@);
    }
    let baseline_address = match crate::keys::derive(authority, baseline.as_str()) {
        Some(k) => k,
        None => {
            return None;
        },
    };
    let bonus_address = match crate::keys::derive(authority, bonus.as_str()) {
        Some(k) => k,
        None => {
            return None;
        },
    };
    Some(
        StakeAccounts { baseline_seed: baseline, baseline_address, bonus_seed: bonus, bonus_address },
    )
}

/// Reads what a lookup returned as a stake account: its balance and state,
/// unless nothing was fetched, another program owns it, or its data is no
/// stake state.
pub fn get_stake_account(fetched: &Option<FetchedAccount>, stake_program: &Key) -> (r: Result<
    (u64, StakeLifecycle),
    AccountError,
>)
    ensures
        r == stake_account_of(*fetched, *stake_program),
{
    match fetched {
        None => Err(AccountError::NotFound),
        Some(a) => {
            if !same_key(&a.owner, stake_program) {
                Err(AccountError::NotStakeAccount { owner: a.owner })
            } else {
                match a.state {
                    None => Err(AccountError::Undecodable),
                    Some(s) => Ok((a.lamports, s)),
                }
            }
        },
    }
}

/// What the policy sees at an address: an account exists where the lookup
/// gave a stake account, with its balance.
pub fn observe(address: Key, lookup: &Result<(u64, StakeLifecycle), AccountError>) -> (r:
    ObservedAccount)
    ensures
        r.address == address,
        r.exists == (lookup is Ok),
        r.balance == (match *lookup {
            Ok(found) => found.0,
            Err(_) => 0u64,
        }),
{
    match lookup {
        Ok(found) => ObservedAccount { address, exists: true, balance: found.0 },
        Err(_) => ObservedAccount { address, exists: false, balance: 0 },
    }
}

/// Whether the source account can be split from: only an initialized,
/// undelegated stake account can.
pub fn source_is_ready(state: StakeLifecycle) -> (r: bool)
    ensures
        r == (state == StakeLifecycle::Initialized),
{
    match state {
        StakeLifecycle::Initialized => true,
        _ => false,
    }
}

/// Reads a whitelist of validator identities in base-58 text. The keys come
/// in the order of the entries; the position of the first entry that is no
/// key is the error.
pub fn parse_whitelist(entries: &Vec<String>) -> (r: Result<Vec<Key>, usize>)
    ensures
        match r {
            Ok(keys) => {
                &&& keys.len() == entries.len()
                &&& forall|i: int|
                    0 <= i < entries.len() ==> Some((#[trigger] keys@[i])@) == parsed_key(
                        entries@[i]@,
                    )
            },
            Err(position) => {
                &&& position < entries.len()
                &&& parsed_key(entries@[position as int]@) is None
                &&& forall|i: int|
                    0 <= i < position ==> parsed_key((#[trigger] entries@[i])@) is Some
            },
        },
{
    let mut keys: Vec<Key> = Vec::new();
    let mut i: usize = 0;
    while i < entries.len()
        invariant
            i <= entries.len(),
            keys.len() == i,
            forall|j: int|
                0 <= j < i ==> Some((#[trigger] keys@[j])@) == parsed_key(entries@[j]@),
        decreases entries.len() - i,
    {
        match parse_key(entries[i].as_str()) {
            Some(k) => {
                keys.push(k);
            },
            None => {
                assert forall|j: int| 0 <= j < i implies parsed_key(
                    (#[trigger] entries@[j])@,
                ) is Some by {
                    assert(Some(keys@[j]@) == parsed_key(entries@[j]@));
                }
                return Err(i);
            },
        }
        i = i + 1;
    }
    Ok(keys)
}

/// The positions of the vote accounts whose node key is in the whitelist, in
/// the order of the listing. An account whose node key is no key is left out.
pub fn select_whitelisted(accounts: &Vec<VoteAccount>, whitelist: &Vec<Key>) -> (r: Vec<usize>)
    ensures
        r@ == whitelisted_positions(accounts@, whitelist@),
{
    let mut out: Vec<usize> = Vec::new();
    let mut i: usize = 0;
    while i < accounts.len()
        invariant
            i <= accounts.len(),
            out@ == whitelisted_positions(accounts@.take(i as int), whitelist@),
        decreases accounts.len() - i,
    {
        proof {
            let next = accounts@.take(i + 1);
            assert(next.drop_last() =~= accounts@.take(i as int));
            assert(next.last() == accounts@[i as int]);
        }
        match parse_key(accounts[i].node_pubkey.as_str()) {
            Some(k) => {
                if contains_key(whitelist, &k) {
                    out.push(i);
                }
            },
            None => {},
        }
        i = i + 1;
    }
    proof {
        assert(accounts@.take(i as int) =~= accounts@);
    }
    out
}

} // verus!
