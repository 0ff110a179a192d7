//! Account keys, their textual form, and addresses derived from a seed.

use solana_sdk::pubkey::Pubkey;
use std::str::FromStr;
use vstd::prelude::*;
use vstd::string::*;

verus! {

/// A 32-byte account key: a validator identity, a vote account, a stake
/// account or a program.
#[derive(Clone, Copy, Debug, PartialEq, Eq, Hash)]
pub struct Key {
    pub bytes: [u8; 32],
}

impl View for Key {
    type V = Seq<u8>;

    open spec fn view(&self) -> Seq<u8> {
        self.bytes@
    }
}

/// The views of a sequence of keys.
pub open spec fn key_views(keys: Seq<Key>) -> Seq<Seq<u8>> {
    keys.map_values(|k: Key| k@)
}

/// The view of an optional key.
pub open spec fn opt_view(k: Option<Key>) -> Option<Seq<u8>> {
    match k {
        Some(k) => Some(k@),
        None => None,
    }
}

/// Longest seed, in bytes, that an address can be derived from.
pub const MAX_SEED_LEN: usize = 32;

/// The 21 bytes `ProgramDerivedAddress`: no address is derived for an owner
/// whose key ends in them.
pub open spec fn reserved_owner_suffix() -> Seq<u8> {
    seq![
        80u8, 114u8, 111u8, 103u8, 114u8, 97u8, 109u8, 68u8, 101u8, 114u8, 105u8, 118u8, 101u8,
        100u8, 65u8, 100u8, 100u8, 114u8, 101u8, 115u8, 115u8,
    ]
}

/// Whether an owner key ends in the reserved suffix.
pub open spec fn owner_is_reserved(owner: Seq<u8>) -> bool {
    owner.len() >= 21 && owner.subrange(owner.len() - 21, owner.len() as int)
        == reserved_owner_suffix()
}

/// The address that `Pubkey::create_with_seed` gives for a base key, a seed
/// and an owner: a hash of the three, or nothing where it refuses them.
pub uninterp spec fn derived_address(base: Seq<u8>, seed: Seq<char>, owner: Seq<u8>) -> Option<
    Seq<u8>,
>;

/// The key that `Pubkey::from_str` reads from base-58 text, if it reads one.
pub uninterp spec fn parsed_key(text: Seq<char>) -> Option<Seq<u8>>;

/// The base-58 text that `Pubkey`'s `Display` writes for a key.
pub uninterp spec fn key_text(bytes: Seq<u8>) -> Seq<char>;

/// `Pubkey::create_with_seed`. Trusted: the result is the named function of
/// the three arguments, and, as the source tests before hashing, it is an
/// address exactly when the seed has at most 32 bytes and the owner does not
/// end in the reserved suffix.
#[verifier::external_body]
fn create_with_seed(base: &Key, seed: &str, owner: &Key) -> (r: Option<Key>)
    ensures
        opt_view(r) == derived_address(base@, seed@, owner@),
        r.is_some() == (seed.spec_bytes().len() <= 32 && !owner_is_reserved(owner@)),
{
    Pubkey::create_with_seed(&Pubkey::from(base.bytes), seed, &Pubkey::from(owner.bytes))
        .ok()
        .map(|p| Key { bytes: p.to_bytes() })
}

/// `Pubkey::from_str`. Trusted: the result is the named function of the text.
#[verifier::external_body]
fn pubkey_from_str(text: &str) -> (r: Option<Key>)
    ensures
        opt_view(r) == parsed_key(text@),
{
    Pubkey::from_str(text).ok().map(|p| Key { bytes: p.to_bytes() })
}

/// `Pubkey`'s `to_string`. Trusted: the result is the named function of the
/// key's bytes.
#[verifier::external_body]
fn pubkey_to_string(key: &Key) -> (r: String)
    ensures
        r@ == key_text(key@),
{
    Pubkey::from(key.bytes).to_string()
}

/// Whether two keys hold the same bytes.
pub fn same_key(a: &Key, b: &Key) -> (r: bool)
    ensures
        r == (a@ == b@),
{
    let mut i: usize = 0;
    while i < 32
        invariant
            i <= 32,
            forall|j: int| 0 <= j < i ==> a.bytes@[j] == b.bytes@[j],
        decreases 32 - i,
    {
        if a.bytes[i] != b.bytes[i] {
            return false;
        }
        i = i + 1;
    }
    assert(a.bytes@ =~= b.bytes@);
    true
}

/// Whether `key` occurs among `keys`.
pub open spec fn key_in(keys: Seq<Key>, key: Seq<u8>) -> bool {
    exists|i: int| 0 <= i < keys.len() && (#[trigger] keys[i])@ == key
}

/// Whether `key` occurs among `keys`.
pub fn contains_key(keys: &Vec<Key>, key: &Key) -> (r: bool)
    ensures
        r == key_in(keys@, key@),
{
    let mut i: usize = 0;
    while i < keys.len()
        invariant
            i <= keys.len(),
            forall|j: int| 0 <= j < i ==> (#[trigger] keys@[j])@ != key@,
        decreases keys.len() - i,
    {
        if same_key(&keys[i], key) {
            return true;
        }
        i = i + 1;
    }
    false
}

/// The key of the stake program, which owns every stake account:
/// `Stake11111111111111111111111111111111111111` in base-58.
pub open spec fn stake_program_bytes() -> Seq<u8> {
    seq![
        6u8, 161u8, 216u8, 23u8, 145u8, 55u8, 84u8, 42u8, 152u8, 52u8, 55u8, 189u8, 254u8, 42u8,
        122u8, 178u8, 85u8, 127u8, 83u8, 92u8, 138u8, 120u8, 114u8, 43u8, 104u8, 164u8, 157u8,
        192u8, 0u8, 0u8, 0u8, 0u8,
    ]
}

/// The key of the stake program.
pub fn stake_program() -> (r: Key)
    ensures
        r@ == stake_program_bytes(),
        !owner_is_reserved(r@),
{
    let r = Key {
        bytes: [
            6, 161, 216, 23, 145, 55, 84, 42, 152, 52, 55, 189, 254, 42, 122, 178, 85, 127, 83, 92,
            138, 120, 114, 43, 104, 164, 157, 192, 0, 0, 0, 0,
        ],
    };
    proof {
        assert(r.bytes@ =~= stake_program_bytes());
        assert(r@.subrange(r@.len() - 21, r@.len() as int)[20] == 0u8);
        assert(reserved_owner_suffix()[20] == 115u8);
    }
    r
}

/// The address of the stake account that an authority's key and a seed
/// stand for. The same two always give the same address. There is one
/// exactly when the seed has at most 32 bytes.
pub fn derive(authority: &Key, seed: &str) -> (r: Option<Key>)
    ensures
        is_derived(*authority, seed@, r),
        r is Some <==> seed.spec_bytes().len() <= MAX_SEED_LEN,
{
    let owner = stake_program();
    create_with_seed(authority, seed, &owner)
}

/// Whether `r` is the stake address that the authority and the seed give.
pub open spec fn is_derived(authority: Key, seed: Seq<char>, r: Option<Key>) -> bool {
    opt_view(r) == derived_address(authority@, seed, stake_program_bytes())
}

/// Deriving is a function of the authority and the seed: from the same two
/// it gives the same address, or none both times.
pub proof fn derivation_is_determined(
    authority: Key,
    seed: Seq<char>,
    first: Option<Key>,
    second: Option<Key>,
)
    requires
        is_derived(authority, seed, first),
        is_derived(authority, seed, second),
    ensures
        opt_view(first) == opt_view(second),
        first == second,
{
    if first is Some {
        assert(first.unwrap().bytes@ == second.unwrap().bytes@);
        assert(first.unwrap().bytes =~= second.unwrap().bytes);
    }
}

/// Reads a key from its base-58 text.
pub fn parse_key(text: &str) -> (r: Option<Key>)
    ensures
        opt_view(r) == parsed_key(text@),
{
    pubkey_from_str(text)
}

/// Writes a key as base-58 text.
pub fn key_to_text(key: &Key) -> (r: String)
    ensures
        r@ == key_text(key@),
{
    pubkey_to_string(key)
}

} // verus!
