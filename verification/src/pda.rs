//! Derived addresses.
//!
//! Every record of the ledger lives at an address derived deterministically
//! from a seed list and the program's identity: the configuration record
//! under the "global_admin" seed, each owner record under "user" plus the
//! wallet address, and each bond under "bond" plus the owner record's
//! address and the bond index. A caller must supply the canonical derived
//! address; anything else is rejected.
use vstd::prelude::*;

use crate::error::TestudoBondsError;
use crate::keys::AccountFacts;
use crate::keys::Pubkey;

verus! {

/// The canonical derived address and its disambiguator ("bump") for a seed
/// list under a program identity, when one exists. Derivation is a pure
/// function of the seeds and the program identity.
pub uninterp spec fn derived_address(seeds: Seq<Seq<u8>>, program_id: Seq<u8>) -> Option<
    (Seq<u8>, u8),
>;

/// Relies on `Pubkey::try_find_program_address` of solana-program: the
/// canonical derived address depends on the seed list and the program
/// identity alone, and the search returns `None` when no disambiguator
/// yields a valid address.
#[verifier::external_body]
fn find_program_address(seeds: &Vec<Vec<u8>>, program_id: &Pubkey) -> (r: Option<(Pubkey, u8)>)
    ensures
        (match r {
            Some(pair) => derived_address(seeds.deep_view(), program_id@) == Some(
                (pair.0@, pair.1),
            ),
            None => derived_address(seeds.deep_view(), program_id@) is None,
        }),
{
    let seed_slices: Vec<&[u8]> = seeds.iter().map(|s| s.as_slice()).collect();
    let program = solana_program::pubkey::Pubkey::new_from_array(program_id.bytes);
    solana_program::pubkey::Pubkey::try_find_program_address(&seed_slices, &program).map(
        |(key, bump)| (Pubkey { bytes: key.to_bytes() }, bump),
    )
}

/// What checking a caller-supplied address against the canonical derivation
/// yields: the disambiguator when the address is the canonical one, the
/// invalid-derivation error otherwise (also when no canonical address
/// exists for the seeds).
pub open spec fn pda_check(key: Seq<u8>, seeds: Seq<Seq<u8>>, program_id: Seq<u8>) -> Result<
    u8,
    TestudoBondsError,
> {
    match derived_address(seeds, program_id) {
        Some(pair) => if key == pair.0 {
            Ok(pair.1)
        } else {
            Err(TestudoBondsError::InvalidPda)
        },
        None => Err(TestudoBondsError::InvalidPda),
    }
}

/// Assert the derivation of the seeds against the given account and return
/// the bump seed.
pub fn assert_pda(account: &AccountFacts, program_id: &Pubkey, seeds: &Vec<Vec<u8>>) -> (r: Result<
    u8,
    TestudoBondsError,
>)
    ensures
        r == pda_check(account.key@, seeds.deep_view(), program_id@),
{
    match find_program_address(seeds, program_id) {
        Some((key, bump)) => {
            if account.key.same_as(&key) {
                Ok(bump)
            } else {
                Err(TestudoBondsError::InvalidPda)
            }
        },
        None => Err(TestudoBondsError::InvalidPda),
    }
}

/// The ASCII bytes of "global_admin", the seed of the configuration record.
pub open spec fn admin_seed() -> Seq<u8> {
    seq![103u8, 108u8, 111u8, 98u8, 97u8, 108u8, 95u8, 97u8, 100u8, 109u8, 105u8, 110u8]
}

/// Seed list of the configuration record.
pub open spec fn admin_seeds() -> Seq<Seq<u8>> {
    seq![admin_seed()]
}

/// The ASCII bytes of "user", the leading seed of an owner record.
pub open spec fn user_seed() -> Seq<u8> {
    seq![117u8, 115u8, 101u8, 114u8]
}

/// Seed list of the owner record of `wallet`.
pub open spec fn user_seeds(wallet: Seq<u8>) -> Seq<Seq<u8>> {
    seq![user_seed(), wallet]
}

/// The ASCII bytes of "bond", the leading seed of a bond record.
pub open spec fn bond_seed() -> Seq<u8> {
    seq![98u8, 111u8, 110u8, 100u8]
}

/// Seed list of the bond filed under `index` in the owner record at
/// `user_pda`.
pub open spec fn bond_seeds(user_pda: Seq<u8>, index: u8) -> Seq<Seq<u8>> {
    seq![bond_seed(), user_pda, seq![index]]
}

/// Seed list of the configuration record, as passed to the derivation.
pub fn admin_seeds_vec() -> (r: Vec<Vec<u8>>)
    ensures
        r.deep_view() == admin_seeds(),
{
    // "global_admin"
    let tag: [u8; 12] = [103, 108, 111, 98, 97, 108, 95, 97, 100, 109, 105, 110];
    let mut r: Vec<Vec<u8>> = Vec::new();
    r.push(vstd::slice::slice_to_vec(tag.as_slice()));
    proof {
        assert(tag@ =~= admin_seed());
        assert(r.deep_view() =~~= admin_seeds());
    }
    r
}

/// Seed list of the owner record of `wallet`, as passed to the derivation.
pub fn user_seeds_vec(wallet: &Pubkey) -> (r: Vec<Vec<u8>>)
    ensures
        r.deep_view() == user_seeds(wallet@),
{
    // "user"
    let tag: [u8; 4] = [117, 115, 101, 114];
    let mut r: Vec<Vec<u8>> = Vec::new();
    r.push(vstd::slice::slice_to_vec(tag.as_slice()));
    r.push(wallet.to_vec());
    proof {
        assert(tag@ =~= user_seed());
        assert(r.deep_view() =~~= user_seeds(wallet@));
    }
    r
}

/// Seed list of the bond filed under `index` in the owner record at
/// `user_pda`, as passed to the derivation.
pub fn bond_seeds_vec(user_pda: &Pubkey, index: u8) -> (r: Vec<Vec<u8>>)
    ensures
        r.deep_view() == bond_seeds(user_pda@, index),
{
    // "bond"
    let tag: [u8; 4] = [98, 111, 110, 100];
    let mut r: Vec<Vec<u8>> = Vec::new();
    r.push(vstd::slice::slice_to_vec(tag.as_slice()));
    r.push(user_pda.to_vec());
    let mut index_seed: Vec<u8> = Vec::new();
    index_seed.push(index);
    r.push(index_seed);
    proof {
        assert(tag@ =~= bond_seed());
        assert(r.deep_view()[2] =~= seq![index]);
        assert(r.deep_view() =~~= bond_seeds(user_pda@, index));
    }
    r
}


/// The derived address for a full seed list that already carries its
/// disambiguator, when the derivation is valid; `None` both for oversized
/// seed lists and for derivations that land on the reserved address space.
pub uninterp spec fn created_address(seeds: Seq<Seq<u8>>, program_id: Seq<u8>) -> Option<Seq<u8>>;

/// Relies on `Pubkey::create_program_address` of solana-program: the
/// derivation is a pure function of the seed list and the program identity,
/// and it rejects invalid seed lists.
#[verifier::external_body]
fn create_program_address(seeds: &Vec<Vec<u8>>, program_id: &Pubkey) -> (r: Option<Pubkey>)
    ensures
        (match r {
            Some(key) => created_address(seeds.deep_view(), program_id@) == Some(key@),
            None => created_address(seeds.deep_view(), program_id@) is None,
        }),
{
    let seed_slices: Vec<&[u8]> = seeds.iter().map(|s| s.as_slice()).collect();
    let program = solana_program::pubkey::Pubkey::new_from_array(program_id.bytes);
    match solana_program::pubkey::Pubkey::create_program_address(&seed_slices, &program) {
        Ok(key) => Some(Pubkey { bytes: key.to_bytes() }),
        Err(_) => None,
    }
}

/// What checking an address against a derivation with a supplied
/// disambiguator yields: success exactly when the derivation is valid and
/// lands on the given address.
pub open spec fn pda_with_bump_check(
    key: Seq<u8>,
    seeds_with_bump: Seq<Seq<u8>>,
    program_id: Seq<u8>,
) -> Result<(), TestudoBondsError> {
    match created_address(seeds_with_bump, program_id) {
        Some(addr) => if key == addr {
            Ok(())
        } else {
            Err(TestudoBondsError::InvalidPda)
        },
        None => Err(TestudoBondsError::InvalidPda),
    }
}

/// Assert the derivation of the seeds plus bump against the given account.
pub fn assert_pda_with_bump(
    account: &AccountFacts,
    program_id: &Pubkey,
    seeds_with_bump: &Vec<Vec<u8>>,
) -> (r: Result<(), TestudoBondsError>)
    ensures
        r == pda_with_bump_check(account.key@, seeds_with_bump.deep_view(), program_id@),
{
    match create_program_address(seeds_with_bump, program_id) {
        Some(key) => {
            if account.key.same_as(&key) {
                Ok(())
            } else {
                Err(TestudoBondsError::InvalidPda)
            }
        },
        None => Err(TestudoBondsError::InvalidPda),
    }
}


} // verus!
