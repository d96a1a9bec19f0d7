//! Authorization guards.
//!
//! Each guard checks one fact about an account and fails with its own
//! distinguishable error; none has a side effect. The protocols compose
//! them before touching any record.
use vstd::prelude::*;

use crate::error::TestudoBondsError;
use crate::keys::AccountFacts;
use crate::keys::Pubkey;
use crate::state::Bond;
use crate::state::UserAccount;

verus! {

/// Assert that the given account is empty.
pub fn assert_empty(account: &AccountFacts) -> (r: Result<(), TestudoBondsError>)
    ensures
        r == (if account.is_empty() {
            Ok::<(), TestudoBondsError>(())
        } else {
            Err(TestudoBondsError::ExpectedEmptyAccount)
        }),
{
    if account.data_len == 0 {
        Ok(())
    } else {
        Err(TestudoBondsError::ExpectedEmptyAccount)
    }
}

/// Assert that the given account is non empty.
pub fn assert_non_empty(account: &AccountFacts) -> (r: Result<(), TestudoBondsError>)
    ensures
        r == (if !account.is_empty() {
            Ok::<(), TestudoBondsError>(())
        } else {
            Err(TestudoBondsError::ExpectedNonEmptyAccount)
        }),
{
    if account.data_len == 0 {
        Err(TestudoBondsError::ExpectedNonEmptyAccount)
    } else {
        Ok(())
    }
}

/// Assert that the given account signed the operation.
pub fn assert_signer(account: &AccountFacts) -> (r: Result<(), TestudoBondsError>)
    ensures
        r == (if account.is_signer {
            Ok::<(), TestudoBondsError>(())
        } else {
            Err(TestudoBondsError::ExpectedSignerAccount)
        }),
{
    if account.is_signer {
        Ok(())
    } else {
        Err(TestudoBondsError::ExpectedSignerAccount)
    }
}

/// Assert that the given account is writable.
pub fn assert_writable(account: &AccountFacts) -> (r: Result<(), TestudoBondsError>)
    ensures
        r == (if account.is_writable {
            Ok::<(), TestudoBondsError>(())
        } else {
            Err(TestudoBondsError::ExpectedWritableAccount)
        }),
{
    if account.is_writable {
        Ok(())
    } else {
        Err(TestudoBondsError::ExpectedWritableAccount)
    }
}

/// Assert that the given account's address matches the expected one.
pub fn assert_same_pubkeys(account: &AccountFacts, expected: &Pubkey) -> (r: Result<
    (),
    TestudoBondsError,
>)
    ensures
        r == (if account.key@ == expected@ {
            Ok::<(), TestudoBondsError>(())
        } else {
            Err(TestudoBondsError::AccountMismatch)
        }),
{
    if account.key.same_as(expected) {
        Ok(())
    } else {
        Err(TestudoBondsError::AccountMismatch)
    }
}

/// Assert that the given account is owned by the given program.
pub fn assert_program_owner(account: &AccountFacts, owner: &Pubkey) -> (r: Result<
    (),
    TestudoBondsError,
>)
    ensures
        r == (if account.owner@ == owner@ {
            Ok::<(), TestudoBondsError>(())
        } else {
            Err(TestudoBondsError::InvalidProgramOwner)
        }),
{
    if account.owner.same_as(owner) {
        Ok(())
    } else {
        Err(TestudoBondsError::InvalidProgramOwner)
    }
}

/// Assert that the given account is owned by one of the given programs.
/// Useful for dealing with program interfaces.
pub fn assert_program_owner_either(account: &AccountFacts, owners: &Vec<Pubkey>) -> (r: Result<
    (),
    TestudoBondsError,
>)
    ensures
        r == (if exists|i: int| 0 <= i < owners@.len() && account.owner@ == (
        #[trigger] owners@[i])@ {
            Ok::<(), TestudoBondsError>(())
        } else {
            Err(TestudoBondsError::InvalidProgramOwner)
        }),
{
    let n = owners.len();
    let mut i: usize = 0;
    while i < n
        invariant
            i <= n,
            n == owners@.len(),
            forall|j: int| 0 <= j < i ==> account.owner@ != (#[trigger] owners@[j])@,
        decreases n - i,
    {
        if account.owner.same_as(&owners[i]) {
            return Ok(());
        }
        i += 1;
    }
    Err(TestudoBondsError::InvalidProgramOwner)
}

/// Assert that the given account's record data starts with the expected
/// key byte.
pub fn assert_account_key(data: &[u8], key: u8) -> (r: Result<(), TestudoBondsError>)
    ensures
        r == (if data@.len() > 1 && data@[0] == key {
            Ok::<(), TestudoBondsError>(())
        } else {
            Err(TestudoBondsError::InvalidAccountKey)
        }),
{
    if data.len() <= 1 {
        Err(TestudoBondsError::InvalidAccountKey)
    } else if *vstd::slice::slice_index_get(data, 0) != key {
        Err(TestudoBondsError::InvalidAccountKey)
    } else {
        Ok(())
    }
}

/// Validity of a bond against its owner record: the bond must be active and
/// its index listed among the owner's active bonds.
pub open spec fn valid_bond_check(bond: &Bond, user: &UserAccount) -> Result<
    (),
    TestudoBondsError,
> {
    if !bond.is_active {
        Err(TestudoBondsError::BondNotActive)
    } else if !user.has_index(bond.bond_index) {
        Err(TestudoBondsError::InvalidBondIndex)
    } else {
        Ok(())
    }
}

/// Assert that the bond is active and listed in the owner record.
pub fn assert_valid_bond(bond_pda_data: &Bond, user_pda_data: &UserAccount) -> (r: Result<
    (),
    TestudoBondsError,
>)
    ensures
        r == valid_bond_check(bond_pda_data, user_pda_data),
{
    if !bond_pda_data.is_active {
        Err(TestudoBondsError::BondNotActive)
    } else if !user_pda_data.has_bond_index(bond_pda_data.bond_index) {
        Err(TestudoBondsError::InvalidBondIndex)
    } else {
        Ok(())
    }
}

} // verus!
