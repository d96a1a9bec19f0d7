//! Reading token-account records.
//!
//! Balances live in token accounts administered by the token program; the
//! engine only reads them: the deposit source's balance before an open, the
//! rewards pool's balance before a claim, and the mint/holder fields when a
//! supplied token account must belong to a given wallet.
use vstd::prelude::*;

use solana_program::program_pack::Pack;

use crate::error::TestudoBondsError;
use crate::keys::Pubkey;

verus! {

/// The fields the engine reads of a token account: its mint, its holder,
/// and its balance.
#[derive(Clone, Copy, Debug)]
pub struct TokenAccountFacts {
    /// The mint the balance is denominated in.
    pub mint: Pubkey,
    /// The wallet the account belongs to.
    pub owner: Pubkey,
    /// The balance, in smallest units.
    pub amount: u64,
}

/// What unpacking a token account record yields — mint, holder, balance —
/// when the bytes form an initialized token account, as a function of the
/// bytes alone.
pub uninterp spec fn unpacked_token_account(data: Seq<u8>) -> Option<(Seq<u8>, Seq<u8>, u64)>;

/// Relies on spl-token's `Account::unpack`: the parse is a function of the
/// bytes alone, failing on anything but a 165-byte record whose state marks
/// it initialized.
#[verifier::external_body]
fn unpack_token_account(data: &[u8]) -> (r: Option<TokenAccountFacts>)
    ensures
        (match r {
            Some(t) => unpacked_token_account(data@) == Some((t.mint@, t.owner@, t.amount)),
            None => unpacked_token_account(data@) is None,
        }),
{
    match spl_token::state::Account::unpack(data) {
        Ok(account) => Some(
            TokenAccountFacts {
                mint: Pubkey { bytes: account.mint.to_bytes() },
                owner: Pubkey { bytes: account.owner.to_bytes() },
                amount: account.amount,
            },
        ),
        Err(_) => None,
    }
}

/// The balance a token account record holds, or the deserialization error
/// when the bytes do not form an initialized token account.
pub open spec fn token_amount_check(data: Seq<u8>) -> Result<u64, TestudoBondsError> {
    match unpacked_token_account(data) {
        Some(t) => Ok(t.2),
        None => Err(TestudoBondsError::DeserializationError),
    }
}

/// Read the balance of a token account record.
pub fn token_account_amount(data: &[u8]) -> (r: Result<u64, TestudoBondsError>)
    ensures
        r == token_amount_check(data@),
{
    match unpack_token_account(data) {
        Some(t) => Ok(t.amount),
        None => Err(TestudoBondsError::DeserializationError),
    }
}

/// Validation of a supplied token account: its bytes must parse, its mint
/// must be the given one, and its holder the given wallet.
pub open spec fn valid_token_account_check(
    wallet: Seq<u8>,
    mint: Seq<u8>,
    data: Seq<u8>,
) -> Result<(), TestudoBondsError> {
    match unpacked_token_account(data) {
        None => Err(TestudoBondsError::InvalidTokenAccounts),
        Some(t) => if t.0 != mint {
            Err(TestudoBondsError::InvalidTokenAccounts)
        } else if t.1 != wallet {
            Err(TestudoBondsError::InvalidTokenAccounts)
        } else {
            Ok(())
        },
    }
}

/// Assert that the token account record belongs to `wallet` and is
/// denominated in `mint`.
pub fn assert_valid_token_account(wallet: &Pubkey, mint: &Pubkey, data: &[u8]) -> (r: Result<
    (),
    TestudoBondsError,
>)
    ensures
        r == valid_token_account_check(wallet@, mint@, data@),
{
    match unpack_token_account(data) {
        None => Err(TestudoBondsError::InvalidTokenAccounts),
        Some(t) => {
            if !t.mint.same_as(mint) {
                Err(TestudoBondsError::InvalidTokenAccounts)
            } else if !t.owner.same_as(wallet) {
                Err(TestudoBondsError::InvalidTokenAccounts)
            } else {
                Ok(())
            }
        },
    }
}

/// What checking a balance floor yields: the deserialization error when the
/// record does not parse, the insufficient-tokens error when the balance is
/// below the floor.
pub open spec fn sufficient_tokens_check(data: Seq<u8>, required_amount: u64) -> Result<
    (),
    TestudoBondsError,
> {
    match unpacked_token_account(data) {
        None => Err(TestudoBondsError::DeserializationError),
        Some(t) => if t.2 < required_amount {
            Err(TestudoBondsError::InsufficientTokens)
        } else {
            Ok(())
        },
    }
}

/// Assert that the token account record holds at least `required_amount`.
pub fn assert_sufficient_tokens(data: &[u8], required_amount: u64) -> (r: Result<
    (),
    TestudoBondsError,
>)
    ensures
        r == sufficient_tokens_check(data@, required_amount),
{
    match unpack_token_account(data) {
        None => Err(TestudoBondsError::DeserializationError),
        Some(t) => {
            if t.amount < required_amount {
                Err(TestudoBondsError::InsufficientTokens)
            } else {
                Ok(())
            }
        },
    }
}

} // verus!
