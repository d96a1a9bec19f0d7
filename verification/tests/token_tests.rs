use solana_program::program_option::COption;
use solana_program::program_pack::Pack;
use spl_token::state::Account as TokenAccount;
use spl_token::state::AccountState;

use testudo_bonds::error::TestudoBondsError;
use testudo_bonds::keys::Pubkey;
use testudo_bonds::token::assert_sufficient_tokens;
use testudo_bonds::token::assert_valid_token_account;
use testudo_bonds::token::token_account_amount;

fn key(fill: u8) -> Pubkey {
    Pubkey { bytes: [fill; 32] }
}

fn packed_token_account(mint: u8, owner: u8, amount: u64) -> Vec<u8> {
    let account = TokenAccount {
        mint: solana_program::pubkey::Pubkey::new_from_array([mint; 32]),
        owner: solana_program::pubkey::Pubkey::new_from_array([owner; 32]),
        amount,
        delegate: COption::None,
        state: AccountState::Initialized,
        is_native: COption::None,
        delegated_amount: 0,
        close_authority: COption::None,
    };
    let mut data = vec![0u8; TokenAccount::LEN];
    TokenAccount::pack(account, &mut data).unwrap();
    data
}

#[test]
fn amount_read_from_packed_account() {
    let data = packed_token_account(1, 2, 987_654_321);
    assert_eq!(token_account_amount(&data), Ok(987_654_321));
}

#[test]
fn garbage_bytes_do_not_parse() {
    assert_eq!(
        token_account_amount(&[0u8; 10]),
        Err(TestudoBondsError::DeserializationError)
    );
}

#[test]
fn uninitialized_account_does_not_parse() {
    // A correctly sized but never-initialized record is rejected.
    let data = vec![0u8; TokenAccount::LEN];
    assert_eq!(
        token_account_amount(&data),
        Err(TestudoBondsError::DeserializationError)
    );
}

#[test]
fn valid_token_account_accepted() {
    let data = packed_token_account(1, 2, 5);
    assert_eq!(
        assert_valid_token_account(&key(2), &key(1), &data),
        Ok(())
    );
}

#[test]
fn wrong_mint_rejected() {
    let data = packed_token_account(1, 2, 5);
    assert_eq!(
        assert_valid_token_account(&key(2), &key(9), &data),
        Err(TestudoBondsError::InvalidTokenAccounts)
    );
}

#[test]
fn wrong_holder_rejected() {
    let data = packed_token_account(1, 2, 5);
    assert_eq!(
        assert_valid_token_account(&key(9), &key(1), &data),
        Err(TestudoBondsError::InvalidTokenAccounts)
    );
}

#[test]
fn sufficient_tokens_boundary() {
    let data = packed_token_account(1, 2, 100);
    assert_eq!(assert_sufficient_tokens(&data, 100), Ok(()));
    assert_eq!(
        assert_sufficient_tokens(&data, 101),
        Err(TestudoBondsError::InsufficientTokens)
    );
}
