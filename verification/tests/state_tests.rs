use testudo_bonds::assertions::assert_valid_bond;
use testudo_bonds::error::TestudoBondsError;
use testudo_bonds::keys::Pubkey;
use testudo_bonds::state::Bond;
use testudo_bonds::state::UserAccount;

fn key(fill: u8) -> Pubkey {
    Pubkey { bytes: [fill; 32] }
}

#[test]
fn new_owner_record_is_blank() {
    let u = UserAccount::new(key(1));
    assert_eq!(u.user.bytes, [1u8; 32]);
    assert_eq!(u.bond_count, 0);
    assert_eq!(u.total_accrued_rewards, 0);
    assert!(u.active_bonds.is_empty());
    assert_eq!(u.bond_index, 0);
}

#[test]
fn indices_advance_and_are_never_reused() {
    let mut u = UserAccount::new(key(1));
    let first = u.add_bond(key(10));
    let second = u.add_bond(key(11));
    assert_eq!(first, 0);
    assert_eq!(second, 1);
    assert_eq!(u.bond_count, 2);
    assert_eq!(u.bond_index, 2);
    u.remove_bond(0);
    assert_eq!(u.bond_count, 1);
    // The freed index is not handed out again: the counter keeps going.
    let third = u.add_bond(key(12));
    assert_eq!(third, 2);
    assert_eq!(u.bond_index, 3);
    assert!(!u.has_bond_index(0));
    assert!(u.has_bond_index(1));
    assert!(u.has_bond_index(2));
}

#[test]
fn remove_keeps_the_other_bonds() {
    let mut u = UserAccount::new(key(1));
    u.add_bond(key(10));
    u.add_bond(key(11));
    u.add_bond(key(12));
    u.remove_bond(1);
    assert_eq!(u.bond_count, 2);
    assert_eq!(u.active_bonds.len(), 2);
    assert_eq!(u.active_bonds[0].0, 0);
    assert_eq!(u.active_bonds[1].0, 2);
    assert_eq!(u.active_bonds[1].1.bytes, [12u8; 32]);
}

#[test]
fn new_bond_starts_active_and_unclaimed() {
    let b = Bond::new(key(3), 4, 1_700_000_000);
    assert_eq!(b.owner.bytes, [3u8; 32]);
    assert_eq!(b.bond_index, 4);
    assert_eq!(b.creation_timestamp, 1_700_000_000);
    assert_eq!(b.last_claim_timestamp, 1_700_000_000);
    assert_eq!(b.total_claimed, 0);
    assert!(b.is_active);
}

#[test]
fn inactive_bond_is_rejected() {
    let mut u = UserAccount::new(key(1));
    u.add_bond(key(10));
    let mut b = Bond::new(key(1), 0, 0);
    b.is_active = false;
    assert_eq!(
        assert_valid_bond(&b, &u),
        Err(TestudoBondsError::BondNotActive)
    );
}

#[test]
fn unlisted_bond_is_rejected() {
    let u = UserAccount::new(key(1));
    let b = Bond::new(key(1), 0, 0);
    assert_eq!(
        assert_valid_bond(&b, &u),
        Err(TestudoBondsError::InvalidBondIndex)
    );
}

#[test]
fn listed_active_bond_is_accepted() {
    let mut u = UserAccount::new(key(1));
    u.add_bond(key(10));
    let b = Bond::new(key(1), 0, 0);
    assert_eq!(assert_valid_bond(&b, &u), Ok(()));
}

#[test]
fn error_codes_are_stable() {
    assert_eq!(TestudoBondsError::DeserializationError.code(), 0);
    assert_eq!(TestudoBondsError::SerializationError.code(), 1);
    assert_eq!(TestudoBondsError::InvalidProgramOwner.code(), 2);
    assert_eq!(TestudoBondsError::InvalidPda.code(), 3);
    assert_eq!(TestudoBondsError::ExpectedEmptyAccount.code(), 4);
    assert_eq!(TestudoBondsError::ExpectedNonEmptyAccount.code(), 5);
    assert_eq!(TestudoBondsError::ExpectedSignerAccount.code(), 6);
    assert_eq!(TestudoBondsError::ExpectedWritableAccount.code(), 7);
    assert_eq!(TestudoBondsError::AccountMismatch.code(), 8);
    assert_eq!(TestudoBondsError::InvalidAccountKey.code(), 9);
    assert_eq!(TestudoBondsError::NumericalOverflow.code(), 10);
    assert_eq!(TestudoBondsError::InsufficientTokens.code(), 11);
    assert_eq!(TestudoBondsError::InvalidBondIndex.code(), 12);
    assert_eq!(TestudoBondsError::InvalidTokenAccounts.code(), 13);
    assert_eq!(TestudoBondsError::NoRewardsToClaim.code(), 14);
    assert_eq!(TestudoBondsError::InsufficientRewards.code(), 15);
    assert_eq!(TestudoBondsError::BondNotActive.code(), 16);
    assert_eq!(TestudoBondsError::MaxBondsReached.code(), 17);
    assert_eq!(TestudoBondsError::BondOperationsPaused.code(), 18);
    assert_eq!(TestudoBondsError::BondIsActive.code(), 19);
}
