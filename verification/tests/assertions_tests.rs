use testudo_bonds::assertions::assert_account_key;
use testudo_bonds::assertions::assert_empty;
use testudo_bonds::assertions::assert_non_empty;
use testudo_bonds::assertions::assert_program_owner;
use testudo_bonds::assertions::assert_program_owner_either;
use testudo_bonds::assertions::assert_same_pubkeys;
use testudo_bonds::assertions::assert_signer;
use testudo_bonds::assertions::assert_writable;
use testudo_bonds::error::TestudoBondsError;
use testudo_bonds::keys::AccountFacts;
use testudo_bonds::keys::Pubkey;

fn key(fill: u8) -> Pubkey {
    Pubkey { bytes: [fill; 32] }
}

fn facts(owner: u8, signer: bool, writable: bool, data_len: usize) -> AccountFacts {
    AccountFacts {
        key: key(1),
        owner: key(owner),
        is_signer: signer,
        is_writable: writable,
        data_len,
    }
}

#[test]
fn empty_and_non_empty() {
    assert_eq!(assert_empty(&facts(0, false, false, 0)), Ok(()));
    assert_eq!(
        assert_empty(&facts(0, false, false, 1)),
        Err(TestudoBondsError::ExpectedEmptyAccount)
    );
    assert_eq!(assert_non_empty(&facts(0, false, false, 1)), Ok(()));
    assert_eq!(
        assert_non_empty(&facts(0, false, false, 0)),
        Err(TestudoBondsError::ExpectedNonEmptyAccount)
    );
}

#[test]
fn signer_and_writable() {
    assert_eq!(assert_signer(&facts(0, true, false, 0)), Ok(()));
    assert_eq!(
        assert_signer(&facts(0, false, false, 0)),
        Err(TestudoBondsError::ExpectedSignerAccount)
    );
    assert_eq!(assert_writable(&facts(0, false, true, 0)), Ok(()));
    assert_eq!(
        assert_writable(&facts(0, false, false, 0)),
        Err(TestudoBondsError::ExpectedWritableAccount)
    );
}

#[test]
fn key_comparison() {
    assert_eq!(assert_same_pubkeys(&facts(0, false, false, 0), &key(1)), Ok(()));
    assert_eq!(
        assert_same_pubkeys(&facts(0, false, false, 0), &key(2)),
        Err(TestudoBondsError::AccountMismatch)
    );
}

#[test]
fn program_owner_checks() {
    assert_eq!(assert_program_owner(&facts(7, false, false, 0), &key(7)), Ok(()));
    assert_eq!(
        assert_program_owner(&facts(7, false, false, 0), &key(8)),
        Err(TestudoBondsError::InvalidProgramOwner)
    );
    let owners = vec![key(5), key(7)];
    assert_eq!(
        assert_program_owner_either(&facts(7, false, false, 0), &owners),
        Ok(())
    );
    assert_eq!(
        assert_program_owner_either(&facts(9, false, false, 0), &owners),
        Err(TestudoBondsError::InvalidProgramOwner)
    );
}

#[test]
fn account_key_byte() {
    assert_eq!(assert_account_key(&[4, 0, 0], 4), Ok(()));
    assert_eq!(
        assert_account_key(&[5, 0, 0], 4),
        Err(TestudoBondsError::InvalidAccountKey)
    );
    // A record of one byte or less never carries a key byte.
    assert_eq!(
        assert_account_key(&[4], 4),
        Err(TestudoBondsError::InvalidAccountKey)
    );
}
