use testudo_bonds::error::TestudoBondsError;
use testudo_bonds::keys::AccountFacts;
use testudo_bonds::keys::Pubkey;
use testudo_bonds::pda::admin_seeds_vec;
use testudo_bonds::pda::assert_pda;
use testudo_bonds::pda::bond_seeds_vec;
use testudo_bonds::pda::user_seeds_vec;

fn key(fill: u8) -> Pubkey {
    Pubkey { bytes: [fill; 32] }
}

fn facts(k: Pubkey) -> AccountFacts {
    AccountFacts {
        key: k,
        owner: key(0),
        is_signer: false,
        is_writable: true,
        data_len: 0,
    }
}

#[test]
fn admin_seed_bytes_spell_global_admin() {
    let seeds = admin_seeds_vec();
    assert_eq!(seeds.len(), 1);
    assert_eq!(seeds[0].as_slice(), "global_admin".as_bytes());
}

#[test]
fn user_seed_list_is_tag_then_wallet() {
    let wallet = key(42);
    let seeds = user_seeds_vec(&wallet);
    assert_eq!(seeds.len(), 2);
    assert_eq!(seeds[0].as_slice(), "user".as_bytes());
    assert_eq!(seeds[1].as_slice(), &[42u8; 32]);
}

#[test]
fn bond_seed_list_is_tag_owner_index() {
    let owner = key(9);
    let seeds = bond_seeds_vec(&owner, 7);
    assert_eq!(seeds.len(), 3);
    assert_eq!(seeds[0].as_slice(), "bond".as_bytes());
    assert_eq!(seeds[1].as_slice(), &[9u8; 32]);
    assert_eq!(seeds[2].as_slice(), &[7u8]);
}

#[test]
fn assert_pda_accepts_canonical_address() {
    // Cross-check against the host SDK's own derivation.
    let program = solana_program::pubkey::Pubkey::new_from_array([33; 32]);
    let (expected, expected_bump) =
        solana_program::pubkey::Pubkey::find_program_address(&[b"global_admin"], &program);
    let account = facts(Pubkey {
        bytes: expected.to_bytes(),
    });
    let program_id = key(33);
    let seeds = admin_seeds_vec();
    let bump = assert_pda(&account, &program_id, &seeds).unwrap();
    assert_eq!(bump, expected_bump);
}

#[test]
fn assert_pda_rejects_other_address() {
    let program_id = key(33);
    let account = facts(key(1));
    let seeds = admin_seeds_vec();
    assert_eq!(
        assert_pda(&account, &program_id, &seeds).unwrap_err(),
        TestudoBondsError::InvalidPda
    );
}

#[test]
fn assert_pda_bond_seeds_match_host_derivation() {
    let program = solana_program::pubkey::Pubkey::new_from_array([5; 32]);
    let owner = key(8);
    let (expected, expected_bump) = solana_program::pubkey::Pubkey::find_program_address(
        &[b"bond", &[8u8; 32], &[2u8]],
        &program,
    );
    let account = facts(Pubkey {
        bytes: expected.to_bytes(),
    });
    let seeds = bond_seeds_vec(&owner, 2);
    let bump = assert_pda(&account, &key(5), &seeds).unwrap();
    assert_eq!(bump, expected_bump);
}

#[test]
fn assert_pda_with_bump_accepts_valid_derivation() {
    let program = solana_program::pubkey::Pubkey::new_from_array([33; 32]);
    let (expected, bump) =
        solana_program::pubkey::Pubkey::find_program_address(&[b"global_admin"], &program);
    let account = facts(Pubkey {
        bytes: expected.to_bytes(),
    });
    let mut seeds = admin_seeds_vec();
    seeds.push(vec![bump]);
    assert_eq!(
        testudo_bonds::pda::assert_pda_with_bump(&account, &key(33), &seeds),
        Ok(())
    );
}

#[test]
fn assert_pda_with_bump_rejects_wrong_address() {
    let program = solana_program::pubkey::Pubkey::new_from_array([33; 32]);
    let (_, bump) =
        solana_program::pubkey::Pubkey::find_program_address(&[b"global_admin"], &program);
    let account = facts(key(1));
    let mut seeds = admin_seeds_vec();
    seeds.push(vec![bump]);
    assert_eq!(
        testudo_bonds::pda::assert_pda_with_bump(&account, &key(33), &seeds),
        Err(TestudoBondsError::InvalidPda)
    );
}
