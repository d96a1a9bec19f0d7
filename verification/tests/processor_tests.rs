use solana_program::program_option::COption;
use solana_program::program_pack::Pack;
use spl_token::state::Account as TokenAccount;
use spl_token::state::AccountState;

use testudo_bonds::codec::encode_admin;
use testudo_bonds::codec::encode_bond;
use testudo_bonds::codec::encode_user_account;
use testudo_bonds::error::TestudoBondsError;
use testudo_bonds::keys::AccountFacts;
use testudo_bonds::keys::Pubkey;
use testudo_bonds::processor::initialize_admin;
use testudo_bonds::processor::initialize_bond;
use testudo_bonds::processor::initialize_user;
use testudo_bonds::processor::process_claim;
use testudo_bonds::processor::update_admin_data;
use testudo_bonds::state::Admin;
use testudo_bonds::state::Bond;
use testudo_bonds::state::UserAccount;

fn key(fill: u8) -> Pubkey {
    Pubkey { bytes: [fill; 32] }
}

fn facts(k: Pubkey, signer: bool, data_len: usize) -> AccountFacts {
    AccountFacts {
        key: k,
        owner: key(0),
        is_signer: signer,
        is_writable: true,
        data_len,
    }
}

fn derive(seeds: &[&[u8]], program: &Pubkey) -> Pubkey {
    let program = solana_program::pubkey::Pubkey::new_from_array(program.bytes);
    let (k, _) = solana_program::pubkey::Pubkey::find_program_address(seeds, &program);
    Pubkey { bytes: k.to_bytes() }
}

fn packed_token_account(mint: &Pubkey, owner: &Pubkey, amount: u64) -> Vec<u8> {
    let account = TokenAccount {
        mint: solana_program::pubkey::Pubkey::new_from_array(mint.bytes),
        owner: solana_program::pubkey::Pubkey::new_from_array(owner.bytes),
        amount,
        delegate: COption::None,
        state: AccountState::Initialized,
        is_native: COption::None,
        delegated_amount: 0,
        close_authority: COption::None,
    };
    let mut data = vec![0u8; TokenAccount::LEN];
    TokenAccount::pack(account, &mut data).unwrap();
    data
}

// A fixed cast of accounts shared by the protocol tests.
struct Stage {
    program_id: Pubkey,
    wallet: Pubkey,
    user_pda_key: Pubkey,
    admin_pda_key: Pubkey,
    mint: Pubkey,
    treasury_ata: Pubkey,
    team_ata: Pubkey,
    rewards_pool_ata: Pubkey,
    admin: Admin,
}

fn stage() -> Stage {
    let program_id = key(200);
    let wallet = key(50);
    let user_pda_key = derive(&[b"user", &[50u8; 32]], &program_id);
    let admin_pda_key = derive(&[b"global_admin"], &program_id);
    let mint = key(60);
    let treasury_ata = key(61);
    let team_ata = key(62);
    let rewards_pool_ata = key(63);
    let admin = Admin {
        authority: key(70),
        treasury: treasury_ata,
        team: team_ata,
        rewards_pool: rewards_pool_ata,
        native_token_mint: mint,
        daily_emission_rate: 55_000_000,
        max_emission_per_bond: 20_000_000_000,
        max_bonds_per_wallet: 10,
        token_deposit_split: [4_000, 4_000, 2_000],
        claim_penalty: 500,
        pause_bond_operations: false,
    };
    Stage {
        program_id,
        wallet,
        user_pda_key,
        admin_pda_key,
        mint,
        treasury_ata,
        team_ata,
        rewards_pool_ata,
        admin,
    }
}

fn bond_pda_key(s: &Stage, index: u8) -> Pubkey {
    derive(
        &[b"bond", &s.user_pda_key.bytes, &[index]],
        &s.program_id,
    )
}

#[test]
fn initialize_admin_creates_default_configuration() {
    let s = stage();
    let (admin, _bump) = initialize_admin(
        &s.program_id,
        &facts(s.admin_pda_key, false, 0),
        &facts(s.admin.authority, true, 0),
        &s.rewards_pool_ata,
        &s.treasury_ata,
        &s.team_ata,
        &s.mint,
        55_000_000,
        20_000_000_000,
        500,
    )
    .unwrap();
    assert_eq!(admin.authority.bytes, s.admin.authority.bytes);
    assert_eq!(admin.max_bonds_per_wallet, 10);
    assert_eq!(admin.token_deposit_split, [4_000, 4_000, 2_000]);
    assert!(!admin.pause_bond_operations);
    assert_eq!(admin.daily_emission_rate, 55_000_000);
    assert_eq!(admin.max_emission_per_bond, 20_000_000_000);
    assert_eq!(admin.claim_penalty, 500);
}

#[test]
fn initialize_admin_rejects_wrong_address() {
    let s = stage();
    let r = initialize_admin(
        &s.program_id,
        &facts(key(1), false, 0),
        &facts(s.admin.authority, true, 0),
        &s.rewards_pool_ata,
        &s.treasury_ata,
        &s.team_ata,
        &s.mint,
        55_000_000,
        20_000_000_000,
        500,
    );
    assert_eq!(r.unwrap_err(), TestudoBondsError::InvalidPda);
}

#[test]
fn initialize_admin_rejects_existing_record() {
    let s = stage();
    let r = initialize_admin(
        &s.program_id,
        &facts(s.admin_pda_key, false, 186),
        &facts(s.admin.authority, true, 0),
        &s.rewards_pool_ata,
        &s.treasury_ata,
        &s.team_ata,
        &s.mint,
        55_000_000,
        20_000_000_000,
        500,
    );
    assert_eq!(r.unwrap_err(), TestudoBondsError::ExpectedEmptyAccount);
}

#[test]
fn initialize_admin_requires_signature() {
    let s = stage();
    let r = initialize_admin(
        &s.program_id,
        &facts(s.admin_pda_key, false, 0),
        &facts(s.admin.authority, false, 0),
        &s.rewards_pool_ata,
        &s.treasury_ata,
        &s.team_ata,
        &s.mint,
        55_000_000,
        20_000_000_000,
        500,
    );
    assert_eq!(r.unwrap_err(), TestudoBondsError::ExpectedSignerAccount);
}

#[test]
fn initialize_user_creates_blank_record() {
    let s = stage();
    let (user, _bump) = initialize_user(
        &s.program_id,
        &facts(s.user_pda_key, false, 0),
        &facts(s.wallet, true, 0),
    )
    .unwrap();
    assert_eq!(user.user.bytes, s.wallet.bytes);
    assert_eq!(user.bond_count, 0);
    assert_eq!(user.bond_index, 0);
    assert!(user.active_bonds.is_empty());
}

#[test]
fn initialize_user_rejects_existing_record() {
    let s = stage();
    let r = initialize_user(
        &s.program_id,
        &facts(s.user_pda_key, false, 46),
        &facts(s.wallet, true, 0),
    );
    assert_eq!(r.unwrap_err(), TestudoBondsError::ExpectedEmptyAccount);
}

#[test]
fn update_admin_replaces_record_for_authority() {
    let s = stage();
    let stored = encode_admin(&s.admin);
    let mut replacement = s.admin;
    replacement.pause_bond_operations = true;
    replacement.claim_penalty = 750;
    let out = update_admin_data(
        &s.program_id,
        &facts(s.admin_pda_key, false, stored.len()),
        &stored,
        &facts(s.admin.authority, true, 0),
        replacement,
    )
    .unwrap();
    assert!(out.pause_bond_operations);
    assert_eq!(out.claim_penalty, 750);
}

#[test]
fn update_admin_rejects_other_caller() {
    let s = stage();
    let stored = encode_admin(&s.admin);
    let r = update_admin_data(
        &s.program_id,
        &facts(s.admin_pda_key, false, stored.len()),
        &stored,
        &facts(key(99), true, 0),
        s.admin,
    );
    assert_eq!(r.unwrap_err(), TestudoBondsError::AccountMismatch);
}

#[test]
fn open_position_splits_ten_tokens_forty_forty_twenty() {
    let s = stage();
    let user = UserAccount::new(s.wallet);
    let user_bytes = encode_user_account(&user);
    let admin_bytes = encode_admin(&s.admin);
    let ata = packed_token_account(&s.mint, &s.wallet, 10_000_000_000);
    let o = initialize_bond(
        &s.program_id,
        &facts(bond_pda_key(&s, 0), false, 0),
        &facts(s.wallet, true, 0),
        &facts(s.user_pda_key, false, user_bytes.len()),
        &user_bytes,
        &facts(s.admin_pda_key, false, admin_bytes.len()),
        &admin_bytes,
        &ata,
        &facts(s.rewards_pool_ata, false, 165),
        &facts(s.treasury_ata, false, 165),
        &facts(s.team_ata, false, 165),
        &facts(s.mint, false, 82),
        1_700_000_000,
    )
    .unwrap();
    // The fixed ten-token deposit moves 4, 4, and 2 whole tokens.
    assert_eq!(
        o.deposit_split,
        [4_000_000_000, 4_000_000_000, 2_000_000_000]
    );
    assert_eq!(
        o.deposit_split[0] + o.deposit_split[1] + o.deposit_split[2],
        10_000_000_000
    );
    assert_eq!(o.bond_index, 0);
    assert_eq!(o.bond.owner.bytes, s.user_pda_key.bytes);
    assert_eq!(o.bond.creation_timestamp, 1_700_000_000);
    assert_eq!(o.bond.last_claim_timestamp, 1_700_000_000);
    assert_eq!(o.bond.total_claimed, 0);
    assert!(o.bond.is_active);
    assert_eq!(o.user.bond_count, 1);
    assert_eq!(o.user.bond_index, 1);
    assert_eq!(o.user.active_bonds.len(), 1);
    assert_eq!(o.user.active_bonds[0].0, 0);
}

#[test]
fn open_position_rejected_while_paused() {
    let s = stage();
    let user = UserAccount::new(s.wallet);
    let user_bytes = encode_user_account(&user);
    let mut paused = s.admin;
    paused.pause_bond_operations = true;
    let admin_bytes = encode_admin(&paused);
    let ata = packed_token_account(&s.mint, &s.wallet, 10_000_000_000);
    let r = initialize_bond(
        &s.program_id,
        &facts(bond_pda_key(&s, 0), false, 0),
        &facts(s.wallet, true, 0),
        &facts(s.user_pda_key, false, user_bytes.len()),
        &user_bytes,
        &facts(s.admin_pda_key, false, admin_bytes.len()),
        &admin_bytes,
        &ata,
        &facts(s.rewards_pool_ata, false, 165),
        &facts(s.treasury_ata, false, 165),
        &facts(s.team_ata, false, 165),
        &facts(s.mint, false, 82),
        1_700_000_000,
    );
    assert_eq!(r.unwrap_err(), TestudoBondsError::BondOperationsPaused);
}

#[test]
fn open_position_needs_ten_tokens() {
    let s = stage();
    let user = UserAccount::new(s.wallet);
    let user_bytes = encode_user_account(&user);
    let admin_bytes = encode_admin(&s.admin);
    let ata = packed_token_account(&s.mint, &s.wallet, 9_999_999_999);
    let r = initialize_bond(
        &s.program_id,
        &facts(bond_pda_key(&s, 0), false, 0),
        &facts(s.wallet, true, 0),
        &facts(s.user_pda_key, false, user_bytes.len()),
        &user_bytes,
        &facts(s.admin_pda_key, false, admin_bytes.len()),
        &admin_bytes,
        &ata,
        &facts(s.rewards_pool_ata, false, 165),
        &facts(s.treasury_ata, false, 165),
        &facts(s.team_ata, false, 165),
        &facts(s.mint, false, 82),
        1_700_000_000,
    );
    assert_eq!(r.unwrap_err(), TestudoBondsError::InsufficientTokens);
}

#[test]
fn open_position_respects_bond_limit() {
    let s = stage();
    let mut limited = s.admin;
    limited.max_bonds_per_wallet = 1;
    let mut user = UserAccount::new(s.wallet);
    user.add_bond(bond_pda_key(&s, 0));
    let user_bytes = encode_user_account(&user);
    let admin_bytes = encode_admin(&limited);
    let ata = packed_token_account(&s.mint, &s.wallet, 10_000_000_000);
    let r = initialize_bond(
        &s.program_id,
        &facts(bond_pda_key(&s, 1), false, 0),
        &facts(s.wallet, true, 0),
        &facts(s.user_pda_key, false, user_bytes.len()),
        &user_bytes,
        &facts(s.admin_pda_key, false, admin_bytes.len()),
        &admin_bytes,
        &ata,
        &facts(s.rewards_pool_ata, false, 165),
        &facts(s.treasury_ata, false, 165),
        &facts(s.team_ata, false, 165),
        &facts(s.mint, false, 82),
        1_700_000_000,
    );
    assert_eq!(r.unwrap_err(), TestudoBondsError::MaxBondsReached);
}

// Accounts and records for a claim on one open bond at index zero.
struct ClaimStage {
    s: Stage,
    user_bytes: Vec<u8>,
    bond_bytes: Vec<u8>,
    admin_bytes: Vec<u8>,
    ata: Vec<u8>,
    pool: Vec<u8>,
}

fn claim_stage(admin: Admin, total_claimed: u64, pool_amount: u64) -> ClaimStage {
    let s = stage();
    let mut user = UserAccount::new(s.wallet);
    user.add_bond(bond_pda_key(&s, 0));
    user.total_accrued_rewards = 100;
    let bond = Bond {
        owner: s.user_pda_key,
        bond_index: 0,
        creation_timestamp: 0,
        last_claim_timestamp: 0,
        total_claimed,
        is_active: true,
    };
    let ata = packed_token_account(&s.mint, &s.wallet, 5);
    let pool = packed_token_account(&s.mint, &s.admin_pda_key, pool_amount);
    ClaimStage {
        user_bytes: encode_user_account(&user),
        bond_bytes: encode_bond(&bond),
        admin_bytes: encode_admin(&admin),
        ata,
        pool,
        s,
    }
}

fn run_claim(
    c: &ClaimStage,
    bond_index: u8,
    auto_compound: bool,
    now: i64,
) -> Result<testudo_bonds::processor::ClaimOutcome, TestudoBondsError> {
    process_claim(
        &c.s.program_id,
        &facts(bond_pda_key(&c.s, bond_index), false, c.bond_bytes.len()),
        &c.bond_bytes,
        &facts(c.s.wallet, true, 0),
        &facts(c.s.user_pda_key, false, c.user_bytes.len()),
        &c.user_bytes,
        &c.ata,
        &facts(c.s.admin_pda_key, false, c.admin_bytes.len()),
        &c.admin_bytes,
        &c.pool,
        &facts(c.s.treasury_ata, false, 165),
        &facts(c.s.team_ata, false, 165),
        &facts(bond_pda_key(&c.s, 1), false, 0),
        &facts(c.s.mint, false, 82),
        bond_index,
        auto_compound,
        now,
    )
}

#[test]
fn claim_clamps_to_cap_and_closes_the_bond() {
    let s = stage();
    let mut admin = s.admin;
    admin.daily_emission_rate = 60_000_000;
    admin.max_emission_per_bond = 2_000_000_000;
    // Five full days accrue 300_000_000 with no penalty; 1_800_000_000 of
    // the 2_000_000_000 cap is already claimed, so exactly the remaining
    // 200_000_000 is paid and the bond closes.
    let c = claim_stage(admin, 1_800_000_000, 1_000_000_000);
    let o = run_claim(&c, 0, false, 432_000).unwrap();
    assert_eq!(o.reward, 200_000_000);
    assert!(o.close_bond);
    assert_eq!(o.bond.total_claimed, 2_000_000_000);
    assert!(!o.bond.is_active);
    assert_eq!(o.bond.last_claim_timestamp, 432_000);
    assert_eq!(o.user.bond_count, 0);
    assert!(o.user.active_bonds.is_empty());
    assert_eq!(o.user.bond_index, 1);
    assert_eq!(o.user.total_accrued_rewards, 100 + 200_000_000);
    assert!(o.new_bond.is_none());
    assert_eq!(o.payout_amount, 200_000_000);
    assert_eq!(o.compound_treasury_amount, 0);
    assert_eq!(o.compound_team_amount, 0);
}

#[test]
fn claim_auto_compounds_into_a_new_bond() {
    let s = stage();
    let mut admin = s.admin;
    // Five full days at 1.6 tokens per day accrue exactly the eight-token
    // reserve, with no penalty at the window's edge.
    admin.daily_emission_rate = 1_600_000_000;
    admin.max_emission_per_bond = 100_000_000_000;
    let c = claim_stage(admin, 0, 100_000_000_000);
    let o = run_claim(&c, 0, true, 432_000).unwrap();
    assert_eq!(o.reward, 8_000_000_000);
    assert!(!o.close_bond);
    let (new_bond, _bump) = o.new_bond.unwrap();
    assert_eq!(new_bond.bond_index, 1);
    assert_eq!(new_bond.creation_timestamp, 432_000);
    assert_eq!(new_bond.total_claimed, 0);
    assert!(new_bond.is_active);
    // The reserve's treasury and team shares leave the pool; the pool's own
    // share stays put, and nothing is left to pay out.
    assert_eq!(o.compound_treasury_amount, 3_200_000_000);
    assert_eq!(o.compound_team_amount, 1_600_000_000);
    assert_eq!(o.payout_amount, 0);
    assert_eq!(o.user.bond_count, 2);
    assert_eq!(o.user.bond_index, 2);
    assert_eq!(o.bond.total_claimed, 8_000_000_000);
}

#[test]
fn claim_without_compound_flag_pays_everything_out() {
    let s = stage();
    let mut admin = s.admin;
    admin.daily_emission_rate = 1_600_000_000;
    admin.max_emission_per_bond = 100_000_000_000;
    let c = claim_stage(admin, 0, 100_000_000_000);
    let o = run_claim(&c, 0, false, 432_000).unwrap();
    assert_eq!(o.reward, 8_000_000_000);
    assert!(o.new_bond.is_none());
    assert_eq!(o.payout_amount, 8_000_000_000);
    assert_eq!(o.user.bond_count, 1);
    assert_eq!(o.user.bond_index, 1);
}

#[test]
fn claim_rejected_while_paused_even_for_bad_index() {
    let s = stage();
    let mut admin = s.admin;
    admin.pause_bond_operations = true;
    let c = claim_stage(admin, 0, 1_000_000_000);
    // The pause check comes before the index is even looked at.
    let r = run_claim(&c, 0, false, 432_000);
    assert_eq!(r.unwrap_err(), TestudoBondsError::BondOperationsPaused);
    let r = run_claim(&c, 9, true, 432_000);
    assert_eq!(r.unwrap_err(), TestudoBondsError::BondOperationsPaused);
}

#[test]
fn claim_of_unlisted_index_rejected() {
    let s = stage();
    let c0 = claim_stage(s.admin, 0, 1_000_000_000);
    // A decodable bond record at the right address for index 5, but the
    // owner record only lists index 0.
    let bond5 = Bond {
        owner: c0.s.user_pda_key,
        bond_index: 5,
        creation_timestamp: 0,
        last_claim_timestamp: 0,
        total_claimed: 0,
        is_active: true,
    };
    let c = ClaimStage {
        bond_bytes: encode_bond(&bond5),
        ..c0
    };
    let r = run_claim(&c, 5, false, 432_000);
    assert_eq!(r.unwrap_err(), TestudoBondsError::InvalidBondIndex);
}

#[test]
fn claim_fails_when_pool_cannot_cover() {
    let s = stage();
    let mut admin = s.admin;
    admin.daily_emission_rate = 60_000_000;
    let c = claim_stage(admin, 0, 1);
    let r = run_claim(&c, 0, false, 432_000);
    assert_eq!(r.unwrap_err(), TestudoBondsError::InsufficientRewards);
}

#[test]
fn claim_needs_the_wallet_signature() {
    let s = stage();
    let c = claim_stage(s.admin, 0, 1_000_000_000);
    let r = process_claim(
        &c.s.program_id,
        &facts(bond_pda_key(&c.s, 0), false, c.bond_bytes.len()),
        &c.bond_bytes,
        &facts(c.s.wallet, false, 0),
        &facts(c.s.user_pda_key, false, c.user_bytes.len()),
        &c.user_bytes,
        &c.ata,
        &facts(c.s.admin_pda_key, false, c.admin_bytes.len()),
        &c.admin_bytes,
        &c.pool,
        &facts(c.s.treasury_ata, false, 165),
        &facts(c.s.team_ata, false, 165),
        &facts(bond_pda_key(&c.s, 1), false, 0),
        &facts(c.s.mint, false, 82),
        0,
        false,
        432_000,
    );
    assert_eq!(r.unwrap_err(), TestudoBondsError::ExpectedSignerAccount);
}

#[test]
fn claim_with_no_elapsed_time_yields_no_rewards() {
    let s = stage();
    let c = claim_stage(s.admin, 0, 1_000_000_000);
    let r = run_claim(&c, 0, false, 0);
    assert_eq!(r.unwrap_err(), TestudoBondsError::NoRewardsToClaim);
}

#[test]
fn open_position_on_missing_owner_record_rejected() {
    let s = stage();
    let user = UserAccount::new(s.wallet);
    let user_bytes = encode_user_account(&user);
    let admin_bytes = encode_admin(&s.admin);
    let ata = packed_token_account(&s.mint, &s.wallet, 10_000_000_000);
    // The owner account exists at the right address but holds no data yet.
    let r = initialize_bond(
        &s.program_id,
        &facts(bond_pda_key(&s, 0), false, 0),
        &facts(s.wallet, true, 0),
        &facts(s.user_pda_key, false, 0),
        &user_bytes,
        &facts(s.admin_pda_key, false, admin_bytes.len()),
        &admin_bytes,
        &ata,
        &facts(s.rewards_pool_ata, false, 165),
        &facts(s.treasury_ata, false, 165),
        &facts(s.team_ata, false, 165),
        &facts(s.mint, false, 82),
        1_700_000_000,
    );
    assert_eq!(r.unwrap_err(), TestudoBondsError::ExpectedNonEmptyAccount);
}

#[test]
fn open_position_respects_storage_capacity() {
    let s = stage();
    // A configuration allowing more bonds than the record can store: at the
    // full ten-slot capacity the record cannot be persisted any larger.
    let mut roomy = s.admin;
    roomy.max_bonds_per_wallet = 20;
    let mut user = UserAccount::new(s.wallet);
    for i in 0..10 {
        user.add_bond(bond_pda_key(&s, i));
    }
    let user_bytes = encode_user_account(&user);
    let admin_bytes = encode_admin(&roomy);
    let ata = packed_token_account(&s.mint, &s.wallet, 10_000_000_000);
    let r = initialize_bond(
        &s.program_id,
        &facts(bond_pda_key(&s, 10), false, 0),
        &facts(s.wallet, true, 0),
        &facts(s.user_pda_key, false, user_bytes.len()),
        &user_bytes,
        &facts(s.admin_pda_key, false, admin_bytes.len()),
        &admin_bytes,
        &ata,
        &facts(s.rewards_pool_ata, false, 165),
        &facts(s.treasury_ata, false, 165),
        &facts(s.team_ata, false, 165),
        &facts(s.mint, false, 82),
        1_700_000_000,
    );
    assert_eq!(r.unwrap_err(), TestudoBondsError::SerializationError);
}
