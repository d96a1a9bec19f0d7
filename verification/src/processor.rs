//! The operation protocols: what each of the five operations checks, in
//! which order, and what new record state it produces.
//!
//! Each function here is pure with respect to the host: it takes the facts
//! and record bytes of the accounts an operation names, and either fails
//! with the first error its checks hit, or returns the new records and the
//! transfer amounts for the host to commit atomically. No partial mutation
//! is ever visible: on an error nothing is returned at all.
use vstd::prelude::*;

use crate::assertions::assert_empty;
use crate::assertions::assert_valid_bond;
use crate::assertions::valid_bond_check;
use crate::assertions::assert_non_empty;
use crate::assertions::assert_same_pubkeys;
use crate::assertions::assert_signer;
use crate::calc::calculate_reward;
use crate::calc::calculate_token_deposit_split;
use crate::calc::lemma_reward_within_cap;
use crate::calc::reward_outcome;
use crate::calc::split_share;
use crate::codec::admin_decodes;
use crate::codec::bond_decodes;
use crate::codec::decode_admin;
use crate::codec::decode_bond;
use crate::codec::decoded_bond;
use crate::codec::lemma_decoded_bond;
use crate::codec::decode_user_account;
use crate::codec::decoded_admin;
use crate::codec::decoded_user;
use crate::codec::lemma_decoded_admin;
use crate::codec::lemma_decoded_user;
use crate::codec::user_decodes;
use crate::error::TestudoBondsError;
use crate::keys::AccountFacts;
use crate::keys::Pubkey;
use crate::pda::admin_seeds;
use crate::pda::admin_seeds_vec;
use crate::pda::assert_pda;
use crate::pda::bond_seeds;
use crate::pda::bond_seeds_vec;
use crate::pda::pda_check;
use crate::pda::user_seeds;
use crate::pda::user_seeds_vec;
use crate::state::Admin;
use crate::state::Bond;
use crate::state::UserAccount;
use crate::state::MAX_ACTIVE_BONDS;
use crate::token::assert_valid_token_account;
use crate::token::token_account_amount;
use crate::token::token_amount_check;
use crate::token::valid_token_account_check;
use crate::BOND_DEPOSIT;
use crate::COMPOUND_RESERVE;

verus! {

/// The checks of the configuration-creation protocol, in order: the
/// configuration account must sit at its canonical derived address, be
/// empty, and the authority must have signed.
pub open spec fn initialize_admin_check(
    program_id: Pubkey,
    admin_pda: AccountFacts,
    authority: AccountFacts,
) -> Result<u8, TestudoBondsError> {
    match pda_check(admin_pda.key@, admin_seeds(), program_id@) {
        Err(e) => Err(e),
        Ok(bump) => if !admin_pda.is_empty() {
            Err(TestudoBondsError::ExpectedEmptyAccount)
        } else if !authority.is_signer {
            Err(TestudoBondsError::ExpectedSignerAccount)
        } else {
            Ok(bump)
        },
    }
}

/// Create the global configuration record.
///
/// On success the returned record carries the given economics with ten
/// bonds per wallet, the 40/40/20 deposit split, and operations unpaused;
/// the host persists it at the configuration address and provisions the
/// three token accounts if they are missing.
pub fn initialize_admin(
    program_id: &Pubkey,
    admin_pda: &AccountFacts,
    authority: &AccountFacts,
    rewards_pool_ata: &Pubkey,
    treasury_ata: &Pubkey,
    team_ata: &Pubkey,
    native_token_mint: &Pubkey,
    daily_emission_rate: u64,
    max_emission_per_bond: u64,
    claim_penalty: u16,
) -> (r: Result<(Admin, u8), TestudoBondsError>)
    ensures
        (match r {
            Err(e) => initialize_admin_check(*program_id, *admin_pda, *authority) == Err::<
                u8,
                TestudoBondsError,
            >(e),
            Ok(pair) => {
                &&& initialize_admin_check(*program_id, *admin_pda, *authority) == Ok::<
                    u8,
                    TestudoBondsError,
                >(pair.1)
                &&& pair.0.authority == authority.key
                &&& pair.0.treasury == *treasury_ata
                &&& pair.0.team == *team_ata
                &&& pair.0.rewards_pool == *rewards_pool_ata
                &&& pair.0.native_token_mint == *native_token_mint
                &&& pair.0.daily_emission_rate == daily_emission_rate
                &&& pair.0.max_emission_per_bond == max_emission_per_bond
                &&& pair.0.max_bonds_per_wallet == 10
                &&& pair.0.token_deposit_split@ == seq![4000u16, 4000u16, 2000u16]
                &&& pair.0.claim_penalty == claim_penalty
                &&& !pair.0.pause_bond_operations
            },
        }),
{
    let seeds = admin_seeds_vec();
    let admin_bump = match assert_pda(admin_pda, program_id, &seeds) {
        Ok(b) => b,
        Err(e) => {
            return Err(e);
        },
    };
    if let Err(e) = assert_empty(admin_pda) {
        return Err(e);
    }
    if let Err(e) = assert_signer(authority) {
        return Err(e);
    }
    let admin_data = Admin::new(
        authority.key,
        *treasury_ata,
        *team_ata,
        *rewards_pool_ata,
        *native_token_mint,
        daily_emission_rate,
        max_emission_per_bond,
        claim_penalty,
    );
    Ok((admin_data, admin_bump))
}

/// The checks of the owner-creation protocol, in order: the owner account
/// must sit at its canonical derived address for the wallet, and be empty.
pub open spec fn initialize_user_check(
    program_id: Pubkey,
    user_pda: AccountFacts,
    user_wallet: AccountFacts,
) -> Result<u8, TestudoBondsError> {
    match pda_check(user_pda.key@, user_seeds(user_wallet.key@), program_id@) {
        Err(e) => Err(e),
        Ok(bump) => if !user_pda.is_empty() {
            Err(TestudoBondsError::ExpectedEmptyAccount)
        } else {
            Ok(bump)
        },
    }
}

/// Create an owner record for a wallet: no bonds, nothing accrued, the
/// first bond index zero. The host persists it at the owner address.
pub fn initialize_user(
    program_id: &Pubkey,
    user_pda: &AccountFacts,
    user_wallet: &AccountFacts,
) -> (r: Result<(UserAccount, u8), TestudoBondsError>)
    ensures
        (match r {
            Err(e) => initialize_user_check(*program_id, *user_pda, *user_wallet) == Err::<
                u8,
                TestudoBondsError,
            >(e),
            Ok(pair) => {
                &&& initialize_user_check(*program_id, *user_pda, *user_wallet) == Ok::<
                    u8,
                    TestudoBondsError,
                >(pair.1)
                &&& pair.0.user == user_wallet.key
                &&& pair.0.bond_count == 0
                &&& pair.0.total_accrued_rewards == 0
                &&& pair.0.active_bonds@ == Seq::<(u8, Pubkey)>::empty()
                &&& pair.0.bond_index == 0
                &&& pair.0.wf()
            },
        }),
{
    let seeds = user_seeds_vec(&user_wallet.key);
    let bump = match assert_pda(user_pda, program_id, &seeds) {
        Ok(b) => b,
        Err(e) => {
            return Err(e);
        },
    };
    if let Err(e) = assert_empty(user_pda) {
        return Err(e);
    }
    Ok((UserAccount::new(user_wallet.key), bump))
}

/// The checks of the configuration-replacement protocol, in order: the
/// configuration account must sit at its canonical derived address and be
/// non-empty, the caller must have signed, the stored record must decode,
/// and the caller must be the stored authority.
pub open spec fn update_admin_check(
    program_id: Pubkey,
    admin_pda: AccountFacts,
    admin_data: Seq<u8>,
    authority: AccountFacts,
) -> Result<(), TestudoBondsError> {
    match pda_check(admin_pda.key@, admin_seeds(), program_id@) {
        Err(e) => Err(e),
        Ok(_) => if admin_pda.is_empty() {
            Err(TestudoBondsError::ExpectedNonEmptyAccount)
        } else if !authority.is_signer {
            Err(TestudoBondsError::ExpectedSignerAccount)
        } else if !admin_decodes(admin_data) {
            Err(TestudoBondsError::DeserializationError)
        } else if authority.key@ != decoded_admin(admin_data).authority@ {
            Err(TestudoBondsError::AccountMismatch)
        } else {
            Ok(())
        },
    }
}

/// Replace the configuration record whole, authority-gated: on success the
/// host persists exactly the caller-supplied record, pause flag included.
pub fn update_admin_data(
    program_id: &Pubkey,
    admin_pda: &AccountFacts,
    admin_data: &[u8],
    authority: &AccountFacts,
    new_admin_data: Admin,
) -> (r: Result<Admin, TestudoBondsError>)
    ensures
        (match r {
            Err(e) => update_admin_check(*program_id, *admin_pda, admin_data@, *authority)
                == Err::<(), TestudoBondsError>(e),
            Ok(a) => update_admin_check(*program_id, *admin_pda, admin_data@, *authority) == Ok::<
                (),
                TestudoBondsError,
            >(()) && a == new_admin_data,
        }),
{
    let seeds = admin_seeds_vec();
    if let Err(e) = assert_pda(admin_pda, program_id, &seeds) {
        return Err(e);
    }
    if let Err(e) = assert_non_empty(admin_pda) {
        return Err(e);
    }
    if let Err(e) = assert_signer(authority) {
        return Err(e);
    }
    let stored = match decode_admin(admin_data) {
        Ok(a) => a,
        Err(e) => {
            return Err(e);
        },
    };
    proof {
        lemma_decoded_admin(stored, admin_data@);
    }
    if let Err(e) = assert_same_pubkeys(authority, &stored.authority) {
        return Err(e);
    }
    Ok(new_admin_data)
}

/// Everything the host must commit after a successful bond opening: the
/// updated owner record, the new bond record with its index and
/// disambiguator, and the three deposit shares to transfer from the
/// depositor to the rewards pool, treasury, and team.
#[derive(Debug)]
pub struct OpenOutcome {
    /// The owner record with the new bond appended.
    pub user: UserAccount,
    /// The new bond record.
    pub bond: Bond,
    /// Index the new bond was filed under.
    pub bond_index: u8,
    /// Disambiguator of the new bond's derived address.
    pub bond_bump: u8,
    /// Deposit shares to transfer: rewards pool, treasury, team.
    pub deposit_split: [u64; 3],
}

/// The checks of the bond-opening protocol, in order: wallet signature;
/// the owner account at its derived address, non-empty and decodable and
/// belonging to the wallet; the bond account at the derived address of the
/// owner's next index, empty; the configuration account at its derived
/// address, non-empty and decodable; the three destination token accounts
/// and the mint as configured; a valid deposit-source token account;
/// operations not paused; the owner below the bond limit; the deposit
/// source holding at least the fixed ten-token deposit; and the owner
/// record's counters within their machine bounds.
pub open spec fn initialize_bond_check(
    program_id: Pubkey,
    bond_pda: AccountFacts,
    user_wallet: AccountFacts,
    user_pda: AccountFacts,
    user_data: Seq<u8>,
    global_admin: AccountFacts,
    admin_data: Seq<u8>,
    user_ata_data: Seq<u8>,
    rewards_pool_ata: AccountFacts,
    treasury_ata: AccountFacts,
    team_ata: AccountFacts,
    native_token_mint: AccountFacts,
) -> Result<u8, TestudoBondsError> {
    if !user_wallet.is_signer {
        Err(TestudoBondsError::ExpectedSignerAccount)
    } else {
        match pda_check(user_pda.key@, user_seeds(user_wallet.key@), program_id@) {
            Err(e) => Err(e),
            Ok(_) => if user_pda.is_empty() {
                Err(TestudoBondsError::ExpectedNonEmptyAccount)
            } else if !user_decodes(user_data) {
                Err(TestudoBondsError::DeserializationError)
            } else {
                let u = decoded_user(user_data);
                if user_wallet.key@ != u.user@ {
                    Err(TestudoBondsError::AccountMismatch)
                } else {
                    match pda_check(
                        bond_pda.key@,
                        bond_seeds(user_pda.key@, u.bond_index),
                        program_id@,
                    ) {
                        Err(e) => Err(e),
                        Ok(bond_bump) => if !bond_pda.is_empty() {
                            Err(TestudoBondsError::ExpectedEmptyAccount)
                        } else {
                            match pda_check(global_admin.key@, admin_seeds(), program_id@) {
                                Err(e) => Err(e),
                                Ok(_) => if global_admin.is_empty() {
                                    Err(TestudoBondsError::ExpectedNonEmptyAccount)
                                } else if !admin_decodes(admin_data) {
                                    Err(TestudoBondsError::DeserializationError)
                                } else {
                                    let a = decoded_admin(admin_data);
                                    if rewards_pool_ata.key@ != a.rewards_pool@ {
                                        Err(TestudoBondsError::AccountMismatch)
                                    } else if treasury_ata.key@ != a.treasury@ {
                                        Err(TestudoBondsError::AccountMismatch)
                                    } else if team_ata.key@ != a.team@ {
                                        Err(TestudoBondsError::AccountMismatch)
                                    } else if native_token_mint.key@ != a.native_token_mint@ {
                                        Err(TestudoBondsError::AccountMismatch)
                                    } else {
                                        match valid_token_account_check(
                                            user_wallet.key@,
                                            native_token_mint.key@,
                                            user_ata_data,
                                        ) {
                                            Err(e) => Err(e),
                                            Ok(_) => if a.pause_bond_operations {
                                                Err(TestudoBondsError::BondOperationsPaused)
                                            } else {
                                                match token_amount_check(user_ata_data) {
                                                    Err(e) => Err(e),
                                                    Ok(balance) => if u.bond_count
                                                        >= a.max_bonds_per_wallet {
                                                        Err(TestudoBondsError::MaxBondsReached)
                                                    } else if balance < BOND_DEPOSIT {
                                                        Err(TestudoBondsError::InsufficientTokens)
                                                    } else if u.bond_index == 255 {
                                                        Err(TestudoBondsError::NumericalOverflow)
                                                    } else if u.active_bonds@.len()
                                                        >= MAX_ACTIVE_BONDS {
                                                        Err(TestudoBondsError::SerializationError)
                                                    } else {
                                                        Ok(bond_bump)
                                                    },
                                                }
                                            },
                                        }
                                    }
                                },
                            }
                        },
                    }
                }
            },
        }
    }
}

/// Open a new bond under an existing owner record.
///
/// On success the deposit shares of the fixed ten-token deposit go to the
/// rewards pool, treasury, and team by the configured basis-point split;
/// the new bond starts at the owner's next index with both timestamps at
/// `timestamp` and nothing claimed; and the owner record's list, count,
/// and next index all advance together. The host commits all of it
/// atomically or nothing.
pub fn initialize_bond(
    program_id: &Pubkey,
    bond_pda: &AccountFacts,
    user_wallet: &AccountFacts,
    user_pda: &AccountFacts,
    user_data: &[u8],
    global_admin: &AccountFacts,
    admin_data: &[u8],
    user_ata_data: &[u8],
    rewards_pool_ata: &AccountFacts,
    treasury_ata: &AccountFacts,
    team_ata: &AccountFacts,
    native_token_mint: &AccountFacts,
    timestamp: i64,
) -> (r: Result<OpenOutcome, TestudoBondsError>)
    ensures
        (match r {
            Err(e) => initialize_bond_check(
                *program_id,
                *bond_pda,
                *user_wallet,
                *user_pda,
                user_data@,
                *global_admin,
                admin_data@,
                user_ata_data@,
                *rewards_pool_ata,
                *treasury_ata,
                *team_ata,
                *native_token_mint,
            ) == Err::<u8, TestudoBondsError>(e),
            Ok(o) => {
                let u0 = decoded_user(user_data@);
                let a0 = decoded_admin(admin_data@);
                &&& initialize_bond_check(
                    *program_id,
                    *bond_pda,
                    *user_wallet,
                    *user_pda,
                    user_data@,
                    *global_admin,
                    admin_data@,
                    user_ata_data@,
                    *rewards_pool_ata,
                    *treasury_ata,
                    *team_ata,
                    *native_token_mint,
                ) == Ok::<u8, TestudoBondsError>(o.bond_bump)
                &&& o.bond_index == u0.bond_index
                &&& o.bond == (Bond {
                    owner: user_pda.key,
                    bond_index: u0.bond_index,
                    creation_timestamp: timestamp,
                    last_claim_timestamp: timestamp,
                    total_claimed: 0u64,
                    is_active: true,
                })
                &&& o.user.user == u0.user
                &&& o.user.bond_count == u0.bond_count + 1
                &&& o.user.total_accrued_rewards == u0.total_accrued_rewards
                &&& o.user.active_bonds@ == u0.active_bonds@.push((u0.bond_index, bond_pda.key))
                &&& o.user.bond_index == u0.bond_index + 1
                &&& o.user.wf()
                &&& o.deposit_split@[0] == split_share(BOND_DEPOSIT, a0.token_deposit_split@[0])
                &&& o.deposit_split@[1] == split_share(BOND_DEPOSIT, a0.token_deposit_split@[1])
                &&& o.deposit_split@[2] == split_share(BOND_DEPOSIT, a0.token_deposit_split@[2])
            },
        }),
{
    if let Err(e) = assert_signer(user_wallet) {
        return Err(e);
    }
    let user_seed_list = user_seeds_vec(&user_wallet.key);
    if let Err(e) = assert_pda(user_pda, program_id, &user_seed_list) {
        return Err(e);
    }
    if let Err(e) = assert_non_empty(user_pda) {
        return Err(e);
    }
    let mut user = match decode_user_account(user_data) {
        Ok(u) => u,
        Err(e) => {
            return Err(e);
        },
    };
    proof {
        lemma_decoded_user(user, user_data@);
    }
    if let Err(e) = assert_same_pubkeys(user_wallet, &user.user) {
        return Err(e);
    }
    let bond_seed_list = bond_seeds_vec(&user_pda.key, user.bond_index);
    let bond_bump = match assert_pda(bond_pda, program_id, &bond_seed_list) {
        Ok(b) => b,
        Err(e) => {
            return Err(e);
        },
    };
    if let Err(e) = assert_empty(bond_pda) {
        return Err(e);
    }
    let admin_seed_list = admin_seeds_vec();
    if let Err(e) = assert_pda(global_admin, program_id, &admin_seed_list) {
        return Err(e);
    }
    if let Err(e) = assert_non_empty(global_admin) {
        return Err(e);
    }
    let admin = match decode_admin(admin_data) {
        Ok(a) => a,
        Err(e) => {
            return Err(e);
        },
    };
    proof {
        lemma_decoded_admin(admin, admin_data@);
    }
    if let Err(e) = assert_same_pubkeys(rewards_pool_ata, &admin.rewards_pool) {
        return Err(e);
    }
    if let Err(e) = assert_same_pubkeys(treasury_ata, &admin.treasury) {
        return Err(e);
    }
    if let Err(e) = assert_same_pubkeys(team_ata, &admin.team) {
        return Err(e);
    }
    if let Err(e) = assert_same_pubkeys(native_token_mint, &admin.native_token_mint) {
        return Err(e);
    }
    if let Err(e) = assert_valid_token_account(
        &user_wallet.key,
        &native_token_mint.key,
        user_ata_data,
    ) {
        return Err(e);
    }
    if admin.pause_bond_operations {
        return Err(TestudoBondsError::BondOperationsPaused);
    }
    let user_balance_amount = match token_account_amount(user_ata_data) {
        Ok(v) => v,
        Err(e) => {
            return Err(e);
        },
    };
    if user.bond_count >= admin.max_bonds_per_wallet {
        return Err(TestudoBondsError::MaxBondsReached);
    }
    if user_balance_amount < BOND_DEPOSIT {
        return Err(TestudoBondsError::InsufficientTokens);
    }
    if user.bond_index == 255 {
        return Err(TestudoBondsError::NumericalOverflow);
    }
    if user.active_bonds.len() >= MAX_ACTIVE_BONDS {
        return Err(TestudoBondsError::SerializationError);
    }
    let deposit_split = calculate_token_deposit_split(admin.token_deposit_split);
    let bond_index = user.add_bond(bond_pda.key);
    let bond = Bond::new(user_pda.key, bond_index, timestamp);
    Ok(OpenOutcome { user, bond, bond_index, bond_bump, deposit_split })
}



/// Everything the host must commit after a successful claim: the updated
/// owner record, the bond record to rewrite (or destroy, when the cap was
/// reached), the optional reinvestment bond, and the transfer amounts out
/// of the rewards pool.
#[derive(Debug)]
pub struct ClaimOutcome {
    /// The reward credited by this claim, after penalty and cap.
    pub reward: u64,
    /// Whether the bond reached its lifetime cap and must be destroyed.
    pub close_bond: bool,
    /// The updated owner record.
    pub user: UserAccount,
    /// The updated bond record; when `close_bond` holds the host reclaims
    /// its storage instead of rewriting it.
    pub bond: Bond,
    /// The reinvestment bond and the disambiguator of its derived address,
    /// when auto-compounding triggered.
    pub new_bond: Option<(Bond, u8)>,
    /// Disambiguator of the configuration record's derived address, for
    /// signing the pool transfers.
    pub admin_bump: u8,
    /// Share of the reserved reinvestment routed from the pool to the
    /// treasury; zero without auto-compounding.
    pub compound_treasury_amount: u64,
    /// Share of the reserved reinvestment routed from the pool to the
    /// team; zero without auto-compounding.
    pub compound_team_amount: u64,
    /// What the claimant is paid from the pool; the reward less the
    /// reserved reinvestment when auto-compounding triggered.
    pub payout_amount: u64,
}

/// The checks of the claim protocol, in order: the owner, configuration,
/// and bond accounts each at their canonical derived address and
/// non-empty; all three records decodable; operations not paused; the
/// record relationships (wallet owns the owner record, the owner record
/// owns the bond, mint, treasury, and team as configured); a valid
/// claimant token account; the claimed index listed and the bond active;
/// the wallet's signature; a positive, computable reward; a pool record
/// that decodes and covers the reward; and, when auto-compounding
/// triggers, the new bond account at the derived address of the owner's
/// next index, empty, with the owner record's counters within their
/// machine bounds. On success, the credited reward.
pub open spec fn process_claim_check(
    program_id: Pubkey,
    bond_pda: AccountFacts,
    bond_data: Seq<u8>,
    user_wallet: AccountFacts,
    user_pda: AccountFacts,
    user_data: Seq<u8>,
    user_ata_data: Seq<u8>,
    global_admin: AccountFacts,
    admin_data: Seq<u8>,
    pool_data: Seq<u8>,
    treasury_ata: AccountFacts,
    team_ata: AccountFacts,
    new_bond_pda: AccountFacts,
    native_token_mint: AccountFacts,
    bond_index: u8,
    auto_compound: bool,
    current_timestamp: i64,
) -> Result<u64, TestudoBondsError> {
    match pda_check(user_pda.key@, user_seeds(user_wallet.key@), program_id@) {
        Err(e) => Err(e),
        Ok(_) => if user_pda.is_empty() {
            Err(TestudoBondsError::ExpectedNonEmptyAccount)
        } else {
            match pda_check(global_admin.key@, admin_seeds(), program_id@) {
                Err(e) => Err(e),
                Ok(_) => if global_admin.is_empty() {
                    Err(TestudoBondsError::ExpectedNonEmptyAccount)
                } else {
                    match pda_check(
                        bond_pda.key@,
                        bond_seeds(user_pda.key@, bond_index),
                        program_id@,
                    ) {
                        Err(e) => Err(e),
                        Ok(_) => if bond_pda.is_empty() {
                            Err(TestudoBondsError::ExpectedNonEmptyAccount)
                        } else if !bond_decodes(bond_data) {
                            Err(TestudoBondsError::DeserializationError)
                        } else if !user_decodes(user_data) {
                            Err(TestudoBondsError::DeserializationError)
                        } else if !admin_decodes(admin_data) {
                            Err(TestudoBondsError::DeserializationError)
                        } else {
                            let b = decoded_bond(bond_data);
                            let u = decoded_user(user_data);
                            let a = decoded_admin(admin_data);
                            if a.pause_bond_operations {
                                Err(TestudoBondsError::BondOperationsPaused)
                            } else if user_wallet.key@ != u.user@ {
                                Err(TestudoBondsError::AccountMismatch)
                            } else if user_pda.key@ != b.owner@ {
                                Err(TestudoBondsError::AccountMismatch)
                            } else if native_token_mint.key@ != a.native_token_mint@ {
                                Err(TestudoBondsError::AccountMismatch)
                            } else if treasury_ata.key@ != a.treasury@ {
                                Err(TestudoBondsError::AccountMismatch)
                            } else if team_ata.key@ != a.team@ {
                                Err(TestudoBondsError::AccountMismatch)
                            } else {
                                match valid_token_account_check(
                                    user_wallet.key@,
                                    native_token_mint.key@,
                                    user_ata_data,
                                ) {
                                    Err(e) => Err(e),
                                    Ok(_) => if !u.has_index(bond_index) {
                                        Err(TestudoBondsError::InvalidBondIndex)
                                    } else {
                                        match valid_bond_check(&b, &u) {
                                            Err(e) => Err(e),
                                            Ok(_) => if !user_wallet.is_signer {
                                                Err(TestudoBondsError::ExpectedSignerAccount)
                                            } else {
                                                match reward_outcome(
                                                    b.last_claim_timestamp,
                                                    current_timestamp,
                                                    a.daily_emission_rate,
                                                    a.claim_penalty,
                                                    a.max_emission_per_bond,
                                                    b.total_claimed,
                                                ) {
                                                    Err(e) => Err(e),
                                                    Ok(reward) => {
                                                        match token_amount_check(pool_data) {
                                                            Err(e) => Err(e),
                                                            Ok(pool_balance) => if pool_balance
                                                                < reward {
                                                                Err(
                                                                    TestudoBondsError::InsufficientRewards,
                                                                )
                                                            } else {
                                                                let close = b.total_claimed
                                                                    + reward
                                                                    >= a.max_emission_per_bond;
                                                                let count_after = u.bond_count
                                                                    - (if close {
                                                                    1int
                                                                } else {
                                                                    0int
                                                                });
                                                                let compound = auto_compound
                                                                    && reward >= COMPOUND_RESERVE
                                                                    && count_after
                                                                    < a.max_bonds_per_wallet;
                                                                if !compound {
                                                                    Ok(reward)
                                                                } else {
                                                                    match pda_check(
                                                                        new_bond_pda.key@,
                                                                        bond_seeds(
                                                                            user_pda.key@,
                                                                            u.bond_index,
                                                                        ),
                                                                        program_id@,
                                                                    ) {
                                                                        Err(e) => Err(e),
                                                                        Ok(_) => if !new_bond_pda.is_empty() {
                                                                            Err(
                                                                                TestudoBondsError::ExpectedEmptyAccount,
                                                                            )
                                                                        } else if u.bond_index
                                                                            == 255 {
                                                                            Err(
                                                                                TestudoBondsError::NumericalOverflow,
                                                                            )
                                                                        } else if u.active_bonds@.len()
                                                                            - (if close {
                                                                            1int
                                                                        } else {
                                                                            0int
                                                                        }) >= MAX_ACTIVE_BONDS {
                                                                            Err(
                                                                                TestudoBondsError::SerializationError,
                                                                            )
                                                                        } else {
                                                                            Ok(reward)
                                                                        },
                                                                    }
                                                                }
                                                            },
                                                        }
                                                    },
                                                }
                                            },
                                        }
                                    },
                                }
                            }
                        },
                    }
                },
            }
        },
    }
}

/// Claim the reward accrued by one bond.
///
/// The reward accrues linearly since the bond's previous claim, loses the
/// early-claim penalty inside the five-day window, and is clamped to the
/// bond's remaining cap; reaching the cap closes the bond and removes it
/// from the owner's active set. When the caller asked for auto-compounding,
/// the reward covers the eight-token reserve, and the owner has a free
/// slot, a new bond is opened at the owner's next index and the reserve's
/// treasury and team shares are routed out of the pool, the rest of the
/// reserve staying in the pool; only the remainder of the reward is paid
/// out. The host commits every returned record and transfer atomically or
/// nothing.
///
/// The caller must have checked, by decoding the records, that the bond's
/// previous claim is not in the future and that the lifetime totals are
/// within their documented bounds.
pub fn process_claim(
    program_id: &Pubkey,
    bond_pda: &AccountFacts,
    bond_data: &[u8],
    user_wallet: &AccountFacts,
    user_pda: &AccountFacts,
    user_data: &[u8],
    user_ata_data: &[u8],
    global_admin: &AccountFacts,
    admin_data: &[u8],
    pool_data: &[u8],
    treasury_ata: &AccountFacts,
    team_ata: &AccountFacts,
    new_bond_pda: &AccountFacts,
    native_token_mint: &AccountFacts,
    bond_index: u8,
    auto_compound: bool,
    current_timestamp: i64,
) -> (r: Result<ClaimOutcome, TestudoBondsError>)
    requires
        bond_decodes(bond_data@) ==> decoded_bond(bond_data@).last_claim_timestamp
            <= current_timestamp,
        bond_decodes(bond_data@) && admin_decodes(admin_data@) ==> decoded_bond(
            bond_data@,
        ).total_claimed <= decoded_admin(admin_data@).max_emission_per_bond,
        user_decodes(user_data@) && admin_decodes(admin_data@) ==> decoded_user(
            user_data@,
        ).total_accrued_rewards + decoded_admin(admin_data@).max_emission_per_bond <= u64::MAX,
    ensures
        (match r {
            Err(e) => process_claim_check(
                *program_id,
                *bond_pda,
                bond_data@,
                *user_wallet,
                *user_pda,
                user_data@,
                user_ata_data@,
                *global_admin,
                admin_data@,
                pool_data@,
                *treasury_ata,
                *team_ata,
                *new_bond_pda,
                *native_token_mint,
                bond_index,
                auto_compound,
                current_timestamp,
            ) == Err::<u64, TestudoBondsError>(e),
            Ok(o) => {
                let b0 = decoded_bond(bond_data@);
                let u0 = decoded_user(user_data@);
                let a0 = decoded_admin(admin_data@);
                let compound = o.new_bond is Some;
                &&& process_claim_check(
                    *program_id,
                    *bond_pda,
                    bond_data@,
                    *user_wallet,
                    *user_pda,
                    user_data@,
                    user_ata_data@,
                    *global_admin,
                    admin_data@,
                    pool_data@,
                    *treasury_ata,
                    *team_ata,
                    *new_bond_pda,
                    *native_token_mint,
                    bond_index,
                    auto_compound,
                    current_timestamp,
                ) == Ok::<u64, TestudoBondsError>(o.reward)
                &&& Ok::<u64, TestudoBondsError>(o.reward) == reward_outcome(
                    b0.last_claim_timestamp,
                    current_timestamp,
                    a0.daily_emission_rate,
                    a0.claim_penalty,
                    a0.max_emission_per_bond,
                    b0.total_claimed,
                )
                &&& o.close_bond == (b0.total_claimed + o.reward
                    >= a0.max_emission_per_bond)
                &&& o.close_bond ==> b0.total_claimed + o.reward == a0.max_emission_per_bond
                &&& b0.total_claimed + o.reward <= a0.max_emission_per_bond
                &&& o.bond == (Bond {
                    owner: b0.owner,
                    bond_index: b0.bond_index,
                    creation_timestamp: b0.creation_timestamp,
                    last_claim_timestamp: current_timestamp,
                    total_claimed: (b0.total_claimed + o.reward) as u64,
                    is_active: !o.close_bond,
                })
                &&& compound == (auto_compound && o.reward >= COMPOUND_RESERVE && u0.bond_count
                    - (if o.close_bond {
                    1int
                } else {
                    0int
                }) < a0.max_bonds_per_wallet)
                &&& (o.new_bond matches Some(pair) ==> {
                    &&& pair.0 == (Bond {
                        owner: user_pda.key,
                        bond_index: u0.bond_index,
                        creation_timestamp: current_timestamp,
                        last_claim_timestamp: current_timestamp,
                        total_claimed: 0u64,
                        is_active: true,
                    })
                    &&& pda_check(
                        new_bond_pda.key@,
                        bond_seeds(user_pda.key@, u0.bond_index),
                        program_id@,
                    ) == Ok::<u8, TestudoBondsError>(pair.1)
                })
                &&& pda_check(global_admin.key@, admin_seeds(), program_id@) == Ok::<
                    u8,
                    TestudoBondsError,
                >(o.admin_bump)
                &&& o.compound_treasury_amount == (if compound {
                    split_share(COMPOUND_RESERVE, a0.token_deposit_split@[1])
                } else {
                    0int
                })
                &&& o.compound_team_amount == (if compound {
                    split_share(COMPOUND_RESERVE, a0.token_deposit_split@[2])
                } else {
                    0int
                })
                &&& o.payout_amount == o.reward - (if compound {
                    COMPOUND_RESERVE as int
                } else {
                    0int
                })
                &&& o.user.user == u0.user
                &&& o.user.total_accrued_rewards == u0.total_accrued_rewards + o.reward
                &&& o.user.bond_count == u0.bond_count - (if o.close_bond {
                    1int
                } else {
                    0int
                }) + (if compound {
                    1int
                } else {
                    0int
                })
                &&& o.user.bond_index == u0.bond_index + (if compound {
                    1int
                } else {
                    0int
                })
                &&& o.user.wf()
                &&& (o.close_bond ==> !o.user.has_index(bond_index))
                &&& (compound ==> o.user.has_index(u0.bond_index))
                &&& forall|j: u8|
                    j != bond_index && j != u0.bond_index ==> o.user.has_index(j)
                        == u0.has_index(j)
            },
        }),
{
    let user_seed_list = user_seeds_vec(&user_wallet.key);
    if let Err(e) = assert_pda(user_pda, program_id, &user_seed_list) {
        return Err(e);
    }
    if let Err(e) = assert_non_empty(user_pda) {
        return Err(e);
    }
    let admin_seed_list = admin_seeds_vec();
    let global_admin_bump = match assert_pda(global_admin, program_id, &admin_seed_list) {
        Ok(b) => b,
        Err(e) => {
            return Err(e);
        },
    };
    if let Err(e) = assert_non_empty(global_admin) {
        return Err(e);
    }
    let bond_seed_list = bond_seeds_vec(&user_pda.key, bond_index);
    if let Err(e) = assert_pda(bond_pda, program_id, &bond_seed_list) {
        return Err(e);
    }
    if let Err(e) = assert_non_empty(bond_pda) {
        return Err(e);
    }
    let mut bond = match decode_bond(bond_data) {
        Ok(b) => b,
        Err(e) => {
            return Err(e);
        },
    };
    proof {
        lemma_decoded_bond(bond, bond_data@);
    }
    let mut user = match decode_user_account(user_data) {
        Ok(u) => u,
        Err(e) => {
            return Err(e);
        },
    };
    proof {
        lemma_decoded_user(user, user_data@);
    }
    let admin = match decode_admin(admin_data) {
        Ok(a) => a,
        Err(e) => {
            return Err(e);
        },
    };
    proof {
        lemma_decoded_admin(admin, admin_data@);
    }
    if admin.pause_bond_operations {
        return Err(TestudoBondsError::BondOperationsPaused);
    }
    if let Err(e) = assert_same_pubkeys(user_wallet, &user.user) {
        return Err(e);
    }
    if let Err(e) = assert_same_pubkeys(user_pda, &bond.owner) {
        return Err(e);
    }
    if let Err(e) = assert_same_pubkeys(native_token_mint, &admin.native_token_mint) {
        return Err(e);
    }
    if let Err(e) = assert_same_pubkeys(treasury_ata, &admin.treasury) {
        return Err(e);
    }
    if let Err(e) = assert_same_pubkeys(team_ata, &admin.team) {
        return Err(e);
    }
    if let Err(e) = assert_valid_token_account(
        &user_wallet.key,
        &native_token_mint.key,
        user_ata_data,
    ) {
        return Err(e);
    }
    if !user.has_bond_index(bond_index) {
        return Err(TestudoBondsError::InvalidBondIndex);
    }
    if let Err(e) = assert_valid_bond(&bond, &user) {
        return Err(e);
    }
    if let Err(e) = assert_signer(user_wallet) {
        return Err(e);
    }
    let ghost user_before = user;
    let mut reward = match calculate_reward(
        &bond.last_claim_timestamp,
        &current_timestamp,
        admin.daily_emission_rate,
        admin.claim_penalty,
        admin.max_emission_per_bond,
        bond.total_claimed,
    ) {
        Ok(v) => v,
        Err(e) => {
            return Err(e);
        },
    };
    proof {
        lemma_reward_within_cap(
            bond.last_claim_timestamp,
            current_timestamp,
            admin.daily_emission_rate,
            admin.claim_penalty,
            admin.max_emission_per_bond,
            bond.total_claimed,
        );
    }
    let reward_pool_balance = match token_account_amount(pool_data) {
        Ok(v) => v,
        Err(e) => {
            return Err(e);
        },
    };
    if reward_pool_balance < reward {
        return Err(TestudoBondsError::InsufficientRewards);
    }
    let should_close_bond = bond.total_claimed + reward >= admin.max_emission_per_bond;
    if should_close_bond {
        reward = admin.max_emission_per_bond - bond.total_claimed;
        bond.is_active = false;
        user.remove_bond(bond_index);
    }
    let ghost user_mid = user;
    let mut amount_to_transfer = reward;
    let mut new_bond: Option<(Bond, u8)> = None;
    let mut compound_treasury_amount: u64 = 0;
    let mut compound_team_amount: u64 = 0;
    if auto_compound && reward >= COMPOUND_RESERVE && user.bond_count
        < admin.max_bonds_per_wallet {
        let new_bond_seed_list = bond_seeds_vec(&user_pda.key, user.bond_index);
        let new_bond_bump = match assert_pda(new_bond_pda, program_id, &new_bond_seed_list) {
            Ok(b) => b,
            Err(e) => {
                return Err(e);
            },
        };
        if let Err(e) = assert_empty(new_bond_pda) {
            return Err(e);
        }
        if user.bond_index == 255 {
            return Err(TestudoBondsError::NumericalOverflow);
        }
        if user.active_bonds.len() >= MAX_ACTIVE_BONDS {
            return Err(TestudoBondsError::SerializationError);
        }
        let new_index = user.add_bond(new_bond_pda.key);
        let created = Bond::new(user_pda.key, new_index, current_timestamp);
        new_bond = Some((created, new_bond_bump));
        compound_treasury_amount = (COMPOUND_RESERVE * (admin.token_deposit_split[1] as u64))
            / 10_000;
        compound_team_amount = (COMPOUND_RESERVE * (admin.token_deposit_split[2] as u64))
            / 10_000;
        amount_to_transfer = reward - COMPOUND_RESERVE;
    }
    bond.last_claim_timestamp = current_timestamp;
    bond.total_claimed = bond.total_claimed + reward;
    let ghost user_done = user;
    user.total_accrued_rewards = user.total_accrued_rewards + reward;
    proof {
        let u0x = decoded_user(user_data@);
        assert forall|j: u8|
            j != bond_index && j != u0x.bond_index implies user.has_index(j) == u0x.has_index(
            j,
        ) by {
            assert(user_before.active_bonds@ == u0x.active_bonds@);
            assert(user_before.bond_index == u0x.bond_index);
            if u0x.has_index(j) {
                let i = choose|i: int|
                    0 <= i < u0x.active_bonds@.len() && (#[trigger] u0x.active_bonds@[i]).0 == j;
                assert(user_before.active_bonds@[i].0 == j);
                assert(user_before.has_index(j));
            }
            if user_before.has_index(j) {
                let i = choose|i: int|
                    0 <= i < user_before.active_bonds@.len() && (
                    #[trigger] user_before.active_bonds@[i]).0 == j;
                assert(u0x.active_bonds@[i].0 == j);
                assert(u0x.has_index(j));
            }
            assert(user_mid.has_index(j) == user_before.has_index(j));
            assert(user_done.has_index(j) == user_mid.has_index(j));
            assert(user.active_bonds@ == user_done.active_bonds@);
            if user_done.has_index(j) {
                let i = choose|i: int|
                    0 <= i < user_done.active_bonds@.len() && (
                    #[trigger] user_done.active_bonds@[i]).0 == j;
                assert(user.active_bonds@[i].0 == j);
                assert(user.has_index(j));
            }
            if user.has_index(j) {
                let i = choose|i: int|
                    0 <= i < user.active_bonds@.len() && (#[trigger] user.active_bonds@[i]).0
                        == j;
                assert(user_done.active_bonds@[i].0 == j);
                assert(user_done.has_index(j));
            }
        }
    }
    Ok(
        ClaimOutcome {
            reward,
            close_bond: should_close_bond,
            user,
            bond,
            new_bond,
            admin_bump: global_admin_bump,
            compound_treasury_amount,
            compound_team_amount,
            payout_amount: amount_to_transfer,
        },
    )
}



/// While operations are paused, a claim fails with the paused error no
/// matter which bond is claimed, what the auto-compound flag says, or what
/// any balance holds: the pause check precedes every record relationship.
pub proof fn lemma_claim_paused_uniformly(
    program_id: Pubkey,
    bond_pda: AccountFacts,
    bond_data: Seq<u8>,
    user_wallet: AccountFacts,
    user_pda: AccountFacts,
    user_data: Seq<u8>,
    user_ata_data: Seq<u8>,
    global_admin: AccountFacts,
    admin_data: Seq<u8>,
    pool_data: Seq<u8>,
    treasury_ata: AccountFacts,
    team_ata: AccountFacts,
    new_bond_pda: AccountFacts,
    native_token_mint: AccountFacts,
    bond_index: u8,
    auto_compound: bool,
    current_timestamp: i64,
)
    requires
        pda_check(user_pda.key@, user_seeds(user_wallet.key@), program_id@) is Ok,
        !user_pda.is_empty(),
        pda_check(global_admin.key@, admin_seeds(), program_id@) is Ok,
        !global_admin.is_empty(),
        pda_check(bond_pda.key@, bond_seeds(user_pda.key@, bond_index), program_id@) is Ok,
        !bond_pda.is_empty(),
        bond_decodes(bond_data),
        user_decodes(user_data),
        admin_decodes(admin_data),
        decoded_admin(admin_data).pause_bond_operations,
    ensures
        process_claim_check(
            program_id,
            bond_pda,
            bond_data,
            user_wallet,
            user_pda,
            user_data,
            user_ata_data,
            global_admin,
            admin_data,
            pool_data,
            treasury_ata,
            team_ata,
            new_bond_pda,
            native_token_mint,
            bond_index,
            auto_compound,
            current_timestamp,
        ) == Err::<u64, TestudoBondsError>(TestudoBondsError::BondOperationsPaused),
{
}

/// Claiming an index that is not among the owner's active bonds fails with
/// the invalid-index error, once the accounts, records, and relationships
/// up to that check are in order.
pub proof fn lemma_claim_unknown_index(
    program_id: Pubkey,
    bond_pda: AccountFacts,
    bond_data: Seq<u8>,
    user_wallet: AccountFacts,
    user_pda: AccountFacts,
    user_data: Seq<u8>,
    user_ata_data: Seq<u8>,
    global_admin: AccountFacts,
    admin_data: Seq<u8>,
    pool_data: Seq<u8>,
    treasury_ata: AccountFacts,
    team_ata: AccountFacts,
    new_bond_pda: AccountFacts,
    native_token_mint: AccountFacts,
    bond_index: u8,
    auto_compound: bool,
    current_timestamp: i64,
)
    requires
        pda_check(user_pda.key@, user_seeds(user_wallet.key@), program_id@) is Ok,
        !user_pda.is_empty(),
        pda_check(global_admin.key@, admin_seeds(), program_id@) is Ok,
        !global_admin.is_empty(),
        pda_check(bond_pda.key@, bond_seeds(user_pda.key@, bond_index), program_id@) is Ok,
        !bond_pda.is_empty(),
        bond_decodes(bond_data),
        user_decodes(user_data),
        admin_decodes(admin_data),
        !decoded_admin(admin_data).pause_bond_operations,
        user_wallet.key@ == decoded_user(user_data).user@,
        user_pda.key@ == decoded_bond(bond_data).owner@,
        native_token_mint.key@ == decoded_admin(admin_data).native_token_mint@,
        treasury_ata.key@ == decoded_admin(admin_data).treasury@,
        team_ata.key@ == decoded_admin(admin_data).team@,
        valid_token_account_check(user_wallet.key@, native_token_mint.key@, user_ata_data) is Ok,
        !decoded_user(user_data).has_index(bond_index),
    ensures
        process_claim_check(
            program_id,
            bond_pda,
            bond_data,
            user_wallet,
            user_pda,
            user_data,
            user_ata_data,
            global_admin,
            admin_data,
            pool_data,
            treasury_ata,
            team_ata,
            new_bond_pda,
            native_token_mint,
            bond_index,
            auto_compound,
            current_timestamp,
        ) == Err::<u64, TestudoBondsError>(TestudoBondsError::InvalidBondIndex),
{
}


} // verus!
