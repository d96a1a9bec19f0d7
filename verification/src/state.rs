//! The three persisted record kinds of the ledger and their invariants.
//!
//! `Admin` is the single global configuration record, `UserAccount` the
//! per-owner record, and `Bond` one interest-accruing position. Every
//! operation must leave `UserAccount::wf` and the cap invariant
//! (`Bond::total_claimed` at most the configured per-bond cap) intact.
use vstd::prelude::*;

use crate::keys::Pubkey;

verus! {

/// Fixed capacity of the per-owner active-bond list.
pub const MAX_ACTIVE_BONDS: usize = 10;

/// Global configuration record, created once and replaced whole by the
/// authority.
#[derive(Clone, Copy, Debug)]
pub struct Admin {
    /// Identity allowed to replace this record.
    pub authority: Pubkey,
    /// Token account receiving the treasury share of deposits.
    pub treasury: Pubkey,
    /// Token account receiving the team share of deposits.
    pub team: Pubkey,
    /// Token account the rewards are paid from.
    pub rewards_pool: Pubkey,
    /// The mint of the token every balance is denominated in.
    pub native_token_mint: Pubkey,
    /// Emission per bond per day, in smallest units.
    pub daily_emission_rate: u64,
    /// Lifetime cap on what a single bond may pay out.
    pub max_emission_per_bond: u64,
    /// How many bonds one owner may hold at once.
    pub max_bonds_per_wallet: u8,
    /// Basis-point split of each deposit: rewards pool, treasury, team.
    pub token_deposit_split: [u16; 3],
    /// Early-claim penalty in basis points.
    pub claim_penalty: u16,
    /// When set, no bond may be opened or claimed.
    pub pause_bond_operations: bool,
}

impl Admin {
    /// Byte size of the persisted record.
    pub const SIZE: usize = 32 + 32 + 32 + 32 + 32 + 8 + 8 + 1 + (3 * 2) + 2 + 1;

    /// The record as created by the initialization protocol: the given
    /// economics, ten bonds per wallet, a 40/40/20 deposit split, not paused.
    pub fn new(
        authority: Pubkey,
        treasury: Pubkey,
        team: Pubkey,
        rewards_pool: Pubkey,
        native_token_mint: Pubkey,
        daily_emission_rate: u64,
        max_emission_per_bond: u64,
        claim_penalty: u16,
    ) -> (r: Admin)
        ensures
            r.authority == authority,
            r.treasury == treasury,
            r.team == team,
            r.rewards_pool == rewards_pool,
            r.native_token_mint == native_token_mint,
            r.daily_emission_rate == daily_emission_rate,
            r.max_emission_per_bond == max_emission_per_bond,
            r.max_bonds_per_wallet == 10,
            r.token_deposit_split@ == seq![4000u16, 4000u16, 2000u16],
            r.claim_penalty == claim_penalty,
            !r.pause_bond_operations,
    {
        let r = Admin {
            authority,
            treasury,
            team,
            rewards_pool,
            native_token_mint,
            daily_emission_rate,
            max_emission_per_bond,
            max_bonds_per_wallet: 10,
            token_deposit_split: [4000, 4000, 2000],
            claim_penalty,
            pause_bond_operations: false,
        };
        proof {
            assert(r.token_deposit_split@ =~= seq![4000u16, 4000u16, 2000u16]);
        }
        r
    }
}

/// Per-owner record: how many bonds are open, which they are, and the
/// lifetime total of everything paid out to this owner.
#[derive(Clone, Debug)]
pub struct UserAccount {
    /// The owner's wallet address.
    pub user: Pubkey,
    /// Number of currently open bonds; always the length of `active_bonds`.
    pub bond_count: u8,
    /// Lifetime sum of all rewards credited to this owner.
    pub total_accrued_rewards: u64,
    /// The open bonds as (bond index, bond record address) pairs.
    pub active_bonds: Vec<(u8, Pubkey)>,
    /// Index the next opened bond will receive; never decreases, never
    /// reused.
    pub bond_index: u8,
}

impl UserAccount {
    /// Byte size of the persisted record at full capacity.
    pub const SIZE: usize = 32 + 1 + 8 + (4 + (10 * (32 + 1))) + 1;

    /// Record invariant: the count matches the list, the list fits its
    /// fixed capacity, every listed index was assigned before the next
    /// one to be handed out, and no index is listed twice.
    pub open spec fn wf(&self) -> bool {
        &&& self.bond_count as int == self.active_bonds@.len()
        &&& self.active_bonds@.len() <= MAX_ACTIVE_BONDS
        &&& forall|i: int|
            0 <= i < self.active_bonds@.len() ==> (#[trigger] self.active_bonds@[i]).0
                < self.bond_index
        &&& forall|i: int, j: int|
            0 <= i < j < self.active_bonds@.len() ==> (#[trigger] self.active_bonds@[i]).0 != (
            #[trigger] self.active_bonds@[j]).0
    }

    /// Whether some open bond carries the given index.
    pub open spec fn has_index(&self, index: u8) -> bool {
        exists|i: int|
            0 <= i < self.active_bonds@.len() && (#[trigger] self.active_bonds@[i]).0 == index
    }

    /// A fresh owner record: no bonds, nothing accrued, first index zero.
    pub fn new(user: Pubkey) -> (r: UserAccount)
        ensures
            r.user == user,
            r.bond_count == 0,
            r.total_accrued_rewards == 0,
            r.active_bonds@ =~= Seq::<(u8, Pubkey)>::empty(),
            r.bond_index == 0,
            r.wf(),
    {
        UserAccount {
            user,
            bond_count: 0,
            total_accrued_rewards: 0,
            active_bonds: Vec::new(),
            bond_index: 0,
        }
    }

    /// Whether the given index appears in the active-bond list.
    pub fn has_bond_index(&self, index: u8) -> (r: bool)
        ensures
            r == self.has_index(index),
    {
        let n = self.active_bonds.len();
        let mut i: usize = 0;
        while i < n
            invariant
                i <= n,
                n == self.active_bonds@.len(),
                forall|j: int| 0 <= j < i ==> (#[trigger] self.active_bonds@[j]).0 != index,
            decreases n - i,
        {
            if self.active_bonds[i].0 == index {
                return true;
            }
            i += 1;
        }
        false
    }

    /// Open a new bond slot: append the pair, advance both counters, and
    /// hand back the index the bond was filed under.
    pub fn add_bond(&mut self, bond_key: Pubkey) -> (index: u8)
        requires
            old(self).wf(),
            old(self).bond_index < 255,
            old(self).active_bonds@.len() < MAX_ACTIVE_BONDS,
        ensures
            index == old(self).bond_index,
            final(self).active_bonds@ == old(self).active_bonds@.push((index, bond_key)),
            final(self).bond_index == old(self).bond_index + 1,
            final(self).bond_count == old(self).bond_count + 1,
            final(self).user == old(self).user,
            final(self).total_accrued_rewards == old(self).total_accrued_rewards,
            final(self).has_index(index),
            forall|other: u8|
                other != index ==> final(self).has_index(other) == old(self).has_index(other),
            final(self).wf(),
    {
        let index = self.bond_index;
        self.active_bonds.push((index, bond_key));
        self.bond_index = index + 1;
        self.bond_count = self.bond_count + 1;
        proof {
            let post = self.active_bonds@;
            assert(post[post.len() - 1].0 == index);
            assert forall|other: u8| other != index implies self.has_index(other) == old(
                self,
            ).has_index(other) by {
                if old(self).has_index(other) {
                    let j = choose|j: int|
                        0 <= j < old(self).active_bonds@.len() && (#[trigger] old(
                            self,
                        ).active_bonds@[j]).0 == other;
                    assert(post[j].0 == other);
                }
                if self.has_index(other) {
                    let j = choose|j: int|
                        0 <= j < post.len() && (#[trigger] post[j]).0 == other;
                    assert(j < post.len() - 1);
                    assert(old(self).active_bonds@[j].0 == other);
                }
            }
        }
        index
    }

    /// Position in the active-bond list of the pair filed under `index`.
    fn position_of(&self, index: u8) -> (pos: usize)
        requires
            self.has_index(index),
        ensures
            pos < self.active_bonds@.len(),
            self.active_bonds@[pos as int].0 == index,
    {
        let n = self.active_bonds.len();
        let mut i: usize = 0;
        while i < n
            invariant
                i <= n,
                n == self.active_bonds@.len(),
                forall|j: int| 0 <= j < i ==> (#[trigger] self.active_bonds@[j]).0 != index,
                self.has_index(index),
            decreases n - i,
        {
            if self.active_bonds[i].0 == index {
                return i;
            }
            i += 1;
        }
        proof {
            let j = choose|j: int|
                0 <= j < self.active_bonds@.len() && (#[trigger] self.active_bonds@[j]).0
                    == index;
            assert(false);
        }
        0
    }

    /// Close the bond filed under `index`: drop its pair from the list and
    /// decrement the count. Every other bond keeps its place in order.
    pub fn remove_bond(&mut self, index: u8)
        requires
            old(self).wf(),
            old(self).has_index(index),
        ensures
            exists|i: int|
                0 <= i < old(self).active_bonds@.len() && old(self).active_bonds@[i].0 == index
                    && final(self).active_bonds@ == old(self).active_bonds@.remove(i),
            final(self).bond_count == old(self).bond_count - 1,
            !final(self).has_index(index),
            forall|other: u8|
                other != index ==> final(self).has_index(other) == old(self).has_index(other),
            final(self).user == old(self).user,
            final(self).total_accrued_rewards == old(self).total_accrued_rewards,
            final(self).bond_index == old(self).bond_index,
            final(self).wf(),
    {
        let ghost pre = self.active_bonds@;
        let pos = self.position_of(index);
        let ghost i = pos as int;
        self.active_bonds.remove(pos);
        self.bond_count = self.bond_count - 1;
        proof {
            let post = self.active_bonds@;
            assert(post == pre.remove(i));
            assert forall|j: int| 0 <= j < post.len() implies (#[trigger] post[j]).0 != index by {
                if j < i {
                    assert(pre[j].0 != index);
                } else {
                    assert(post[j] == pre[j + 1]);
                }
            }
            assert forall|other: u8| other != index implies self.has_index(other) == old(
                self,
            ).has_index(other) by {
                if old(self).has_index(other) {
                    let j = choose|j: int| 0 <= j < pre.len() && (#[trigger] pre[j]).0 == other;
                    if j < i {
                        assert(post[j].0 == other);
                    } else if j == i {
                        assert(pre[i].0 == index);
                    } else {
                        assert(post[j - 1] == pre[j]);
                        assert(post[j - 1].0 == other);
                    }
                }
                if self.has_index(other) {
                    let j = choose|j: int| 0 <= j < post.len() && (#[trigger] post[j]).0 == other;
                    if j < i {
                        assert(pre[j].0 == other);
                    } else {
                        assert(post[j] == pre[j + 1]);
                        assert(pre[j + 1].0 == other);
                    }
                }
            }
            assert forall|j: int|
                0 <= j < post.len() implies (#[trigger] post[j]).0 < self.bond_index by {
                if j < i {
                    assert(post[j] == pre[j]);
                } else {
                    assert(post[j] == pre[j + 1]);
                }
            }
            assert forall|a: int, b: int|
                0 <= a < b < post.len() implies (#[trigger] post[a]).0 != (
            #[trigger] post[b]).0 by {
                let pa = if a < i { a } else { a + 1 };
                let pb = if b < i { b } else { b + 1 };
                assert(post[a] == pre[pa]);
                assert(post[b] == pre[pb]);
            }
        }
    }
}

/// One bond position: who owns it, when it was opened and last claimed,
/// and how much it has paid out so far.
#[derive(Clone, Copy, Debug)]
pub struct Bond {
    /// Address of the owner record this bond is filed under.
    pub owner: Pubkey,
    /// Index assigned by the owner record at creation.
    pub bond_index: u8,
    /// When the bond was opened, in seconds.
    pub creation_timestamp: i64,
    /// When the bond last paid out, in seconds; equals `creation_timestamp`
    /// until the first claim.
    pub last_claim_timestamp: i64,
    /// Lifetime total this bond has paid out.
    pub total_claimed: u64,
    /// A bond can be claimed only while it is active.
    pub is_active: bool,
}

impl Bond {
    /// Byte size of the persisted record.
    pub const SIZE: usize = 32 + 1 + 8 + 8 + 8 + 1;

    /// A fresh bond: nothing claimed, active, both timestamps at creation.
    pub fn new(owner: Pubkey, bond_index: u8, timestamp: i64) -> (r: Bond)
        ensures
            r == (Bond {
                owner,
                bond_index,
                creation_timestamp: timestamp,
                last_claim_timestamp: timestamp,
                total_claimed: 0u64,
                is_active: true,
            }),
    {
        Bond {
            owner,
            bond_index,
            creation_timestamp: timestamp,
            last_claim_timestamp: timestamp,
            total_claimed: 0,
            is_active: true,
        }
    }
}

} // verus!
