//! The persisted byte layout of the ledger's records.
//!
//! Each record is stored as a fixed field sequence: integers little-endian,
//! addresses as their 32 raw bytes, booleans as one byte (one for true,
//! zero for false), and the active-bond list with a 32-bit length prefix.
//! Decoding accepts exactly the encodings this module produces; anything
//! else fails with the deserialization error.
use vstd::prelude::*;

use vstd::bytes::spec_u16_to_le_bytes;
use vstd::bytes::spec_u32_to_le_bytes;
use vstd::bytes::spec_u64_to_le_bytes;

use crate::error::TestudoBondsError;
use crate::keys::Pubkey;
use crate::state::Admin;
use crate::state::Bond;
use crate::state::UserAccount;
use crate::state::MAX_ACTIVE_BONDS;

verus! {

/// One byte for a flag: one for true, zero for false.
pub open spec fn bool_byte(b: bool) -> u8 {
    if b {
        1u8
    } else {
        0u8
    }
}

/// Little-endian bytes of a timestamp: its two's-complement bits.
pub open spec fn spec_i64_to_le_bytes(x: i64) -> Seq<u8> {
    spec_u64_to_le_bytes(x as u64)
}

/// Read the 32 bytes at `offset` as an address.
fn read_pubkey(data: &[u8], offset: usize) -> (r: Pubkey)
    requires
        offset + 32 <= data@.len(),
    ensures
        r@ == data@.subrange(offset as int, offset as int + 32),
{
    let n = data.len();
    let mut bytes = [0u8; 32];
    let mut i: usize = 0;
    while i < 32
        invariant
            i <= 32,
            offset + 32 <= n == data@.len(),
            forall|j: int| 0 <= j < i ==> bytes@[j] == data@[offset + j],
        decreases 32 - i,
    {
        let b = *vstd::slice::slice_index_get(data, offset + i);
        bytes[i] = b;
        i += 1;
    }
    let r = Pubkey { bytes };
    proof {
        assert(r@ =~= data@.subrange(offset as int, offset as int + 32));
    }
    r
}

/// Read the eight bytes at `offset` as a little-endian unsigned word.
fn read_u64(data: &[u8], offset: usize) -> (r: u64)
    requires
        offset + 8 <= data@.len(),
    ensures
        spec_u64_to_le_bytes(r) == data@.subrange(offset as int, offset as int + 8),
{
    let n = data.len();
    let s = vstd::slice::slice_subrange(data, offset, offset + 8);
    let r = vstd::bytes::u64_from_le_bytes(s);
    proof {
        vstd::bytes::lemma_auto_spec_u64_to_from_le_bytes();
    }
    r
}

/// Read the eight bytes at `offset` as a little-endian timestamp.
fn read_i64(data: &[u8], offset: usize) -> (r: i64)
    requires
        offset + 8 <= data@.len(),
    ensures
        spec_i64_to_le_bytes(r) == data@.subrange(offset as int, offset as int + 8),
{
    let u = read_u64(data, offset);
    let r = #[verifier::truncate] (u as i64);
    proof {
        assert((u as i64) as u64 == u) by (bit_vector);
    }
    r
}

/// Read the two bytes at `offset` as a little-endian half word.
fn read_u16(data: &[u8], offset: usize) -> (r: u16)
    requires
        offset + 2 <= data@.len(),
    ensures
        spec_u16_to_le_bytes(r) == data@.subrange(offset as int, offset as int + 2),
{
    let n = data.len();
    let s = vstd::slice::slice_subrange(data, offset, offset + 2);
    let r = vstd::bytes::u16_from_le_bytes(s);
    proof {
        vstd::bytes::lemma_auto_spec_u16_to_from_le_bytes();
    }
    r
}

/// Read the four bytes at `offset` as a little-endian length prefix.
fn read_u32(data: &[u8], offset: usize) -> (r: u32)
    requires
        offset + 4 <= data@.len(),
    ensures
        spec_u32_to_le_bytes(r) == data@.subrange(offset as int, offset as int + 4),
{
    let n = data.len();
    let s = vstd::slice::slice_subrange(data, offset, offset + 4);
    let r = vstd::bytes::u32_from_le_bytes(s);
    proof {
        vstd::bytes::lemma_auto_spec_u32_to_from_le_bytes();
    }
    r
}

/// Read the byte at `offset` as a flag: one is true, zero is false, and
/// any other value malformed.
fn read_bool(data: &[u8], offset: usize) -> (r: Result<bool, TestudoBondsError>)
    requires
        offset < data@.len(),
    ensures
        (match r {
            Ok(b) => data@[offset as int] == bool_byte(b),
            Err(e) => e == TestudoBondsError::DeserializationError && data@[offset as int] != 0
                && data@[offset as int] != 1,
        }),
{
    let b = *vstd::slice::slice_index_get(data, offset);
    if b == 0 {
        Ok(false)
    } else if b == 1 {
        Ok(true)
    } else {
        Err(TestudoBondsError::DeserializationError)
    }
}

/// Append the raw bytes of an address.
fn push_pubkey(out: &mut Vec<u8>, key: &Pubkey)
    ensures
        final(out)@ == old(out)@ + key@,
{
    out.extend_from_slice(key.bytes.as_slice());
}

/// Append a word, little-endian.
fn push_u64(out: &mut Vec<u8>, x: u64)
    ensures
        final(out)@ == old(out)@ + spec_u64_to_le_bytes(x),
{
    let mut bytes = vstd::bytes::u64_to_le_bytes(x);
    out.append(&mut bytes);
}

/// Append a timestamp, little-endian.
fn push_i64(out: &mut Vec<u8>, x: i64)
    ensures
        final(out)@ == old(out)@ + spec_i64_to_le_bytes(x),
{
    proof {
        assert((x as u64) as int == (x as u64) as int);
    }
    push_u64(out, x as u64);
}

/// Append a half word, little-endian.
fn push_u16(out: &mut Vec<u8>, x: u16)
    ensures
        final(out)@ == old(out)@ + spec_u16_to_le_bytes(x),
{
    let mut bytes = vstd::bytes::u16_to_le_bytes(x);
    out.append(&mut bytes);
}

/// Append a length prefix, little-endian.
fn push_u32(out: &mut Vec<u8>, x: u32)
    ensures
        final(out)@ == old(out)@ + spec_u32_to_le_bytes(x),
{
    let mut bytes = vstd::bytes::u32_to_le_bytes(x);
    out.append(&mut bytes);
}

/// The persisted bytes of a bond record: owner address, index byte, the
/// two timestamps, the lifetime total, and the active flag.
pub open spec fn bond_record_bytes(b: Bond) -> Seq<u8> {
    b.owner@ + seq![b.bond_index] + spec_i64_to_le_bytes(b.creation_timestamp)
        + spec_i64_to_le_bytes(b.last_claim_timestamp) + spec_u64_to_le_bytes(b.total_claimed)
        + seq![bool_byte(b.is_active)]
}

/// Every bond record is 58 bytes.
pub proof fn lemma_bond_record_len(b: Bond)
    ensures
        bond_record_bytes(b).len() == Bond::SIZE,
{
    vstd::bytes::lemma_auto_spec_u64_to_from_le_bytes();
}

/// Serialize a bond record.
pub fn encode_bond(b: &Bond) -> (r: Vec<u8>)
    ensures
        r@ == bond_record_bytes(*b),
{
    let mut out: Vec<u8> = Vec::new();
    push_pubkey(&mut out, &b.owner);
    out.push(b.bond_index);
    push_i64(&mut out, b.creation_timestamp);
    push_i64(&mut out, b.last_claim_timestamp);
    push_u64(&mut out, b.total_claimed);
    out.push(if b.is_active {
        1
    } else {
        0
    });
    proof {
        assert(out@ =~= bond_record_bytes(*b));
    }
    out
}

/// Deserialize a bond record: succeeds exactly on the 58-byte encodings
/// this module produces.
pub fn decode_bond(data: &[u8]) -> (r: Result<Bond, TestudoBondsError>)
    ensures
        (match r {
            Ok(b) => bond_record_bytes(b) == data@,
            Err(e) => {
                &&& e == TestudoBondsError::DeserializationError
                &&& forall|b: Bond| bond_record_bytes(b) != data@
            },
        }),
{
    proof {
        vstd::bytes::lemma_auto_spec_u64_to_from_le_bytes();
    }
    if data.len() != Bond::SIZE {
        proof {
            assert forall|b: Bond| bond_record_bytes(b) != data@ by {
                lemma_bond_record_len(b);
            }
        }
        return Err(TestudoBondsError::DeserializationError);
    }
    let owner = read_pubkey(data, 0);
    let bond_index = *vstd::slice::slice_index_get(data, 32);
    let creation_timestamp = read_i64(data, 33);
    let last_claim_timestamp = read_i64(data, 41);
    let total_claimed = read_u64(data, 49);
    let is_active = match read_bool(data, 57) {
        Ok(v) => v,
        Err(e) => {
            proof {
                assert forall|b: Bond| bond_record_bytes(b) != data@ by {
                    lemma_bond_record_len(b);
                    if bond_record_bytes(b) == data@ {
                        assert(data@[57] == bool_byte(b.is_active));
                    }
                }
            }
            return Err(TestudoBondsError::DeserializationError);
        },
    };
    let bond = Bond {
        owner,
        bond_index,
        creation_timestamp,
        last_claim_timestamp,
        total_claimed,
        is_active,
    };
    proof {
        assert(bond_record_bytes(bond) =~= data@);
    }
    Ok(bond)
}

/// Two bond records with the same bytes are the same record: decoding is
/// the inverse of encoding.
pub proof fn lemma_bond_record_injective(a: Bond, b: Bond)
    requires
        bond_record_bytes(a) == bond_record_bytes(b),
    ensures
        a == b,
{
    vstd::bytes::lemma_auto_spec_u64_to_from_le_bytes();
    let da = bond_record_bytes(a);
    let db = bond_record_bytes(b);
    assert(a.owner@ =~= da.subrange(0, 32));
    assert(b.owner@ =~= db.subrange(0, 32));
    assert(a.owner.bytes =~= b.owner.bytes);
    assert(spec_i64_to_le_bytes(a.creation_timestamp) =~= da.subrange(33, 41));
    assert(spec_i64_to_le_bytes(b.creation_timestamp) =~= db.subrange(33, 41));
    lemma_i64_le_bytes_injective(a.creation_timestamp, b.creation_timestamp);
    assert(spec_i64_to_le_bytes(a.last_claim_timestamp) =~= da.subrange(41, 49));
    assert(spec_i64_to_le_bytes(b.last_claim_timestamp) =~= db.subrange(41, 49));
    lemma_i64_le_bytes_injective(a.last_claim_timestamp, b.last_claim_timestamp);
    assert(spec_u64_to_le_bytes(a.total_claimed) =~= da.subrange(49, 57));
    assert(spec_u64_to_le_bytes(b.total_claimed) =~= db.subrange(49, 57));
    assert(da[32] == a.bond_index && db[32] == b.bond_index);
    assert(da[57] == bool_byte(a.is_active) && db[57] == bool_byte(b.is_active));
}

/// Two words with the same little-endian bytes are equal.
pub proof fn lemma_u64_le_bytes_injective(x: u64, y: u64)
    requires
        spec_u64_to_le_bytes(x) == spec_u64_to_le_bytes(y),
    ensures
        x == y,
{
    vstd::bytes::lemma_auto_spec_u64_to_from_le_bytes();
}

/// Two timestamps with the same little-endian bytes are equal.
pub proof fn lemma_i64_le_bytes_injective(x: i64, y: i64)
    requires
        spec_i64_to_le_bytes(x) == spec_i64_to_le_bytes(y),
    ensures
        x == y,
{
    vstd::bytes::lemma_auto_spec_u64_to_from_le_bytes();
    assert(x as u64 == y as u64 ==> x == y) by (bit_vector);
}

/// The persisted bytes of the configuration record: the five addresses,
/// the two economics words, the per-wallet bond limit, the three split
/// weights, the penalty, and the pause flag.
pub open spec fn admin_record_bytes(a: Admin) -> Seq<u8> {
    a.authority@ + a.treasury@ + a.team@ + a.rewards_pool@ + a.native_token_mint@
        + spec_u64_to_le_bytes(a.daily_emission_rate) + spec_u64_to_le_bytes(
        a.max_emission_per_bond,
    ) + seq![a.max_bonds_per_wallet] + spec_u16_to_le_bytes(a.token_deposit_split@[0])
        + spec_u16_to_le_bytes(a.token_deposit_split@[1]) + spec_u16_to_le_bytes(
        a.token_deposit_split@[2],
    ) + spec_u16_to_le_bytes(a.claim_penalty) + seq![bool_byte(a.pause_bond_operations)]
}

/// Every configuration record is 186 bytes.
pub proof fn lemma_admin_record_len(a: Admin)
    ensures
        admin_record_bytes(a).len() == Admin::SIZE,
{
    vstd::bytes::lemma_auto_spec_u64_to_from_le_bytes();
    vstd::bytes::lemma_auto_spec_u16_to_from_le_bytes();
}

/// Serialize the configuration record.
pub fn encode_admin(a: &Admin) -> (r: Vec<u8>)
    ensures
        r@ == admin_record_bytes(*a),
{
    let mut out: Vec<u8> = Vec::new();
    push_pubkey(&mut out, &a.authority);
    push_pubkey(&mut out, &a.treasury);
    push_pubkey(&mut out, &a.team);
    push_pubkey(&mut out, &a.rewards_pool);
    push_pubkey(&mut out, &a.native_token_mint);
    push_u64(&mut out, a.daily_emission_rate);
    push_u64(&mut out, a.max_emission_per_bond);
    out.push(a.max_bonds_per_wallet);
    push_u16(&mut out, a.token_deposit_split[0]);
    push_u16(&mut out, a.token_deposit_split[1]);
    push_u16(&mut out, a.token_deposit_split[2]);
    push_u16(&mut out, a.claim_penalty);
    out.push(if a.pause_bond_operations {
        1
    } else {
        0
    });
    proof {
        assert(out@ =~= admin_record_bytes(*a));
    }
    out
}

/// Deserialize the configuration record: succeeds exactly on the 186-byte
/// encodings this module produces.
pub fn decode_admin(data: &[u8]) -> (r: Result<Admin, TestudoBondsError>)
    ensures
        (match r {
            Ok(a) => admin_record_bytes(a) == data@,
            Err(e) => {
                &&& e == TestudoBondsError::DeserializationError
                &&& forall|a: Admin| admin_record_bytes(a) != data@
            },
        }),
{
    proof {
        vstd::bytes::lemma_auto_spec_u64_to_from_le_bytes();
        vstd::bytes::lemma_auto_spec_u16_to_from_le_bytes();
    }
    if data.len() != Admin::SIZE {
        proof {
            assert forall|a: Admin| admin_record_bytes(a) != data@ by {
                lemma_admin_record_len(a);
            }
        }
        return Err(TestudoBondsError::DeserializationError);
    }
    let authority = read_pubkey(data, 0);
    let treasury = read_pubkey(data, 32);
    let team = read_pubkey(data, 64);
    let rewards_pool = read_pubkey(data, 96);
    let native_token_mint = read_pubkey(data, 128);
    let daily_emission_rate = read_u64(data, 160);
    let max_emission_per_bond = read_u64(data, 168);
    let max_bonds_per_wallet = *vstd::slice::slice_index_get(data, 176);
    let split0 = read_u16(data, 177);
    let split1 = read_u16(data, 179);
    let split2 = read_u16(data, 181);
    let claim_penalty = read_u16(data, 183);
    let pause_bond_operations = match read_bool(data, 185) {
        Ok(v) => v,
        Err(e) => {
            proof {
                assert forall|a: Admin| admin_record_bytes(a) != data@ by {
                    lemma_admin_record_len(a);
                    if admin_record_bytes(a) == data@ {
                        assert(data@[185] == bool_byte(a.pause_bond_operations));
                    }
                }
            }
            return Err(TestudoBondsError::DeserializationError);
        },
    };
    let admin = Admin {
        authority,
        treasury,
        team,
        rewards_pool,
        native_token_mint,
        daily_emission_rate,
        max_emission_per_bond,
        max_bonds_per_wallet,
        token_deposit_split: [split0, split1, split2],
        claim_penalty,
        pause_bond_operations,
    };
    proof {
        assert(admin.token_deposit_split@[0] == split0);
        assert(admin.token_deposit_split@[1] == split1);
        assert(admin.token_deposit_split@[2] == split2);
        assert(admin_record_bytes(admin) =~= data@);
    }
    Ok(admin)
}

/// Two configuration records with the same bytes are the same record:
/// decoding is the inverse of encoding.
pub proof fn lemma_admin_record_injective(a: Admin, b: Admin)
    requires
        admin_record_bytes(a) == admin_record_bytes(b),
    ensures
        a == b,
{
    vstd::bytes::lemma_auto_spec_u64_to_from_le_bytes();
    vstd::bytes::lemma_auto_spec_u16_to_from_le_bytes();
    let da = admin_record_bytes(a);
    let db = admin_record_bytes(b);
    assert(a.authority@ =~= da.subrange(0, 32));
    assert(b.authority@ =~= db.subrange(0, 32));
    assert(a.authority.bytes =~= b.authority.bytes);
    assert(a.treasury@ =~= da.subrange(32, 64));
    assert(b.treasury@ =~= db.subrange(32, 64));
    assert(a.treasury.bytes =~= b.treasury.bytes);
    assert(a.team@ =~= da.subrange(64, 96));
    assert(b.team@ =~= db.subrange(64, 96));
    assert(a.team.bytes =~= b.team.bytes);
    assert(a.rewards_pool@ =~= da.subrange(96, 128));
    assert(b.rewards_pool@ =~= db.subrange(96, 128));
    assert(a.rewards_pool.bytes =~= b.rewards_pool.bytes);
    assert(a.native_token_mint@ =~= da.subrange(128, 160));
    assert(b.native_token_mint@ =~= db.subrange(128, 160));
    assert(a.native_token_mint.bytes =~= b.native_token_mint.bytes);
    assert(spec_u64_to_le_bytes(a.daily_emission_rate) =~= da.subrange(160, 168));
    assert(spec_u64_to_le_bytes(b.daily_emission_rate) =~= db.subrange(160, 168));
    assert(spec_u64_to_le_bytes(a.max_emission_per_bond) =~= da.subrange(168, 176));
    assert(spec_u64_to_le_bytes(b.max_emission_per_bond) =~= db.subrange(168, 176));
    assert(da[176] == a.max_bonds_per_wallet && db[176] == b.max_bonds_per_wallet);
    assert(spec_u16_to_le_bytes(a.token_deposit_split@[0]) =~= da.subrange(177, 179));
    assert(spec_u16_to_le_bytes(b.token_deposit_split@[0]) =~= db.subrange(177, 179));
    assert(spec_u16_to_le_bytes(a.token_deposit_split@[1]) =~= da.subrange(179, 181));
    assert(spec_u16_to_le_bytes(b.token_deposit_split@[1]) =~= db.subrange(179, 181));
    assert(spec_u16_to_le_bytes(a.token_deposit_split@[2]) =~= da.subrange(181, 183));
    assert(spec_u16_to_le_bytes(b.token_deposit_split@[2]) =~= db.subrange(181, 183));
    assert(a.token_deposit_split =~= b.token_deposit_split);
    assert(spec_u16_to_le_bytes(a.claim_penalty) =~= da.subrange(183, 185));
    assert(spec_u16_to_le_bytes(b.claim_penalty) =~= db.subrange(183, 185));
    assert(da[185] == bool_byte(a.pause_bond_operations) && db[185] == bool_byte(
        b.pause_bond_operations,
    ));
}


/// The bytes of the active-bond list: for each pair in order, the index
/// byte followed by the 32 bytes of the bond record's address.
pub open spec fn bond_entries_bytes(entries: Seq<(u8, Pubkey)>) -> Seq<u8>
    decreases entries.len(),
{
    if entries.len() == 0 {
        Seq::empty()
    } else {
        bond_entries_bytes(entries.drop_last()) + seq![entries.last().0] + entries.last().1@
    }
}

/// The active-bond list takes 33 bytes per entry.
pub proof fn lemma_bond_entries_len(entries: Seq<(u8, Pubkey)>)
    ensures
        bond_entries_bytes(entries).len() == 33 * entries.len(),
    decreases entries.len(),
{
    if entries.len() > 0 {
        lemma_bond_entries_len(entries.drop_last());
    }
}

/// The 33-byte slice of entry `k` within the list's bytes: its index byte
/// followed by its address.
pub proof fn lemma_bond_entries_index(entries: Seq<(u8, Pubkey)>, k: int)
    requires
        0 <= k < entries.len(),
    ensures
        bond_entries_bytes(entries).subrange(33 * k, 33 * k + 33) == seq![entries[k].0]
            + entries[k].1@,
    decreases entries.len(),
{
    lemma_bond_entries_len(entries);
    lemma_bond_entries_len(entries.drop_last());
    if k == entries.len() - 1 {
        assert(bond_entries_bytes(entries).subrange(33 * k, 33 * k + 33) =~= seq![
            entries.last().0,
        ] + entries.last().1@);
    } else {
        lemma_bond_entries_index(entries.drop_last(), k);
        assert(entries.drop_last()[k] == entries[k]);
        assert(bond_entries_bytes(entries).subrange(33 * k, 33 * k + 33) =~= bond_entries_bytes(
            entries.drop_last(),
        ).subrange(33 * k, 33 * k + 33));
    }
}

/// The persisted bytes of an owner record: wallet address, bond count,
/// lifetime total, the active-bond list behind a 32-bit length prefix, and
/// the next bond index.
pub open spec fn user_record_bytes(u: UserAccount) -> Seq<u8> {
    u.user@ + seq![u.bond_count] + spec_u64_to_le_bytes(u.total_accrued_rewards)
        + spec_u32_to_le_bytes(u.active_bonds@.len() as u32) + bond_entries_bytes(u.active_bonds@)
        + seq![u.bond_index]
}

/// Where each field of an owner record stands in its bytes.
pub proof fn lemma_user_record_parts(u: UserAccount)
    ensures
        user_record_bytes(u).len() == 46 + 33 * u.active_bonds@.len(),
        user_record_bytes(u).subrange(0, 32) == u.user@,
        user_record_bytes(u)[32] == u.bond_count,
        user_record_bytes(u).subrange(33, 41) == spec_u64_to_le_bytes(u.total_accrued_rewards),
        user_record_bytes(u).subrange(41, 45) == spec_u32_to_le_bytes(
            u.active_bonds@.len() as u32,
        ),
        user_record_bytes(u).subrange(45, 45 + 33 * (u.active_bonds@.len() as int)) == bond_entries_bytes(
            u.active_bonds@,
        ),
        user_record_bytes(u)[45 + 33 * (u.active_bonds@.len() as int)] == u.bond_index,
{
    vstd::bytes::lemma_auto_spec_u64_to_from_le_bytes();
    vstd::bytes::lemma_auto_spec_u32_to_from_le_bytes();
    lemma_bond_entries_len(u.active_bonds@);
    let d = user_record_bytes(u);
    let n = u.active_bonds@.len() as int;
    assert(d.subrange(0, 32) =~= u.user@);
    assert(d.subrange(33, 41) =~= spec_u64_to_le_bytes(u.total_accrued_rewards));
    assert(d.subrange(41, 45) =~= spec_u32_to_le_bytes(u.active_bonds@.len() as u32));
    assert(d.subrange(45, 45 + 33 * n) =~= bond_entries_bytes(u.active_bonds@));
}

/// Serialize an owner record.
pub fn encode_user_account(u: &UserAccount) -> (r: Vec<u8>)
    requires
        u.active_bonds@.len() <= MAX_ACTIVE_BONDS,
    ensures
        r@ == user_record_bytes(*u),
{
    let mut out: Vec<u8> = Vec::new();
    push_pubkey(&mut out, &u.user);
    out.push(u.bond_count);
    push_u64(&mut out, u.total_accrued_rewards);
    let n = u.active_bonds.len();
    push_u32(&mut out, n as u32);
    let ghost header = out@;
    let mut k: usize = 0;
    while k < n
        invariant
            k <= n,
            n == u.active_bonds@.len(),
            n <= MAX_ACTIVE_BONDS,
            out@ == header + bond_entries_bytes(u.active_bonds@.take(k as int)),
        decreases n - k,
    {
        let pair = u.active_bonds[k];
        out.push(pair.0);
        push_pubkey(&mut out, &pair.1);
        proof {
            let t1 = u.active_bonds@.take(k as int);
            let t2 = u.active_bonds@.take(k as int + 1);
            assert(t2.drop_last() =~= t1);
            assert(t2.last() == u.active_bonds@[k as int]);
            assert(out@ =~= header + bond_entries_bytes(t2));
        }
        k += 1;
    }
    proof {
        assert(u.active_bonds@.take(n as int) =~= u.active_bonds@);
    }
    out.push(u.bond_index);
    proof {
        assert(out@ =~= user_record_bytes(*u));
    }
    out
}

/// Whether `idx` already appears among the collected entries.
fn entries_contain(entries: &Vec<(u8, Pubkey)>, idx: u8) -> (r: bool)
    ensures
        r == exists|i: int| 0 <= i < entries@.len() && (#[trigger] entries@[i]).0 == idx,
{
    let n = entries.len();
    let mut i: usize = 0;
    while i < n
        invariant
            i <= n,
            n == entries@.len(),
            forall|j: int| 0 <= j < i ==> (#[trigger] entries@[j]).0 != idx,
        decreases n - i,
    {
        if entries[i].0 == idx {
            return true;
        }
        i += 1;
    }
    false
}

/// Deserialize an owner record: succeeds exactly on the encodings of
/// well-formed records this module produces, and returns a well-formed
/// record.
pub fn decode_user_account(data: &[u8]) -> (r: Result<UserAccount, TestudoBondsError>)
    ensures
        (match r {
            Ok(u) => user_record_bytes(u) == data@ && u.wf(),
            Err(e) => {
                &&& e == TestudoBondsError::DeserializationError
                &&& forall|u: UserAccount| u.wf() ==> user_record_bytes(u) != data@
            },
        }),
{
    proof {
        vstd::bytes::lemma_auto_spec_u64_to_from_le_bytes();
        vstd::bytes::lemma_auto_spec_u32_to_from_le_bytes();
    }
    let len = data.len();
    if len < 46 {
        proof {
            assert forall|u: UserAccount| u.wf() implies user_record_bytes(u) != data@ by {
                lemma_user_record_parts(u);
            }
        }
        return Err(TestudoBondsError::DeserializationError);
    }
    let user = read_pubkey(data, 0);
    let bond_count = *vstd::slice::slice_index_get(data, 32);
    let total_accrued_rewards = read_u64(data, 33);
    let n32 = read_u32(data, 41);
    if n32 > 10 {
        proof {
            assert forall|u: UserAccount| u.wf() implies user_record_bytes(u) != data@ by {
                lemma_user_record_parts(u);
                if user_record_bytes(u) == data@ {
                    assert(spec_u32_to_le_bytes(u.active_bonds@.len() as u32) == data@.subrange(
                        41,
                        45,
                    ));
                    assert(u.active_bonds@.len() as u32 == n32);
                }
            }
        }
        return Err(TestudoBondsError::DeserializationError);
    }
    let n = n32 as usize;
    if len != 46 + 33 * n {
        proof {
            assert forall|u: UserAccount| u.wf() implies user_record_bytes(u) != data@ by {
                lemma_user_record_parts(u);
                if user_record_bytes(u) == data@ {
                    assert(u.active_bonds@.len() as u32 == n32);
                }
            }
        }
        return Err(TestudoBondsError::DeserializationError);
    }
    if bond_count as usize != n {
        proof {
            assert forall|u: UserAccount| u.wf() implies user_record_bytes(u) != data@ by {
                lemma_user_record_parts(u);
                if user_record_bytes(u) == data@ {
                    assert(u.active_bonds@.len() as u32 == n32);
                    assert(data@[32] == u.bond_count);
                }
            }
        }
        return Err(TestudoBondsError::DeserializationError);
    }
    let bond_index = *vstd::slice::slice_index_get(data, 45 + 33 * n);
    let mut active_bonds: Vec<(u8, Pubkey)> = Vec::new();
    let mut k: usize = 0;
    while k < n
        invariant
            k <= n,
            n <= 10,
            len == data@.len() == 46 + 33 * n,
            bond_index == data@[45 + 33 * n],
            active_bonds@.len() == k,
            bond_entries_bytes(active_bonds@) == data@.subrange(45, 45 + 33 * (k as int)),
            forall|j: int|
                0 <= j < k ==> (#[trigger] active_bonds@[j]).0 == data@[45 + 33 * j],
            forall|j: int| 0 <= j < k ==> (#[trigger] active_bonds@[j]).0 < bond_index,
            forall|a: int, b: int|
                0 <= a < b < k ==> (#[trigger] active_bonds@[a]).0 != (
                #[trigger] active_bonds@[b]).0,
        decreases n - k,
    {
        let off = 45 + 33 * k;
        let idx = *vstd::slice::slice_index_get(data, off);
        let key = read_pubkey(data, off + 1);
        if idx >= bond_index {
            proof {
                assert forall|u: UserAccount| u.wf() implies user_record_bytes(u) != data@ by {
                    lemma_user_record_parts(u);
                    if user_record_bytes(u) == data@ {
                        assert(46 + 33 * (u.active_bonds@.len() as int) == 46 + 33 * (n as int));
                        assert(u.active_bonds@.len() == n);
                        lemma_bond_entries_index(u.active_bonds@, k as int);
                        assert(data@.subrange(45, 45 + 33 * (n as int)).subrange(
                            33 * (k as int),
                            33 * (k as int) + 33,
                        ) =~= data@.subrange(45 + 33 * (k as int), 45 + 33 * (k as int) + 33));
                        let chunk = data@.subrange(
                            45 + 33 * (k as int),
                            45 + 33 * (k as int) + 33,
                        );
                        assert(chunk == seq![u.active_bonds@[k as int].0]
                            + u.active_bonds@[k as int].1@);
                        assert(chunk[0] == u.active_bonds@[k as int].0);
                        assert(u.active_bonds@[k as int].0 == data@[45 + 33 * (k as int)]);
                        assert(u.bond_index == data@[45 + 33 * (n as int)]);
                    }
                }
            }
            return Err(TestudoBondsError::DeserializationError);
        }
        if entries_contain(&active_bonds, idx) {
            proof {
                let ghost dup = choose|i: int|
                    0 <= i < active_bonds@.len() && (#[trigger] active_bonds@[i]).0 == idx;
                assert forall|u: UserAccount| u.wf() implies user_record_bytes(u) != data@ by {
                    lemma_user_record_parts(u);
                    if user_record_bytes(u) == data@ {
                        assert(46 + 33 * (u.active_bonds@.len() as int) == 46 + 33 * (n as int));
                        assert(u.active_bonds@.len() == n);
                        lemma_bond_entries_index(u.active_bonds@, k as int);
                        lemma_bond_entries_index(u.active_bonds@, dup);
                        assert(data@.subrange(45, 45 + 33 * (n as int)).subrange(
                            33 * (k as int),
                            33 * (k as int) + 33,
                        ) =~= data@.subrange(45 + 33 * (k as int), 45 + 33 * (k as int) + 33));
                        assert(data@.subrange(45, 45 + 33 * (n as int)).subrange(
                            33 * dup,
                            33 * dup + 33,
                        ) =~= data@.subrange(45 + 33 * dup, 45 + 33 * dup + 33));
                        let chunk_k = data@.subrange(
                            45 + 33 * (k as int),
                            45 + 33 * (k as int) + 33,
                        );
                        assert(chunk_k == seq![u.active_bonds@[k as int].0]
                            + u.active_bonds@[k as int].1@);
                        assert(chunk_k[0] == u.active_bonds@[k as int].0);
                        assert(u.active_bonds@[k as int].0 == data@[45 + 33 * (k as int)]);
                        let chunk_d = data@.subrange(45 + 33 * dup, 45 + 33 * dup + 33);
                        assert(chunk_d == seq![u.active_bonds@[dup].0] + u.active_bonds@[dup].1@);
                        assert(chunk_d[0] == u.active_bonds@[dup].0);
                        assert(u.active_bonds@[dup].0 == data@[45 + 33 * dup]);
                        assert(active_bonds@[dup].0 == data@[45 + 33 * dup]);
                    }
                }
            }
            return Err(TestudoBondsError::DeserializationError);
        }
        let ghost pre_entries = active_bonds@;
        active_bonds.push((idx, key));
        proof {
            let post = active_bonds@;
            assert(post.drop_last() =~= pre_entries);
            assert(post.last() == (idx, key));
            assert(bond_entries_bytes(post) == bond_entries_bytes(pre_entries) + seq![idx]
                + key@);
            assert(data@.subrange(45 + 33 * (k as int), 45 + 33 * (k as int) + 33) =~= seq![idx]
                + key@);
            assert(data@.subrange(45, 45 + 33 * (k as int + 1)) =~= data@.subrange(
                45,
                45 + 33 * (k as int),
            ) + data@.subrange(45 + 33 * (k as int), 45 + 33 * (k as int) + 33));
            assert(bond_entries_bytes(post) == data@.subrange(45, 45 + 33 * (k as int + 1)));
        }
        k += 1;
    }
    let u = UserAccount { user, bond_count, total_accrued_rewards, active_bonds, bond_index };
    proof {
        assert(u.wf());
        assert(u.active_bonds@.len() as u32 == n32);
        assert(user_record_bytes(u) =~= data@);
    }
    Ok(u)
}

/// Two owner records with the same bytes agree on every field: decoding is
/// the inverse of encoding.
pub proof fn lemma_user_record_injective(a: UserAccount, b: UserAccount)
    requires
        user_record_bytes(a) == user_record_bytes(b),
    ensures
        a.user == b.user,
        a.bond_count == b.bond_count,
        a.total_accrued_rewards == b.total_accrued_rewards,
        a.active_bonds@ == b.active_bonds@,
        a.bond_index == b.bond_index,
{
    vstd::bytes::lemma_auto_spec_u64_to_from_le_bytes();
    vstd::bytes::lemma_auto_spec_u32_to_from_le_bytes();
    lemma_user_record_parts(a);
    lemma_user_record_parts(b);
    let da = user_record_bytes(a);
    let db = user_record_bytes(b);
    let la = a.active_bonds@.len() as int;
    let lb = b.active_bonds@.len() as int;
    assert(46 + 33 * la == 46 + 33 * lb);
    assert(la == lb);
    assert(a.user.bytes =~= b.user.bytes);
    assert forall|k: int| 0 <= k < la implies a.active_bonds@[k] == b.active_bonds@[k] by {
        lemma_bond_entries_index(a.active_bonds@, k);
        lemma_bond_entries_index(b.active_bonds@, k);
        let ea = seq![a.active_bonds@[k].0] + a.active_bonds@[k].1@;
        let eb = seq![b.active_bonds@[k].0] + b.active_bonds@[k].1@;
        assert(ea == eb);
        assert(ea[0] == eb[0]);
        assert(a.active_bonds@[k].1@ =~= ea.subrange(1, 33));
        assert(b.active_bonds@[k].1@ =~= eb.subrange(1, 33));
        assert(a.active_bonds@[k].1.bytes =~= b.active_bonds@[k].1.bytes);
    }
    assert(a.active_bonds@ =~= b.active_bonds@);
}



/// Whether the bytes are the encoding of some configuration record.
pub open spec fn admin_decodes(data: Seq<u8>) -> bool {
    exists|a: Admin| admin_record_bytes(a) == data
}

/// The configuration record the bytes encode.
pub open spec fn decoded_admin(data: Seq<u8>) -> Admin {
    choose|a: Admin| admin_record_bytes(a) == data
}

/// A decoded configuration record is the one the bytes encode.
pub proof fn lemma_decoded_admin(a: Admin, data: Seq<u8>)
    requires
        admin_record_bytes(a) == data,
    ensures
        admin_decodes(data),
        decoded_admin(data) == a,
{
    let w = decoded_admin(data);
    assert(admin_record_bytes(w) == data);
    lemma_admin_record_injective(a, w);
}

/// Whether the bytes are the encoding of some bond record.
pub open spec fn bond_decodes(data: Seq<u8>) -> bool {
    exists|b: Bond| bond_record_bytes(b) == data
}

/// The bond record the bytes encode.
pub open spec fn decoded_bond(data: Seq<u8>) -> Bond {
    choose|b: Bond| bond_record_bytes(b) == data
}

/// A decoded bond record is the one the bytes encode.
pub proof fn lemma_decoded_bond(b: Bond, data: Seq<u8>)
    requires
        bond_record_bytes(b) == data,
    ensures
        bond_decodes(data),
        decoded_bond(data) == b,
{
    let w = decoded_bond(data);
    assert(bond_record_bytes(w) == data);
    lemma_bond_record_injective(b, w);
}

/// Whether the bytes are the encoding of some well-formed owner record.
pub open spec fn user_decodes(data: Seq<u8>) -> bool {
    exists|u: UserAccount| u.wf() && user_record_bytes(u) == data
}

/// The well-formed owner record the bytes encode.
pub open spec fn decoded_user(data: Seq<u8>) -> UserAccount {
    choose|u: UserAccount| u.wf() && user_record_bytes(u) == data
}

/// A decoded owner record agrees field for field with the one the bytes
/// encode.
pub proof fn lemma_decoded_user(u: UserAccount, data: Seq<u8>)
    requires
        u.wf(),
        user_record_bytes(u) == data,
    ensures
        user_decodes(data),
        decoded_user(data).user == u.user,
        decoded_user(data).bond_count == u.bond_count,
        decoded_user(data).total_accrued_rewards == u.total_accrued_rewards,
        decoded_user(data).active_bonds@ == u.active_bonds@,
        decoded_user(data).bond_index == u.bond_index,
{
    assert(u.wf() && user_record_bytes(u) == data);
    let w = decoded_user(data);
    assert(w.wf() && user_record_bytes(w) == data);
    lemma_user_record_injective(u, w);
}


} // verus!
