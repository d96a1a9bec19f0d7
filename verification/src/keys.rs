//! Addresses and per-account facts.
//!
//! An address is a 32-byte value used as a collision-resistant reference to
//! an account. The engine never interprets the bytes; it only compares them
//! and feeds them to the derivation routine.
use vstd::prelude::*;

verus! {

/// Number of bytes in an address.
pub const PUBKEY_BYTES: usize = 32;

/// A 32-byte account address.
#[derive(Clone, Copy, Debug)]
pub struct Pubkey {
    pub bytes: [u8; 32],
}

impl View for Pubkey {
    type V = Seq<u8>;

    open spec fn view(&self) -> Seq<u8> {
        self.bytes@
    }
}

impl PartialEq for Pubkey {
    fn eq(&self, other: &Pubkey) -> (r: bool) {
        let mut i: usize = 0;
        while i < 32
            invariant
                i <= 32,
                forall|j: int| 0 <= j < i ==> self.bytes@[j] == other.bytes@[j],
            decreases 32 - i,
        {
            if self.bytes[i] != other.bytes[i] {
                return false;
            }
            i += 1;
        }
        proof {
            assert(self.bytes@ =~= other.bytes@);
            assert(self.bytes =~= other.bytes);
        }
        true
    }
}

impl vstd::std_specs::cmp::PartialEqSpecImpl for Pubkey {
    open spec fn obeys_eq_spec() -> bool {
        true
    }

    open spec fn eq_spec(&self, other: &Pubkey) -> bool {
        self.bytes == other.bytes
    }
}

impl Pubkey {
    /// The address whose bytes are all zero.
    pub fn zeroed() -> (r: Pubkey)
        ensures
            r@ == Seq::new(32, |i: int| 0u8),
    {
        let r = Pubkey { bytes: [0u8; 32] };
        proof {
            assert(r.bytes@ =~= Seq::new(32, |i: int| 0u8));
        }
        r
    }

    /// Equality of two addresses, byte for byte.
    pub fn same_as(&self, other: &Pubkey) -> (r: bool)
        ensures
            r == (self@ == other@),
    {
        let eq = self == other;
        proof {
            if self.bytes == other.bytes {
                assert(self@ == other@);
            }
            if self@ == other@ {
                assert(self.bytes =~= other.bytes);
            }
        }
        eq
    }

    /// The bytes of the address as a growable buffer.
    pub fn to_vec(&self) -> (r: Vec<u8>)
        ensures
            r@ == self@,
    {
        let s: Vec<u8> = vstd::slice::slice_to_vec(self.bytes.as_slice());
        s
    }
}

/// What the engine reads of a host account before acting on it: its address,
/// the program that owns it, its signer and writability flags, and how many
/// bytes of record data it holds. The record data itself travels separately.
#[derive(Clone, Copy, Debug)]
pub struct AccountFacts {
    /// The account's address.
    pub key: Pubkey,
    /// The program that owns the account.
    pub owner: Pubkey,
    /// Whether the transaction was signed by this account's key.
    pub is_signer: bool,
    /// Whether the account may be written to.
    pub is_writable: bool,
    /// Length in bytes of the account's record data.
    pub data_len: usize,
}

impl AccountFacts {
    /// An account is empty when it holds no record data.
    pub open spec fn is_empty(&self) -> bool {
        self.data_len == 0
    }
}

} // verus!
