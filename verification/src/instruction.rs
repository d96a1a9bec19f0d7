//! The five operations of the ledger, and the wire form they arrive in.
//!
//! A request is one discriminant byte followed by the operation's payload:
//! a claim carries its bond index and auto-compound flag, a configuration
//! replacement carries the whole new record, and the other operations carry
//! nothing.
use vstd::prelude::*;

use crate::codec::admin_record_bytes;
use crate::codec::bool_byte;
use crate::codec::decode_admin;
use crate::error::TestudoBondsError;
use crate::state::Admin;

verus! {

/// One decoded operation request.
#[derive(Clone, Copy, Debug, PartialEq, Eq, Structural)]
pub enum TestudoBondsInstruction {
    /// Creates the global configuration record.
    InitializeAdmin,
    /// Creates a new owner record for a wallet.
    CreateUser,
    /// Opens a new bond under an existing owner record.
    InitializeBond,
    /// Claims the reward accrued by one bond, optionally reinvesting part
    /// of it into a new bond.
    ProcessClaim { bond_index: u8, auto_compound: bool },
    /// Replaces the configuration record whole.
    UpdateAdmin,
}

/// Payload of a claim request.
#[derive(Clone, Copy, Debug, PartialEq, Eq, Structural)]
pub struct ProcessClaimPayload {
    /// Index of the bond to claim from.
    pub bond_index: u8,
    /// Whether to reinvest part of the reward into a new bond.
    pub auto_compound: bool,
}

/// Payload of a configuration replacement.
#[derive(Clone, Copy, Debug)]
pub struct UpdateAdminPayload {
    /// The record that replaces the configuration whole.
    pub new_admin_data: Admin,
}

/// The wire bytes of a claim payload: the index byte and the flag byte.
pub open spec fn process_claim_payload_bytes(p: ProcessClaimPayload) -> Seq<u8> {
    seq![p.bond_index, bool_byte(p.auto_compound)]
}

/// Serialize a claim payload.
pub fn encode_process_claim_payload(p: &ProcessClaimPayload) -> (r: Vec<u8>)
    ensures
        r@ == process_claim_payload_bytes(*p),
{
    let mut out: Vec<u8> = Vec::new();
    out.push(p.bond_index);
    out.push(if p.auto_compound {
        1
    } else {
        0
    });
    proof {
        assert(out@ =~= process_claim_payload_bytes(*p));
    }
    out
}

/// Deserialize a claim payload: exactly two bytes, the flag byte zero or
/// one.
pub fn decode_process_claim_payload(data: &[u8]) -> (r: Result<
    ProcessClaimPayload,
    TestudoBondsError,
>)
    ensures
        (match r {
            Ok(p) => process_claim_payload_bytes(p) == data@,
            Err(e) => {
                &&& e == TestudoBondsError::DeserializationError
                &&& forall|p: ProcessClaimPayload| process_claim_payload_bytes(p) != data@
            },
        }),
{
    if data.len() != 2 {
        return Err(TestudoBondsError::DeserializationError);
    }
    let bond_index = *vstd::slice::slice_index_get(data, 0);
    let flag = *vstd::slice::slice_index_get(data, 1);
    if flag != 0 && flag != 1 {
        proof {
            assert forall|p: ProcessClaimPayload| process_claim_payload_bytes(p) != data@ by {
                if process_claim_payload_bytes(p) == data@ {
                    assert(data@[1] == bool_byte(p.auto_compound));
                }
            }
        }
        return Err(TestudoBondsError::DeserializationError);
    }
    let p = ProcessClaimPayload { bond_index, auto_compound: flag == 1 };
    proof {
        assert(process_claim_payload_bytes(p) =~= data@);
    }
    Ok(p)
}

/// The wire bytes of a configuration replacement: the new record whole.
pub open spec fn update_admin_payload_bytes(p: UpdateAdminPayload) -> Seq<u8> {
    admin_record_bytes(p.new_admin_data)
}

/// Deserialize a configuration replacement payload.
pub fn decode_update_admin_payload(data: &[u8]) -> (r: Result<
    UpdateAdminPayload,
    TestudoBondsError,
>)
    ensures
        (match r {
            Ok(p) => update_admin_payload_bytes(p) == data@,
            Err(e) => {
                &&& e == TestudoBondsError::DeserializationError
                &&& forall|p: UpdateAdminPayload| update_admin_payload_bytes(p) != data@
            },
        }),
{
    match decode_admin(data) {
        Ok(a) => Ok(UpdateAdminPayload { new_admin_data: a }),
        Err(e) => {
            proof {
                assert forall|p: UpdateAdminPayload| update_admin_payload_bytes(p) != data@ by {
                    assert(admin_record_bytes(p.new_admin_data) == update_admin_payload_bytes(p));
                }
            }
            Err(e)
        },
    }
}

/// What parsing a request yields for every byte string: the operation named
/// by the discriminant byte, with a claim's two payload bytes decoded in
/// place; an empty request, an unknown discriminant, or a malformed claim
/// payload is rejected. A configuration replacement's payload is decoded
/// separately by [`decode_update_admin_payload`].
pub open spec fn instruction_check(data: Seq<u8>) -> Result<
    TestudoBondsInstruction,
    TestudoBondsError,
> {
    if data.len() == 0 {
        Err(TestudoBondsError::DeserializationError)
    } else if data[0] == 0 {
        Ok(TestudoBondsInstruction::InitializeAdmin)
    } else if data[0] == 1 {
        Ok(TestudoBondsInstruction::CreateUser)
    } else if data[0] == 2 {
        Ok(TestudoBondsInstruction::InitializeBond)
    } else if data[0] == 3 {
        if data.len() == 3 && (data[2] == 0 || data[2] == 1) {
            Ok(
                TestudoBondsInstruction::ProcessClaim {
                    bond_index: data[1],
                    auto_compound: data[2] == 1,
                },
            )
        } else {
            Err(TestudoBondsError::DeserializationError)
        }
    } else if data[0] == 4 {
        Ok(TestudoBondsInstruction::UpdateAdmin)
    } else {
        Err(TestudoBondsError::DeserializationError)
    }
}

/// Parse a wire request into the operation it names.
pub fn parse_instruction(data: &[u8]) -> (r: Result<TestudoBondsInstruction, TestudoBondsError>)
    ensures
        r == instruction_check(data@),
{
    let n = data.len();
    if n == 0 {
        return Err(TestudoBondsError::DeserializationError);
    }
    let discriminator = *vstd::slice::slice_index_get(data, 0);
    match discriminator {
        0 => Ok(TestudoBondsInstruction::InitializeAdmin),
        1 => Ok(TestudoBondsInstruction::CreateUser),
        2 => Ok(TestudoBondsInstruction::InitializeBond),
        3 => {
            let rest = vstd::slice::slice_subrange(data, 1, n);
            match decode_process_claim_payload(rest) {
                Ok(p) => {
                    proof {
                        assert(rest@ == data@.subrange(1, n as int));
                        assert(rest@.len() == 2);
                        assert(n == 3);
                        assert(rest@[0] == data@[1]);
                        assert(rest@[1] == data@[2]);
                        assert(data@[1] == p.bond_index);
                        assert(data@[2] == bool_byte(p.auto_compound));
                    }
                    Ok(
                        TestudoBondsInstruction::ProcessClaim {
                            bond_index: p.bond_index,
                            auto_compound: p.auto_compound,
                        },
                    )
                },
                Err(e) => {
                    proof {
                        if data@.len() == 3 && (data@[2] == 0 || data@[2] == 1) {
                            let w = ProcessClaimPayload {
                                bond_index: data@[1],
                                auto_compound: data@[2] == 1,
                            };
                            assert(process_claim_payload_bytes(w) =~= rest@);
                        }
                    }
                    Err(e)
                },
            }
        },
        4 => Ok(TestudoBondsInstruction::UpdateAdmin),
        _ => Err(TestudoBondsError::DeserializationError),
    }
}

} // verus!
