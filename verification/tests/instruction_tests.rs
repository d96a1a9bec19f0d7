use testudo_bonds::codec::encode_admin;
use testudo_bonds::error::TestudoBondsError;
use testudo_bonds::instruction::decode_process_claim_payload;
use testudo_bonds::instruction::decode_update_admin_payload;
use testudo_bonds::instruction::encode_process_claim_payload;
use testudo_bonds::instruction::parse_instruction;
use testudo_bonds::instruction::ProcessClaimPayload;
use testudo_bonds::instruction::TestudoBondsInstruction;
use testudo_bonds::keys::Pubkey;
use testudo_bonds::state::Admin;

#[test]
fn empty_request_rejected() {
    assert_eq!(
        parse_instruction(&[]),
        Err(TestudoBondsError::DeserializationError)
    );
}

#[test]
fn plain_discriminants_parse() {
    assert_eq!(
        parse_instruction(&[0]),
        Ok(TestudoBondsInstruction::InitializeAdmin)
    );
    assert_eq!(
        parse_instruction(&[1]),
        Ok(TestudoBondsInstruction::CreateUser)
    );
    assert_eq!(
        parse_instruction(&[2]),
        Ok(TestudoBondsInstruction::InitializeBond)
    );
    assert_eq!(
        parse_instruction(&[4]),
        Ok(TestudoBondsInstruction::UpdateAdmin)
    );
}

#[test]
fn claim_request_parses_payload() {
    assert_eq!(
        parse_instruction(&[3, 7, 1]),
        Ok(TestudoBondsInstruction::ProcessClaim {
            bond_index: 7,
            auto_compound: true,
        })
    );
    assert_eq!(
        parse_instruction(&[3, 0, 0]),
        Ok(TestudoBondsInstruction::ProcessClaim {
            bond_index: 0,
            auto_compound: false,
        })
    );
}

#[test]
fn malformed_claim_payload_rejected() {
    assert_eq!(
        parse_instruction(&[3, 7]),
        Err(TestudoBondsError::DeserializationError)
    );
    assert_eq!(
        parse_instruction(&[3, 7, 2]),
        Err(TestudoBondsError::DeserializationError)
    );
    assert_eq!(
        parse_instruction(&[3, 7, 1, 0]),
        Err(TestudoBondsError::DeserializationError)
    );
}

#[test]
fn unknown_discriminant_rejected() {
    assert_eq!(
        parse_instruction(&[9]),
        Err(TestudoBondsError::DeserializationError)
    );
}

#[test]
fn claim_payload_round_trip() {
    let p = ProcessClaimPayload {
        bond_index: 4,
        auto_compound: true,
    };
    let bytes = encode_process_claim_payload(&p);
    assert_eq!(bytes, vec![4, 1]);
    assert_eq!(decode_process_claim_payload(&bytes), Ok(p));
}

#[test]
fn update_admin_payload_round_trip() {
    let a = Admin {
        authority: Pubkey { bytes: [1; 32] },
        treasury: Pubkey { bytes: [2; 32] },
        team: Pubkey { bytes: [3; 32] },
        rewards_pool: Pubkey { bytes: [4; 32] },
        native_token_mint: Pubkey { bytes: [5; 32] },
        daily_emission_rate: 55_000_000,
        max_emission_per_bond: 20_000_000_000,
        max_bonds_per_wallet: 10,
        token_deposit_split: [4_000, 4_000, 2_000],
        claim_penalty: 500,
        pause_bond_operations: true,
    };
    let bytes = encode_admin(&a);
    let p = decode_update_admin_payload(&bytes).unwrap();
    assert_eq!(p.new_admin_data.authority.bytes, [1; 32]);
    assert_eq!(p.new_admin_data.claim_penalty, 500);
    assert!(p.new_admin_data.pause_bond_operations);
}

#[test]
fn update_admin_payload_garbage_rejected() {
    assert_eq!(
        decode_update_admin_payload(&[1, 2, 3]).unwrap_err(),
        TestudoBondsError::DeserializationError
    );
}
