use anchor_lang::prelude::{AccountInfo, Pubkey};
use anchor_lang::solana_program::sysvar::instructions::{
    construct_instructions_data, get_instruction_relative, BorrowedInstruction,
};
use ratio_emissions::error::EmissionsError;
use ratio_emissions::introspection::{
    load_preceding_instruction, verify_admin_signature, verify_companion_instruction,
    CompanionInstruction, InstructionsSysvar, ED25519_PROGRAM_ID, INSTRUCTIONS_SYSVAR_ID,
};

const ADMIN: [u8; 32] = [0x11; 32];
const SIGNATURE: [u8; 64] = [0x22; 64];
const MESSAGE: [u8; 4] = [9, 8, 7, 6];

fn payload(pubkey: &[u8; 32], signature: &[u8; 64], message: &[u8]) -> Vec<u8> {
    let mut data = vec![1u8, 0];
    data.extend_from_slice(&48u16.to_le_bytes());
    data.extend_from_slice(&u16::MAX.to_le_bytes());
    data.extend_from_slice(&16u16.to_le_bytes());
    data.extend_from_slice(&u16::MAX.to_le_bytes());
    data.extend_from_slice(&112u16.to_le_bytes());
    data.extend_from_slice(&(message.len() as u16).to_le_bytes());
    data.extend_from_slice(&u16::MAX.to_le_bytes());
    data.extend_from_slice(pubkey);
    data.extend_from_slice(signature);
    data.extend_from_slice(message);
    data
}

/// The sysvar's data for a transaction of these instructions (program
/// identity and payload each), while the one at `current` runs.
fn sysvar_of(instructions: &[([u8; 32], Vec<u8>)], current: u16) -> InstructionsSysvar {
    let program_ids: Vec<Pubkey> =
        instructions.iter().map(|(id, _)| Pubkey::new_from_array(*id)).collect();
    let borrowed: Vec<BorrowedInstruction> = instructions
        .iter()
        .zip(program_ids.iter())
        .map(|((_, data), program_id)| BorrowedInstruction {
            program_id,
            accounts: vec![],
            data,
        })
        .collect();
    let mut data = construct_instructions_data(&borrowed);
    let len = data.len();
    data[len - 2..].copy_from_slice(&current.to_le_bytes());
    InstructionsSysvar { key: INSTRUCTIONS_SYSVAR_ID, data }
}

#[test]
fn identities_are_those_of_the_runtime() {
    assert_eq!(
        ED25519_PROGRAM_ID,
        anchor_lang::solana_program::ed25519_program::ID.to_bytes()
    );
    assert_eq!(
        INSTRUCTIONS_SYSVAR_ID,
        anchor_lang::solana_program::sysvar::instructions::ID.to_bytes()
    );
    assert_eq!(
        Pubkey::new_from_array(ED25519_PROGRAM_ID).to_string(),
        "Ed25519SigVerify111111111111111111111111111"
    );
    assert_eq!(
        Pubkey::new_from_array(INSTRUCTIONS_SYSVAR_ID).to_string(),
        "Sysvar1nstructions1111111111111111111111111"
    );
}

#[test]
fn preceding_instruction_is_the_one_before_the_current() {
    let sysvar = sysvar_of(
        &[
            ([1; 32], vec![10]),
            ([2; 32], vec![20, 21]),
            ([3; 32], vec![30, 31, 32]),
        ],
        2,
    );
    assert_eq!(
        load_preceding_instruction(&sysvar),
        Some(CompanionInstruction { program_id: [2; 32], data: vec![20, 21] })
    );
    let sysvar = sysvar_of(&[([1; 32], vec![10]), ([2; 32], vec![20, 21])], 1);
    assert_eq!(
        load_preceding_instruction(&sysvar),
        Some(CompanionInstruction { program_id: [1; 32], data: vec![10] })
    );
}

#[test]
fn first_instruction_has_no_predecessor() {
    let sysvar = sysvar_of(&[([1; 32], vec![10]), ([2; 32], vec![20])], 0);
    assert_eq!(load_preceding_instruction(&sysvar), None);
}

#[test]
fn index_past_the_transaction_has_no_predecessor() {
    let sysvar = sysvar_of(&[([1; 32], vec![10]), ([2; 32], vec![20])], 3);
    assert_eq!(load_preceding_instruction(&sysvar), None);
    let sysvar = sysvar_of(&[([1; 32], vec![10]), ([2; 32], vec![20])], u16::MAX);
    assert_eq!(load_preceding_instruction(&sysvar), None);
}

#[test]
fn another_account_is_not_the_sysvar() {
    let mut sysvar = sysvar_of(&[([1; 32], vec![10]), ([2; 32], vec![20])], 1);
    assert!(load_preceding_instruction(&sysvar).is_some());
    sysvar.key[0] ^= 1;
    assert_eq!(load_preceding_instruction(&sysvar), None);
    sysvar.key = [0; 32];
    assert_eq!(load_preceding_instruction(&sysvar), None);
}

#[test]
fn short_or_malformed_sysvar_data_gives_no_instruction() {
    for data in [vec![], vec![1], vec![1, 0], vec![0, 0, 1, 0], vec![5, 0, 1, 0]] {
        let sysvar = InstructionsSysvar { key: INSTRUCTIONS_SYSVAR_ID, data };
        assert_eq!(load_preceding_instruction(&sysvar), None);
    }
    let mut sysvar = sysvar_of(&[([1; 32], vec![10; 40]), ([2; 32], vec![20])], 1);
    // Cut the data inside the first instruction, and keep the index at 1.
    sysvar.data.truncate(30);
    let len = sysvar.data.len();
    sysvar.data[len - 2..].copy_from_slice(&1u16.to_le_bytes());
    assert_eq!(load_preceding_instruction(&sysvar), None);
}

#[test]
fn companion_must_exist() {
    assert_eq!(
        verify_companion_instruction(&None, &ADMIN, &MESSAGE, &SIGNATURE),
        Err(EmissionsError::InvalidSignature)
    );
}

#[test]
fn companion_must_be_the_ed25519_program() {
    let data = payload(&ADMIN, &SIGNATURE, &MESSAGE);
    let good = CompanionInstruction { program_id: ED25519_PROGRAM_ID, data: data.clone() };
    assert_eq!(verify_companion_instruction(&Some(good), &ADMIN, &MESSAGE, &SIGNATURE), Ok(()));
    let mut other_program = ED25519_PROGRAM_ID;
    other_program[31] = 1;
    for program_id in [other_program, [0; 32], INSTRUCTIONS_SYSVAR_ID] {
        let bad = CompanionInstruction { program_id, data: data.clone() };
        assert_eq!(
            verify_companion_instruction(&Some(bad), &ADMIN, &MESSAGE, &SIGNATURE),
            Err(EmissionsError::InvalidSignature)
        );
    }
}

#[test]
fn companion_payload_must_match() {
    let data = payload(&ADMIN, &SIGNATURE, &MESSAGE);
    let companion = Some(CompanionInstruction { program_id: ED25519_PROGRAM_ID, data });
    assert_eq!(
        verify_companion_instruction(&companion, &[0x12; 32], &MESSAGE, &SIGNATURE),
        Err(EmissionsError::InvalidSignature)
    );
    assert_eq!(
        verify_companion_instruction(&companion, &ADMIN, &[9, 8, 7, 7], &SIGNATURE),
        Err(EmissionsError::InvalidSignature)
    );
    assert_eq!(
        verify_companion_instruction(&companion, &ADMIN, &MESSAGE, &[0x23; 64]),
        Err(EmissionsError::InvalidSignature)
    );
}

#[test]
fn admin_signature_is_found_in_the_preceding_instruction() {
    let sysvar = sysvar_of(
        &[(ED25519_PROGRAM_ID, payload(&ADMIN, &SIGNATURE, &MESSAGE)), ([7; 32], vec![1, 2, 3])],
        1,
    );
    assert_eq!(verify_admin_signature(&sysvar, &ADMIN, &MESSAGE, &SIGNATURE), Ok(()));
}

#[test]
fn admin_signature_must_come_immediately_before() {
    // The verification is two instructions back: not accepted.
    let sysvar = sysvar_of(
        &[
            (ED25519_PROGRAM_ID, payload(&ADMIN, &SIGNATURE, &MESSAGE)),
            ([8; 32], vec![]),
            ([7; 32], vec![1, 2, 3]),
        ],
        2,
    );
    assert_eq!(
        verify_admin_signature(&sysvar, &ADMIN, &MESSAGE, &SIGNATURE),
        Err(EmissionsError::InvalidSignature)
    );
    // The verification follows the claim: not accepted.
    let sysvar = sysvar_of(
        &[([7; 32], vec![1, 2, 3]), (ED25519_PROGRAM_ID, payload(&ADMIN, &SIGNATURE, &MESSAGE))],
        0,
    );
    assert_eq!(
        verify_admin_signature(&sysvar, &ADMIN, &MESSAGE, &SIGNATURE),
        Err(EmissionsError::InvalidSignature)
    );
}

#[test]
fn admin_signature_from_another_program_is_rejected() {
    let sysvar = sysvar_of(
        &[([5; 32], payload(&ADMIN, &SIGNATURE, &MESSAGE)), ([7; 32], vec![1, 2, 3])],
        1,
    );
    assert_eq!(
        verify_admin_signature(&sysvar, &ADMIN, &MESSAGE, &SIGNATURE),
        Err(EmissionsError::InvalidSignature)
    );
}

#[test]
fn admin_signature_from_a_forged_sysvar_is_rejected() {
    let mut sysvar = sysvar_of(
        &[(ED25519_PROGRAM_ID, payload(&ADMIN, &SIGNATURE, &MESSAGE)), ([7; 32], vec![1, 2, 3])],
        1,
    );
    sysvar.key = [9; 32];
    assert_eq!(
        verify_admin_signature(&sysvar, &ADMIN, &MESSAGE, &SIGNATURE),
        Err(EmissionsError::InvalidSignature)
    );
}

#[test]
fn preceding_instruction_agrees_with_the_relative_lookup() {
    let instructions = [
        ([1u8; 32], vec![10u8]),
        ([2; 32], vec![]),
        (ED25519_PROGRAM_ID, payload(&ADMIN, &SIGNATURE, &MESSAGE)),
        ([4; 32], vec![40; 300]),
    ];
    for current in 0u16..6 {
        let sysvar = sysvar_of(&instructions, current);
        let key = Pubkey::new_from_array(sysvar.key);
        let mut lamports = 0u64;
        let mut data = sysvar.data.clone();
        let info = AccountInfo::new(&key, false, false, &mut lamports, &mut data, &key, false, 0);
        let expected = get_instruction_relative(-1, &info).ok().map(|ix| CompanionInstruction {
            program_id: ix.program_id.to_bytes(),
            data: ix.data,
        });
        assert_eq!(load_preceding_instruction(&sysvar), expected);
        assert_eq!(expected.is_some(), (1..=4).contains(&current));
    }
}
