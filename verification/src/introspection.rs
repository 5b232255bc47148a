//! The instructions of the transaction that is being executed.
//!
//! The runtime serialises every instruction of the transaction into the
//! data of the instructions sysvar account, followed by the index of the
//! instruction that is running. A claim finds there the instruction that
//! precedes it, which must be the Ed25519 signature verification.

use crate::bytes::{bytes_equal, flip_bit, flip_bit_differs, le_u16};
use crate::ed25519::{
    flipped_expectation_is_rejected, flipped_payload_is_rejected, is_embedded_byte,
    is_layout_byte, verify_ed25519_ix_data, vouches_for,
};
use crate::error::EmissionsError;
use anchor_lang::prelude::{AccountInfo, Pubkey};
use anchor_lang::solana_program::sysvar::instructions::{
    load_current_index_checked, load_instruction_at_checked,
};
use vstd::prelude::*;

verus! {

/// Identity of the Ed25519 signature-verification program,
/// `Ed25519SigVerify111111111111111111111111111`.
pub const ED25519_PROGRAM_ID: [u8; 32] = [
    3, 125, 70, 214, 124, 147, 251, 190, 18, 249, 66, 143, 131, 141, 64, 255,
    5, 112, 116, 73, 39, 244, 138, 100, 252, 202, 112, 68, 128, 0, 0, 0,
];

/// Identity of the instructions sysvar account,
/// `Sysvar1nstructions1111111111111111111111111`.
pub const INSTRUCTIONS_SYSVAR_ID: [u8; 32] = [
    6, 167, 213, 23, 24, 123, 209, 102, 53, 218, 212, 4, 85, 253, 194, 192,
    193, 36, 198, 143, 33, 86, 117, 165, 219, 186, 203, 95, 8, 0, 0, 0,
];

/// The account that is handed in as the instructions sysvar.
#[derive(Clone, Debug, PartialEq, Eq)]
pub struct InstructionsSysvar {
    /// The account's address.
    pub key: [u8; 32],
    /// The account's data.
    pub data: Vec<u8>,
}

/// One instruction of the transaction, as far as a claim reads it: the
/// program it is addressed to, and its payload.
#[derive(Clone, Debug, PartialEq, Eq)]
pub struct CompanionInstruction {
    /// The identity of the program that the instruction is addressed to.
    pub program_id: [u8; 32],
    /// The instruction's payload.
    pub data: Vec<u8>,
}

impl View for CompanionInstruction {
    type V = (Seq<u8>, Seq<u8>);

    /// The program identity and the payload, as byte strings.
    open spec fn view(&self) -> (Seq<u8>, Seq<u8>) {
        (self.program_id@, self.data@)
    }
}

/// The view of an instruction that may be absent.
pub open spec fn instruction_view(ix: Option<CompanionInstruction>) -> Option<(Seq<u8>, Seq<u8>)> {
    match ix {
        Some(ix) => Some(ix@),
        None => None,
    }
}

/// The index of the running instruction, which the last two bytes of the
/// sysvar's data hold. There is none unless the account is the instructions
/// sysvar and holds these two bytes.
pub open spec fn current_index(key: Seq<u8>, data: Seq<u8>) -> Option<u16> {
    if key == INSTRUCTIONS_SYSVAR_ID@ && data.len() >= 2 {
        Some(le_u16(data[data.len() - 2], data[data.len() - 1]) as u16)
    } else {
        None
    }
}

/// What `load_instruction_at_checked` finds at `index` in an account with
/// this address and data: the program identity and the payload of that
/// instruction, or `None` where the call fails.
pub uninterp spec fn instruction_at(index: usize, key: Seq<u8>, data: Seq<u8>) -> Option<
    (Seq<u8>, Seq<u8>),
>;

/// The instruction just before the running one, if there is one.
pub open spec fn preceding_instruction(key: Seq<u8>, data: Seq<u8>) -> Option<(Seq<u8>, Seq<u8>)> {
    match current_index(key, data) {
        Some(index) => if index > 0 {
            instruction_at((index - 1) as usize, key, data)
        } else {
            None
        },
        None => None,
    }
}

/// A companion instruction vouches for a key, a message and a signature
/// when it exists, is addressed to the Ed25519 program, and its payload
/// vouches for them.
pub open spec fn signed_by(
    companion: Option<(Seq<u8>, Seq<u8>)>,
    public_key: Seq<u8>,
    message: Seq<u8>,
    signature: Seq<u8>,
) -> bool {
    match companion {
        Some((program_id, data)) => program_id == ED25519_PROGRAM_ID@ && vouches_for(
            data,
            public_key,
            message,
            signature,
        ),
        None => false,
    }
}

/// Calls `load_current_index_checked` of the instructions sysvar module on
/// an account with this address and data.
///
/// Trusted: the call returns the last two bytes of the data as a
/// little-endian number where the address is that of the instructions
/// sysvar, and an error otherwise. It indexes the data without a length
/// check, so data of fewer than two bytes are excluded.
#[verifier::external_body]
fn load_current_index(sysvar: &InstructionsSysvar) -> (loaded: Option<u16>)
    requires
        sysvar.data@.len() >= 2,
    ensures
        loaded == current_index(sysvar.key@, sysvar.data@),
{
    let key = Pubkey::new_from_array(sysvar.key);
    let mut lamports: u64 = 0;
    let mut data = sysvar.data.clone();
    let info = AccountInfo::new(&key, false, false, &mut lamports, &mut data, &key, false, 0);
    load_current_index_checked(&info).ok()
}

/// Calls `load_instruction_at_checked` of the instructions sysvar module on
/// an account with this address and data.
///
/// Trusted: the result is a function of the index, the address and the
/// data alone, named `instruction_at`; every error of the call is `None`.
#[verifier::external_body]
fn load_instruction_at(index: usize, sysvar: &InstructionsSysvar) -> (loaded: Option<
    CompanionInstruction,
>)
    ensures
        instruction_view(loaded) == instruction_at(index, sysvar.key@, sysvar.data@),
{
    let key = Pubkey::new_from_array(sysvar.key);
    let mut lamports: u64 = 0;
    let mut data = sysvar.data.clone();
    let info = AccountInfo::new(&key, false, false, &mut lamports, &mut data, &key, false, 0);
    match load_instruction_at_checked(index, &info) {
        Ok(ix) => Some(
            CompanionInstruction { program_id: ix.program_id.to_bytes(), data: ix.data },
        ),
        Err(_) => None,
    }
}

/// Loads the instruction that precedes the running one.
pub fn load_preceding_instruction(sysvar: &InstructionsSysvar) -> (loaded: Option<
    CompanionInstruction,
>)
    ensures
        instruction_view(loaded) == preceding_instruction(sysvar.key@, sysvar.data@),
{
    if sysvar.data.len() < 2 {
        return None;
    }
    let current_ix_index: u16 = match load_current_index(sysvar) {
        Some(index) => index,
        None => {
            return None;
        },
    };
    if current_ix_index == 0 {
        return None;
    }
    let ed25519_ix_index: u16 = current_ix_index - 1;
    load_instruction_at(ed25519_ix_index as usize, sysvar)
}

/// Checks that the given companion instruction vouches for the expected
/// key, message and signature.
///
/// Fails with `InvalidSignature` where there is no companion instruction,
/// where it is addressed to another program than the Ed25519 program, and
/// where its payload does not vouch for all three.
pub fn verify_companion_instruction(
    companion: &Option<CompanionInstruction>,
    admin_pubkey: &[u8; 32],
    message: &[u8],
    signature: &[u8; 64],
) -> (verdict: Result<(), EmissionsError>)
    ensures
        verdict == (if signed_by(
            instruction_view(*companion),
            admin_pubkey@,
            message@,
            signature@,
        ) {
            Ok(())
        } else {
            Err(EmissionsError::InvalidSignature)
        }),
        *companion is None ==> verdict matches Err(EmissionsError::InvalidSignature),
        companion matches Some(ix) && ix.program_id@ != ED25519_PROGRAM_ID@ ==> verdict matches Err(
            EmissionsError::InvalidSignature,
        ),
{
    match companion {
        None => Err(EmissionsError::InvalidSignature),
        Some(ed25519_ix) => {
            if !bytes_equal(ed25519_ix.program_id.as_slice(), ED25519_PROGRAM_ID.as_slice()) {
                return Err(EmissionsError::InvalidSignature);
            }
            verify_ed25519_ix_data(ed25519_ix.data.as_slice(), admin_pubkey, message, signature)
        },
    }
}

/// Checks that the instruction just before the running one is an Ed25519
/// verification of the administrator's signature over the message.
pub fn verify_admin_signature(
    instructions_sysvar: &InstructionsSysvar,
    admin_pubkey: &[u8; 32],
    message: &[u8],
    signature: &[u8; 64],
) -> (verdict: Result<(), EmissionsError>)
    ensures
        verdict == (if signed_by(
            preceding_instruction(instructions_sysvar.key@, instructions_sysvar.data@),
            admin_pubkey@,
            message@,
            signature@,
        ) {
            Ok(())
        } else {
            Err(EmissionsError::InvalidSignature)
        }),
        current_index(instructions_sysvar.key@, instructions_sysvar.data@) is None
            ==> verdict matches Err(EmissionsError::InvalidSignature),
        current_index(instructions_sysvar.key@, instructions_sysvar.data@) == Some(0u16)
            ==> verdict matches Err(EmissionsError::InvalidSignature),
        preceding_instruction(instructions_sysvar.key@, instructions_sysvar.data@) matches Some(
            (program_id, _),
        ) && program_id != ED25519_PROGRAM_ID@ ==> verdict matches Err(
            EmissionsError::InvalidSignature,
        ),
{
    let companion = load_preceding_instruction(instructions_sysvar);
    verify_companion_instruction(&companion, admin_pubkey, message, signature)
}

/// A companion instruction stops vouching once a single bit is flipped in
/// the expected signature, in the expected public key or in the expected
/// message.
pub proof fn flipped_expectation_is_not_signed(
    companion: Option<(Seq<u8>, Seq<u8>)>,
    public_key: Seq<u8>,
    message: Seq<u8>,
    signature: Seq<u8>,
    index: int,
    bit: u8,
)
    requires
        signed_by(companion, public_key, message, signature),
        0 <= index,
        bit < 8,
    ensures
        index < signature.len() ==> !signed_by(
            companion,
            public_key,
            message,
            flip_bit(signature, index, bit),
        ),
        index < public_key.len() ==> !signed_by(
            companion,
            flip_bit(public_key, index, bit),
            message,
            signature,
        ),
        index < message.len() ==> !signed_by(
            companion,
            public_key,
            flip_bit(message, index, bit),
            signature,
        ),
{
    match companion {
        Some((_, data)) => {
            flipped_expectation_is_rejected(data, public_key, message, signature, index, bit);
        },
        None => {},
    }
}

/// A companion instruction stops vouching once a single bit is flipped in
/// its program identity, or in the signature, public key or message inside
/// its payload while the bytes that lay the payload out stay as they are.
pub proof fn flipped_companion_is_not_signed(
    program_id: Seq<u8>,
    data: Seq<u8>,
    public_key: Seq<u8>,
    message: Seq<u8>,
    signature: Seq<u8>,
    index: int,
    bit: u8,
)
    requires
        signed_by(Some((program_id, data)), public_key, message, signature),
        0 <= index,
        bit < 8,
    ensures
        index < program_id.len() ==> !signed_by(
            Some((flip_bit(program_id, index, bit), data)),
            public_key,
            message,
            signature,
        ),
        index < data.len() && is_embedded_byte(data, index) && !is_layout_byte(index)
            ==> !signed_by(
            Some((program_id, flip_bit(data, index, bit))),
            public_key,
            message,
            signature,
        ),
{
    if index < program_id.len() {
        flip_bit_differs(program_id, index, bit);
    }
    if index < data.len() && is_embedded_byte(data, index) && !is_layout_byte(index) {
        flipped_payload_is_rejected(data, public_key, message, signature, index, bit);
    }
}

} // verus!
