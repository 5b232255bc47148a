//! The payload of an Ed25519 signature-verification instruction.
//!
//! Layout of the payload, all numbers little-endian:
//!
//! | bytes  | field                                  |
//! |--------|----------------------------------------|
//! | 0      | number of signatures (must be 1)       |
//! | 1      | padding                                |
//! | 2..4   | signature offset                       |
//! | 4..6   | signature instruction index            |
//! | 6..8   | public key offset                      |
//! | 8..10  | public key instruction index           |
//! | 10..12 | message offset                         |
//! | 12..14 | message size                           |
//! | 14..16 | message instruction index              |
//!
//! The offsets locate the signature (64 bytes), the public key (32 bytes)
//! and the message inside the same payload. The instruction indices are not
//! read.

use crate::bytes::{bytes_equal, flip_bit, flip_bit_differs, le_u16, u16_from_le};
use crate::error::EmissionsError;
use vstd::prelude::*;

verus! {

/// Length of an Ed25519 signature.
pub const SIGNATURE_LEN: usize = 64;

/// Length of an Ed25519 public key.
pub const PUBLIC_KEY_LEN: usize = 32;

/// Length of the count, the padding and one signature descriptor.
pub const HEADER_LEN: usize = 16;

/// Where the payload says its signature starts.
pub open spec fn signature_offset(data: Seq<u8>) -> int {
    le_u16(data[2], data[3])
}

/// Where the payload says its public key starts.
pub open spec fn public_key_offset(data: Seq<u8>) -> int {
    le_u16(data[6], data[7])
}

/// Where the payload says its message starts.
pub open spec fn message_offset(data: Seq<u8>) -> int {
    le_u16(data[10], data[11])
}

/// How long the payload says its message is.
pub open spec fn message_size(data: Seq<u8>) -> int {
    le_u16(data[12], data[13])
}

/// A payload is well formed when it holds a whole header, announces exactly
/// one signature, and its signature, public key and message all lie inside it.
pub open spec fn well_formed(data: Seq<u8>) -> bool {
    &&& data.len() >= HEADER_LEN
    &&& data[0] == 1
    &&& signature_offset(data) + SIGNATURE_LEN <= data.len()
    &&& public_key_offset(data) + PUBLIC_KEY_LEN <= data.len()
    &&& message_offset(data) + message_size(data) <= data.len()
}

/// The signature that a well-formed payload carries.
pub open spec fn embedded_signature(data: Seq<u8>) -> Seq<u8> {
    data.subrange(signature_offset(data), signature_offset(data) + SIGNATURE_LEN)
}

/// The public key that a well-formed payload carries.
pub open spec fn embedded_public_key(data: Seq<u8>) -> Seq<u8> {
    data.subrange(public_key_offset(data), public_key_offset(data) + PUBLIC_KEY_LEN)
}

/// The message that a well-formed payload carries.
pub open spec fn embedded_message(data: Seq<u8>) -> Seq<u8> {
    data.subrange(message_offset(data), message_offset(data) + message_size(data))
}

/// A payload vouches for a key, a message and a signature when it is well
/// formed and carries exactly these three.
pub open spec fn vouches_for(
    data: Seq<u8>,
    public_key: Seq<u8>,
    message: Seq<u8>,
    signature: Seq<u8>,
) -> bool {
    &&& well_formed(data)
    &&& embedded_signature(data) == signature
    &&& embedded_public_key(data) == public_key
    &&& embedded_message(data) == message
}

/// The signature, public key and message of one payload, borrowed from it.
#[derive(Clone, Copy, Debug)]
pub struct SignatureProof<'a> {
    /// The 64 bytes of the signature.
    pub signature: &'a [u8],
    /// The 32 bytes of the public key.
    pub public_key: &'a [u8],
    /// The message, of the length that the payload gives.
    pub message: &'a [u8],
}

/// Locates the signature, the public key and the message in a payload.
///
/// Fails with `InvalidSignature` on a payload that is not well formed, and
/// never reads outside the payload.
pub fn parse_ed25519_ix_data<'a>(data: &'a [u8]) -> (parsed: Result<
    SignatureProof<'a>,
    EmissionsError,
>)
    ensures
        parsed is Ok <==> well_formed(data@),
        parsed matches Ok(found) ==> found.signature@ == embedded_signature(data@),
        parsed matches Ok(found) ==> found.public_key@ == embedded_public_key(data@),
        parsed matches Ok(found) ==> found.message@ == embedded_message(data@),
        parsed matches Err(e) ==> e == EmissionsError::InvalidSignature,
        data@.len() < HEADER_LEN ==> parsed matches Err(EmissionsError::InvalidSignature),
        data@.len() > 0 && data@[0] != 1 ==> parsed matches Err(EmissionsError::InvalidSignature),
        data@.len() >= HEADER_LEN && signature_offset(data@) + SIGNATURE_LEN > data@.len()
            ==> parsed matches Err(EmissionsError::InvalidSignature),
        data@.len() >= HEADER_LEN && public_key_offset(data@) + PUBLIC_KEY_LEN > data@.len()
            ==> parsed matches Err(EmissionsError::InvalidSignature),
        data@.len() >= HEADER_LEN && message_offset(data@) + message_size(data@) > data@.len()
            ==> parsed matches Err(EmissionsError::InvalidSignature),
{
    if data.len() < HEADER_LEN {
        return Err(EmissionsError::InvalidSignature);
    }
    let num_signatures: u8 = data[0];
    if num_signatures != 1 {
        return Err(EmissionsError::InvalidSignature);
    }
    let sig_offset: usize = u16_from_le(data[2], data[3]) as usize;
    let pubkey_offset: usize = u16_from_le(data[6], data[7]) as usize;
    let msg_offset: usize = u16_from_le(data[10], data[11]) as usize;
    let msg_size: usize = u16_from_le(data[12], data[13]) as usize;

    if sig_offset + SIGNATURE_LEN > data.len() {
        return Err(EmissionsError::InvalidSignature);
    }
    if pubkey_offset + PUBLIC_KEY_LEN > data.len() {
        return Err(EmissionsError::InvalidSignature);
    }
    if msg_offset + msg_size > data.len() {
        return Err(EmissionsError::InvalidSignature);
    }
    Ok(
        SignatureProof {
            signature: &data[sig_offset..sig_offset + SIGNATURE_LEN],
            public_key: &data[pubkey_offset..pubkey_offset + PUBLIC_KEY_LEN],
            message: &data[msg_offset..msg_offset + msg_size],
        },
    )
}

/// Checks that a payload vouches for the expected key, message and
/// signature: all three must equal what the payload carries, byte for byte.
pub fn verify_ed25519_ix_data(
    data: &[u8],
    expected_pubkey: &[u8; 32],
    expected_message: &[u8],
    expected_signature: &[u8; 64],
) -> (verdict: Result<(), EmissionsError>)
    ensures
        verdict == (if vouches_for(
            data@,
            expected_pubkey@,
            expected_message@,
            expected_signature@,
        ) {
            Ok(())
        } else {
            Err(EmissionsError::InvalidSignature)
        }),
        data@.len() < HEADER_LEN ==> verdict matches Err(EmissionsError::InvalidSignature),
        data@.len() > 0 && data@[0] != 1 ==> verdict matches Err(EmissionsError::InvalidSignature),
        data@.len() >= HEADER_LEN && signature_offset(data@) + SIGNATURE_LEN > data@.len()
            ==> verdict matches Err(EmissionsError::InvalidSignature),
        data@.len() >= HEADER_LEN && public_key_offset(data@) + PUBLIC_KEY_LEN > data@.len()
            ==> verdict matches Err(EmissionsError::InvalidSignature),
        data@.len() >= HEADER_LEN && message_offset(data@) + message_size(data@) > data@.len()
            ==> verdict matches Err(EmissionsError::InvalidSignature),
{
    let found = match parse_ed25519_ix_data(data) {
        Ok(found) => found,
        Err(e) => {
            return Err(e);
        },
    };
    if !bytes_equal(found.signature, expected_signature.as_slice()) {
        return Err(EmissionsError::InvalidSignature);
    }
    if !bytes_equal(found.public_key, expected_pubkey.as_slice()) {
        return Err(EmissionsError::InvalidSignature);
    }
    if !bytes_equal(found.message, expected_message) {
        return Err(EmissionsError::InvalidSignature);
    }
    Ok(())
}

/// A payload vouches for one key, one message and one signature only.
pub proof fn vouches_for_one_triple(
    data: Seq<u8>,
    public_key: Seq<u8>,
    message: Seq<u8>,
    signature: Seq<u8>,
    other_public_key: Seq<u8>,
    other_message: Seq<u8>,
    other_signature: Seq<u8>,
)
    requires
        vouches_for(data, public_key, message, signature),
        vouches_for(data, other_public_key, other_message, other_signature),
    ensures
        other_public_key == public_key,
        other_message == message,
        other_signature == signature,
{
}

/// Once a single bit of the expected signature, public key or message is
/// flipped, a payload that vouched for them no longer does.
pub proof fn flipped_expectation_is_rejected(
    data: Seq<u8>,
    public_key: Seq<u8>,
    message: Seq<u8>,
    signature: Seq<u8>,
    index: int,
    bit: u8,
)
    requires
        vouches_for(data, public_key, message, signature),
        0 <= index,
        bit < 8,
    ensures
        index < signature.len() ==> !vouches_for(
            data,
            public_key,
            message,
            flip_bit(signature, index, bit),
        ),
        index < public_key.len() ==> !vouches_for(
            data,
            flip_bit(public_key, index, bit),
            message,
            signature,
        ),
        index < message.len() ==> !vouches_for(
            data,
            public_key,
            flip_bit(message, index, bit),
            signature,
        ),
{
    if index < signature.len() {
        flip_bit_differs(signature, index, bit);
    }
    if index < public_key.len() {
        flip_bit_differs(public_key, index, bit);
    }
    if index < message.len() {
        flip_bit_differs(message, index, bit);
    }
}

/// Whether a position of the payload is one of the header bytes that are
/// read: the count, the three offsets and the message size.
pub open spec fn is_layout_byte(index: int) -> bool {
    index == 0 || index == 2 || index == 3 || index == 6 || index == 7 || 10 <= index <= 13
}

/// Whether a position of the payload lies inside the signature, the public
/// key or the message that the payload carries.
pub open spec fn is_embedded_byte(data: Seq<u8>, index: int) -> bool {
    ||| signature_offset(data) <= index < signature_offset(data) + SIGNATURE_LEN
    ||| public_key_offset(data) <= index < public_key_offset(data) + PUBLIC_KEY_LEN
    ||| message_offset(data) <= index < message_offset(data) + message_size(data)
}

/// Once a single bit of the signature, public key or message inside a
/// payload is flipped, while the bytes that lay the payload out stay as
/// they are, the payload no longer vouches for what it vouched for.
pub proof fn flipped_payload_is_rejected(
    data: Seq<u8>,
    public_key: Seq<u8>,
    message: Seq<u8>,
    signature: Seq<u8>,
    index: int,
    bit: u8,
)
    requires
        vouches_for(data, public_key, message, signature),
        0 <= index < data.len(),
        is_embedded_byte(data, index),
        !is_layout_byte(index),
        bit < 8,
    ensures
        !vouches_for(flip_bit(data, index, bit), public_key, message, signature),
{
    let flipped = flip_bit(data, index, bit);
    flip_bit_differs(data, index, bit);
    assert(signature_offset(flipped) == signature_offset(data));
    assert(public_key_offset(flipped) == public_key_offset(data));
    assert(message_offset(flipped) == message_offset(data));
    assert(message_size(flipped) == message_size(data));
    if signature_offset(data) <= index < signature_offset(data) + SIGNATURE_LEN {
        let at = index - signature_offset(data);
        assert(embedded_signature(flipped)[at] == flipped[index]);
        assert(embedded_signature(data)[at] == data[index]);
    } else if public_key_offset(data) <= index < public_key_offset(data) + PUBLIC_KEY_LEN {
        let at = index - public_key_offset(data);
        assert(embedded_public_key(flipped)[at] == flipped[index]);
        assert(embedded_public_key(data)[at] == data[index]);
    } else {
        let at = index - message_offset(data);
        assert(embedded_message(flipped)[at] == flipped[index]);
        assert(embedded_message(data)[at] == data[index]);
    }
}

} // verus!
