//! The canonical message that the administrator signs for a ticket.

use vstd::bytes::*;
use vstd::prelude::*;

verus! {

/// Length of a beneficiary, administrator or program identity.
pub const IDENTITY_LEN: usize = 32;

/// Length of the canonical ticket message: identity, amount, nonce, expiry.
pub const TICKET_MESSAGE_LEN: usize = 56;

/// The eight bytes that stand for a signed timestamp: its two's complement.
pub open spec fn timestamp_bits(t: i64) -> u64 {
    t as u64
}

/// The message signed for a ticket:
/// `user (32) || amount (8, LE) || nonce (8, LE) || expiry (8, LE)`.
pub open spec fn ticket_message(user: Seq<u8>, amount: u64, nonce: u64, expiry: i64) -> Seq<u8> {
    user + spec_u64_to_le_bytes(amount) + spec_u64_to_le_bytes(nonce) + spec_u64_to_le_bytes(
        timestamp_bits(expiry),
    )
}

/// Builds the canonical message of a ticket.
pub fn build_ticket_message(user: &[u8; 32], amount: u64, nonce: u64, expiry: i64) -> (message:
    Vec<u8>)
    ensures
        message@ == ticket_message(user@, amount, nonce, expiry),
        message@.len() == TICKET_MESSAGE_LEN,
{
    let amount_bytes = u64_to_le_bytes(amount);
    let nonce_bytes = u64_to_le_bytes(nonce);
    let expiry_bytes = u64_to_le_bytes(expiry as u64);
    let mut message: Vec<u8> = Vec::with_capacity(TICKET_MESSAGE_LEN);
    message.extend_from_slice(user.as_slice());
    message.extend_from_slice(amount_bytes.as_slice());
    message.extend_from_slice(nonce_bytes.as_slice());
    message.extend_from_slice(expiry_bytes.as_slice());
    message
}

/// The eight little-endian bytes of a number are its digits in base 256,
/// the lowest first.
pub proof fn le_bytes_are_base_256_digits(x: u64)
    ensures
        spec_u64_to_le_bytes(x).len() == 8,
        spec_u64_to_le_bytes(x)[0] == x % 0x100,
        spec_u64_to_le_bytes(x)[1] == (x / 0x100) % 0x100,
        spec_u64_to_le_bytes(x)[2] == (x / 0x1_0000) % 0x100,
        spec_u64_to_le_bytes(x)[3] == (x / 0x100_0000) % 0x100,
        spec_u64_to_le_bytes(x)[4] == (x / 0x1_0000_0000) % 0x100,
        spec_u64_to_le_bytes(x)[5] == (x / 0x100_0000_0000) % 0x100,
        spec_u64_to_le_bytes(x)[6] == (x / 0x1_0000_0000_0000) % 0x100,
        spec_u64_to_le_bytes(x)[7] == (x / 0x100_0000_0000_0000) % 0x100,
{
    spec_u64_to_le_bytes_to_open(x);
    assert({
        &&& x & 0xff == x % 0x100
        &&& (x >> 8) & 0xff == (x / 0x100) % 0x100
        &&& (x >> 16) & 0xff == (x / 0x1_0000) % 0x100
        &&& (x >> 24) & 0xff == (x / 0x100_0000) % 0x100
        &&& (x >> 32) & 0xff == (x / 0x1_0000_0000) % 0x100
        &&& (x >> 40) & 0xff == (x / 0x100_0000_0000) % 0x100
        &&& (x >> 48) & 0xff == (x / 0x1_0000_0000_0000) % 0x100
        &&& (x >> 56) & 0xff == (x / 0x100_0000_0000_0000) % 0x100
    }) by (bit_vector);
}

/// The bits of a timestamp are the timestamp itself where it is not
/// negative, and the timestamp plus 2^64 where it is.
pub proof fn timestamp_bits_are_twos_complement(t: i64)
    ensures
        t >= 0 ==> timestamp_bits(t) == t,
        t < 0 ==> timestamp_bits(t) == t + 0x1_0000_0000_0000_0000,
{
    assert(t >= 0 ==> t as u64 == t) by (bit_vector);
    assert(t < 0 ==> t as u64 == t + 0x1_0000_0000_0000_0000) by (bit_vector);
}

/// The canonical message has a fixed layout: the identity in its first 32
/// bytes, then amount, nonce and expiry in 8 bytes each.
pub proof fn ticket_message_layout(user: Seq<u8>, amount: u64, nonce: u64, expiry: i64)
    requires
        user.len() == IDENTITY_LEN,
    ensures
        ticket_message(user, amount, nonce, expiry).len() == TICKET_MESSAGE_LEN,
        ticket_message(user, amount, nonce, expiry).subrange(0, 32) == user,
        ticket_message(user, amount, nonce, expiry).subrange(32, 40) == spec_u64_to_le_bytes(
            amount,
        ),
        ticket_message(user, amount, nonce, expiry).subrange(40, 48) == spec_u64_to_le_bytes(nonce),
        ticket_message(user, amount, nonce, expiry).subrange(48, 56) == spec_u64_to_le_bytes(
            timestamp_bits(expiry),
        ),
{
    lemma_auto_spec_u64_to_from_le_bytes();
    let message = ticket_message(user, amount, nonce, expiry);
    assert(message.subrange(0, 32) =~= user);
    assert(message.subrange(32, 40) =~= spec_u64_to_le_bytes(amount));
    assert(message.subrange(40, 48) =~= spec_u64_to_le_bytes(nonce));
    assert(message.subrange(48, 56) =~= spec_u64_to_le_bytes(timestamp_bits(expiry)));
}

/// Two tickets with the same canonical message are the same ticket: the
/// message tells the beneficiary, the amount, the nonce and the expiry.
pub proof fn ticket_message_is_injective(
    user: Seq<u8>,
    amount: u64,
    nonce: u64,
    expiry: i64,
    other_user: Seq<u8>,
    other_amount: u64,
    other_nonce: u64,
    other_expiry: i64,
)
    requires
        user.len() == IDENTITY_LEN,
        other_user.len() == IDENTITY_LEN,
        ticket_message(user, amount, nonce, expiry) == ticket_message(
            other_user,
            other_amount,
            other_nonce,
            other_expiry,
        ),
    ensures
        other_user == user,
        other_amount == amount,
        other_nonce == nonce,
        other_expiry == expiry,
{
    ticket_message_layout(user, amount, nonce, expiry);
    ticket_message_layout(other_user, other_amount, other_nonce, other_expiry);
    lemma_auto_spec_u64_to_from_le_bytes();
    assert(spec_u64_from_le_bytes(spec_u64_to_le_bytes(amount)) == amount);
    assert(spec_u64_from_le_bytes(spec_u64_to_le_bytes(other_amount)) == other_amount);
    assert(spec_u64_from_le_bytes(spec_u64_to_le_bytes(nonce)) == nonce);
    assert(spec_u64_from_le_bytes(spec_u64_to_le_bytes(other_nonce)) == other_nonce);
    let bits = timestamp_bits(expiry);
    let other_bits = timestamp_bits(other_expiry);
    assert(spec_u64_from_le_bytes(spec_u64_to_le_bytes(bits)) == bits);
    assert(spec_u64_from_le_bytes(spec_u64_to_le_bytes(other_bits)) == other_bits);
    assert(expiry as u64 == other_expiry as u64 ==> expiry == other_expiry) by (bit_vector);
}

} // verus!
