use ratio_emissions::bytes::{bytes_equal, u16_from_le};
use ratio_emissions::ticket::{build_ticket_message, IDENTITY_LEN, TICKET_MESSAGE_LEN};

fn user() -> [u8; 32] {
    let mut user = [0u8; 32];
    for (i, byte) in user.iter_mut().enumerate() {
        *byte = 0xa0 + i as u8;
    }
    user
}

#[test]
fn message_is_user_then_three_little_endian_fields() {
    let message = build_ticket_message(&user(), 1000, 7, 1_700_003_600);
    let mut expected = user().to_vec();
    expected.extend_from_slice(&[0xe8, 0x03, 0, 0, 0, 0, 0, 0]);
    expected.extend_from_slice(&[7, 0, 0, 0, 0, 0, 0, 0]);
    expected.extend_from_slice(&[0x10, 0xff, 0x53, 0x65, 0, 0, 0, 0]);
    assert_eq!(message, expected);
}

#[test]
fn message_has_fixed_length() {
    assert_eq!(IDENTITY_LEN, 32);
    assert_eq!(TICKET_MESSAGE_LEN, 56);
    assert_eq!(build_ticket_message(&[0u8; 32], 0, 0, 0).len(), 56);
    assert_eq!(build_ticket_message(&[0xff; 32], u64::MAX, u64::MAX, i64::MAX).len(), 56);
    assert_eq!(build_ticket_message(&[0xff; 32], u64::MAX, u64::MAX, i64::MIN).len(), 56);
}

#[test]
fn message_matches_std_encoding() {
    let cases: [(u64, u64, i64); 5] = [
        (0, 0, 0),
        (1, 2, 3),
        (u64::MAX, 0x0102_0304_0506_0708, i64::MAX),
        (0x8000_0000_0000_0000, 255, -1),
        (256, 65_536, i64::MIN),
    ];
    for (amount, nonce, expiry) in cases {
        let mut expected = user().to_vec();
        expected.extend_from_slice(&amount.to_le_bytes());
        expected.extend_from_slice(&nonce.to_le_bytes());
        expected.extend_from_slice(&expiry.to_le_bytes());
        assert_eq!(build_ticket_message(&user(), amount, nonce, expiry), expected);
    }
}

#[test]
fn negative_expiry_is_twos_complement() {
    let message = build_ticket_message(&[0u8; 32], 0, 0, -2);
    assert_eq!(&message[48..], &[0xfe, 0xff, 0xff, 0xff, 0xff, 0xff, 0xff, 0xff]);
}

#[test]
fn every_field_changes_the_message() {
    let base = build_ticket_message(&user(), 1000, 7, 1_700_003_600);
    let mut other_user = user();
    other_user[31] ^= 1;
    assert_ne!(build_ticket_message(&other_user, 1000, 7, 1_700_003_600), base);
    assert_ne!(build_ticket_message(&user(), 1001, 7, 1_700_003_600), base);
    assert_ne!(build_ticket_message(&user(), 1000, 8, 1_700_003_600), base);
    assert_ne!(build_ticket_message(&user(), 1000, 7, 1_700_003_601), base);
    // Amount and nonce are not interchangeable.
    assert_ne!(
        build_ticket_message(&user(), 7, 1000, 1_700_003_600),
        build_ticket_message(&user(), 1000, 7, 1_700_003_600)
    );
}

#[test]
fn u16_from_le_reads_low_byte_first() {
    assert_eq!(u16_from_le(0, 0), 0);
    assert_eq!(u16_from_le(0x30, 0x00), 48);
    assert_eq!(u16_from_le(0x00, 0x01), 256);
    assert_eq!(u16_from_le(0x34, 0x12), 0x1234);
    assert_eq!(u16_from_le(0xff, 0xff), u16::MAX);
    for lo in [0u8, 1, 127, 128, 255] {
        for hi in [0u8, 1, 127, 128, 255] {
            assert_eq!(u16_from_le(lo, hi), u16::from_le_bytes([lo, hi]));
        }
    }
}

#[test]
fn bytes_equal_is_slice_equality() {
    assert!(bytes_equal(&[], &[]));
    assert!(bytes_equal(&[1, 2, 3], &[1, 2, 3]));
    assert!(!bytes_equal(&[1, 2, 3], &[1, 2, 4]));
    assert!(!bytes_equal(&[9, 2, 3], &[1, 2, 3]));
    assert!(!bytes_equal(&[1, 2, 3], &[1, 2]));
    assert!(!bytes_equal(&[1, 2], &[1, 2, 3]));
    assert!(!bytes_equal(&[], &[0]));
}
