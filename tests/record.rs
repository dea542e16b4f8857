use craffles::{Raffle, RaffleError, RAFFLE_RECORD_LEN};

#[test]
fn record_layout() {
    let r = Raffle { creator: [1u8; 32], end_timestamp: -2, ticket_price: 0x0102, merkle_tree: [3u8; 32] };
    let b = r.to_bytes();
    assert_eq!(b.len(), RAFFLE_RECORD_LEN);
    assert_eq!(&b[0..32], &[1u8; 32]);
    assert_eq!(&b[32..40], &[0xfe, 0xff, 0xff, 0xff, 0xff, 0xff, 0xff, 0xff]);
    assert_eq!(&b[40..48], &[0x02, 0x01, 0, 0, 0, 0, 0, 0]);
    assert_eq!(&b[48..80], &[3u8; 32]);
}

#[test]
fn record_round_trip() {
    let r = Raffle { creator: [9u8; 32], end_timestamp: i64::MIN, ticket_price: u64::MAX, merkle_tree: [4u8; 32] };
    assert_eq!(Raffle::from_bytes(&r.to_bytes()), Ok(r));
    let mut longer = r.to_bytes();
    longer.extend_from_slice(&[7u8; 8]);
    assert_eq!(Raffle::from_bytes(&longer), Ok(r));
}

#[test]
fn short_record_is_refused() {
    let r = Raffle { creator: [9u8; 32], end_timestamp: 5, ticket_price: 6, merkle_tree: [4u8; 32] };
    let b = r.to_bytes();
    assert_eq!(Raffle::from_bytes(&b[..79]), Err(RaffleError::InvalidAccountData));
    assert_eq!(Raffle::from_bytes(&[]), Err(RaffleError::InvalidAccountData));
}
