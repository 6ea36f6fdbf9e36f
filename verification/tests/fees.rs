use token_swap::curve::fees::{calculate_fee, Fees, FEES_LEN};
use token_swap::error::SwapError;

fn sample() -> Fees {
    Fees {
        trade_fee_numerator: 25,
        trade_fee_denominator: 10_000,
        owner_trade_fee_numerator: 5,
        owner_trade_fee_denominator: 10_000,
        owner_withdraw_fee_numerator: 1,
        owner_withdraw_fee_denominator: 6,
        host_fee_numerator: 20,
        host_fee_denominator: 100,
    }
}

#[test]
fn trading_fee_is_the_floor_of_the_ratio() {
    let fees = sample();
    assert_eq!(fees.trading_fee(1_000), Some(2));
    assert_eq!(fees.trading_fee(10_000), Some(25));
    assert_eq!(fees.trading_fee(400), Some(1));
}

#[test]
fn active_ratio_that_rounds_to_zero_gives_zero() {
    let fees = sample();
    assert_eq!(fees.trading_fee(399), Some(0));
    assert_eq!(fees.owner_trading_fee(1_999), Some(0));
    assert_eq!(fees.trading_fee(0), Some(0));
}

#[test]
fn inactive_ratio_gives_nothing() {
    let mut fees = sample();
    fees.trade_fee_denominator = 0;
    assert_eq!(fees.trading_fee(1_000), None);
    fees.trade_fee_numerator = 0;
    assert_eq!(fees.trading_fee(1_000), None);
    assert_eq!(fees.trading_fee(0), None);
}

#[test]
fn overflow_of_the_product_gives_nothing() {
    assert_eq!(calculate_fee(1u128 << 127, 3, 1), None);
    assert_eq!(calculate_fee(u128::MAX, 2, 2), None);
    assert_eq!(calculate_fee(u128::MAX, 1, 1), Some(u128::MAX));
    assert_eq!(calculate_fee(u128::MAX, 1, 2), Some(u128::MAX / 2));
}

#[test]
fn each_fee_uses_its_own_ratio() {
    let fees = sample();
    assert_eq!(fees.owner_trading_fee(10_000), Some(5));
    assert_eq!(fees.owner_withdraw_fee(600), Some(100));
    assert_eq!(fees.owner_withdraw_fee(605), Some(100));
    assert_eq!(fees.host_fee(1_000), Some(200));
}

#[test]
fn fees_pack_as_eight_little_endian_integers() {
    let fees = sample();
    let mut buffer = [0xAAu8; 70];
    fees.pack_into_slice(&mut buffer);
    let mut expected = Vec::new();
    for field in [25u64, 10_000, 5, 10_000, 1, 6, 20, 100] {
        expected.extend_from_slice(&field.to_le_bytes());
    }
    assert_eq!(expected.len(), FEES_LEN);
    assert_eq!(&buffer[..64], &expected[..]);
    assert_eq!(&buffer[64..], &[0xAAu8; 6]);
}

#[test]
fn fees_round_trip() {
    let fees = sample();
    let mut buffer = [0u8; FEES_LEN];
    fees.pack_into_slice(&mut buffer);
    assert_eq!(Fees::unpack_from_slice(&buffer), fees);
    assert_eq!(Fees::unpack_unchecked(&buffer), Ok(fees));
    let extreme = Fees {
        trade_fee_numerator: u64::MAX,
        trade_fee_denominator: 0,
        owner_trade_fee_numerator: 1 << 63,
        owner_trade_fee_denominator: 0x0102_0304_0506_0708,
        owner_withdraw_fee_numerator: 255,
        owner_withdraw_fee_denominator: 256,
        host_fee_numerator: u64::MAX - 1,
        host_fee_denominator: 1,
    };
    extreme.pack_into_slice(&mut buffer);
    assert_eq!(Fees::unpack_from_slice(&buffer), extreme);
}

#[test]
fn fees_of_a_wrong_length_are_refused() {
    for len in 0..=(2 * FEES_LEN) {
        for fill in [0u8, 0xFF] {
            let buffer = vec![fill; len];
            let unpacked = Fees::unpack_unchecked(&buffer);
            if len == FEES_LEN {
                assert!(unpacked.is_ok());
            } else {
                assert_eq!(unpacked, Err(SwapError::InvalidAccountData));
            }
        }
    }
}
