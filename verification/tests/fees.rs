use peermint::errors::ErrorCode;
use peermint::fees::{fee, to_creator, to_helper, total_escrow};

#[test]
fn fee_zero_percent_is_zero() {
    assert_eq!(fee(1_000_000, 0), Ok(0));
}

#[test]
fn fee_five_percent_exact() {
    assert_eq!(fee(1_000_000, 5), Ok(50_000));
}

#[test]
fn fee_rounds_down() {
    // 999 * 5 = 4995, floor(4995 / 100) = 49
    assert_eq!(fee(999, 5), Ok(49));
}

#[test]
fn fee_full_percent_is_amount() {
    assert_eq!(fee(123_456, 100), Ok(123_456));
}

#[test]
fn fee_narrowing_overflow() {
    // 200% of u64::MAX does not fit back into 64 bits.
    assert_eq!(fee(u64::MAX, 200), Err(ErrorCode::MathOverflow));
}

#[test]
fn total_escrow_exact() {
    assert_eq!(total_escrow(1_000_000, 5), Ok(1_050_000));
}

#[test]
fn total_escrow_zero_fee() {
    assert_eq!(total_escrow(1_000_000, 0), Ok(1_000_000));
}

#[test]
fn total_escrow_addition_overflow() {
    assert_eq!(total_escrow(u64::MAX, 1), Err(ErrorCode::MathOverflow));
}

#[test]
fn split_example() {
    assert_eq!(to_helper(1_000_000, 3000), Ok(300_000));
    assert_eq!(to_creator(1_000_000, 3000), Ok(700_000));
}

#[test]
fn split_sums_to_total_with_remainder() {
    // 1_000_001 * 3333 = 3_333_003_333; floor(/10000) = 333_300.
    let total = 1_000_001u64;
    let h = to_helper(total, 3333).unwrap();
    let c = to_creator(total, 3333).unwrap();
    assert_eq!(h, 333_300);
    assert_eq!(c, 666_701);
    assert_eq!(h + c, total);
}

#[test]
fn split_edges() {
    assert_eq!(to_helper(1_000_000, 0), Ok(0));
    assert_eq!(to_creator(1_000_000, 0), Ok(1_000_000));
    assert_eq!(to_helper(1_000_000, 10000), Ok(1_000_000));
    assert_eq!(to_creator(1_000_000, 10000), Ok(0));
}

#[test]
fn split_rejects_bps_above_ten_thousand() {
    assert_eq!(to_helper(1_000_000, 10001), Err(ErrorCode::InvalidFee));
    assert_eq!(to_creator(1_000_000, 10001), Err(ErrorCode::InvalidFee));
}
