use origin_dex::errors::DexError;
use origin_dex::math::compute_bin_spacing_milli_cents;
use origin_dex::math::compute_fee_split;

#[test]
fn fee_split_of_one_percent() {
    assert_eq!(compute_fee_split(100), (5, 95));
}

#[test]
fn fee_split_of_the_cap() {
    assert_eq!(compute_fee_split(10000), (500, 9500));
}

#[test]
fn fee_split_rounds_the_house_share_down() {
    assert_eq!(compute_fee_split(19), (0, 19));
    assert_eq!(compute_fee_split(20), (1, 19));
    assert_eq!(compute_fee_split(99), (4, 95));
}

#[test]
fn fee_split_of_zero() {
    assert_eq!(compute_fee_split(0), (0, 0));
}

#[test]
fn fee_split_always_rebuilds_the_total() {
    for fee_bps in [0u16, 1, 19, 20, 100, 9999, 10000, 13107, 13108, u16::MAX] {
        let (house, lp) = compute_fee_split(fee_bps);
        assert_eq!(house as u32 + lp as u32, fee_bps as u32);
        assert_eq!(house, fee_bps.saturating_mul(5) / 100);
    }
}

#[test]
fn bin_spacing_of_equal_dollar_prices() {
    assert_eq!(compute_bin_spacing_milli_cents(100, 100), Ok(1000));
}

#[test]
fn bin_spacing_of_equal_half_dollar_prices() {
    assert_eq!(compute_bin_spacing_milli_cents(50, 50), Ok(500));
}

#[test]
fn bin_spacing_of_equal_ten_dollar_prices() {
    assert_eq!(compute_bin_spacing_milli_cents(1000, 1000), Ok(10000));
}

#[test]
fn bin_spacing_averages_unequal_prices() {
    assert_eq!(compute_bin_spacing_milli_cents(100, 200), Ok(1500));
    assert_eq!(compute_bin_spacing_milli_cents(1, 2), Ok(10));
}

#[test]
fn bin_spacing_rejects_a_zero_price() {
    assert_eq!(compute_bin_spacing_milli_cents(0, 1), Err(DexError::InvalidPrice));
    assert_eq!(compute_bin_spacing_milli_cents(0, u64::MAX), Err(DexError::InvalidPrice));
    assert_eq!(compute_bin_spacing_milli_cents(7, 0), Err(DexError::InvalidPrice));
    assert_eq!(compute_bin_spacing_milli_cents(0, 0), Err(DexError::InvalidPrice));
}

#[test]
fn bin_spacing_rejects_a_sum_overflow() {
    assert_eq!(compute_bin_spacing_milli_cents(u64::MAX, 1), Err(DexError::Overflow));
    assert_eq!(compute_bin_spacing_milli_cents(u64::MAX, u64::MAX), Err(DexError::Overflow));
}

#[test]
fn bin_spacing_rejects_a_scale_overflow() {
    let just_over: u64 = u64::MAX / 10 + 1;
    assert_eq!(compute_bin_spacing_milli_cents(just_over, just_over), Err(DexError::Overflow));
}

#[test]
fn bin_spacing_at_the_scale_ceiling() {
    let ceiling: u64 = u64::MAX / 10;
    assert_eq!(compute_bin_spacing_milli_cents(ceiling, ceiling), Ok(ceiling * 10));
}
