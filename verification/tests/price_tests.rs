use pool_signal::errors::DecodeError;
use pool_signal::meteora::MeteoraLBPool;
use pool_signal::orca::{
    compute_orca_price, decode_orca_price, sol_mint_raw, usdc_mint_raw, OrcaPoolState,
};

fn put_u64_le(buf: &mut [u8], at: usize, v: u64) {
    let bytes = v.to_le_bytes();
    buf[at..at + 8].copy_from_slice(&bytes);
}

fn put_u128_le(buf: &mut [u8], at: usize, v: u128) {
    let bytes = v.to_le_bytes();
    buf[at..at + 16].copy_from_slice(&bytes);
}

// With sqrt_price = 2^63 the squared ratio is exactly 1/4, so every expected
// value below is exact in micro units.
const SQRT_QUARTER: u128 = 1u128 << 63;

#[test]
fn orca_price_sol_usdc_orientation() {
    // ratio = 2^126 / 2^128 = 0.25; decimals 9 -> 6 rescale by 10^-3;
    // price = 0.00025, i.e. 250 micro units.
    let state = OrcaPoolState {
        sqrt_price: SQRT_QUARTER,
        token_mint_a: sol_mint_raw(),
        token_mint_b: usdc_mint_raw(),
    };
    assert_eq!(compute_orca_price(&state), 250);
}

#[test]
fn orca_price_swapped_mints_inverts() {
    // Swapped mints rescale by 10^3: the adjusted ratio is 250 whole units
    // (250_000_000 micro), and the decoder reports its reciprocal,
    // 1/250 = 0.004, i.e. 4000 micro units.
    let state = OrcaPoolState {
        sqrt_price: SQRT_QUARTER,
        token_mint_a: usdc_mint_raw(),
        token_mint_b: sol_mint_raw(),
    };
    assert_eq!(compute_orca_price(&state), 4000);
    assert_eq!(4000, 1_000_000_000_000u128 / 250_000_000u128);
}

#[test]
fn orca_price_unknown_mints_picks_plausible_band() {
    // Unrecognized mints both default to 9 decimals: the direct ratio is
    // 0.25 units (250_000 micro, below the band) and its reciprocal is
    // 4 units (4_000_000 micro, inside [1, 1000]); the reciprocal wins.
    let state = OrcaPoolState {
        sqrt_price: SQRT_QUARTER,
        token_mint_a: vec![0u8; 32],
        token_mint_b: vec![0u8; 32],
    };
    assert_eq!(compute_orca_price(&state), 4_000_000);
}

#[test]
fn orca_price_unknown_mints_falls_back_to_direct() {
    // sqrt_price = 0: both orientations are implausible, so the un-inverted
    // ratio (0) is kept.
    let state = OrcaPoolState {
        sqrt_price: 0,
        token_mint_a: vec![0u8; 32],
        token_mint_b: vec![0u8; 32],
    };
    assert_eq!(compute_orca_price(&state), 0);
}

#[test]
fn orca_decode_reads_fields_at_fixed_offsets() {
    let mut data = vec![0u8; 653];
    put_u128_le(&mut data, 65, SQRT_QUARTER);
    data[101..133].copy_from_slice(&sol_mint_raw());
    data[181..213].copy_from_slice(&usdc_mint_raw());
    assert_eq!(decode_orca_price(&data), Ok(250));
}

#[test]
fn orca_decode_ignores_trailing_bytes() {
    let mut data = vec![0u8; 700];
    put_u128_le(&mut data, 65, SQRT_QUARTER);
    data[101..133].copy_from_slice(&sol_mint_raw());
    data[181..213].copy_from_slice(&usdc_mint_raw());
    assert_eq!(decode_orca_price(&data), Ok(250));
}

#[test]
fn orca_decode_short_buffer_is_malformed() {
    let data = vec![0u8; 100];
    assert_eq!(decode_orca_price(&data), Err(DecodeError::MalformedBuffer));
}

#[test]
fn meteora_selects_single_plausible_pair_amid_noise() {
    // One plausible pair at offset 8; zeros and a zero-paired word elsewhere.
    let mut data = vec![0u8; 48];
    put_u64_le(&mut data, 8, 2_000_000_000);
    put_u64_le(&mut data, 16, 500_000_000);
    let pool = MeteoraLBPool::from_bytes(&data).unwrap();
    assert_eq!(pool.reserve_x, 2_000_000_000);
    assert_eq!(pool.reserve_y, 500_000_000);
}

#[test]
fn meteora_prefers_higher_geometric_mean() {
    // Plausible pairs at offsets 0 and 16; the deeper pair at 16 wins.
    let mut data = vec![0u8; 40];
    put_u64_le(&mut data, 0, 1_000);
    put_u64_le(&mut data, 8, 1_000);
    put_u64_le(&mut data, 16, 2_000_000);
    put_u64_le(&mut data, 24, 2_000_000);
    let pool = MeteoraLBPool::from_bytes(&data).unwrap();
    assert_eq!(pool.reserve_x, 2_000_000);
    assert_eq!(pool.reserve_y, 2_000_000);
}

#[test]
fn meteora_equal_depth_keeps_first_pair() {
    let mut data = vec![0u8; 40];
    put_u64_le(&mut data, 0, 3_000_000);
    put_u64_le(&mut data, 8, 3_000_000);
    put_u64_le(&mut data, 16, 3_000_000);
    put_u64_le(&mut data, 24, 3_000_000);
    // Offsets 0, 8 and 16 all hold the pair (3e6, 3e6) with equal products;
    // the earliest offset is kept (same reserves either way).
    let pool = MeteoraLBPool::from_bytes(&data).unwrap();
    assert_eq!(pool.reserve_x, 3_000_000);
    assert_eq!(pool.reserve_y, 3_000_000);
}

#[test]
fn meteora_short_buffer_is_malformed() {
    let data = vec![1u8; 31];
    assert_eq!(MeteoraLBPool::from_bytes(&data), Err(DecodeError::MalformedBuffer));
}

#[test]
fn meteora_all_zero_buffer_has_no_plausible_reserves() {
    let data = vec![0u8; 64];
    assert_eq!(MeteoraLBPool::from_bytes(&data), Err(DecodeError::ImplausibleValue));
}

#[test]
fn meteora_oversized_words_are_rejected() {
    // Values above the 10^13 ceiling are not believed to be reserves.
    let mut data = vec![0u8; 32];
    put_u64_le(&mut data, 0, 20_000_000_000_000);
    put_u64_le(&mut data, 8, 20_000_000_000_000);
    assert_eq!(MeteoraLBPool::from_bytes(&data), Err(DecodeError::ImplausibleValue));
}

#[test]
fn meteora_implausible_price_is_rejected() {
    // price = 1000 * y / x = 0.5 whole units: below the [1, 1000] band.
    let mut data = vec![0u8; 32];
    put_u64_le(&mut data, 0, 2_000_000);
    put_u64_le(&mut data, 8, 1_000);
    assert_eq!(MeteoraLBPool::from_bytes(&data), Err(DecodeError::ImplausibleValue));
}

#[test]
fn meteora_price_from_reserves() {
    // (5e8 / 10^6) / (2e9 / 10^9) = 500 / 2 = 250 whole units.
    let pool = MeteoraLBPool { reserve_x: 2_000_000_000, reserve_y: 500_000_000 };
    assert_eq!(pool.calculate_price(), 250_000_000);
}

#[test]
fn meteora_zero_reserve_prices_at_zero() {
    assert_eq!(MeteoraLBPool { reserve_x: 0, reserve_y: 7 }.calculate_price(), 0);
    assert_eq!(MeteoraLBPool { reserve_x: 7, reserve_y: 0 }.calculate_price(), 0);
}

#[test]
fn meteora_decode_yields_price_of_chosen_pair() {
    let mut data = vec![0u8; 48];
    put_u64_le(&mut data, 8, 2_000_000_000);
    put_u64_le(&mut data, 16, 500_000_000);
    assert_eq!(MeteoraLBPool::decode(&data), Ok(250_000_000));
}

#[test]
fn orca_price_saturates_at_extreme_sqrt_price() {
    // The squared ratio no longer fits 128 bits; the derivation saturates and
    // the band check then keeps the un-inverted value.
    let state = OrcaPoolState {
        sqrt_price: u128::MAX,
        token_mint_a: vec![0u8; 32],
        token_mint_b: vec![0u8; 32],
    };
    assert_eq!(compute_orca_price(&state), u128::MAX);
}
