use vstd::prelude::*;
use crate::errors::DecodeError;
use crate::num::{
    le_bytes_val, lemma_le_bytes_val_bound, pow10, pow256, spec_sat_to_u128, spec_sq_mul_shr128,
    sq_mul_shr128,
};

verus! {

/// Byte length of the fixed on-chain whirlpool record.
pub const WHIRLPOOL_ACCOUNT_LEN: usize = 653;

/// Byte offset of the Q64.64 square-root price inside the record.
pub const SQRT_PRICE_OFFSET: usize = 65;

/// Byte offset of the first token mint inside the record.
pub const MINT_A_OFFSET: usize = 101;

/// Byte offset of the second token mint inside the record.
pub const MINT_B_OFFSET: usize = 181;

/// Lower edge of the plausible whole-unit price band [1, 1000], in micro units.
pub const PLAUSIBLE_MIN_MICRO: u128 = 1_000_000;

/// Upper edge of the plausible price band, in micro units.
pub const PLAUSIBLE_MAX_MICRO: u128 = 1_000_000_000;

/// Reference midpoint used to choose between two plausible orientations.
pub const REFERENCE_MID_MICRO: u128 = 200_000_000;

/// What the price derivation reads out of a whirlpool record: the Q64.64
/// square-root price and the two token mints, each as 32 raw bytes.
#[derive(Clone, Debug, PartialEq, Eq)]
pub struct OrcaPoolState {
    pub sqrt_price: u128,
    pub token_mint_a: Vec<u8>,
    pub token_mint_b: Vec<u8>,
}

/// Raw bytes of the tracked base-asset mint (9 decimals).
pub open spec fn spec_sol_mint() -> Seq<u8> {
    seq![
        6u8, 155, 136, 87, 254, 171, 129, 132, 251, 104, 127, 99, 70, 24, 192, 53, 218, 196, 57,
        220, 26, 235, 59, 85, 152, 160, 240, 0, 0, 0, 0, 1,
    ]
}

/// Raw bytes of the tracked quote-asset mint (6 decimals).
pub open spec fn spec_usdc_mint() -> Seq<u8> {
    seq![
        198u8, 250, 122, 243, 190, 219, 173, 58, 61, 101, 243, 106, 171, 201, 116, 49, 177, 187,
        228, 194, 210, 246, 224, 228, 124, 166, 2, 3, 69, 47, 93, 97,
    ]
}

/// Decimal count used for a mint: 6 for the quote asset, 9 for the base asset
/// and for any unrecognized mint.
pub open spec fn spec_decimals_of(mint: Seq<u8>) -> int {
    if mint == spec_usdc_mint() {
        6
    } else {
        9
    }
}

/// Exponent of the micro-unit rescale: 6 fractional digits plus the decimal
/// difference of the two mints. With decimals in {6, 9} this is 3, 6 or 9.
pub open spec fn spec_scale_exponent(mint_a: Seq<u8>, mint_b: Seq<u8>) -> nat {
    (6 + spec_decimals_of(mint_b) - spec_decimals_of(mint_a)) as nat
}

/// The decimal-adjusted ratio (sqrt_price² / 2^128) · 10^(dec_b − dec_a) in
/// micro units: token-b per token-a.
pub open spec fn spec_orca_direct_micro(s: u128, mint_a: Seq<u8>, mint_b: Seq<u8>) -> u128 {
    spec_sat_to_u128(spec_sq_mul_shr128(s as int, pow10(spec_scale_exponent(mint_a, mint_b))))
}

/// Reciprocal of a micro-unit price, in micro units: 10^12 / p, and 0 when p
/// is 0.
pub open spec fn spec_recip_micro(p: u128) -> u128 {
    if p == 0 {
        0
    } else {
        (1_000_000_000_000int / p as int) as u128
    }
}

/// Whether a micro-unit price lies in the plausible band [1, 1000] whole units.
pub open spec fn spec_in_band(p: u128) -> bool {
    PLAUSIBLE_MIN_MICRO <= p <= PLAUSIBLE_MAX_MICRO
}

/// Absolute distance of a micro-unit price from the reference midpoint.
pub open spec fn spec_dist_to_mid(p: u128) -> int {
    if p >= REFERENCE_MID_MICRO {
        p - REFERENCE_MID_MICRO
    } else {
        REFERENCE_MID_MICRO - p
    }
}

/// Orientation chosen when neither mint is recognized: both the ratio and its
/// reciprocal are considered; a candidate qualifies when it lies in the
/// plausible band (the reciprocal only for a nonzero ratio); of two qualifying
/// candidates the one closer to the reference midpoint wins, the smaller on a
/// tie; with no qualifying candidate the un-inverted ratio is kept.
pub open spec fn spec_pick_unknown(direct: u128) -> u128 {
    let inv = spec_recip_micro(direct);
    let direct_ok = spec_in_band(direct);
    let inv_ok = direct > 0 && spec_in_band(inv);
    if direct_ok && inv_ok {
        if spec_dist_to_mid(direct) < spec_dist_to_mid(inv) {
            direct
        } else if spec_dist_to_mid(inv) < spec_dist_to_mid(direct) {
            inv
        } else if direct <= inv {
            direct
        } else {
            inv
        }
    } else if direct_ok {
        direct
    } else if inv_ok {
        inv
    } else {
        direct
    }
}

/// The quote-per-base price of a whirlpool state in micro units: the adjusted
/// ratio when the mints are (base, quote) in that order, its reciprocal when
/// they are reversed, and the plausibility pick when neither is recognized.
pub open spec fn spec_orca_price_micro(s: u128, mint_a: Seq<u8>, mint_b: Seq<u8>) -> u128 {
    let direct = spec_orca_direct_micro(s, mint_a, mint_b);
    if mint_a == spec_sol_mint() && mint_b == spec_usdc_mint() {
        direct
    } else if mint_a == spec_usdc_mint() && mint_b == spec_sol_mint() {
        spec_recip_micro(direct)
    } else {
        spec_pick_unknown(direct)
    }
}

/// The base-asset mint as owned bytes.
pub fn sol_mint_raw() -> (v: Vec<u8>)
    ensures
        v@ == spec_sol_mint(),
{
    let a: [u8; 32] = [
        6, 155, 136, 87, 254, 171, 129, 132, 251, 104, 127, 99, 70, 24, 192, 53, 218, 196, 57,
        220, 26, 235, 59, 85, 152, 160, 240, 0, 0, 0, 0, 1,
    ];
    let v = vstd::slice::slice_to_vec(a.as_slice());
    proof {
        assert(v@ =~= spec_sol_mint());
    }
    v
}

/// The quote-asset mint as owned bytes.
pub fn usdc_mint_raw() -> (v: Vec<u8>)
    ensures
        v@ == spec_usdc_mint(),
{
    let a: [u8; 32] = [
        198, 250, 122, 243, 190, 219, 173, 58, 61, 101, 243, 106, 171, 201, 116, 49, 177, 187,
        228, 194, 210, 246, 224, 228, 124, 166, 2, 3, 69, 47, 93, 97,
    ];
    let v = vstd::slice::slice_to_vec(a.as_slice());
    proof {
        assert(v@ =~= spec_usdc_mint());
    }
    v
}

/// Byte-for-byte equality of two keys.
fn bytes_eq(a: &Vec<u8>, b: &Vec<u8>) -> (r: bool)
    ensures
        r == (a@ == b@),
{
    let r = a == b;
    proof {
        if r {
            assert(a@ =~= b@);
        }
    }
    r
}

/// Reciprocal of a micro-unit price.
fn recip_micro(p: u128) -> (r: u128)
    ensures
        r == spec_recip_micro(p),
{
    if p == 0 {
        0
    } else {
        1_000_000_000_000u128 / p
    }
}

/// Derives the quote-per-base price of a whirlpool state, in micro quote units
/// per whole base unit: squares the Q64.64 square-root price, drops the 128
/// fractional bits while rescaling by the mints' decimal difference, and
/// orients the result by mint identity.
pub fn compute_orca_price(state: &OrcaPoolState) -> (p: u128)
    ensures
        p == spec_orca_price_micro(state.sqrt_price, state.token_mint_a@, state.token_mint_b@),
{
    let sol = sol_mint_raw();
    let usdc = usdc_mint_raw();
    let a_is_sol = bytes_eq(&state.token_mint_a, &sol);
    let a_is_usdc = bytes_eq(&state.token_mint_a, &usdc);
    let b_is_sol = bytes_eq(&state.token_mint_b, &sol);
    let b_is_usdc = bytes_eq(&state.token_mint_b, &usdc);
    let dec_a: u32 = if a_is_usdc {
        6
    } else {
        9
    };
    let dec_b: u32 = if b_is_usdc {
        6
    } else {
        9
    };
    let e: u32 = 6 + dec_b - dec_a;
    let k = crate::num::pow10_u64(e);
    let direct = sq_mul_shr128(state.sqrt_price, k);
    proof {
        assert(e == spec_scale_exponent(state.token_mint_a@, state.token_mint_b@));
        assert(direct == spec_orca_direct_micro(
            state.sqrt_price,
            state.token_mint_a@,
            state.token_mint_b@,
        ));
    }
    if a_is_sol && b_is_usdc {
        direct
    } else if a_is_usdc && b_is_sol {
        recip_micro(direct)
    } else {
        let inv = recip_micro(direct);
        let direct_ok = PLAUSIBLE_MIN_MICRO <= direct && direct <= PLAUSIBLE_MAX_MICRO;
        let inv_ok = direct > 0 && PLAUSIBLE_MIN_MICRO <= inv && inv <= PLAUSIBLE_MAX_MICRO;
        if direct_ok && inv_ok {
            let dist_direct = if direct >= REFERENCE_MID_MICRO {
                direct - REFERENCE_MID_MICRO
            } else {
                REFERENCE_MID_MICRO - direct
            };
            let dist_inv = if inv >= REFERENCE_MID_MICRO {
                inv - REFERENCE_MID_MICRO
            } else {
                REFERENCE_MID_MICRO - inv
            };
            if dist_direct < dist_inv {
                direct
            } else if dist_inv < dist_direct {
                inv
            } else if direct <= inv {
                direct
            } else {
                inv
            }
        } else if direct_ok {
            direct
        } else if inv_ok {
            inv
        } else {
            direct
        }
    }
}

/// Relies on `orca_whirlpools_client::Whirlpool::from_bytes`: borsh
/// deserialization of the fixed 653-byte whirlpool record. Every field has a
/// fixed width, so it succeeds exactly on buffers of at least 653 bytes,
/// reading multi-byte integers little-endian and key fields verbatim at fixed
/// offsets; trailing bytes are ignored.
#[verifier::external_body]
pub(crate) fn parse_whirlpool_account(data: &[u8]) -> (r: Result<OrcaPoolState, DecodeError>)
    ensures
        r matches Ok(s) ==> s.sqrt_price == le_bytes_val(data@, 65, 16) && s.token_mint_a@
            == data@.subrange(101, 133) && s.token_mint_b@ == data@.subrange(181, 213),
        r matches Err(e) ==> e == DecodeError::MalformedBuffer,
        (r is Ok) <==> data@.len() >= 653,
{
    match orca_whirlpools_client::Whirlpool::from_bytes(data) {
        Ok(w) => Ok(
            OrcaPoolState {
                sqrt_price: w.sqrt_price,
                token_mint_a: w.token_mint_a.to_bytes().to_vec(),
                token_mint_b: w.token_mint_b.to_bytes().to_vec(),
            },
        ),
        Err(_) => Err(DecodeError::MalformedBuffer),
    }
}

/// Decodes a whirlpool account buffer straight to a price sample, in micro
/// quote units per base unit.
pub fn decode_orca_price(data: &[u8]) -> (r: Result<u128, DecodeError>)
    ensures
        r matches Ok(p) ==> p == spec_orca_price_micro(
            le_bytes_val(data@, 65, 16) as u128,
            data@.subrange(101, 133),
            data@.subrange(181, 213),
        ),
        r matches Err(e) ==> e == DecodeError::MalformedBuffer,
        (r is Ok) <==> data@.len() >= 653,
{
    match parse_whirlpool_account(data) {
        Ok(state) => {
            proof {
                if data@.len() >= 653 {
                    lemma_le_bytes_val_bound(data@, 65, 16);
                    assert(pow256(16) == 0x1_0000_0000_0000_0000_0000_0000_0000_0000int) by {
                        reveal_with_fuel(pow256, 17);
                    }
                }
            }
            Ok(compute_orca_price(&state))
        },
        Err(e) => Err(e),
    }
}

} // verus!
