use vstd::prelude::*;
use crate::errors::DecodeError;
use crate::num::{le_bytes_val, lemma_le_bytes_val_bound, pow256, read_u64_le};

verus! {

/// Ceiling above which a 64-bit word is not believed to be a reserve count.
pub const MAX_PLAUSIBLE_RESERVE: u64 = 10_000_000_000_000;

/// A liquidity-pool state recovered from an undocumented byte layout: two token
/// reserve counts, base asset (`reserve_x`, 9 decimals) and quote asset
/// (`reserve_y`, 6 decimals).
#[derive(Clone, Copy, Debug, PartialEq, Eq, Structural)]
pub struct MeteoraLBPool {
    pub reserve_x: u64,
    pub reserve_y: u64,
}

/// The candidate base reserve at offset `i`: 8 bytes, little endian.
pub open spec fn reserve_x_at(data: Seq<u8>, i: int) -> int {
    le_bytes_val(data, i, 8)
}

/// The candidate quote reserve at offset `i`: the following 8 bytes.
pub open spec fn reserve_y_at(data: Seq<u8>, i: int) -> int {
    le_bytes_val(data, i + 8, 8)
}

/// Whether `i` is a scan position: 8-byte aligned, with a full reserve pair
/// inside the buffer.
pub open spec fn is_scan_offset(data: Seq<u8>, i: int) -> bool {
    0 <= i && i % 8 == 0 && i + 16 <= data.len()
}

/// Whether the pair at `i` passes the plausibility filter: both reserves
/// nonzero and at most the ceiling, and the implied quote-per-base price
/// (1000·y/x in whole units) lies in [1, 1000].
pub open spec fn is_plausible_pair(data: Seq<u8>, i: int) -> bool {
    let x = reserve_x_at(data, i);
    let y = reserve_y_at(data, i);
    &&& x != 0
    &&& y != 0
    &&& x <= MAX_PLAUSIBLE_RESERVE
    &&& y <= MAX_PLAUSIBLE_RESERVE
    &&& 1000 * y >= x
    &&& y <= x
}

/// A surviving candidate of the heuristic scan.
pub open spec fn is_candidate(data: Seq<u8>, i: int) -> bool {
    is_scan_offset(data, i) && is_plausible_pair(data, i)
}

/// Liquidity-depth proxy of the pair at `i`: the product of the two reserves.
/// Ordering products orders geometric means, since every candidate is scaled by
/// the same decimal factors.
pub open spec fn pair_product(data: Seq<u8>, i: int) -> int {
    reserve_x_at(data, i) * reserve_y_at(data, i)
}

/// Whether `i` is the offset the heuristic chooses: a candidate whose
/// liquidity proxy is maximal, the earliest such offset on a tie.
pub open spec fn is_chosen_offset(data: Seq<u8>, i: int) -> bool {
    &&& is_candidate(data, i)
    &&& forall|j: int|
        #[trigger] is_candidate(data, j) ==> pair_product(data, j) <= pair_product(data, i)
    &&& forall|j: int|
        #[trigger] is_candidate(data, j) && j < i ==> pair_product(data, j) < pair_product(
            data,
            i,
        )
}

/// Price of a reserve pair in micro quote units per whole base unit:
/// (y / 10^6) / (x / 10^9) whole units, i.e. y·10^9 / x micro units, 0 when
/// either reserve is 0.
pub open spec fn spec_meteora_price_micro(x: u64, y: u64) -> u128 {
    if x == 0 || y == 0 {
        0
    } else {
        ((y * 1_000_000_000) / (x as int)) as u128
    }
}

/// The offset the heuristic chooses, when any candidate exists.
pub open spec fn spec_chosen_offset(data: Seq<u8>) -> int {
    choose|i: int| is_chosen_offset(data, i)
}

/// The chosen offset is unique: two first-maximal candidates coincide.
pub proof fn lemma_chosen_offset_unique(data: Seq<u8>, i1: int, i2: int)
    requires
        is_chosen_offset(data, i1),
        is_chosen_offset(data, i2),
    ensures
        i1 == i2,
{
    if i1 < i2 {
        assert(is_candidate(data, i1));
        assert(pair_product(data, i1) < pair_product(data, i2));
        assert(pair_product(data, i2) <= pair_product(data, i1));
    } else if i2 < i1 {
        assert(is_candidate(data, i2));
        assert(pair_product(data, i2) < pair_product(data, i1));
        assert(pair_product(data, i1) <= pair_product(data, i2));
    }
}

/// A pair whose implied price passes the lower plausibility edge prices at no
/// less than one whole unit, so a chosen pair's price is strictly positive.
pub proof fn lemma_plausible_price_positive(x: u64, y: u64)
    requires
        x > 0,
        y > 0,
        1000 * y >= x,
    ensures
        spec_meteora_price_micro(x, y) >= 1_000_000,
{
    let xi = x as int;
    let yi = y as int;
    assert(yi * 1_000_000_000 >= xi * 1_000_000) by (nonlinear_arith)
        requires
            1000 * yi >= xi,
            yi > 0,
    {}
    vstd::arithmetic::div_mod::lemma_div_is_ordered(xi * 1_000_000, yi * 1_000_000_000, xi);
    assert((xi * 1_000_000) / xi == 1_000_000) by {
        vstd::arithmetic::div_mod::lemma_div_multiples_vanish(1_000_000, xi);
    }
}

impl MeteoraLBPool {
    /// Heuristic parse of an undocumented pool layout: scans every 8-byte
    /// aligned offset for a plausible (base, quote) reserve pair and keeps the
    /// pair with the deepest implied liquidity.
    pub fn from_bytes(data: &[u8]) -> (r: Result<MeteoraLBPool, DecodeError>)
        ensures
            (r matches Err(e) && e == DecodeError::MalformedBuffer) <==> data@.len() < 32,
            (r matches Err(e) && e == DecodeError::ImplausibleValue) <==> (data@.len() >= 32
                && !(exists|i: int| is_candidate(data@, i))),
            (r matches Ok(p) && exists|i: int|
                #[trigger] is_chosen_offset(data@, i) && p.reserve_x == reserve_x_at(data@, i)
                    && p.reserve_y == reserve_y_at(data@, i)) <==> (data@.len() >= 32 && exists|
                i: int,
            | is_candidate(data@, i)),
    {
        let n = data.len();
        if n < 32 {
            return Err(DecodeError::MalformedBuffer);
        }
        let mut found = false;
        let mut best_x: u64 = 0;
        let mut best_y: u64 = 0;
        let mut best_prod: u128 = 0;
        let mut best_off: usize = 0;
        let mut i: usize = 0;
        while i <= n - 16
            invariant
                n == data@.len(),
                n >= 32,
                i <= n,
                i % 8 == 0,
                !found ==> forall|j: int| #[trigger] is_candidate(data@, j) ==> j >= i,
                found ==> {
                    &&& is_candidate(data@, best_off as int)
                    &&& best_off < i
                    &&& best_x == reserve_x_at(data@, best_off as int)
                    &&& best_y == reserve_y_at(data@, best_off as int)
                    &&& best_prod == pair_product(data@, best_off as int)
                    &&& forall|j: int|
                        #[trigger] is_candidate(data@, j) && j < i ==> pair_product(data@, j)
                            <= best_prod
                    &&& forall|j: int|
                        #[trigger] is_candidate(data@, j) && j < best_off ==> pair_product(
                            data@,
                            j,
                        ) < best_prod
                },
            decreases n - i,
        {
            let x = read_u64_le(data, i);
            let y = read_u64_le(data, i + 8);
            proof {
                lemma_le_bytes_val_bound(data@, i as int, 8);
                lemma_le_bytes_val_bound(data@, i + 8, 8);
                assert(pow256(8) == 0x1_0000_0000_0000_0000) by {
                    reveal_with_fuel(pow256, 9);
                }
            }
            if x != 0 && y != 0 && x <= MAX_PLAUSIBLE_RESERVE && y <= MAX_PLAUSIBLE_RESERVE && 1000
                * y >= x && y <= x {
                proof {
                    assert((x as int) * (y as int) < 0x1_0000_0000_0000_0000_0000_0000_0000_0000int)
                        by (nonlinear_arith)
                        requires
                            x < 0x1_0000_0000_0000_0000,
                            y < 0x1_0000_0000_0000_0000,
                    {}
                }
                let prod: u128 = (x as u128) * (y as u128);
                if !found || prod > best_prod {
                    found = true;
                    best_x = x;
                    best_y = y;
                    best_prod = prod;
                    best_off = i;
                }
            }
            proof {
                assert(forall|j: int| i <= j < i + 8 && #[trigger] is_scan_offset(data@, j) ==> j
                    == i);
            }
            i = i + 8;
        }
        if found {
            proof {
                assert(forall|j: int| #[trigger] is_candidate(data@, j) ==> j < i);
                assert(is_candidate(data@, best_off as int));
                assert(is_chosen_offset(data@, best_off as int));
            }
            Ok(MeteoraLBPool { reserve_x: best_x, reserve_y: best_y })
        } else {
            proof {
                assert(forall|j: int| #[trigger] is_candidate(data@, j) ==> j < i);
            }
            Err(DecodeError::ImplausibleValue)
        }
    }

    /// Price implied by the held reserves, in micro quote units per base unit;
    /// 0 when either reserve is 0.
    pub fn calculate_price(&self) -> (p: u128)
        ensures
            p == spec_meteora_price_micro(self.reserve_x, self.reserve_y),
    {
        if self.reserve_x == 0 || self.reserve_y == 0 {
            return 0;
        }
        proof {
            assert((self.reserve_y as int) * 1_000_000_000
                < 0x1_0000_0000_0000_0000_0000_0000_0000_0000int) by (nonlinear_arith)
                requires
                    self.reserve_y < 0x1_0000_0000_0000_0000,
            {}
        }
        ((self.reserve_y as u128) * 1_000_000_000) / (self.reserve_x as u128)
    }

    /// Decodes a pool buffer straight to a price sample: the heuristic parse,
    /// then the price of the chosen pair.
    pub fn decode(data: &[u8]) -> (r: Result<u128, DecodeError>)
        ensures
            (r matches Err(e) && e == DecodeError::MalformedBuffer) <==> data@.len() < 32,
            (r matches Err(e) && e == DecodeError::ImplausibleValue) <==> (data@.len() >= 32
                && !(exists|i: int| is_candidate(data@, i))),
            r matches Ok(p) ==> exists|i: int|
                #[trigger] is_chosen_offset(data@, i) && p == spec_meteora_price_micro(
                    reserve_x_at(data@, i) as u64,
                    reserve_y_at(data@, i) as u64,
                ),
            (r matches Ok(p)) <==> (data@.len() >= 32 && exists|i: int| is_candidate(data@, i)),
    {
        match Self::from_bytes(data) {
            Ok(pool) => {
                let p = pool.calculate_price();
                proof {
                    let i = choose|i: int|
                        is_chosen_offset(data@, i) && pool.reserve_x == reserve_x_at(data@, i)
                            && pool.reserve_y == reserve_y_at(data@, i);
                    assert(is_chosen_offset(data@, i) && p == spec_meteora_price_micro(
                        reserve_x_at(data@, i) as u64,
                        reserve_y_at(data@, i) as u64,
                    ));
                }
                Ok(p)
            },
            Err(e) => Err(e),
        }
    }
}

} // verus!
