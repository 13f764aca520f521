use vstd::prelude::*;

verus! {

/// Value of the `n` bytes of `data` starting at `i`, read as a little-endian
/// unsigned integer.
pub open spec fn le_bytes_val(data: Seq<u8>, i: int, n: nat) -> int
    decreases n,
{
    if n == 0 {
        0
    } else {
        data[i] + 256 * le_bytes_val(data, i + 1, (n - 1) as nat)
    }
}

/// 256 raised to `n`; the exclusive upper bound of an `n`-byte value.
pub open spec fn pow256(n: nat) -> int
    decreases n,
{
    if n == 0 {
        1
    } else {
        256 * pow256((n - 1) as nat)
    }
}

/// 10 raised to `n`.
pub open spec fn pow10(n: nat) -> int
    decreases n,
{
    if n == 0 {
        1
    } else {
        10 * pow10((n - 1) as nat)
    }
}

pub proof fn lemma_le_bytes_val_bound(data: Seq<u8>, i: int, n: nat)
    requires
        0 <= i,
        i + n <= data.len(),
    ensures
        0 <= le_bytes_val(data, i, n) < pow256(n),
    decreases n,
{
    if n > 0 {
        lemma_le_bytes_val_bound(data, i + 1, (n - 1) as nat);
    }
}

/// Reads the 8 bytes of `data` at `i` as a little-endian `u64`.
pub fn read_u64_le(data: &[u8], i: usize) -> (r: u64)
    requires
        i + 8 <= data@.len(),
    ensures
        r == le_bytes_val(data@, i as int, 8),
{
    proof {
        lemma_le_bytes_val_bound(data@, i as int, 8);
    }
    let n = data.len();
    let mut acc: u64 = 0;
    let mut k: usize = 8;
    while k > 0
        invariant
            i + 8 <= n,
            n == data@.len(),
            k <= 8,
            acc == le_bytes_val(data@, i + k, (8 - k) as nat),
            acc < pow256((8 - k) as nat),
        decreases k,
    {
        proof {
            lemma_le_bytes_val_bound(data@, i + k - 1, (8 - k + 1) as nat);
            assert(pow256((8 - k + 1) as nat) == 256 * pow256((8 - k) as nat));
            assert(pow256(8) == 0x1_0000_0000_0000_0000) by {
                reveal_with_fuel(pow256, 9);
            }
            lemma_pow256_increases((8 - k + 1) as nat, 8);
        }
        k = k - 1;
        acc = acc * 256 + data[i + k] as u64;
    }
    acc
}

/// Reads the 16 bytes of `data` at `i` as a little-endian `u128`.
pub fn read_u128_le(data: &[u8], i: usize) -> (r: u128)
    requires
        i + 16 <= data@.len(),
    ensures
        r == le_bytes_val(data@, i as int, 16),
{
    proof {
        lemma_le_bytes_val_bound(data@, i as int, 16);
    }
    let n = data.len();
    let mut acc: u128 = 0;
    let mut k: usize = 16;
    while k > 0
        invariant
            i + 16 <= n,
            n == data@.len(),
            k <= 16,
            acc == le_bytes_val(data@, i + k, (16 - k) as nat),
            acc < pow256((16 - k) as nat),
        decreases k,
    {
        proof {
            lemma_le_bytes_val_bound(data@, i + k - 1, (16 - k + 1) as nat);
            assert(pow256((16 - k + 1) as nat) == 256 * pow256((16 - k) as nat));
            assert(pow256(16) == 0x1_0000_0000_0000_0000_0000_0000_0000_0000) by {
                reveal_with_fuel(pow256, 17);
            }
            lemma_pow256_increases((16 - k + 1) as nat, 16);
        }
        k = k - 1;
        acc = acc * 256 + data[i + k] as u128;
    }
    acc
}

/// Clamps a mathematical integer into the `u128` range.
pub open spec fn spec_sat_to_u128(v: int) -> u128 {
    if v > u128::MAX {
        u128::MAX
    } else if v < 0 {
        0
    } else {
        v as u128
    }
}

/// floor(s·s·k / 2^128): the square of a Q64.64 fixed-point value, scaled by `k`,
/// with the 128 fractional bits shifted away.
pub open spec fn spec_sq_mul_shr128(s: int, k: int) -> int {
    (s * s * k) / 0x1_0000_0000_0000_0000_0000_0000_0000_0000int
}

/// Computes floor(s·s·k / 2^128) exactly, saturating at `u128::MAX`.
///
/// `s` is a Q64.64 square-root value; squaring it gives a Q128.128 ratio whose
/// integer part, rescaled by `k`, is the fixed-point result.
pub fn sq_mul_shr128(s: u128, k: u64) -> (r: u128)
    requires
        1 <= k <= 1_000_000_000,
    ensures
        r == spec_sat_to_u128(spec_sq_mul_shr128(s as int, k as int)),
{
    let m64: u128 = 0x1_0000_0000_0000_0000;
    let a: u128 = s / m64;
    let b: u128 = s % m64;
    let kk: u128 = k as u128;
    proof {
        assert(a < 0x1_0000_0000_0000_0000) by {
            vstd::arithmetic::div_mod::lemma_div_is_ordered(s as int, u128::MAX as int, m64 as int);
        }
        assert((a as int) * (b as int) < 0x1_0000_0000_0000_0000_0000_0000_0000_0000int
            && (b as int) * (b as int) < 0x1_0000_0000_0000_0000_0000_0000_0000_0000int
            && (a as int) * (a as int) < 0x1_0000_0000_0000_0000_0000_0000_0000_0000int) by (nonlinear_arith)
            requires
                a < 0x1_0000_0000_0000_0000,
                b < 0x1_0000_0000_0000_0000,
        {}
    }
    let c: u128 = a * b;
    let d: u128 = b * b;
    let c_hi: u128 = c / m64;
    let c_lo: u128 = c % m64;
    let d_hi: u128 = d / m64;
    let d_lo: u128 = d % m64;
    proof {
        assert(c_hi < 0x1_0000_0000_0000_0000 && d_hi < 0x1_0000_0000_0000_0000) by {
            vstd::arithmetic::div_mod::lemma_div_is_ordered(c as int, u128::MAX as int, m64 as int);
            vstd::arithmetic::div_mod::lemma_div_is_ordered(d as int, u128::MAX as int, m64 as int);
        }
        assert(2 * (kk as int) * (c_lo as int) < 0x1_0000_0000_0000_0000_0000_0000
            && (kk as int) * (d_hi as int) < 0x1_0000_0000_0000_0000_0000_0000
            && (kk as int) * (d_lo as int) < 0x1_0000_0000_0000_0000_0000_0000
            && 2 * (kk as int) * (c_hi as int) < 0x1_0000_0000_0000_0000_0000_0000) by (nonlinear_arith)
            requires
                kk <= 1_000_000_000,
                c_lo < 0x1_0000_0000_0000_0000,
                c_hi < 0x1_0000_0000_0000_0000,
                d_hi < 0x1_0000_0000_0000_0000,
                d_lo < 0x1_0000_0000_0000_0000,
        {}
    }
    let bmid: u128 = 2 * kk * c_lo + kk * d_hi;
    let low: u128 = (bmid + (kk * d_lo) / m64) / m64;
    let a2: u128 = a * a;

    let ghost t: int = 0x1_0000_0000_0000_0000;
    let ghost t2: int = 0x1_0000_0000_0000_0000_0000_0000_0000_0000int;
    let ghost x: int = (s as int) * (s as int) * (kk as int);
    let ghost hpart: int = (kk as int) * (a2 as int) + 2 * (kk as int) * (c_hi as int);
    let ghost rpart: int = t * (bmid as int) + (kk as int) * (d_lo as int);
    proof {
        // The 256-bit product split into a multiple of 2^128 and a remainder part.
        assert(x == t2 * hpart + rpart) by (nonlinear_arith)
            requires
                t == 0x1_0000_0000_0000_0000,
                t2 == 0x1_0000_0000_0000_0000_0000_0000_0000_0000int,
                x == (s as int) * (s as int) * (kk as int),
                hpart == (kk as int) * (a2 as int) + 2 * (kk as int) * (c_hi as int),
                rpart == t * (bmid as int) + (kk as int) * (d_lo as int),
                s == t * (a as int) + (b as int),
                a2 == (a as int) * (a as int),
                c == (a as int) * (b as int),
                d == (b as int) * (b as int),
                c == t * (c_hi as int) + (c_lo as int),
                d == t * (d_hi as int) + (d_lo as int),
                bmid == 2 * (kk as int) * (c_lo as int) + (kk as int) * (d_hi as int),
        {}
        // low == rpart / 2^128, by peeling one 2^64 division at a time.
        let cterm = (kk as int) * (d_lo as int);
        let q1 = cterm / t;
        let r1 = cterm % t;
        vstd::arithmetic::div_mod::lemma_fundamental_div_mod(cterm, t);
        vstd::arithmetic::div_mod::lemma_fundamental_div_mod_converse(
            rpart, t, (bmid as int) + q1, r1);
        vstd::arithmetic::div_mod::lemma_div_denominator(rpart, t, t);
        assert(t * t == t2) by (nonlinear_arith)
            requires
                t == 0x1_0000_0000_0000_0000,
                t2 == 0x1_0000_0000_0000_0000_0000_0000_0000_0000int,
        {}
        assert(rpart / t == (bmid as int) + q1);
        assert(low == rpart / t2);
        vstd::arithmetic::div_mod::lemma_div_pos_is_pos(rpart, t2);
        // x / 2^128 == hpart + rpart / 2^128.
        let q2 = rpart / t2;
        let r2 = rpart % t2;
        vstd::arithmetic::div_mod::lemma_fundamental_div_mod(rpart, t2);
        assert(x == (hpart + q2) * t2 + r2) by (nonlinear_arith)
            requires
                x == t2 * hpart + rpart,
                rpart == t2 * q2 + r2,
        {}
        vstd::arithmetic::div_mod::lemma_fundamental_div_mod_converse(x, t2, hpart + q2, r2);
        assert(x / t2 == hpart + (low as int));
    }

    if a2 > u128::MAX / kk {
        proof {
            let m = u128::MAX as int;
            vstd::arithmetic::div_mod::lemma_fundamental_div_mod(m, kk as int);
            assert((kk as int) * (a2 as int) > m) by (nonlinear_arith)
                requires
                    kk >= 1,
                    m == (kk as int) * (m / (kk as int)) + m % (kk as int),
                    0 <= m % (kk as int) < kk,
                    a2 > m / (kk as int),
            {}
            assert(2 * (kk as int) * (c_hi as int) >= 0) by (nonlinear_arith)
                requires kk >= 0, c_hi >= 0,
            {}
            assert(x / t2 > u128::MAX);
        }
        return u128::MAX;
    }
    proof {
        vstd::arithmetic::div_mod::lemma_fundamental_div_mod(u128::MAX as int, kk as int);
        assert((kk as int) * (a2 as int) <= u128::MAX) by (nonlinear_arith)
            requires
                kk >= 1,
                u128::MAX == (kk as int) * ((u128::MAX as int) / (kk as int))
                    + (u128::MAX as int) % (kk as int),
                0 <= (u128::MAX as int) % (kk as int),
                a2 <= (u128::MAX as int) / (kk as int),
        {
        }
    }
    let h: u128 = kk * a2;
    let h2: u128 = 2 * kk * c_hi;
    if h > u128::MAX - h2 {
        proof {
            assert(x / t2 > u128::MAX);
        }
        return u128::MAX;
    }
    let h3: u128 = h + h2;
    if h3 > u128::MAX - low {
        proof {
            assert(x / t2 > u128::MAX);
        }
        return u128::MAX;
    }
    proof {
        assert(x / t2 == h3 + low <= u128::MAX);
    }
    h3 + low
}

pub proof fn lemma_pow10_values()
    ensures
        pow10(0) == 1,
        pow10(3) == 1_000,
        pow10(6) == 1_000_000,
        pow10(9) == 1_000_000_000,
        pow10(12) == 1_000_000_000_000,
    decreases 0int,
{
    reveal_with_fuel(pow10, 13);
}

pub proof fn lemma_pow10_increases(m: nat, n: nat)
    requires
        m <= n,
    ensures
        pow10(m) <= pow10(n),
    decreases n,
{
    if m < n {
        lemma_pow10_increases(m, (n - 1) as nat);
        lemma_pow10_positive((n - 1) as nat);
    }
}

pub proof fn lemma_pow10_positive(n: nat)
    ensures
        pow10(n) >= 1,
    decreases n,
{
    if n > 0 {
        lemma_pow10_positive((n - 1) as nat);
    }
}

/// 10 raised to a small exponent.
pub fn pow10_u64(e: u32) -> (r: u64)
    requires
        e <= 9,
    ensures
        r == pow10(e as nat),
        1 <= r <= 1_000_000_000,
{
    proof {
        lemma_pow10_values();
    }
    let mut r: u64 = 1;
    let mut j: u32 = 0;
    while j < e
        invariant
            j <= e <= 9,
            r == pow10(j as nat),
        decreases e - j,
    {
        proof {
            lemma_pow10_increases(j as nat, 8);
            assert(pow10(8) == 100_000_000) by {
                reveal_with_fuel(pow10, 9);
            }
        }
        r = r * 10;
        j = j + 1;
    }
    proof {
        lemma_pow10_positive(e as nat);
        lemma_pow10_increases(e as nat, 9);
    }
    r
}

pub proof fn lemma_pow256_increases(m: nat, n: nat)
    requires
        m <= n,
    ensures
        pow256(m) <= pow256(n),
    decreases n,
{
    if m < n {
        lemma_pow256_increases(m, (n - 1) as nat);
        lemma_pow256_positive((n - 1) as nat);
    }
}

pub proof fn lemma_pow256_positive(n: nat)
    ensures
        pow256(n) >= 1,
    decreases n,
{
    if n > 0 {
        lemma_pow256_positive((n - 1) as nat);
    }
}

} // verus!
