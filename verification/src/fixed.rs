//! Signed fixed-point scalar arithmetic, as a hardware datapath would
//! implement it: a raw `i32` register interpreted with `FRAC_BITS` fractional
//! bits, wrapping add/sub, a widening multiply, and lookup-table seeded
//! Newton iterations for `inv_sqrt` and `recip_lte1`.

use vstd::prelude::*;

verus! {

/// Number of fractional bits: a `Fixed` with raw register `r` stands for
/// the real number `r / 2^FRAC_BITS`.
pub const FRAC_BITS: u32 = 15;

/// The raw register holding the real value 1.
pub const ONE_RAW: i32 = 0x8000;

/// A signed fixed-point number: `raw` scaled by `2^-FRAC_BITS`.
#[derive(Clone, Copy, Debug, PartialEq, Eq, Structural)]
pub struct Fixed {
    pub raw: i32,
}

/// Wrapping addition on the raw register, as an `i32` adder computes it.
pub open spec fn fx_add(a: int, b: int) -> int {
    if a + b > i32::MAX {
        a + b - 0x1_0000_0000
    } else if a + b < i32::MIN {
        a + b + 0x1_0000_0000
    } else {
        a + b
    }
}

/// Wrapping subtraction on the raw register.
pub open spec fn fx_sub(a: int, b: int) -> int {
    if a - b > i32::MAX {
        a - b - 0x1_0000_0000
    } else if a - b < i32::MIN {
        a - b + 0x1_0000_0000
    } else {
        a - b
    }
}

/// Clamp an unbounded integer into the `i32` range.
pub open spec fn sat32(x: int) -> int {
    if x > i32::MAX {
        i32::MAX as int
    } else if x < i32::MIN {
        i32::MIN as int
    } else {
        x
    }
}

/// The fixed-point product: the wide product of the raw registers, shifted
/// right by `FRAC_BITS` rounding toward minus infinity, saturated to `i32`.
/// (`/` on `int` is Euclidean, which for the positive divisor `2^FRAC_BITS`
/// is exactly the floor.)
pub open spec fn fx_mul(a: int, b: int) -> int {
    sat32((a * b) / 0x8000)
}

/// Floor of the fixed-point value: the raw register arithmetically shifted
/// right by `FRAC_BITS`.
pub open spec fn fx_floor(a: int) -> int {
    a / 0x8000
}

/// Absolute value on the raw register; `i32::MIN` wraps to itself.
pub open spec fn fx_abs(a: int) -> int {
    if a < 0 {
        fx_sub(0, a)
    } else {
        a
    }
}

impl Fixed {
    /// Wrap a raw register.
    pub fn from_raw(raw: i32) -> (r: Fixed)
        ensures
            r.raw == raw,
    {
        Fixed { raw }
    }

    /// The fixed-point representation of a small integer.
    pub fn from_int(v: i32) -> (r: Fixed)
        requires
            -0x1_0000 <= v <= 0xffff,
        ensures
            r.raw == v * 0x8000,
    {
        Fixed { raw: v * 0x8000 }
    }

    /// The largest representable value.
    pub fn max_value() -> (r: Fixed)
        ensures
            r.raw == i32::MAX,
    {
        Fixed { raw: i32::MAX }
    }

    /// The smallest representable value.
    pub fn min_value() -> (r: Fixed)
        ensures
            r.raw == i32::MIN,
    {
        Fixed { raw: i32::MIN }
    }

    /// Zero.
    pub fn zero() -> (r: Fixed)
        ensures
            r.raw == 0,
    {
        Fixed { raw: 0 }
    }

    /// One.
    pub fn one() -> (r: Fixed)
        ensures
            r.raw == ONE_RAW,
    {
        Fixed { raw: ONE_RAW }
    }

    /// Wrapping addition, as the hardware adder behaves.
    pub fn add(self, rhs: Fixed) -> (r: Fixed)
        ensures
            r.raw == fx_add(self.raw as int, rhs.raw as int),
    {
        Fixed { raw: self.raw.wrapping_add(rhs.raw) }
    }

    /// Wrapping subtraction.
    pub fn sub(self, rhs: Fixed) -> (r: Fixed)
        ensures
            r.raw == fx_sub(self.raw as int, rhs.raw as int),
    {
        Fixed { raw: self.raw.wrapping_sub(rhs.raw) }
    }

    /// Wrapping negation.
    pub fn neg(self) -> (r: Fixed)
        ensures
            r.raw == fx_sub(0, self.raw as int),
    {
        Fixed { raw: 0i32.wrapping_sub(self.raw) }
    }

    /// Absolute value of the raw register; `i32::MIN` wraps to itself.
    pub fn abs(self) -> (r: Fixed)
        ensures
            r.raw == fx_abs(self.raw as int),
    {
        if self.raw < 0 {
            Fixed { raw: 0i32.wrapping_sub(self.raw) }
        } else {
            self
        }
    }

    /// Strict comparison of the underlying values.
    pub fn lt(self, rhs: Fixed) -> (r: bool)
        ensures
            r == (self.raw < rhs.raw),
    {
        self.raw < rhs.raw
    }

    /// Fixed-point multiplication: widen to 64 bits, multiply, shift right
    /// by `FRAC_BITS` toward minus infinity, saturate to the register width.
    pub fn mul(self, rhs: Fixed) -> (r: Fixed)
        ensures
            r.raw == fx_mul(self.raw as int, rhs.raw as int),
    {
        let a = self.raw as i64;
        let b = rhs.raw as i64;
        let negative = (a < 0) != (b < 0);
        let ua: u64 = if a < 0 { (-a) as u64 } else { a as u64 };
        let ub: u64 = if b < 0 { (-b) as u64 } else { b as u64 };
        proof {
            assert(ua * ub == if a * b >= 0 { a * b } else { -(a * b) } && ua * ub
                <= 0x8000_0000 * 0x8000_0000 && (!negative ==> a * b >= 0) && (negative ==> a * b
                <= 0)) by (nonlinear_arith)
                requires
                    ua == if a < 0 { -(a as int) } else { a as int },
                    ub == if b < 0 { -(b as int) } else { b as int },
                    negative == ((a < 0) != (b < 0)),
                    -0x8000_0000 <= a <= 0x7fff_ffff,
                    -0x8000_0000 <= b <= 0x7fff_ffff,
            ;
        }
        let m: u64 = ua * ub;
        if !negative {
            // floor(m / 2^15) for a non-negative product
            let q: u64 = m / 0x8000;
            proof {
                lemma_nonneg_quotient(a as int, b as int, m as int, q as int);
            }
            if q > 0x7fff_ffff {
                Fixed { raw: i32::MAX }
            } else {
                Fixed { raw: q as i32 }
            }
        } else {
            // floor(-m / 2^15) == -ceil(m / 2^15)
            let q: u64 = (m + 0x7fff) / 0x8000;
            proof {
                lemma_neg_quotient(a as int, b as int, m as int, q as int);
            }
            if q > 0x8000_0000 {
                Fixed { raw: i32::MIN }
            } else if q == 0x8000_0000 {
                Fixed { raw: i32::MIN }
            } else {
                Fixed { raw: -(q as i64) as i32 }
            }
        }
    }

    /// Floor of the value as a plain integer, in `[-0x1_0000, 0xffff]`.
    pub fn floor(self) -> (r: i32)
        ensures
            r == fx_floor(self.raw as int),
            -0x1_0000 <= r <= 0xffff,
    {
        if self.raw >= 0 {
            let q: u32 = (self.raw as u32) / 0x8000;
            q as i32
        } else {
            let m: u32 = (-(self.raw as i64)) as u32;
            let q: u32 = (m + 0x7fff) / 0x8000;
            proof {
                lemma_neg_floor(self.raw as int, m as int, q as int);
            }
            -(q as i64) as i32
        }
    }
}

/// For a product `m == |a*b|` of a non-negative `a*b`, the unsigned floor
/// quotient is the signed floor quotient.
proof fn lemma_nonneg_quotient(a: int, b: int, m: int, q: int)
    requires
        m == if a * b >= 0 { a * b } else { -(a * b) },
        a * b >= 0,
        q == m / 0x8000,
    ensures
        q == (a * b) / 0x8000,
        q >= 0,
{
}

/// For a non-positive product `a*b == -m`, flooring the quotient equals the
/// negated rounded-up quotient of the magnitude.
proof fn lemma_neg_quotient(a: int, b: int, m: int, q: int)
    requires
        m == if a * b >= 0 { a * b } else { -(a * b) },
        a * b <= 0,
        q == (m + 0x7fff) / 0x8000,
    ensures
        -q == (a * b) / 0x8000,
        q >= 0,
{
    lemma_floor_neg(m, q, 0x8000);
}

/// Flooring `-m / d` equals negating the rounded-up `m / d`.
proof fn lemma_floor_neg(m: int, q: int, d: int)
    requires
        m >= 0,
        d > 0,
        q == (m + d - 1) / d,
    ensures
        -q == (-m) / d,
        m > 0 ==> q >= 1,
{
    let qm = m / d;
    let rm = m % d;
    let qn = (-m) / d;
    let rn = (-m) % d;
    let rq = (m + d - 1) % d;
    vstd::arithmetic::div_mod::lemma_fundamental_div_mod(m, d);
    vstd::arithmetic::div_mod::lemma_fundamental_div_mod(-m, d);
    vstd::arithmetic::div_mod::lemma_fundamental_div_mod(m + d - 1, d);
    vstd::arithmetic::div_mod::lemma_mod_bound(m, d);
    vstd::arithmetic::div_mod::lemma_mod_bound(-m, d);
    vstd::arithmetic::div_mod::lemma_mod_bound(m + d - 1, d);
    assert(qn == if rm == 0 { -qm } else { -qm - 1 }) by (nonlinear_arith)
        requires
            d > 0,
            m == d * qm + rm,
            0 <= rm < d,
            -m == d * qn + rn,
            0 <= rn < d,
    ;
    assert(q == if rm == 0 { qm } else { qm + 1 }) by (nonlinear_arith)
        requires
            d > 0,
            m >= 0,
            m == d * qm + rm,
            0 <= rm < d,
            m + d - 1 == d * q + rq,
            0 <= rq < d,
    ;
    assert(m > 0 ==> q >= 1) by (nonlinear_arith)
        requires
            d > 0,
            m == d * qm + rm,
            0 <= rm < d,
            q == if rm == 0 { qm } else { qm + 1 },
            m >= 0,
    ;
}

/// Helper for `floor` on a negative register.
proof fn lemma_neg_floor(raw: int, m: int, q: int)
    requires
        -0x8000_0000 <= raw < 0,
        m == -raw,
        q == (m + 0x7fff) / 0x8000,
    ensures
        -q == raw / 0x8000,
        1 <= q <= 0x1_0000,
{
    lemma_floor_neg(m, q, 0x8000);
    vstd::arithmetic::div_mod::lemma_div_is_ordered(m + 0x7fff, 0x8000_7fff as int, 0x8000);
    assert((0x8000_0000 + 0x7fff) / 0x8000 == 0x1_0000);
    vstd::arithmetic::div_mod::lemma_div_is_ordered(0x8000, m + 0x7fff, 0x8000);
    assert(0x8000int / 0x8000 == 1);
}

} // verus!

verus! {

/// Floor of half the raw register, as an arithmetic right shift computes it.
pub open spec fn fx_half(a: int) -> int {
    a / 2
}

/// One Newton iteration for the inverse square root:
/// `x <- x * (1.5 - (v/2 * x) * x)`, associated to keep intermediate
/// magnitudes near 1.
pub open spec fn isqrt_step(half: int, x: int) -> int {
    fx_mul(x, fx_sub(0xc000, fx_mul(fx_mul(half, x), x)))
}

/// The inverse-square-root approximation: a seed from `isqrt_lut_spec`
/// keyed by the count of leading zeros, then two Newton iterations.
/// An input of 0 yields 0.
pub open spec fn inv_sqrt_spec(raw: i32) -> int {
    if raw == 0 {
        0
    } else {
        let lz = vstd::std_specs::bits::u32_leading_zeros(raw as u32);
        let half = fx_half(raw as int);
        isqrt_step(half, isqrt_step(half, isqrt_lut_spec(lz)))
    }
}

/// One Newton iteration for the reciprocal: `x <- 2x - x * (v * x)`,
/// associated to keep intermediate magnitudes near 1.
pub open spec fn recip_step(v: int, x: int) -> int {
    fx_sub(fx_add(x, x), fx_mul(x, fx_mul(v, x)))
}

/// Index into the reciprocal seed table: the top six fractional bits of the
/// magnitude of the raw register.
pub open spec fn recip_idx_spec(raw: i32) -> int {
    let m = if raw < 0 {
        -(raw as int)
    } else {
        raw as int
    };
    (m / 0x200) % 64
}

/// The reciprocal approximation for inputs of magnitude at most 1: a signed
/// seed from `recip_lut_spec`, then two Newton iterations. An input of 0
/// yields 0.
pub open spec fn recip_lte1_spec(raw: i32) -> int {
    if raw == 0 {
        0
    } else {
        let e = recip_lut_spec(recip_idx_spec(raw) as u32);
        let x0 = if raw < 0 {
            -e
        } else {
            e
        };
        recip_step(raw as int, recip_step(raw as int, x0))
    }
}

impl Fixed {
    /// Floor of half the raw register.
    fn half_floor(self) -> (r: Fixed)
        ensures
            r.raw == fx_half(self.raw as int),
    {
        if self.raw >= 0 {
            Fixed { raw: ((self.raw as u32) / 2) as i32 }
        } else {
            let m: u32 = (-(self.raw as i64)) as u32;
            let q: u32 = (m + 1) / 2;
            proof {
                lemma_floor_neg(m as int, q as int, 2);
            }
            Fixed { raw: -(q as i64) as i32 }
        }
    }

    /// One executable Newton iteration for the inverse square root.
    fn isqrt_newton(self, half: Fixed) -> (r: Fixed)
        ensures
            r.raw == isqrt_step(half.raw as int, self.raw as int),
    {
        self.mul(Fixed { raw: 0xc000 }.sub(half.mul(self).mul(self)))
    }

    /// Approximate `1 / sqrt(v)` as the hardware does: a table seed keyed by
    /// the count of leading zeros of the raw register, then two Newton
    /// iterations. `inv_sqrt` of 0 is 0; negative inputs are folded through
    /// the same total datapath and yield no meaningful value.
    pub fn inv_sqrt(self) -> (r: Fixed)
        ensures
            r.raw == inv_sqrt_spec(self.raw),
    {
        if self.raw == 0 {
            return Fixed { raw: 0 };
        }
        let lz: u32 = (self.raw as u32).leading_zeros();
        let x0 = Fixed { raw: isqrt_lut(lz) };
        let half = self.half_floor();
        let x1 = x0.isqrt_newton(half);
        x1.isqrt_newton(half)
    }

    /// One executable Newton iteration for the reciprocal.
    fn recip_newton(self, v: Fixed) -> (r: Fixed)
        ensures
            r.raw == recip_step(v.raw as int, self.raw as int),
    {
        self.add(self).sub(self.mul(v.mul(self)))
    }

    /// Approximate `1 / v` for `0 < |v| <= 1` as the hardware does: a signed
    /// table seed from the top six fractional bits of the magnitude, then
    /// two Newton iterations. `recip_lte1` of 0 is 0.
    pub fn recip_lte1(self) -> (r: Fixed)
        ensures
            r.raw == recip_lte1_spec(self.raw),
    {
        if self.raw == 0 {
            return Fixed { raw: 0 };
        }
        let m: u32 = if self.raw < 0 {
            (-(self.raw as i64)) as u32
        } else {
            self.raw as u32
        };
        let idx: u32 = (m / 0x200) % 64;
        let e: i32 = recip_lut(idx);
        let x0 = Fixed { raw: if self.raw < 0 { -e } else { e } };
        let x1 = x0.recip_newton(self);
        x1.recip_newton(self)
    }
}

/// Seed table for `inv_sqrt`, indexed by the count of leading zeros of the
/// raw register: entry `i` holds the fixed-point value of
/// `1 / sqrt(3 * 2^(30 - i) / 2^FRAC_BITS)` (entry 31 seeds the lone raw
/// value 1).
pub open spec fn isqrt_lut_spec(i: u32) -> int {
    if i == 0 {
        104
    } else if i == 1 {
        147
    } else if i == 2 {
        209
    } else if i == 3 {
        295
    } else if i == 4 {
        418
    } else if i == 5 {
        591
    } else if i == 6 {
        836
    } else if i == 7 {
        1182
    } else if i == 8 {
        1672
    } else if i == 9 {
        2364
    } else if i == 10 {
        3344
    } else if i == 11 {
        4729
    } else if i == 12 {
        6688
    } else if i == 13 {
        9459
    } else if i == 14 {
        13377
    } else if i == 15 {
        18918
    } else if i == 16 {
        26754
    } else if i == 17 {
        37837
    } else if i == 18 {
        53509
    } else if i == 19 {
        75674
    } else if i == 20 {
        107019
    } else if i == 21 {
        151348
    } else if i == 22 {
        214039
    } else if i == 23 {
        302697
    } else if i == 24 {
        428079
    } else if i == 25 {
        605395
    } else if i == 26 {
        856158
    } else if i == 27 {
        1210791
    } else if i == 28 {
        1712317
    } else if i == 29 {
        2421582
    } else if i == 30 {
        3424634
    } else {
        5931641
    }
}

/// Executable copy of the `inv_sqrt` seed table.
pub fn isqrt_lut(i: u32) -> (r: i32)
    ensures
        r == isqrt_lut_spec(i),
        0 < r <= 0x5a82f9,
{
    if i == 0 {
        104
    } else if i == 1 {
        147
    } else if i == 2 {
        209
    } else if i == 3 {
        295
    } else if i == 4 {
        418
    } else if i == 5 {
        591
    } else if i == 6 {
        836
    } else if i == 7 {
        1182
    } else if i == 8 {
        1672
    } else if i == 9 {
        2364
    } else if i == 10 {
        3344
    } else if i == 11 {
        4729
    } else if i == 12 {
        6688
    } else if i == 13 {
        9459
    } else if i == 14 {
        13377
    } else if i == 15 {
        18918
    } else if i == 16 {
        26754
    } else if i == 17 {
        37837
    } else if i == 18 {
        53509
    } else if i == 19 {
        75674
    } else if i == 20 {
        107019
    } else if i == 21 {
        151348
    } else if i == 22 {
        214039
    } else if i == 23 {
        302697
    } else if i == 24 {
        428079
    } else if i == 25 {
        605395
    } else if i == 26 {
        856158
    } else if i == 27 {
        1210791
    } else if i == 28 {
        1712317
    } else if i == 29 {
        2421582
    } else if i == 30 {
        3424634
    } else {
        5931641
    }
}

/// Seed table for `recip_lte1`, indexed by the top six fractional bits of
/// the magnitude: entry `i` holds the fixed-point value of `64 / (i + 0.5)`
/// (entry 0, which only an input below 1/64 or exactly 1 selects, holds 1).
pub open spec fn recip_lut_spec(i: u32) -> int {
    if i == 0 {
        32768
    } else if i == 1 {
        1398101
    } else if i == 2 {
        838860
    } else if i == 3 {
        599186
    } else if i == 4 {
        466033
    } else if i == 5 {
        381300
    } else if i == 6 {
        322638
    } else if i == 7 {
        279620
    } else if i == 8 {
        246723
    } else if i == 9 {
        220752
    } else if i == 10 {
        199728
    } else if i == 11 {
        182361
    } else if i == 12 {
        167772
    } else if i == 13 {
        155344
    } else if i == 14 {
        144631
    } else if i == 15 {
        135300
    } else if i == 16 {
        127100
    } else if i == 17 {
        119837
    } else if i == 18 {
        113359
    } else if i == 19 {
        107546
    } else if i == 20 {
        102300
    } else if i == 21 {
        97541
    } else if i == 22 {
        93206
    } else if i == 23 {
        89240
    } else if i == 24 {
        85598
    } else if i == 25 {
        82241
    } else if i == 26 {
        79137
    } else if i == 27 {
        76260
    } else if i == 28 {
        73584
    } else if i == 29 {
        71089
    } else if i == 30 {
        68759
    } else if i == 31 {
        66576
    } else if i == 32 {
        64527
    } else if i == 33 {
        62601
    } else if i == 34 {
        60787
    } else if i == 35 {
        59074
    } else if i == 36 {
        57456
    } else if i == 37 {
        55924
    } else if i == 38 {
        54471
    } else if i == 39 {
        53092
    } else if i == 40 {
        51781
    } else if i == 41 {
        50533
    } else if i == 42 {
        49344
    } else if i == 43 {
        48210
    } else if i == 44 {
        47127
    } else if i == 45 {
        46091
    } else if i == 46 {
        45100
    } else if i == 47 {
        44150
    } else if i == 48 {
        43240
    } else if i == 49 {
        42366
    } else if i == 50 {
        41527
    } else if i == 51 {
        40721
    } else if i == 52 {
        39945
    } else if i == 53 {
        39199
    } else if i == 54 {
        38479
    } else if i == 55 {
        37786
    } else if i == 56 {
        37117
    } else if i == 57 {
        36472
    } else if i == 58 {
        35848
    } else if i == 59 {
        35246
    } else if i == 60 {
        34663
    } else if i == 61 {
        34100
    } else if i == 62 {
        33554
    } else {
        33026
    }
}

/// Executable copy of the `recip_lte1` seed table.
pub fn recip_lut(i: u32) -> (r: i32)
    ensures
        r == recip_lut_spec(i),
        0 < r <= 0x155555,
{
    if i == 0 {
        32768
    } else if i == 1 {
        1398101
    } else if i == 2 {
        838860
    } else if i == 3 {
        599186
    } else if i == 4 {
        466033
    } else if i == 5 {
        381300
    } else if i == 6 {
        322638
    } else if i == 7 {
        279620
    } else if i == 8 {
        246723
    } else if i == 9 {
        220752
    } else if i == 10 {
        199728
    } else if i == 11 {
        182361
    } else if i == 12 {
        167772
    } else if i == 13 {
        155344
    } else if i == 14 {
        144631
    } else if i == 15 {
        135300
    } else if i == 16 {
        127100
    } else if i == 17 {
        119837
    } else if i == 18 {
        113359
    } else if i == 19 {
        107546
    } else if i == 20 {
        102300
    } else if i == 21 {
        97541
    } else if i == 22 {
        93206
    } else if i == 23 {
        89240
    } else if i == 24 {
        85598
    } else if i == 25 {
        82241
    } else if i == 26 {
        79137
    } else if i == 27 {
        76260
    } else if i == 28 {
        73584
    } else if i == 29 {
        71089
    } else if i == 30 {
        68759
    } else if i == 31 {
        66576
    } else if i == 32 {
        64527
    } else if i == 33 {
        62601
    } else if i == 34 {
        60787
    } else if i == 35 {
        59074
    } else if i == 36 {
        57456
    } else if i == 37 {
        55924
    } else if i == 38 {
        54471
    } else if i == 39 {
        53092
    } else if i == 40 {
        51781
    } else if i == 41 {
        50533
    } else if i == 42 {
        49344
    } else if i == 43 {
        48210
    } else if i == 44 {
        47127
    } else if i == 45 {
        46091
    } else if i == 46 {
        45100
    } else if i == 47 {
        44150
    } else if i == 48 {
        43240
    } else if i == 49 {
        42366
    } else if i == 50 {
        41527
    } else if i == 51 {
        40721
    } else if i == 52 {
        39945
    } else if i == 53 {
        39199
    } else if i == 54 {
        38479
    } else if i == 55 {
        37786
    } else if i == 56 {
        37117
    } else if i == 57 {
        36472
    } else if i == 58 {
        35848
    } else if i == 59 {
        35246
    } else if i == 60 {
        34663
    } else if i == 61 {
        34100
    } else if i == 62 {
        33554
    } else {
        33026
    }
}

} // verus!
