//! Signed fixed-point values as the geometry coprocessor's registers
//! hold them: a raw `i64` tagged with its number of fraction bits.

use vstd::prelude::*;

verus! {

use vstd::arithmetic::power2::lemma2_to64;
use vstd::arithmetic::power2::lemma_pow2_strictly_increases;
use vstd::arithmetic::power2::pow2;

/// A signed fixed-point value with `FRACTION_BITS` fraction bits.
#[derive(Debug, Clone, Copy, PartialEq, Eq)]
pub struct FixedPointDecimal<const FRACTION_BITS: u8>(pub i64);

/// `2 ^ k` as an `i64`.
pub fn pow2_i64(k: u8) -> (r: i64)
    requires
        k <= 62,
    ensures
        r == pow2(k as nat),
        r >= 1,
{
    proof {
        lemma2_to64();
        vstd::arithmetic::power2::lemma2_to64_rest();
    }
    let mut result: i64 = 1;
    let mut i: u8 = 0;
    while i < k
        invariant
            i <= k <= 62,
            result == pow2(i as nat),
            1 <= result,
        decreases k - i,
    {
        proof {
            if (i as nat) < 62 {
                lemma_pow2_strictly_increases(i as nat, 62);
            }
            assert(pow2(62) == 0x4000000000000000) by {
                vstd::arithmetic::power2::lemma2_to64_rest();
            }
            assert(pow2((i + 1) as nat) == 2 * pow2(i as nat)) by {
                vstd::arithmetic::power2::lemma_pow2_unfold((i + 1) as nat);
            }
        }
        result = result * 2;
        i = i + 1;
    }
    result
}

/// Floor division of an `i64` by a positive divisor, which is what an
/// arithmetic right shift computes.
pub fn div_floor_i64(x: i64, d: i64) -> (r: i64)
    requires
        d >= 1,
    ensures
        r == x as int / d as int,
{
    proof {
        vstd::arithmetic::div_mod::lemma_fundamental_div_mod(x as int, d as int);
        vstd::arithmetic::div_mod::lemma_mod_bound(x as int, d as int);
        let q = x as int / d as int;
        let rem = x as int % d as int;
        assert(x == d * q + rem);
        assert(q >= x || q >= 0) by (nonlinear_arith)
            requires
                d >= 1 && x == d * q + rem && 0 <= rem < d,
        ;
        assert(q <= x || q <= 0) by (nonlinear_arith)
            requires
                d >= 1 && x == d * q + rem && 0 <= rem < d,
        ;
    }
    match x.checked_div_euclid(d) {
        Some(q) => q,
        None => {
            proof {
                assert(false);
            }
            0
        },
    }
}

/// The low 16 bits of a word read as a signed value.
pub open spec fn spec_sign_extend_16(value: u32) -> int {
    if value & 0xFFFF >= 0x8000 {
        (value & 0xFFFF) - 0x10000
    } else {
        (value & 0xFFFF) as int
    }
}

/// A whole word read as a signed value.
pub open spec fn spec_sign_extend_32(value: u32) -> int {
    if value >= 0x80000000 {
        value - 0x100000000
    } else {
        value as int
    }
}

/// Reads the low 16 bits of a register as a signed value.
fn sign_extend_16(value: u32) -> (r: i64)
    ensures
        r == spec_sign_extend_16(value),
        -0x8000 <= r < 0x8000,
{
    let halfword = value & 0xFFFF;
    proof {
        crate::lemma_word_mask_bound(value, 0xFFFF);
    }
    if halfword >= 0x8000 {
        (halfword as i64) - 0x10000
    } else {
        halfword as i64
    }
}

/// Reads a whole register as a signed value.
fn sign_extend_32(value: u32) -> (r: i64)
    ensures
        r == spec_sign_extend_32(value),
        -0x80000000 <= r < 0x80000000,
{
    if value >= 0x80000000 {
        (value as i64) - 0x100000000
    } else {
        value as i64
    }
}

impl<const FRACTION_BITS: u8> FixedPointDecimal<FRACTION_BITS> {
    /// Wraps a raw value.
    pub fn new(value: i64) -> (r: Self)
        ensures
            r.0 == value,
    {
        Self(value)
    }

    /// Moves the value to another number of fraction bits: scaling up
    /// multiplies by a power of two, scaling down divides, rounding
    /// toward minus infinity as the hardware's arithmetic shifts do.
    pub fn shift_to<const NEW_FRACTION_BITS: u8>(self) -> (r: FixedPointDecimal<NEW_FRACTION_BITS>)
        requires
            FRACTION_BITS <= 62 && NEW_FRACTION_BITS <= 62,
            NEW_FRACTION_BITS > FRACTION_BITS ==> -0x8000000000000000
                <= self.0 * pow2((NEW_FRACTION_BITS - FRACTION_BITS) as nat)
                < 0x8000000000000000,
        ensures
            NEW_FRACTION_BITS > FRACTION_BITS ==> r.0 == self.0 * pow2(
                (NEW_FRACTION_BITS - FRACTION_BITS) as nat,
            ),
            NEW_FRACTION_BITS <= FRACTION_BITS ==> r.0 == self.0 as int / (pow2(
                (FRACTION_BITS - NEW_FRACTION_BITS) as nat,
            ) as int),
    {
        if NEW_FRACTION_BITS > FRACTION_BITS {
            let scale = pow2_i64(NEW_FRACTION_BITS - FRACTION_BITS);
            FixedPointDecimal(self.0 * scale)
        } else {
            let scale = pow2_i64(FRACTION_BITS - NEW_FRACTION_BITS);
            FixedPointDecimal(div_floor_i64(self.0, scale))
        }
    }

    /// Keeps the raw value and retags it with another number of fraction
    /// bits.
    pub fn reinterpret<const NEW_FRACTION_BITS: u8>(self) -> (r: FixedPointDecimal<NEW_FRACTION_BITS>)
        ensures
            r.0 == self.0,
    {
        FixedPointDecimal(self.0)
    }

    /// Sign-extends the value's low 32 bits, as storing it in a 32-bit
    /// register and reading it back does.
    pub fn clip_to_i32(self) -> (r: Self)
        ensures
            r.0 == spec_clip_i32(self.0 as int),
            -0x80000000 <= r.0 < 0x80000000,
    {
        let m = match self.0.checked_rem_euclid(0x100000000) {
            Some(m) => m,
            None => {
                proof {
                    assert(false);
                }
                0
            },
        };
        proof {
            vstd::arithmetic::div_mod::lemma_mod_bound(self.0 as int, 0x100000000);
        }
        if m >= 0x80000000 {
            Self(m - 0x100000000)
        } else {
            Self(m)
        }
    }

    /// The sum of two values with the same scale.
    pub fn plus(self, rhs: Self) -> (r: Self)
        requires
            -0x8000000000000000 <= self.0 + rhs.0 < 0x8000000000000000,
        ensures
            r.0 == self.0 + rhs.0,
    {
        Self(self.0 + rhs.0)
    }

    /// The difference of two values with the same scale.
    pub fn minus(self, rhs: Self) -> (r: Self)
        requires
            -0x8000000000000000 <= self.0 - rhs.0 < 0x8000000000000000,
        ensures
            r.0 == self.0 - rhs.0,
    {
        Self(self.0 - rhs.0)
    }

    /// The product of two values; the scales add, so the result carries
    /// the sum of the two fraction-bit counts.
    pub fn times<const RHS_FRACTION_BITS: u8, const OUT_FRACTION_BITS: u8>(
        self,
        rhs: FixedPointDecimal<RHS_FRACTION_BITS>,
    ) -> (r: FixedPointDecimal<OUT_FRACTION_BITS>)
        requires
            OUT_FRACTION_BITS == FRACTION_BITS + RHS_FRACTION_BITS,
            -0x8000000000000000 <= self.0 * rhs.0 < 0x8000000000000000,
        ensures
            r.0 == self.0 * rhs.0,
    {
        FixedPointDecimal(self.0 * rhs.0)
    }
}

/// A value's low 32 bits sign-extended, as a 32-bit register returns it.
pub open spec fn spec_clip_i32(v: int) -> int {
    let m = v % 0x100000000;
    if m >= 0x80000000 {
        m - 0x100000000
    } else {
        m
    }
}

/// V0-V2 and IR1-IR3 components are signed 16-bit integers.
pub type Vector16Component = FixedPointDecimal<0>;

/// Reads a vector or IR component out of a register's low halfword.
pub fn vector16_component(value: u32) -> (r: Vector16Component)
    ensures
        r.0 == spec_sign_extend_16(value),
        -0x8000 <= r.0 < 0x8000,
{
    FixedPointDecimal(sign_extend_16(value))
}

/// TRX, TRY, and TRZ are signed 32-bit integers.
pub type TranslationComponent = FixedPointDecimal<0>;

/// Reads a translation component out of a whole register.
pub fn translation_component(value: u32) -> (r: TranslationComponent)
    ensures
        r.0 == spec_sign_extend_32(value),
        -0x80000000 <= r.0 < 0x80000000,
{
    FixedPointDecimal(sign_extend_32(value))
}

/// Rotation and light matrix components carry 12 fraction bits.
pub type MatrixComponent = FixedPointDecimal<12>;

/// Reads a matrix component out of a register's low halfword.
pub fn matrix_component(value: u32) -> (r: MatrixComponent)
    ensures
        r.0 == spec_sign_extend_16(value),
        -0x8000 <= r.0 < 0x8000,
{
    FixedPointDecimal(sign_extend_16(value))
}

/// Division results are unsigned with 16 fraction bits.
pub type DivisionResult = FixedPointDecimal<16>;

/// Wraps a division result.
pub fn division_result(value: u32) -> (r: DivisionResult)
    ensures
        r.0 == value,
{
    FixedPointDecimal(value as i64)
}

/// OFX and OFY carry 16 fraction bits.
pub type ScreenOffset = FixedPointDecimal<16>;

/// Reads a screen offset out of a whole register.
pub fn screen_offset(value: u32) -> (r: ScreenOffset)
    ensures
        r.0 == spec_sign_extend_32(value),
        -0x80000000 <= r.0 < 0x80000000,
{
    FixedPointDecimal(sign_extend_32(value))
}

/// SX and SY components are signed 16-bit integers.
pub type ScreenCoordinate = FixedPointDecimal<0>;

/// Reads a screen coordinate out of a register's low halfword.
pub fn screen_xy(value: u32) -> (r: ScreenCoordinate)
    ensures
        r.0 == spec_sign_extend_16(value),
        -0x8000 <= r.0 < 0x8000,
{
    FixedPointDecimal(sign_extend_16(value))
}

/// Reads an unsigned screen depth out of a register's low halfword.
pub fn screen_z(value: u32) -> (r: ScreenCoordinate)
    ensures
        r.0 == value & 0xFFFF,
        0 <= r.0 < 0x10000,
{
    let halfword = value & 0xFFFF;
    proof {
        crate::lemma_word_mask_bound(value, 0xFFFF);
    }
    FixedPointDecimal(halfword as i64)
}

/// ZSF3 and ZSF4 carry 12 fraction bits.
pub type ZScaleFactor = FixedPointDecimal<12>;

/// Reads a Z scale factor out of a register's low halfword.
pub fn z_scale_factor(value: u32) -> (r: ZScaleFactor)
    ensures
        r.0 == spec_sign_extend_16(value),
        -0x8000 <= r.0 < 0x8000,
{
    FixedPointDecimal(sign_extend_16(value))
}

/// DQA carries 8 fraction bits.
pub type DepthCueingCoefficient = FixedPointDecimal<8>;

/// DQB carries 24 fraction bits.
pub type DepthCueingOffset = FixedPointDecimal<24>;

/// Reads the depth cueing coefficient out of a register's low halfword.
pub fn dqa(value: u32) -> (r: DepthCueingCoefficient)
    ensures
        r.0 == spec_sign_extend_16(value),
        -0x8000 <= r.0 < 0x8000,
{
    FixedPointDecimal(sign_extend_16(value))
}

/// Reads the depth cueing offset out of a whole register.
pub fn dqb(value: u32) -> (r: DepthCueingOffset)
    ensures
        r.0 == spec_sign_extend_32(value),
        -0x80000000 <= r.0 < 0x80000000,
{
    FixedPointDecimal(sign_extend_32(value))
}

/// Background color components carry 12 fraction bits.
pub type BackgroundColor = FixedPointDecimal<12>;

/// Reads a background color component out of a whole register.
pub fn background_color(value: u32) -> (r: BackgroundColor)
    ensures
        r.0 == spec_sign_extend_32(value),
        -0x80000000 <= r.0 < 0x80000000,
{
    FixedPointDecimal(sign_extend_32(value))
}

/// Far color components carry 4 fraction bits.
pub type FarColor = FixedPointDecimal<4>;

/// Reads a far color component out of a whole register.
pub fn far_color(value: u32) -> (r: FarColor)
    ensures
        r.0 == spec_sign_extend_32(value),
        -0x80000000 <= r.0 < 0x80000000,
{
    FixedPointDecimal(sign_extend_32(value))
}

/// Color components are unsigned 8-bit integers.
pub type RgbComponent = FixedPointDecimal<0>;

/// Reads the three color components out of a register: red in the low
/// byte, then green, then blue.
pub fn rgb(value: u32) -> (r: [RgbComponent; 3])
    ensures
        r[0].0 == value & 0xFF,
        r[1].0 == (value >> 8) & 0xFF,
        r[2].0 == (value >> 16) & 0xFF,
{
    proof {
        crate::lemma_word_mask_bound(value, 0xFF);
        crate::lemma_word_mask_bound(value >> 8, 0xFF);
        crate::lemma_word_mask_bound(value >> 16, 0xFF);
    }
    [
        FixedPointDecimal((value & 0xFF) as i64),
        FixedPointDecimal(((value >> 8) & 0xFF) as i64),
        FixedPointDecimal(((value >> 16) & 0xFF) as i64),
    ]
}

/// IR0 carries 12 fraction bits.
pub type DepthInterpolationFactor = FixedPointDecimal<12>;

/// Reads the depth interpolation factor out of a register's low
/// halfword.
pub fn ir0(value: u32) -> (r: DepthInterpolationFactor)
    ensures
        r.0 == spec_sign_extend_16(value),
        -0x8000 <= r.0 < 0x8000,
{
    FixedPointDecimal(sign_extend_16(value))
}

} // verus!
