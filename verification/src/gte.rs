//! The geometry transformation engine's coordinate calculation
//! instructions: perspective transformation of up to three vertices,
//! with the hardware's exact saturation and overflow-flag behavior.

use vstd::prelude::*;

verus! {

use crate::bit_set;
use crate::word_bit;
use crate::fixedpoint::div_floor_i64;
use crate::fixedpoint::spec_sign_extend_16;
use crate::fixedpoint::spec_sign_extend_32;
use crate::fixedpoint::FixedPointDecimal;
use crate::fixedpoint::MatrixComponent;
use crate::fixedpoint::TranslationComponent;
use crate::fixedpoint::Vector16Component;

/// Indices of the engine's registers in its 64-entry register file:
/// data registers 0-31, control registers 32-63.
pub struct Register;

impl Register {
    pub const VXY0: usize = 0;

    pub const VZ0: usize = 1;

    pub const VXY1: usize = 2;

    pub const VZ1: usize = 3;

    pub const VXY2: usize = 4;

    pub const VZ2: usize = 5;

    pub const IR0: usize = 8;

    pub const IR1: usize = 9;

    pub const IR2: usize = 10;

    pub const IR3: usize = 11;

    pub const SXY0: usize = 12;

    pub const SXY1: usize = 13;

    pub const SXY2: usize = 14;

    pub const SZ0: usize = 16;

    pub const SZ1: usize = 17;

    pub const SZ2: usize = 18;

    pub const SZ3: usize = 19;

    pub const MAC0: usize = 24;

    pub const MAC1: usize = 25;

    pub const MAC2: usize = 26;

    pub const MAC3: usize = 27;

    pub const RT1112: usize = 32;

    pub const TRX: usize = 37;

    pub const TRY: usize = 38;

    pub const TRZ: usize = 39;

    pub const OFX: usize = 56;

    pub const OFY: usize = 57;

    pub const H: usize = 58;

    pub const DQA: usize = 59;

    pub const DQB: usize = 60;

    pub const FLAG: usize = 63;
}

/// Bits of the FLAG register.
pub struct Flag;

impl Flag {
    pub const ERROR: u32 = 1 << 31;

    pub const MAC1_OVERFLOW_POSITIVE: u32 = 1 << 30;

    pub const MAC2_OVERFLOW_POSITIVE: u32 = 1 << 29;

    pub const MAC3_OVERFLOW_POSITIVE: u32 = 1 << 28;

    pub const MAC1_OVERFLOW_NEGATIVE: u32 = 1 << 27;

    pub const MAC2_OVERFLOW_NEGATIVE: u32 = 1 << 26;

    pub const MAC3_OVERFLOW_NEGATIVE: u32 = 1 << 25;

    pub const IR1_SATURATED: u32 = 1 << 24;

    pub const IR2_SATURATED: u32 = 1 << 23;

    pub const IR3_SATURATED: u32 = 1 << 22;

    pub const SZ3_OTZ_SATURATED: u32 = 1 << 18;

    pub const DIVIDE_OVERFLOW: u32 = 1 << 17;

    pub const MAC0_OVERFLOW_POSITIVE: u32 = 1 << 16;

    pub const MAC0_OVERFLOW_NEGATIVE: u32 = 1 << 15;

    pub const SX2_SATURATED: u32 = 1 << 14;

    pub const SY2_SATURATED: u32 = 1 << 13;

    pub const IR0_SATURATED: u32 = 1 << 12;
}

/// The geometry transformation engine: its 64-entry register file.
#[derive(Debug, Clone)]
pub struct GeometryTransformationEngine {
    pub r: [u32; 64],
}

/// The register file with `bits` ored into the FLAG register.
pub open spec fn spec_flag_or(r: Seq<u32>, bits: u32) -> Seq<u32> {
    r.update(63, r[63] | bits)
}

/// `v` clamped into `lo ..= hi`.
pub open spec fn spec_clamp(v: int, lo: int, hi: int) -> int {
    if v < lo {
        lo
    } else if v > hi {
        hi
    } else {
        v
    }
}

/// The unsigned 32-bit pattern of a signed value in the 32-bit range.
pub open spec fn spec_i32_bits(x: int) -> u32 {
    if x < 0 {
        (x + 0x100000000) as u32
    } else {
        x as u32
    }
}

/// The low 32 bits of any integer, as a truncating store keeps them.
pub open spec fn spec_low32(v: int) -> u32 {
    (v % 0x100000000) as u32
}

/// The low 16 bits of a signed value in the 16-bit range.
pub open spec fn spec_low16(x: int) -> int {
    if x < 0 {
        x + 0x10000
    } else {
        x
    }
}

/// Reads a register as a signed 32-bit value.
fn u32_as_i32_bits(value: u32) -> (r: i64)
    ensures
        r == spec_sign_extend_32(value),
        -0x80000000 <= r < 0x80000000,
{
    if value >= 0x80000000 {
        (value as i64) - 0x100000000
    } else {
        value as i64
    }
}

/// Stores a signed value in the 32-bit range back into a register.
fn i32_bits_of(x: i64) -> (r: u32)
    requires
        -0x80000000 <= x < 0x80000000,
    ensures
        r == spec_i32_bits(x as int),
{
    if x < 0 {
        (x + 0x100000000) as u32
    } else {
        x as u32
    }
}

/// Stores the low 32 bits of a wide value into a register, as the
/// hardware's truncating register writes do.
fn low32_of_i64(x: i64) -> (r: u32)
    ensures
        r == spec_low32(x as int),
{
    let m = match x.checked_rem_euclid(0x100000000) {
        Some(m) => m,
        None => {
            proof {
                assert(false);
            }
            0
        },
    };
    proof {
        vstd::arithmetic::div_mod::lemma_mod_bound(x as int, 0x100000000);
    }
    m as u32
}

/// The FLAG update a multiply-add result outside the signed 44-bit range
/// causes: the overflow bit for its sign, and the master error bit.
pub open spec fn spec_check_mac123(r: Seq<u32>, value: int, positive_bit: u32, negative_bit: u32) -> Seq<u32> {
    if -0x80000000000 <= value <= 0x7FFFFFFFFFF {
        r
    } else {
        spec_flag_or(r, (if value < 0 { negative_bit } else { positive_bit }) | Flag::ERROR)
    }
}

/// The FLAG update a MAC0 result outside the signed 32-bit range causes.
pub open spec fn spec_check_mac0(r: Seq<u32>, value: int) -> Seq<u32> {
    if -0x80000000 <= value <= 0x7FFFFFFF {
        r
    } else {
        spec_flag_or(
            r,
            (if value < 0 { Flag::MAC0_OVERFLOW_NEGATIVE } else { Flag::MAC0_OVERFLOW_POSITIVE })
                | Flag::ERROR,
        )
    }
}

/// An IR register write: the value clamped to the signed 16-bit range,
/// with the saturation and error flags set when clamping changed it.
pub open spec fn spec_set_ir(r: Seq<u32>, register: int, value: u32, saturation_bit: u32) -> Seq<u32> {
    let v = spec_sign_extend_32(value);
    let clamped = spec_clamp(v, -0x8000, 0x7FFF);
    let flagged = if v != clamped {
        spec_flag_or(r, saturation_bit | Flag::ERROR)
    } else {
        r
    };
    flagged.update(register, spec_i32_bits(clamped))
}

/// The screen Z FIFO pushed down one entry, with `sz3` at the back.
pub open spec fn spec_push_screen_z(r: Seq<u32>, sz3: u16) -> Seq<u32> {
    r.update(16, r[17]).update(17, r[18]).update(18, r[19]).update(19, sz3 as u32)
}

/// The screen XY FIFO pushed down one entry, with `sx` and `sy` clamped
/// to the signed 11-bit range, packed, and put at the back; clamping
/// sets the saturation and error flags.
pub open spec fn spec_push_screen_xy(r: Seq<u32>, sx: int, sy: int) -> Seq<u32> {
    let cx = spec_clamp(sx, -0x400, 0x3FF);
    let r1 = if sx != cx {
        spec_flag_or(r, Flag::SX2_SATURATED | Flag::ERROR)
    } else {
        r
    };
    let cy = spec_clamp(sy, -0x400, 0x3FF);
    let r2 = if sy != cy {
        spec_flag_or(r1, Flag::SY2_SATURATED | Flag::ERROR)
    } else {
        r1
    };
    let sxy = (spec_low16(cx) + 0x10000 * spec_low16(cy)) as u32;
    r2.update(12, r2[13]).update(13, r2[14]).update(14, sxy)
}

impl GeometryTransformationEngine {
    /// Flags a multiply-add result that left the signed 44-bit range;
    /// such results wrap instead of saturating, but the FLAG register
    /// records the overflow.
    fn check_mac123_overflow(&mut self, value: FixedPointDecimal<12>, positive_bit: u32, negative_bit: u32)
        ensures
            final(self).r@ == spec_check_mac123(old(self).r@, value.0 as int, positive_bit, negative_bit),
    {
        if -0x80000000000 <= value.0 && value.0 <= 0x7FFFFFFFFFF {
            proof {
                assert(self.r@ =~= spec_check_mac123(old(self).r@, value.0 as int, positive_bit, negative_bit));
            }
            return ;
        }
        let bit = if value.0 < 0 {
            negative_bit
        } else {
            positive_bit
        };
        self.r[63] = self.r[63] | (bit | Flag::ERROR);
    }

    /// Flags a MAC0 result that left the signed 32-bit range.
    fn check_mac0_overflow<const FRACTION_BITS: u8>(&mut self, value: FixedPointDecimal<FRACTION_BITS>)
        ensures
            final(self).r@ == spec_check_mac0(old(self).r@, value.0 as int),
    {
        if -0x80000000 <= value.0 && value.0 <= 0x7FFFFFFF {
            proof {
                assert(self.r@ =~= spec_check_mac0(old(self).r@, value.0 as int));
            }
            return ;
        }
        let bit = if value.0 < 0 {
            Flag::MAC0_OVERFLOW_NEGATIVE
        } else {
            Flag::MAC0_OVERFLOW_POSITIVE
        };
        self.r[63] = self.r[63] | (bit | Flag::ERROR);
    }

    /// Writes an IR register, clamping to the signed 16-bit range and
    /// flagging saturation.
    fn set_ir_component(&mut self, register: usize, value: u32, saturation_bit: u32)
        requires
            register < 63,
        ensures
            final(self).r@ == spec_set_ir(old(self).r@, register as int, value, saturation_bit),
    {
        let v = u32_as_i32_bits(value);
        let clamped = if v < -0x8000 {
            -0x8000
        } else if v > 0x7FFF {
            0x7FFF
        } else {
            v
        };

        if v != clamped {
            self.r[63] = self.r[63] | (saturation_bit | Flag::ERROR);
        }

        self.r[register] = i32_bits_of(clamped);
    }

    /// Pushes a depth onto the screen Z FIFO.
    fn push_screen_z(&mut self, sz3: u16)
        ensures
            final(self).r@ == spec_push_screen_z(old(self).r@, sz3),
    {
        let sz1 = self.r[17];
        let sz2 = self.r[18];
        let sz3_old = self.r[19];
        self.r[16] = sz1;
        self.r[17] = sz2;
        self.r[18] = sz3_old;
        self.r[19] = sz3 as u32;
    }

    /// Pushes a screen position onto the screen XY FIFO, clamping both
    /// coordinates to the signed 11-bit range and flagging saturation.
    fn push_screen_xy(&mut self, sx: FixedPointDecimal<0>, sy: FixedPointDecimal<0>)
        ensures
            final(self).r@ == spec_push_screen_xy(old(self).r@, sx.0 as int, sy.0 as int),
    {
        let clamped_sx = if sx.0 < -0x400 {
            -0x400
        } else if sx.0 > 0x3FF {
            0x3FF
        } else {
            sx.0
        };
        if sx.0 != clamped_sx {
            self.r[63] = self.r[63] | (Flag::SX2_SATURATED | Flag::ERROR);
        }

        let clamped_sy = if sy.0 < -0x400 {
            -0x400
        } else if sy.0 > 0x3FF {
            0x3FF
        } else {
            sy.0
        };
        if sy.0 != clamped_sy {
            self.r[63] = self.r[63] | (Flag::SY2_SATURATED | Flag::ERROR);
        }

        let xb: u32 = if clamped_sx >= 0 { clamped_sx as u32 } else { (clamped_sx + 0x10000) as u32 };
        let yb: u32 = if clamped_sy >= 0 { clamped_sy as u32 } else { (clamped_sy + 0x10000) as u32 };
        let sxy = xb + 0x10000 * yb;

        let sxy1 = self.r[13];
        let sxy2 = self.r[14];
        self.r[12] = sxy1;
        self.r[13] = sxy2;
        self.r[14] = sxy;
    }

    /// Reads the translation vector TRX/TRY/TRZ.
    fn translation_vector(&self) -> (t: [TranslationComponent; 3])
        ensures
            t[0].0 == spec_sign_extend_32(self.r@[37]),
            t[1].0 == spec_sign_extend_32(self.r@[38]),
            t[2].0 == spec_sign_extend_32(self.r@[39]),
            forall|i: int| 0 <= i < 3 ==> -0x80000000 <= #[trigger] t[i].0 < 0x80000000,
    {
        let t = [
            crate::fixedpoint::translation_component(self.r[37]),
            crate::fixedpoint::translation_component(self.r[38]),
            crate::fixedpoint::translation_component(self.r[39]),
        ];
        t
    }

    /// Reads one 16-bit vector out of an XY register pair: X in the low
    /// halfword, Y in the high halfword, Z in its own register.
    fn vector16(&self, xy_register: usize, z_register: usize) -> (v: [Vector16Component; 3])
        requires
            xy_register < 64,
            z_register < 64,
        ensures
            v[0].0 == spec_sign_extend_16(self.r@[xy_register as int]),
            v[1].0 == spec_sign_extend_16(self.r@[xy_register as int] >> 16),
            v[2].0 == spec_sign_extend_16(self.r@[z_register as int]),
            forall|i: int| 0 <= i < 3 ==> -0x8000 <= #[trigger] v[i].0 < 0x8000,
    {
        let v = [
            crate::fixedpoint::vector16_component(self.r[xy_register]),
            crate::fixedpoint::vector16_component(self.r[xy_register] >> 16),
            crate::fixedpoint::vector16_component(self.r[z_register]),
        ];
        v
    }

    /// Reads a 3-by-3 matrix packed two components per register starting
    /// at `base_register`.
    fn matrix(&self, base_register: usize) -> (m: [[MatrixComponent; 3]; 3])
        requires
            base_register + 4 < 64,
        ensures
            forall|i: int, j: int| 0 <= i < 3 && 0 <= j < 3
                ==> #[trigger] m[i][j].0 == spec_matrix_entry(self.r@, base_register as int, i, j),
            forall|i: int, j: int| 0 <= i < 3 && 0 <= j < 3 ==> -0x8000 <= #[trigger] m[i][j].0 < 0x8000,
    {
        let m = [
            [
                crate::fixedpoint::matrix_component(self.r[base_register]),
                crate::fixedpoint::matrix_component(self.r[base_register] >> 16),
                crate::fixedpoint::matrix_component(self.r[base_register + 1]),
            ],
            [
                crate::fixedpoint::matrix_component(self.r[base_register + 1] >> 16),
                crate::fixedpoint::matrix_component(self.r[base_register + 2]),
                crate::fixedpoint::matrix_component(self.r[base_register + 2] >> 16),
            ],
            [
                crate::fixedpoint::matrix_component(self.r[base_register + 3]),
                crate::fixedpoint::matrix_component(self.r[base_register + 3] >> 16),
                crate::fixedpoint::matrix_component(self.r[base_register + 4]),
            ],
        ];
        m
    }
}

/// Matrix entry `(row, col)` of a matrix packed two components per
/// register: entries in row-major order, the first of each register pair
/// in the low halfword.
pub open spec fn spec_matrix_entry(r: Seq<u32>, base: int, row: int, col: int) -> int {
    let k = row * 3 + col;
    let word = r[base + k / 2];
    if k % 2 == 1 {
        spec_sign_extend_16(word >> 16)
    } else {
        spec_sign_extend_16(word)
    }
}


/// Which IR3 saturation-flag behavior an instruction uses: the
/// perspective transform has a hardware bug in its unshifted mode.
#[derive(Debug, Clone, Copy, PartialEq, Eq, Structural)]
pub enum Ir3SaturationFlagBehavior {
    Rtp,
    Mvmva,
}

/// The hardware's reciprocal table for the unsigned Newton-Raphson
/// division, indexed by the top bits of the normalized divisor.
pub const GTE_UNR_TABLE: [u8; 257] = [
    0xFF, 0xFD, 0xFB, 0xF9, 0xF7, 0xF5, 0xF3, 0xF1, 0xEF, 0xEE, 0xEC, 0xEA, 0xE8, 0xE6, 0xE4, 0xE3,
    0xE1, 0xDF, 0xDD, 0xDC, 0xDA, 0xD8, 0xD6, 0xD5, 0xD3, 0xD1, 0xD0, 0xCE, 0xCD, 0xCB, 0xC9, 0xC8,
    0xC6, 0xC5, 0xC3, 0xC1, 0xC0, 0xBE, 0xBD, 0xBB, 0xBA, 0xB8, 0xB7, 0xB5, 0xB4, 0xB2, 0xB1, 0xB0,
    0xAE, 0xAD, 0xAB, 0xAA, 0xA9, 0xA7, 0xA6, 0xA4, 0xA3, 0xA2, 0xA0, 0x9F, 0x9E, 0x9C, 0x9B, 0x9A,
    0x99, 0x97, 0x96, 0x95, 0x94, 0x92, 0x91, 0x90, 0x8F, 0x8D, 0x8C, 0x8B, 0x8A, 0x89, 0x87, 0x86,
    0x85, 0x84, 0x83, 0x82, 0x81, 0x7F, 0x7E, 0x7D, 0x7C, 0x7B, 0x7A, 0x79, 0x78, 0x77, 0x75, 0x74,
    0x73, 0x72, 0x71, 0x70, 0x6F, 0x6E, 0x6D, 0x6C, 0x6B, 0x6A, 0x69, 0x68, 0x67, 0x66, 0x65, 0x64,
    0x63, 0x62, 0x61, 0x60, 0x5F, 0x5E, 0x5D, 0x5D, 0x5C, 0x5B, 0x5A, 0x59, 0x58, 0x57, 0x56, 0x55,
    0x54, 0x53, 0x53, 0x52, 0x51, 0x50, 0x4F, 0x4E, 0x4D, 0x4D, 0x4C, 0x4B, 0x4A, 0x49, 0x48, 0x48,
    0x47, 0x46, 0x45, 0x44, 0x43, 0x43, 0x42, 0x41, 0x40, 0x3F, 0x3F, 0x3E, 0x3D, 0x3C, 0x3C, 0x3B,
    0x3A, 0x39, 0x39, 0x38, 0x37, 0x36, 0x36, 0x35, 0x34, 0x33, 0x33, 0x32, 0x31, 0x31, 0x30, 0x2F,
    0x2E, 0x2E, 0x2D, 0x2C, 0x2C, 0x2B, 0x2A, 0x2A, 0x29, 0x28, 0x28, 0x27, 0x26, 0x26, 0x25, 0x24,
    0x24, 0x23, 0x22, 0x22, 0x21, 0x20, 0x20, 0x1F, 0x1E, 0x1E, 0x1D, 0x1D, 0x1C, 0x1B, 0x1B, 0x1A,
    0x19, 0x19, 0x18, 0x18, 0x17, 0x16, 0x16, 0x15, 0x15, 0x14, 0x14, 0x13, 0x12, 0x12, 0x11, 0x11,
    0x10, 0x0F, 0x0F, 0x0E, 0x0E, 0x0D, 0x0D, 0x0C, 0x0C, 0x0B, 0x0A, 0x0A, 0x09, 0x09, 0x08, 0x08,
    0x07, 0x07, 0x06, 0x06, 0x05, 0x05, 0x04, 0x04, 0x03, 0x03, 0x02, 0x02, 0x01, 0x01, 0x00, 0x00,
    0x00,
];

/// The hardware division `(((H << 17) / SZ3) + 1) / 2`, approximated by
/// one Newton-Raphson step over [`GTE_UNR_TABLE`]: the register file
/// (changed only when overflow is flagged) and the unsigned result with
/// 16 fraction bits.
pub open spec fn spec_gte_divide(r: Seq<u32>) -> (Seq<u32>, u32) {
    let h = r[58] & 0xFFFF;
    let sz3 = r[19] & 0xFFFF;
    if h >= 2 * sz3 {
        (spec_flag_or(r, Flag::DIVIDE_OVERFLOW | Flag::ERROR), 0x1FFFFu32)
    } else {
        let z = vstd::std_specs::bits::u16_leading_zeros(sz3 as u16);
        let n = ((h as u64) << (z as u64)) as int;
        let d = ((sz3 as u64) << (z as u64)) as int;
        let u = GTE_UNR_TABLE[(d - 0x7FC0) / 128] + 0x101;
        let d2 = (0x2000080 - d * u) / 256;
        let d3 = (0x80 + d2 * u) / 256;
        let raw = (n * d3 + 0x8000) / 65536;
        (r, (if raw > 0x1FFFF { 0x1FFFFint } else { raw }) as u32)
    }
}

/// Performs the hardware division used by the perspective transform,
/// flagging overflow when the numerator is out of range.
fn gte_divide(r: &mut [u32; 64]) -> (result: crate::fixedpoint::DivisionResult)
    ensures
        final(r)@ == spec_gte_divide(old(r)@).0,
        result.0 == spec_gte_divide(old(r)@).1,
        0 <= result.0 <= 0x1FFFF,
{
    let h = r[58] & 0xFFFF;
    let sz3 = r[19] & 0xFFFF;
    proof {
        let hw = r@[58];
        let sw = r@[19];
        assert(hw & 0xFFFF <= 0xFFFF && sw & 0xFFFF <= 0xFFFF) by (bit_vector);
    }

    if h >= 2 * sz3 {
        // Result would overflow: saturate and set the divide flag.
        r[63] = r[63] | (Flag::DIVIDE_OVERFLOW | Flag::ERROR);
        return crate::fixedpoint::division_result(0x1FFFF);
    }

    let sz3_16 = sz3 as u16;
    let z = sz3_16.leading_zeros();
    proof {
        broadcast use vstd::std_specs::bits::axiom_u16_leading_zeros;

        assert(z <= 15);
    }
    let n: u64 = (h as u64) << z;
    let d: u64 = (sz3 as u64) << z;
    proof {
        let z16 = z as u16;
        assert((sz3_16 >> (15 - z16) as u16) & 1 != 0 && sz3_16 >> (16 - z16) as u16 == 0 ==> 0x8000
            <= (sz3_16 as u64) << z16 <= 0xFFFF) by (bit_vector)
            requires
                z16 <= 15,
        ;
        let hg = h;
        let sg = sz3;
        let zg = z;
        assert(hg < 2 * sg && sg <= 0xFFFF && zg <= 15 ==> ((hg as u64) << zg) < 2 * ((sg as u64) << zg) && ((sg as u64) << zg) == ((sg as u16) as u64) << (zg as u16)) by (bit_vector);
    }

    proof {
        let eg: u64 = (d - 0x7FC0) as u64;
        assert(eg <= 0x803F ==> eg >> 7 == eg / 128 && eg >> 7 <= 256) by (bit_vector);
    }
    let idx = ((d - 0x7FC0) >> 7) as usize;
    let u: u64 = (GTE_UNR_TABLE[idx] as u64) + 0x101;

    proof {
        assert(d * u <= 0xFFFF * 0x200) by (nonlinear_arith)
            requires
                d <= 0xFFFF && u <= 0x200,
        ;
    }
    let top = 0x2000080u64 - d * u;
    let d2: u64 = top >> 8;
    proof {
        let t = top;
        assert(t >> 8 == t / 256 && (t <= 0x2000080 ==> t >> 8 <= 0x20001)) by (bit_vector);
        assert(d2 * u <= 0x20001 * 0x200) by (nonlinear_arith)
            requires
                d2 <= 0x20001 && u <= 0x200,
        ;
    }
    let mid = 0x80u64 + d2 * u;
    let d3: u64 = mid >> 8;
    proof {
        let m = mid;
        assert(m >> 8 == m / 256 && (m <= 0x4040401 ==> m >> 8 <= 0x40405)) by (bit_vector);
        assert(n * d3 <= 0x20000 * 0x40405) by (nonlinear_arith)
            requires
                n <= 0x20000 && d3 <= 0x40405,
        ;
    }
    let wide = n * d3 + 0x8000;
    let raw: u64 = wide >> 16;
    proof {
        let w = wide;
        assert(w >> 16 == w / 65536) by (bit_vector);
    }
    let result: u32 = if raw > 0x1FFFF {
        0x1FFFF
    } else {
        raw as u32
    };
    crate::fixedpoint::division_result(result)
}

/// One multiply-add row: the translation scaled to 12 fraction bits plus
/// the matrix row times the vector.
pub open spec fn spec_mac(t: int, m0: int, m1: int, m2: int, v0: int, v1: int, v2: int) -> int {
    t * 4096 + m0 * v0 + m1 * v1 + m2 * v2
}

/// The register file after a matrix-vector multiply-add: the three
/// results are overflow-checked, optionally shifted down 12 bits,
/// stored into MAC1-MAC3, and saturated into IR1-IR3. When the
/// perspective transform runs unshifted, an apparent hardware bug bases
/// the IR3 saturation flag on the shifted value while IR3 itself clamps
/// the unshifted one.
pub open spec fn spec_mma_applied(r: Seq<u32>, sf: bool, mac1: int, mac2: int, mac3: int, rtp: bool) -> Seq<u32> {
    let r1 = spec_check_mac123(r, mac1, Flag::MAC1_OVERFLOW_POSITIVE, Flag::MAC1_OVERFLOW_NEGATIVE);
    let r2 = spec_check_mac123(r1, mac2, Flag::MAC2_OVERFLOW_POSITIVE, Flag::MAC2_OVERFLOW_NEGATIVE);
    let r3 = spec_check_mac123(r2, mac3, Flag::MAC3_OVERFLOW_POSITIVE, Flag::MAC3_OVERFLOW_NEGATIVE);
    let m1 = if sf { mac1 / 4096 } else { mac1 };
    let m2 = if sf { mac2 / 4096 } else { mac2 };
    let m3 = if sf { mac3 / 4096 } else { mac3 };
    let r4 = r3.update(25, spec_low32(m1)).update(26, spec_low32(m2)).update(27, spec_low32(m3));
    let r5 = spec_set_ir(r4, 9, r4[25], Flag::IR1_SATURATED);
    let r6 = spec_set_ir(r5, 10, r5[26], Flag::IR2_SATURATED);
    let value = spec_sign_extend_32(r6[27]);
    let clamped = spec_clamp(value, -0x8000, 0x7FFF);
    if rtp && !sf {
        let r7 = if !(-0x8000 <= value / 4096 <= 0x7FFF) {
            spec_flag_or(r6, Flag::IR3_SATURATED)
        } else {
            r6
        };
        r7.update(11, spec_i32_bits(clamped))
    } else {
        // Same as IR1/IR2 but without the master error bit.
        let r7 = if value != clamped {
            spec_flag_or(r6, Flag::IR3_SATURATED)
        } else {
            r6
        };
        r7.update(11, spec_i32_bits(clamped))
    }
}

/// A product of two signed 16-bit values stays inside 2^30.
proof fn lemma_mul_bound_16(a: int, b: int)
    by (nonlinear_arith)
    requires
        -0x8000 <= a < 0x8000,
        -0x8000 <= b < 0x8000,
    ensures
        -0x40000000 <= a * b <= 0x40000000,
{
}

impl GeometryTransformationEngine {
    /// Multiplies a 16-bit vector by a matrix, adds the translation, and
    /// lands the three results in MAC1-MAC3 and IR1-IR3 with the
    /// hardware's overflow flags and saturation.
    fn matrix_multiply_add(
        &mut self,
        opcode: u32,
        vector: &[Vector16Component; 3],
        matrix: &[[MatrixComponent; 3]; 3],
        translation: &[TranslationComponent; 3],
        ir3_saturation_behavior: Ir3SaturationFlagBehavior,
    )
        requires
            forall|i: int| 0 <= i < 3 ==> -0x8000 <= #[trigger] vector[i].0 < 0x8000,
            forall|i: int, j: int| 0 <= i < 3 && 0 <= j < 3 ==> -0x8000 <= #[trigger] matrix[i][j].0 < 0x8000,
            forall|i: int| 0 <= i < 3 ==> -0x80000000 <= #[trigger] translation[i].0 < 0x80000000,
        ensures
            final(self).r@ == spec_mma_applied(
                old(self).r@,
                bit_set(opcode, 19),
                spec_mac(
                    translation[0].0 as int,
                    matrix[0][0].0 as int,
                    matrix[0][1].0 as int,
                    matrix[0][2].0 as int,
                    vector[0].0 as int,
                    vector[1].0 as int,
                    vector[2].0 as int,
                ),
                spec_mac(
                    translation[1].0 as int,
                    matrix[1][0].0 as int,
                    matrix[1][1].0 as int,
                    matrix[1][2].0 as int,
                    vector[0].0 as int,
                    vector[1].0 as int,
                    vector[2].0 as int,
                ),
                spec_mac(
                    translation[2].0 as int,
                    matrix[2][0].0 as int,
                    matrix[2][1].0 as int,
                    matrix[2][2].0 as int,
                    vector[0].0 as int,
                    vector[1].0 as int,
                    vector[2].0 as int,
                ),
                ir3_saturation_behavior == Ir3SaturationFlagBehavior::Rtp,
            ),
    {
        proof {
            lemma_mul_bound_16(matrix[0][0].0 as int, vector[0].0 as int);
            lemma_mul_bound_16(matrix[0][1].0 as int, vector[1].0 as int);
            lemma_mul_bound_16(matrix[0][2].0 as int, vector[2].0 as int);
            lemma_mul_bound_16(matrix[1][0].0 as int, vector[0].0 as int);
            lemma_mul_bound_16(matrix[1][1].0 as int, vector[1].0 as int);
            lemma_mul_bound_16(matrix[1][2].0 as int, vector[2].0 as int);
            lemma_mul_bound_16(matrix[2][0].0 as int, vector[0].0 as int);
            lemma_mul_bound_16(matrix[2][1].0 as int, vector[1].0 as int);
            lemma_mul_bound_16(matrix[2][2].0 as int, vector[2].0 as int);
        }
        let mac1: i64 = translation[0].0 * 4096 + matrix[0][0].0 * vector[0].0
            + matrix[0][1].0 * vector[1].0 + matrix[0][2].0 * vector[2].0;
        let mac2: i64 = translation[1].0 * 4096 + matrix[1][0].0 * vector[0].0
            + matrix[1][1].0 * vector[1].0 + matrix[1][2].0 * vector[2].0;
        let mac3: i64 = translation[2].0 * 4096 + matrix[2][0].0 * vector[0].0
            + matrix[2][1].0 * vector[1].0 + matrix[2][2].0 * vector[2].0;

        self.check_mac123_overflow(
            FixedPointDecimal::<12>::new(mac1),
            Flag::MAC1_OVERFLOW_POSITIVE,
            Flag::MAC1_OVERFLOW_NEGATIVE,
        );
        self.check_mac123_overflow(
            FixedPointDecimal::<12>::new(mac2),
            Flag::MAC2_OVERFLOW_POSITIVE,
            Flag::MAC2_OVERFLOW_NEGATIVE,
        );
        self.check_mac123_overflow(
            FixedPointDecimal::<12>::new(mac3),
            Flag::MAC3_OVERFLOW_POSITIVE,
            Flag::MAC3_OVERFLOW_NEGATIVE,
        );

        let sf = word_bit(opcode, 19);
        let m1: i64 = if sf { div_floor_i64(mac1, 4096) } else { mac1 };
        let m2: i64 = if sf { div_floor_i64(mac2, 4096) } else { mac2 };
        let m3: i64 = if sf { div_floor_i64(mac3, 4096) } else { mac3 };
        self.r[25] = low32_of_i64(m1);
        self.r[26] = low32_of_i64(m2);
        self.r[27] = low32_of_i64(m3);

        self.set_ir_component(9, self.r[25], Flag::IR1_SATURATED);
        self.set_ir_component(10, self.r[26], Flag::IR2_SATURATED);

        let value = u32_as_i32_bits(self.r[27]);
        let clamped = if value < -0x8000 {
            -0x8000
        } else if value > 0x7FFF {
            0x7FFF
        } else {
            value
        };
        if matches!(ir3_saturation_behavior, Ir3SaturationFlagBehavior::Rtp) && !sf {
            // Apparent hardware bug: with sf clear, the IR3 saturation
            // flag follows the shifted value while IR3 clamps the
            // unshifted one.
            let shifted = div_floor_i64(value, 4096);
            if !(-0x8000 <= shifted && shifted <= 0x7FFF) {
                self.r[63] = self.r[63] | Flag::IR3_SATURATED;
            }
            self.r[11] = i32_bits_of(clamped);
        } else {
            if value != clamped {
                self.r[63] = self.r[63] | Flag::IR3_SATURATED;
            }
            self.r[11] = i32_bits_of(clamped);
        }
    }
}



/// The register file after the perspective division half of an RTPS or
/// RTPT round: the depth is pushed with saturation, the screen position
/// is computed through the hardware division and pushed, and the depth
/// cueing factor lands in MAC0 and IR0.
pub open spec fn spec_perspective(r: Seq<u32>, opcode: u32) -> Seq<u32> {
    let sf = bit_set(opcode, 19);
    let mac3_signed = spec_sign_extend_32(r[27]);
    let sz3 = if sf { mac3_signed } else { mac3_signed / 4096 };
    let clamped_sz3 = spec_clamp(sz3, 0, 0xFFFF);
    let r1 = if sz3 != clamped_sz3 {
        spec_flag_or(r, Flag::SZ3_OTZ_SATURATED | Flag::ERROR)
    } else {
        r
    };
    let r2 = spec_push_screen_z(r1, clamped_sz3 as u16);

    let ir1 = spec_sign_extend_16(r2[9]);
    let ir2 = spec_sign_extend_16(r2[10]);
    let ofx = spec_sign_extend_32(r2[56]);
    let ofy = spec_sign_extend_32(r2[57]);

    let div1 = spec_gte_divide(r2);
    let mac0x = div1.1 * ir1 + ofx;
    let r3 = spec_check_mac0(div1.0, mac0x);
    let sx = mac0x / 65536;

    let div2 = spec_gte_divide(r3);
    let mac0y = div2.1 * ir2 + ofy;
    let r4 = spec_check_mac0(div2.0, mac0y);
    let sy = mac0y / 65536;

    let r5 = spec_push_screen_xy(r4, sx, sy);

    let dqa = spec_sign_extend_16(r5[59]);
    let dqb = spec_sign_extend_32(r5[60]);

    let div3 = spec_gte_divide(r5);
    let mac0d = div3.1 * dqa + dqb;
    let r6 = spec_check_mac0(div3.0, mac0d);
    let r7 = r6.update(24, spec_low32(mac0d));

    let ir0 = mac0d / 4096;
    let clamped_ir0 = spec_clamp(ir0, 0, 0x1000);
    let r8 = if ir0 != clamped_ir0 {
        spec_flag_or(r7, Flag::IR0_SATURATED)
    } else {
        r7
    };
    r8.update(8, clamped_ir0 as u32)
}

/// One whole RTPS round on vertex `(xy, z)`: the multiply-add against
/// the rotation matrix and translation read from `src`, followed by the
/// perspective division.
pub open spec fn spec_rtp_step(r: Seq<u32>, src: Seq<u32>, opcode: u32, xy: int, z: int) -> Seq<u32> {
    let v0 = spec_sign_extend_16(r[xy]);
    let v1 = spec_sign_extend_16(r[xy] >> 16);
    let v2 = spec_sign_extend_16(r[z]);
    let after_mma = spec_mma_applied(
        r,
        bit_set(opcode, 19),
        spec_mac(
            spec_sign_extend_32(src[37]),
            spec_matrix_entry(src, 32, 0, 0),
            spec_matrix_entry(src, 32, 0, 1),
            spec_matrix_entry(src, 32, 0, 2),
            v0,
            v1,
            v2,
        ),
        spec_mac(
            spec_sign_extend_32(src[38]),
            spec_matrix_entry(src, 32, 1, 0),
            spec_matrix_entry(src, 32, 1, 1),
            spec_matrix_entry(src, 32, 1, 2),
            v0,
            v1,
            v2,
        ),
        spec_mac(
            spec_sign_extend_32(src[39]),
            spec_matrix_entry(src, 32, 2, 0),
            spec_matrix_entry(src, 32, 2, 1),
            spec_matrix_entry(src, 32, 2, 2),
            v0,
            v1,
            v2,
        ),
        true,
    );
    spec_perspective(after_mma, opcode)
}

impl GeometryTransformationEngine {
    /// The perspective division half of an RTPS or RTPT round.
    fn perform_perspective_transformation(&mut self, opcode: u32)
        ensures
            final(self).r@ == spec_perspective(old(self).r@, opcode),
    {
        let sf = word_bit(opcode, 19);
        let mac3_signed = u32_as_i32_bits(self.r[27]);
        let sz3 = if sf { mac3_signed } else { div_floor_i64(mac3_signed, 4096) };
        let clamped_sz3 = if sz3 < 0 {
            0
        } else if sz3 > 0xFFFF {
            0xFFFF
        } else {
            sz3
        };
        if sz3 != clamped_sz3 {
            self.r[63] = self.r[63] | (Flag::SZ3_OTZ_SATURATED | Flag::ERROR);
        }

        self.push_screen_z(clamped_sz3 as u16);

        let ir1 = crate::fixedpoint::vector16_component(self.r[9]);
        let ir2 = crate::fixedpoint::vector16_component(self.r[10]);

        let ofx = crate::fixedpoint::screen_offset(self.r[56]);
        let ofy = crate::fixedpoint::screen_offset(self.r[57]);

        proof {
            vstd::arithmetic::power2::lemma2_to64();
        }

        let div1 = gte_divide(&mut self.r);
        proof {
            assert(-0x1FFFF * 0x8000 <= div1.0 * ir1.0 <= 0x1FFFF * 0x8000) by (nonlinear_arith)
                requires
                    0 <= div1.0 <= 0x1FFFF && -0x8000 <= ir1.0 < 0x8000,
            ;
        }
        let mac0x = div1.times::<0, 16>(ir1).plus(ofx);
        self.check_mac0_overflow(mac0x);
        let sx = mac0x.shift_to::<0>();

        let div2 = gte_divide(&mut self.r);
        proof {
            assert(-0x1FFFF * 0x8000 <= div2.0 * ir2.0 <= 0x1FFFF * 0x8000) by (nonlinear_arith)
                requires
                    0 <= div2.0 <= 0x1FFFF && -0x8000 <= ir2.0 < 0x8000,
            ;
        }
        let mac0y = div2.times::<0, 16>(ir2).plus(ofy);
        self.check_mac0_overflow(mac0y);
        let sy = mac0y.shift_to::<0>();

        self.push_screen_xy(sx, sy);

        let dqa = crate::fixedpoint::dqa(self.r[59]);
        let dqb = crate::fixedpoint::dqb(self.r[60]);

        let div3 = gte_divide(&mut self.r);
        proof {
            assert(-0x1FFFF * 0x8000 <= div3.0 * dqa.0 <= 0x1FFFF * 0x8000) by (nonlinear_arith)
                requires
                    0 <= div3.0 <= 0x1FFFF && -0x8000 <= dqa.0 < 0x8000,
            ;
        }
        let mac0d = div3.times::<8, 24>(dqa).plus(dqb);
        self.check_mac0_overflow(mac0d);
        self.r[24] = low32_of_i64(mac0d.0);

        let ir0_raw = mac0d.shift_to::<12>();
        let clamped_ir0 = if ir0_raw.0 < 0 {
            0
        } else if ir0_raw.0 > 0x1000 {
            0x1000
        } else {
            ir0_raw.0
        };
        if ir0_raw.0 != clamped_ir0 {
            self.r[63] = self.r[63] | Flag::IR0_SATURATED;
        }
        self.r[8] = clamped_ir0 as u32;

        proof {
            assert(self.r@ =~= spec_perspective(old(self).r@, opcode));
        }
    }

    /// RTPS: perspective transformation of V0 -- one multiply-add round
    /// against the rotation matrix and translation vector, followed by
    /// the perspective division.
    pub fn rtps(&mut self, opcode: u32)
        ensures
            final(self).r@ == spec_rtp_step(old(self).r@, old(self).r@, opcode, 0, 1),
    {
        let translation = self.translation_vector();
        let rotation = self.matrix(Register::RT1112);
        let v0 = self.vector16(Register::VXY0, Register::VZ0);

        self.matrix_multiply_add(opcode, &v0, &rotation, &translation, Ir3SaturationFlagBehavior::Rtp);
        self.perform_perspective_transformation(opcode);
    }

    /// RTPT: perspective transformation of V0, V1, and V2 in turn, as
    /// three RTPS rounds sharing the rotation matrix and translation
    /// vector read before the first round.
    pub fn rtpt(&mut self, opcode: u32)
        ensures
            final(self).r@ == spec_rtp_step(
                spec_rtp_step(
                    spec_rtp_step(old(self).r@, old(self).r@, opcode, 0, 1),
                    old(self).r@,
                    opcode,
                    2,
                    3,
                ),
                old(self).r@,
                opcode,
                4,
                5,
            ),
    {
        let translation = self.translation_vector();
        let rotation = self.matrix(Register::RT1112);

        let v0 = self.vector16(Register::VXY0, Register::VZ0);
        self.matrix_multiply_add(opcode, &v0, &rotation, &translation, Ir3SaturationFlagBehavior::Rtp);
        self.perform_perspective_transformation(opcode);

        let v1 = self.vector16(Register::VXY1, Register::VZ1);
        self.matrix_multiply_add(opcode, &v1, &rotation, &translation, Ir3SaturationFlagBehavior::Rtp);
        self.perform_perspective_transformation(opcode);

        let v2 = self.vector16(Register::VXY2, Register::VZ2);
        self.matrix_multiply_add(opcode, &v2, &rotation, &translation, Ir3SaturationFlagBehavior::Rtp);
        self.perform_perspective_transformation(opcode);
    }
}


} // verus!
