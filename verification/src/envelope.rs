//! SPU volume and envelope logic: sweep envelopes on volume registers
//! and the four-phase ADSR envelope each voice runs.

use vstd::prelude::*;

verus! {

use crate::bit_set;
use crate::word_bit;

/// Ticks between envelope updates at shift 11 and below. The largest
/// shift is 31, a shift over 11 updates every `1 << (shift - 11)` ticks,
/// and exponential increase can raise the effective shift by 2, so the
/// counter spans `1 << (33 - 11)` ticks.
pub const ENVELOPE_COUNTER: u32 = 1 << 22;

/// How an envelope's level moves per step.
#[derive(Debug, Clone, Copy, PartialEq, Eq, Structural)]
pub enum EnvelopeMode {
    Linear,
    Exponential,
}

impl EnvelopeMode {
    /// Decodes the mode from one bit.
    pub fn from_bit(bit: bool) -> (r: Self)
        ensures
            r == (if bit { EnvelopeMode::Exponential } else { EnvelopeMode::Linear }),
    {
        if bit {
            Self::Exponential
        } else {
            Self::Linear
        }
    }

    /// The mode's 1-bit encoding.
    pub fn to_bit(self) -> (r: u32)
        ensures
            r == spec_mode_bit(self),
    {
        match self {
            Self::Linear => 0,
            Self::Exponential => 1,
        }
    }
}

/// The mode's 1-bit encoding.
pub open spec fn spec_mode_bit(m: EnvelopeMode) -> u32 {
    match m {
        EnvelopeMode::Linear => 0,
        EnvelopeMode::Exponential => 1,
    }
}

/// Whether an envelope's level rises or falls.
#[derive(Debug, Clone, Copy, PartialEq, Eq, Structural)]
pub enum EnvelopeDirection {
    Increasing,
    Decreasing,
}

impl EnvelopeDirection {
    /// Decodes the direction from one bit.
    pub fn from_bit(bit: bool) -> (r: Self)
        ensures
            r == (if bit { EnvelopeDirection::Decreasing } else { EnvelopeDirection::Increasing }),
    {
        if bit {
            Self::Decreasing
        } else {
            Self::Increasing
        }
    }

    /// The direction's 1-bit encoding.
    pub fn to_bit(self) -> (r: u32)
        ensures
            r == spec_direction_bit(self),
    {
        match self {
            Self::Increasing => 0,
            Self::Decreasing => 1,
        }
    }
}

/// The direction's 1-bit encoding.
pub open spec fn spec_direction_bit(d: EnvelopeDirection) -> u32 {
    match d {
        EnvelopeDirection::Increasing => 0,
        EnvelopeDirection::Decreasing => 1,
    }
}

/// One envelope slope: a 2-bit step, a 5-bit rate shift, a direction,
/// and a linear or exponential mode.
#[derive(Debug, Clone, Copy, PartialEq, Eq, Structural)]
pub struct EnvelopeSettings {
    pub step: u8,
    pub shift: u8,
    pub direction: EnvelopeDirection,
    pub mode: EnvelopeMode,
}

/// Envelope settings with their fields inside the widths the registers
/// encode: a 2-bit step and a 5-bit shift.
pub open spec fn spec_envelope_settings_wf(e: EnvelopeSettings) -> bool {
    e.step <= 3 && e.shift <= 31
}

/// The shift actually applied: exponential increase is faked by slowing
/// the envelope fourfold once the level passes `0x6000`.
pub open spec fn spec_effective_shift(e: EnvelopeSettings, magnitude: u16) -> u8 {
    if e.direction == EnvelopeDirection::Increasing && e.mode == EnvelopeMode::Exponential
        && magnitude > 0x6000 {
        (e.shift + 2) as u8
    } else {
        e.shift
    }
}

/// How far the envelope counter falls per tick: the whole counter at
/// shifts up to 11, halved for each shift step beyond 11.
pub open spec fn spec_counter_decrement(e: EnvelopeSettings, magnitude: u16) -> u32 {
    let eff = spec_effective_shift(e, magnitude);
    ENVELOPE_COUNTER >> (if eff > 11 { (eff - 11) as u32 } else { 0u32 })
}

/// The raw step: `7 - step` increasing, `-(8 - step)` decreasing.
pub open spec fn spec_raw_step(e: EnvelopeSettings) -> int {
    if e.direction == EnvelopeDirection::Increasing {
        7 - e.step
    } else {
        e.step - 8
    }
}

/// How far the raw step is scaled up: by `1 << (11 - shift)` for shifts
/// below 11, not at all above.
pub open spec fn spec_step_scale(e: EnvelopeSettings, magnitude: u16) -> u32 {
    let eff = spec_effective_shift(e, magnitude);
    1u32 << (if eff < 11 { (11 - eff) as u32 } else { 0u32 })
}

/// The level change one envelope update applies: the scaled step, and
/// under exponential decrease attenuated by the current magnitude out of
/// `0x8000`, rounded toward minus infinity.
pub open spec fn spec_next_step(e: EnvelopeSettings, magnitude: u16) -> int {
    let scaled = spec_raw_step(e) * spec_step_scale(e, magnitude);
    if e.mode == EnvelopeMode::Exponential && e.direction == EnvelopeDirection::Decreasing {
        (scaled * magnitude) / 0x8000
    } else {
        scaled
    }
}

impl EnvelopeSettings {
    /// The shift actually applied at the current volume magnitude.
    fn effective_shift(self, current_volume_magnitude: u16) -> (r: u8)
        requires
            spec_envelope_settings_wf(self),
        ensures
            r == spec_effective_shift(self, current_volume_magnitude),
            r <= 33,
    {
        if matches!(self.direction, EnvelopeDirection::Increasing)
            && matches!(self.mode, EnvelopeMode::Exponential)
            && current_volume_magnitude > 0x6000 {
            self.shift + 2
        } else {
            self.shift
        }
    }

    /// How far the envelope counter falls per tick at the current volume
    /// magnitude.
    pub fn counter_decrement(self, current_volume_magnitude: u16) -> (r: u32)
        requires
            spec_envelope_settings_wf(self),
        ensures
            r == spec_counter_decrement(self, current_volume_magnitude),
    {
        let shift = self.effective_shift(current_volume_magnitude);
        let amount: u32 = if shift > 11 { (shift - 11) as u32 } else { 0 };
        ENVELOPE_COUNTER >> amount
    }

    /// The level change the next envelope update applies at the current
    /// volume magnitude.
    pub fn next_step(self, current_volume_magnitude: u16) -> (r: i16)
        requires
            spec_envelope_settings_wf(self),
        ensures
            r == spec_next_step(self, current_volume_magnitude),
            -0x8000 <= r <= 0x3800,
    {
        let shift = self.effective_shift(current_volume_magnitude);
        let amount: u32 = if shift < 11 { (11 - shift) as u32 } else { 0 };
        let scale_bits = 1u32 << amount;
        assert(1 <= scale_bits <= 0x800) by (bit_vector)
            requires
                scale_bits == 1u32 << amount && amount <= 11,
        ;
        let scale = scale_bits as i32;

        let raw: i32 = if matches!(self.direction, EnvelopeDirection::Increasing) {
            7 - (self.step as i32)
        } else {
            (self.step as i32) - 8
        };
        proof {
            assert(-8 * 0x800 <= raw * scale <= 7 * 0x800) by (nonlinear_arith)
                requires
                    -8 <= raw <= 7 && 1 <= scale <= 0x800,
            ;
        }
        let scaled = raw * scale;

        if matches!(self.mode, EnvelopeMode::Exponential)
            && matches!(self.direction, EnvelopeDirection::Decreasing) {
            let magnitude32 = current_volume_magnitude as i32;
            proof {
                assert(raw * scale <= 0) by (nonlinear_arith)
                    requires
                        raw <= -5 && 1 <= scale,
                ;
                assert(-0x4000 * 0xFFFF <= scaled * magnitude32 <= 0) by (nonlinear_arith)
                    requires
                        -0x4000 <= scaled <= 0 && 0 <= magnitude32 <= 0xFFFF,
                ;
            }
            let product = scaled * magnitude32;
            let quotient = match product.checked_div_euclid(0x8000) {
                Some(quotient) => quotient,
                None => 0,
            };
            proof {
                assert(-0x8000 <= product / 0x8000 <= 0) by (nonlinear_arith)
                    requires
                        -0x4000 * 0xFFFF <= product <= 0,
                ;
            }
            quotient as i16
        } else {
            scaled as i16
        }
    }
}

/// The side of zero a swept volume moves on.
#[derive(Debug, Clone, Copy, PartialEq, Eq, Structural)]
pub enum SweepPhase {
    Positive,
    Negative,
}

impl SweepPhase {
    /// Decodes the phase from one bit.
    pub fn from_bit(bit: bool) -> (r: Self)
        ensures
            r == (if bit { SweepPhase::Negative } else { SweepPhase::Positive }),
    {
        if bit {
            Self::Negative
        } else {
            Self::Positive
        }
    }

    /// The phase's 1-bit encoding.
    pub fn to_bit(self) -> (r: u32)
        ensures
            r == spec_phase_bit(self),
    {
        match self {
            Self::Positive => 0,
            Self::Negative => 1,
        }
    }
}

/// The phase's 1-bit encoding.
pub open spec fn spec_phase_bit(p: SweepPhase) -> u32 {
    match p {
        SweepPhase::Positive => 0,
        SweepPhase::Negative => 1,
    }
}

/// A volume register's mode: a fixed level, or a sweep envelope.
#[derive(Debug, Clone, Copy, PartialEq, Eq, Structural)]
pub enum SweepSetting {
    Fixed,
    Sweep(EnvelopeSettings, SweepPhase),
}

/// The sweep setting encoded in a volume register write: bit 15 selects
/// sweep mode; the envelope fields sit in bits 0-14.
pub open spec fn spec_sweep_setting(value: u32) -> SweepSetting {
    if !bit_set(value, 15) {
        SweepSetting::Fixed
    } else {
        SweepSetting::Sweep(
            EnvelopeSettings {
                step: (value & 3) as u8,
                shift: ((value >> 2) & 0x1F) as u8,
                direction: if bit_set(value, 13) { EnvelopeDirection::Decreasing } else { EnvelopeDirection::Increasing },
                mode: if bit_set(value, 14) { EnvelopeMode::Exponential } else { EnvelopeMode::Linear },
            },
            if bit_set(value, 12) { SweepPhase::Negative } else { SweepPhase::Positive },
        )
    }
}

/// A sweep setting whose envelope fields are inside their widths.
pub open spec fn spec_sweep_setting_wf(s: SweepSetting) -> bool {
    match s {
        SweepSetting::Fixed => true,
        SweepSetting::Sweep(e, _) => spec_envelope_settings_wf(e),
    }
}

impl SweepSetting {
    /// Decodes a volume register write into a sweep setting.
    fn parse(value: u32) -> (r: Self)
        ensures
            r == spec_sweep_setting(value),
            spec_sweep_setting_wf(r),
    {
        if !word_bit(value, 15) {
            return Self::Fixed;
        }

        let step_bits = value & 3;
        let shift_bits = (value >> 2) & 0x1F;
        proof {
            crate::lemma_word_mask_bound(value, 3);
            crate::lemma_word_mask_bound(value >> 2, 0x1F);
        }
        let envelope_settings = EnvelopeSettings {
            step: step_bits as u8,
            shift: shift_bits as u8,
            direction: EnvelopeDirection::from_bit(word_bit(value, 13)),
            mode: EnvelopeMode::from_bit(word_bit(value, 14)),
        };
        let sweep_phase = SweepPhase::from_bit(word_bit(value, 12));

        Self::Sweep(envelope_settings, sweep_phase)
    }
}

/// A volume register: its current signed level and its sweep setting.
#[derive(Debug, Clone, Copy, PartialEq, Eq, Structural)]
pub struct SweepEnvelope {
    pub volume: i16,
    pub setting: SweepSetting,
    pub counter: u32,
}

/// A sweep envelope with a well-formed setting.
pub open spec fn spec_sweep_envelope_wf(e: SweepEnvelope) -> bool {
    spec_sweep_setting_wf(e.setting)
}

/// The magnitude of a signed level, saturated into a halfword.
pub open spec fn spec_magnitude(volume: i16) -> u16 {
    if volume == -0x8000 {
        0x7FFF
    } else if volume < 0 {
        (-volume) as u16
    } else {
        volume as u16
    }
}

/// What one tick does to a sweep envelope: a fixed setting does nothing;
/// a sweep counts down and, when the counter runs out, moves the level
/// one step along its phase, clamped to the positive range and mirrored
/// for the negative phase. Sweep-negative with exponential decrease is
/// bugged on the hardware: the step is applied with its sign flipped.
pub open spec fn spec_sweep_clock(env: SweepEnvelope) -> SweepEnvelope {
    match env.setting {
        SweepSetting::Fixed => env,
        SweepSetting::Sweep(e, phase) => {
            let magnitude = spec_magnitude(env.volume);
            let decrement = spec_counter_decrement(e, magnitude);
            let counter = if env.counter >= decrement { (env.counter - decrement) as u32 } else { 0u32 };
            if counter == 0 {
                let bugged = phase == SweepPhase::Negative && e.direction == EnvelopeDirection::Decreasing
                    && e.mode == EnvelopeMode::Exponential;
                let raw = spec_next_step(e, magnitude);
                let step = if bugged { -raw } else { raw };
                let volume = match phase {
                    SweepPhase::Positive => spec_clamp(env.volume + step, 0, 0x7FFF),
                    SweepPhase::Negative => -spec_clamp(-env.volume + step, 0, 0x7FFF),
                };
                SweepEnvelope { volume: volume as i16, counter, ..env }
            } else {
                SweepEnvelope { counter, ..env }
            }
        },
    }
}

/// `v` clamped into `lo ..= hi`.
pub open spec fn spec_clamp(v: int, lo: int, hi: int) -> int {
    if v < lo {
        lo
    } else if v > hi {
        hi
    } else {
        v
    }
}

impl SweepEnvelope {
    /// A silent volume register: level zero, fixed setting.
    pub fn new() -> (r: Self)
        ensures
            r == (SweepEnvelope { volume: 0, setting: SweepSetting::Fixed, counter: ENVELOPE_COUNTER }),
            spec_sweep_envelope_wf(r),
    {
        Self { volume: 0, setting: SweepSetting::Fixed, counter: ENVELOPE_COUNTER }
    }

    /// A register write: decodes the sweep setting, and a fixed-mode
    /// write also sets the level to the written value doubled.
    pub fn write(&mut self, value: u32)
        ensures
            *final(self) == spec_sweep_written(*old(self), value),
            spec_sweep_envelope_wf(*final(self)),
    {
        self.setting = SweepSetting::parse(value);

        // Writing a fixed volume (bit 15 clear) also sets the level.
        if !word_bit(value, 15) {
            proof {
                crate::lemma_word_mask_bound(value, 0x7FFF);
            }
            let halfword = (value & 0x7FFF) as u16;
            let doubled: u16 = halfword * 2;
            let volume: i16 = if doubled >= 0x8000 {
                -(((0x10000u32 - doubled as u32) as i32)) as i16
            } else {
                doubled as i16
            };
            self.volume = volume;
        }
    }

    /// The register read back: a fixed setting reads as the level
    /// halved; a sweep reads back its encoded fields with bit 15 set.
    pub fn read(&self) -> (r: u32)
        requires
            spec_sweep_envelope_wf(*self),
        ensures
            r == spec_sweep_read(*self),
    {
        match self.setting {
            SweepSetting::Fixed => {
                let bits: u16 = self.volume as u16;
                (bits as u32) >> 1
            },
            SweepSetting::Sweep(envelope, phase) => {
                (1u32 << 15)
                    | (envelope.mode.to_bit() << 14)
                    | (envelope.direction.to_bit() << 13)
                    | (phase.to_bit() << 12)
                    | ((envelope.shift as u32) << 2)
                    | (envelope.step as u32)
            },
        }
    }

    /// One tick of the sweep envelope.
    pub fn clock(&mut self)
        requires
            spec_sweep_envelope_wf(*old(self)),
        ensures
            *final(self) == spec_sweep_clock(*old(self)),
            spec_sweep_envelope_wf(*final(self)),
    {
        let (envelope_settings, sweep_phase) = match self.setting {
            SweepSetting::Fixed => {
                return ;
            },
            SweepSetting::Sweep(e, p) => (e, p),
        };

        let volume32 = self.volume as i32;
        let current_volume_magnitude: u16 = if self.volume == -0x8000 {
            0x7FFF
        } else if self.volume < 0 {
            (-volume32) as u16
        } else {
            self.volume as u16
        };

        let counter_decrement = envelope_settings.counter_decrement(current_volume_magnitude);
        self.counter = if self.counter >= counter_decrement {
            self.counter - counter_decrement
        } else {
            0
        };

        if self.counter == 0 {
            // Sweep negative does not work properly on hardware when
            // exponential decrease is enabled: the step comes out
            // sign-flipped.
            let bugged_sweep_negative = matches!(sweep_phase, SweepPhase::Negative)
                && matches!(envelope_settings.direction, EnvelopeDirection::Decreasing)
                && matches!(envelope_settings.mode, EnvelopeMode::Exponential);

            let mut step: i32 = envelope_settings.next_step(current_volume_magnitude) as i32;
            if bugged_sweep_negative {
                step = -step;
            }

            let volume: i32 = self.volume as i32;
            self.volume = match sweep_phase {
                SweepPhase::Positive => {
                    let sum = volume + step;
                    (if sum < 0 { 0 } else if sum > 0x7FFF { 0x7FFF } else { sum }) as i16
                },
                SweepPhase::Negative => {
                    let sum = -volume + step;
                    let abs_volume = if sum < 0 { 0 } else if sum > 0x7FFF { 0x7FFF } else { sum };
                    (-abs_volume) as i16
                },
            };
        }
    }
}

/// A sweep envelope after a register write: the setting decoded from
/// the written bits, and for a fixed-mode write the level as well.
pub open spec fn spec_sweep_written(env: SweepEnvelope, value: u32) -> SweepEnvelope {
    SweepEnvelope {
        setting: spec_sweep_setting(value),
        volume: if !bit_set(value, 15) {
            spec_volume_written(value)
        } else {
            env.volume
        },
        ..env
    }
}

/// The fixed level a volume register write sets: the written halfword
/// doubled, reinterpreted as a signed 16-bit value.
pub open spec fn spec_volume_written(value: u32) -> i16 {
    let doubled = ((value & 0x7FFF) * 2) as u16;
    if doubled >= 0x8000 {
        (doubled - 0x10000) as i16
    } else {
        doubled as i16
    }
}

/// The register read-back of a sweep envelope.
pub open spec fn spec_sweep_read(env: SweepEnvelope) -> u32 {
    match env.setting {
        SweepSetting::Fixed => (env.volume as u16 as u32) >> 1,
        SweepSetting::Sweep(e, phase) => (1u32 << 15) | (spec_mode_bit(e.mode) << 14) | (
        spec_direction_bit(e.direction) << 13) | (spec_phase_bit(phase) << 12) | ((e.shift as u32)
            << 2) | (e.step as u32),
    }
}

/// The main and CD-audio volume registers.
#[derive(Debug, Clone, Copy, PartialEq, Eq, Structural)]
pub struct VolumeControl {
    pub main_l: SweepEnvelope,
    pub main_r: SweepEnvelope,
    pub cd_l: i16,
    pub cd_r: i16,
}

/// A volume control block whose sweep envelopes are well-formed.
pub open spec fn spec_volume_control_wf(v: VolumeControl) -> bool {
    spec_sweep_envelope_wf(v.main_l) && spec_sweep_envelope_wf(v.main_r)
}

impl VolumeControl {
    /// Silent volume registers.
    pub fn new() -> (r: Self)
        ensures
            r.main_l == SweepEnvelope::spec_new(),
            r.main_r == SweepEnvelope::spec_new(),
            r.cd_l == 0 && r.cd_r == 0,
            spec_volume_control_wf(r),
    {
        Self { main_l: SweepEnvelope::new(), main_r: SweepEnvelope::new(), cd_l: 0, cd_r: 0 }
    }

    /// A write to the left main volume register.
    pub fn write_main_l(&mut self, value: u32)
        ensures
            *final(self) == (VolumeControl { main_l: spec_sweep_written(old(self).main_l, value), ..*old(self) }),
            spec_sweep_envelope_wf(final(self).main_l),
    {
        self.main_l.write(value);
    }

    /// A write to the right main volume register.
    pub fn write_main_r(&mut self, value: u32)
        ensures
            *final(self) == (VolumeControl { main_r: spec_sweep_written(old(self).main_r, value), ..*old(self) }),
            spec_sweep_envelope_wf(final(self).main_r),
    {
        self.main_r.write(value);
    }

    /// A write to the left CD volume register.
    pub fn write_cd_l(&mut self, value: u32)
        ensures
            *final(self) == (VolumeControl { cd_l: spec_halfword_as_i16(value), ..*old(self) }),
    {
        self.cd_l = halfword_as_i16(value);
    }

    /// A write to the right CD volume register.
    pub fn write_cd_r(&mut self, value: u32)
        ensures
            *final(self) == (VolumeControl { cd_r: spec_halfword_as_i16(value), ..*old(self) }),
    {
        self.cd_r = halfword_as_i16(value);
    }
}

impl SweepEnvelope {
    /// The value [`SweepEnvelope::new`] returns.
    pub open spec fn spec_new() -> SweepEnvelope {
        SweepEnvelope { volume: 0, setting: SweepSetting::Fixed, counter: ENVELOPE_COUNTER }
    }
}

/// The low halfword of a register write read as a signed 16-bit value.
pub open spec fn spec_halfword_as_i16(value: u32) -> i16 {
    if value & 0xFFFF >= 0x8000 {
        ((value & 0xFFFF) - 0x10000) as i16
    } else {
        (value & 0xFFFF) as i16
    }
}

/// Reads the low halfword of a register write as a signed 16-bit value.
pub fn halfword_as_i16(value: u32) -> (r: i16)
    ensures
        r == spec_halfword_as_i16(value),
{
    let halfword = value & 0xFFFF;
    proof {
        crate::lemma_word_mask_bound(value, 0xFFFF);
    }
    if halfword >= 0x8000 {
        -((0x10000u32 - halfword) as i32) as i16
    } else {
        halfword as i16
    }
}


/// The ADSR register pair decoded: attack, decay, sustain, and release
/// slopes.
#[derive(Debug, Clone, Copy, PartialEq, Eq, Structural)]
pub struct AdsrSettings {
    pub attack_step: u8,
    pub attack_shift: u8,
    pub attack_mode: EnvelopeMode,
    pub decay_shift: u8,
    pub sustain_level: u16,
    pub sustain_step: u8,
    pub sustain_shift: u8,
    pub sustain_direction: EnvelopeDirection,
    pub sustain_mode: EnvelopeMode,
    pub release_shift: u8,
    pub release_mode: EnvelopeMode,
}

/// ADSR settings whose fields are inside the widths the registers
/// encode; the sustain level is always a decoded 4-bit field, so it is
/// a positive multiple of `0x800` up to `0x8000`.
pub open spec fn spec_adsr_settings_wf(s: AdsrSettings) -> bool {
    &&& s.attack_step <= 3
    &&& s.attack_shift <= 31
    &&& s.decay_shift <= 15
    &&& 0x800 <= s.sustain_level <= 0x8000
    &&& s.sustain_step <= 3
    &&& s.sustain_shift <= 31
    &&& s.release_shift <= 31
}

/// The sustain level a 4-bit field decodes to: `(N + 1) * 0x800`.
pub open spec fn spec_sustain_level(value: u32) -> u16 {
    (((value & 0xF) + 1) * 0x800) as u16
}

/// Decodes a 4-bit sustain level field.
pub fn parse_sustain_level(value: u32) -> (r: u16)
    ensures
        r == spec_sustain_level(value),
        0x800 <= r <= 0x8000,
{
    let field = value & 0xF;
    proof {
        crate::lemma_word_mask_bound(value, 0xF);
    }
    ((field + 1) * 0x800) as u16
}

/// Re-encodes a decoded sustain level into its 4-bit field, the inverse
/// of [`parse_sustain_level`].
pub fn reverse_sustain_level(value: u16) -> (r: u32)
    requires
        0x800 <= value,
    ensures
        r == ((value as u32) >> 11) - 1,
{
    proof {
        let v = value;
        assert(v >= 0x800 ==> (v as u32) >> 11 >= 1) by (bit_vector);
    }
    ((value as u32) >> 11) - 1
}

/// The ADSR low halfword decoded: attack slope and sustain level.
pub open spec fn spec_adsr_write_low(s: AdsrSettings, value: u32) -> AdsrSettings {
    AdsrSettings {
        attack_mode: if bit_set(value, 15) { EnvelopeMode::Exponential } else { EnvelopeMode::Linear },
        attack_shift: ((value >> 10) & 0x1F) as u8,
        attack_step: ((value >> 8) & 0x3) as u8,
        decay_shift: ((value >> 4) & 0x0F) as u8,
        sustain_level: spec_sustain_level(value),
        ..s
    }
}

/// The ADSR high halfword decoded: sustain and release slopes.
pub open spec fn spec_adsr_write_high(s: AdsrSettings, value: u32) -> AdsrSettings {
    AdsrSettings {
        sustain_mode: if bit_set(value, 15) { EnvelopeMode::Exponential } else { EnvelopeMode::Linear },
        sustain_direction: if bit_set(value, 14) { EnvelopeDirection::Decreasing } else { EnvelopeDirection::Increasing },
        sustain_shift: ((value >> 8) & 0x1F) as u8,
        sustain_step: ((value >> 6) & 0x3) as u8,
        release_mode: if bit_set(value, 5) { EnvelopeMode::Exponential } else { EnvelopeMode::Linear },
        release_shift: (value & 0x1F) as u8,
        ..s
    }
}

impl AdsrSettings {
    /// ADSR settings at reset: every field zero, sustain level at its
    /// decoded minimum.
    pub fn new() -> (r: Self)
        ensures
            r == spec_adsr_settings_reset(),
            spec_adsr_settings_wf(r),
    {
        let r = Self {
            attack_step: 0,
            attack_shift: 0,
            attack_mode: EnvelopeMode::Linear,
            decay_shift: 0,
            sustain_level: parse_sustain_level(0),
            sustain_step: 0,
            sustain_shift: 0,
            sustain_direction: EnvelopeDirection::Increasing,
            sustain_mode: EnvelopeMode::Linear,
            release_shift: 0,
            release_mode: EnvelopeMode::Linear,
        };
        proof {
            assert(0u32 & 0xF == 0) by (bit_vector);
        }
        r
    }

    /// A write to the ADSR low halfword.
    pub fn write_low(&mut self, value: u32)
        ensures
            *final(self) == spec_adsr_write_low(*old(self), value),
            spec_adsr_settings_wf(*old(self)) ==> spec_adsr_settings_wf(*final(self)),
    {
        self.attack_mode = EnvelopeMode::from_bit(word_bit(value, 15));
        let attack_shift_bits = (value >> 10) & 0x1F;
        let attack_step_bits = (value >> 8) & 0x3;
        let decay_shift_bits = (value >> 4) & 0x0F;
        proof {
            crate::lemma_word_mask_bound(value >> 10, 0x1F);
            crate::lemma_word_mask_bound(value >> 8, 0x3);
            crate::lemma_word_mask_bound(value >> 4, 0x0F);
        }
        self.attack_shift = attack_shift_bits as u8;
        self.attack_step = attack_step_bits as u8;
        self.decay_shift = decay_shift_bits as u8;
        self.sustain_level = parse_sustain_level(value);
    }

    /// The ADSR low halfword read back.
    pub fn read_low(&self) -> (r: u32)
        requires
            spec_adsr_settings_wf(*self),
        ensures
            r == ((((self.sustain_level as u32) >> 11) - 1) as u32
                | ((self.decay_shift as u32) << 4)
                | ((self.attack_step as u32) << 8)
                | ((self.attack_shift as u32) << 10)
                | (spec_mode_bit(self.attack_mode) << 15)),
    {
        reverse_sustain_level(self.sustain_level)
            | ((self.decay_shift as u32) << 4)
            | ((self.attack_step as u32) << 8)
            | ((self.attack_shift as u32) << 10)
            | (self.attack_mode.to_bit() << 15)
    }

    /// A write to the ADSR high halfword.
    pub fn write_high(&mut self, value: u32)
        ensures
            *final(self) == spec_adsr_write_high(*old(self), value),
            spec_adsr_settings_wf(*old(self)) ==> spec_adsr_settings_wf(*final(self)),
    {
        self.sustain_mode = EnvelopeMode::from_bit(word_bit(value, 15));
        self.sustain_direction = EnvelopeDirection::from_bit(word_bit(value, 14));
        let sustain_shift_bits = (value >> 8) & 0x1F;
        let sustain_step_bits = (value >> 6) & 0x3;
        let release_shift_bits = value & 0x1F;
        proof {
            crate::lemma_word_mask_bound(value >> 8, 0x1F);
            crate::lemma_word_mask_bound(value >> 6, 0x3);
            crate::lemma_word_mask_bound(value, 0x1F);
        }
        self.sustain_shift = sustain_shift_bits as u8;
        self.sustain_step = sustain_step_bits as u8;
        self.release_mode = EnvelopeMode::from_bit(word_bit(value, 5));
        self.release_shift = release_shift_bits as u8;
    }

    /// The ADSR high halfword read back.
    pub fn read_high(&self) -> (r: u32)
        ensures
            r == ((self.release_shift as u32)
                | (spec_mode_bit(self.release_mode) << 5)
                | ((self.sustain_step as u32) << 6)
                | ((self.sustain_shift as u32) << 8)
                | (spec_direction_bit(self.sustain_direction) << 14)
                | (spec_mode_bit(self.sustain_mode) << 15)),
    {
        (self.release_shift as u32)
            | (self.release_mode.to_bit() << 5)
            | ((self.sustain_step as u32) << 6)
            | ((self.sustain_shift as u32) << 8)
            | (self.sustain_direction.to_bit() << 14)
            | (self.sustain_mode.to_bit() << 15)
    }
}

/// The value [`AdsrSettings::new`] returns.
pub open spec fn spec_adsr_settings_reset() -> AdsrSettings {
    AdsrSettings {
        attack_step: 0,
        attack_shift: 0,
        attack_mode: EnvelopeMode::Linear,
        decay_shift: 0,
        sustain_level: 0x800,
        sustain_step: 0,
        sustain_shift: 0,
        sustain_direction: EnvelopeDirection::Increasing,
        sustain_mode: EnvelopeMode::Linear,
        release_shift: 0,
        release_mode: EnvelopeMode::Linear,
    }
}

/// Which leg of the ADSR envelope a voice is on.
#[derive(Debug, Clone, Copy, PartialEq, Eq, Structural)]
pub enum AdsrPhase {
    Attack,
    Decay,
    Sustain,
    Release,
}

/// A voice's ADSR envelope: its level, settings, phase, and tick
/// counter.
#[derive(Debug, Clone, Copy, PartialEq, Eq, Structural)]
pub struct AdsrEnvelope {
    pub level: i16,
    pub settings: AdsrSettings,
    pub phase: AdsrPhase,
    pub counter: u32,
}

/// An ADSR envelope with well-formed settings and a non-negative level.
pub open spec fn spec_adsr_wf(env: AdsrEnvelope) -> bool {
    spec_adsr_settings_wf(env.settings) && env.level >= 0
}

/// The slope the envelope follows on each phase: attack and sustain are
/// programmable, decay always falls exponentially, release always
/// falls.
pub open spec fn spec_adsr_phase_settings(s: AdsrSettings, phase: AdsrPhase) -> EnvelopeSettings {
    match phase {
        AdsrPhase::Attack => EnvelopeSettings {
            step: s.attack_step,
            shift: s.attack_shift,
            direction: EnvelopeDirection::Increasing,
            mode: s.attack_mode,
        },
        AdsrPhase::Decay => EnvelopeSettings {
            step: 0,
            shift: s.decay_shift,
            direction: EnvelopeDirection::Decreasing,
            mode: EnvelopeMode::Exponential,
        },
        AdsrPhase::Sustain => EnvelopeSettings {
            step: s.sustain_step,
            shift: s.sustain_shift,
            direction: s.sustain_direction,
            mode: s.sustain_mode,
        },
        AdsrPhase::Release => EnvelopeSettings {
            step: 0,
            shift: s.release_shift,
            direction: EnvelopeDirection::Decreasing,
            mode: s.release_mode,
        },
    }
}

/// What one tick does to an ADSR envelope: the phase advances from
/// attack at full level and from decay at or below the sustain level;
/// the counter then counts down, and when it runs out the level moves
/// one step along the phase's slope, clamped to the positive range.
pub open spec fn spec_adsr_clock(env: AdsrEnvelope) -> AdsrEnvelope {
    let phase1 = if env.phase == AdsrPhase::Attack && env.level == 0x7FFF {
        AdsrPhase::Decay
    } else {
        env.phase
    };
    let phase = if phase1 == AdsrPhase::Decay && env.level <= env.settings.sustain_level {
        AdsrPhase::Sustain
    } else {
        phase1
    };
    let slope = spec_adsr_phase_settings(env.settings, phase);
    let decrement = spec_counter_decrement(slope, env.level as u16);
    let counter = if env.counter >= decrement { (env.counter - decrement) as u32 } else { 0u32 };
    if counter == 0 {
        let level = spec_clamp(env.level + spec_next_step(slope, env.level as u16), 0, 0x7FFF);
        AdsrEnvelope { level: level as i16, phase, counter: ENVELOPE_COUNTER, ..env }
    } else {
        AdsrEnvelope { phase, counter, ..env }
    }
}

impl AdsrEnvelope {
    /// A silent envelope in the release phase.
    pub fn new() -> (r: Self)
        ensures
            r == (AdsrEnvelope {
                level: 0,
                settings: spec_adsr_settings_reset(),
                phase: AdsrPhase::Release,
                counter: ENVELOPE_COUNTER,
            }),
            spec_adsr_wf(r),
    {
        Self {
            level: 0,
            settings: AdsrSettings::new(),
            phase: AdsrPhase::Release,
            counter: ENVELOPE_COUNTER,
        }
    }

    /// One tick of the ADSR envelope.
    pub fn clock(&mut self)
        requires
            spec_adsr_wf(*old(self)),
        ensures
            *final(self) == spec_adsr_clock(*old(self)),
            spec_adsr_wf(*final(self)),
    {
        if matches!(self.phase, AdsrPhase::Attack) && self.level == 0x7FFF {
            self.phase = AdsrPhase::Decay;
        }

        if matches!(self.phase, AdsrPhase::Decay) && (self.level as u16) <= self.settings.sustain_level {
            self.phase = AdsrPhase::Sustain;
        }

        let envelope_settings = match self.phase {
            AdsrPhase::Attack => EnvelopeSettings {
                step: self.settings.attack_step,
                shift: self.settings.attack_shift,
                direction: EnvelopeDirection::Increasing,
                mode: self.settings.attack_mode,
            },
            AdsrPhase::Decay => EnvelopeSettings {
                step: 0,
                shift: self.settings.decay_shift,
                direction: EnvelopeDirection::Decreasing,
                mode: EnvelopeMode::Exponential,
            },
            AdsrPhase::Sustain => EnvelopeSettings {
                step: self.settings.sustain_step,
                shift: self.settings.sustain_shift,
                direction: self.settings.sustain_direction,
                mode: self.settings.sustain_mode,
            },
            AdsrPhase::Release => EnvelopeSettings {
                step: 0,
                shift: self.settings.release_shift,
                direction: EnvelopeDirection::Decreasing,
                mode: self.settings.release_mode,
            },
        };

        let counter_decrement = envelope_settings.counter_decrement(self.level as u16);
        self.counter = if self.counter >= counter_decrement {
            self.counter - counter_decrement
        } else {
            0
        };
        if self.counter == 0 {
            self.counter = ENVELOPE_COUNTER;

            let step: i32 = envelope_settings.next_step(self.level as u16) as i32;
            let sum = (self.level as i32) + step;
            self.level = (if sum < 0 { 0 } else if sum > 0x7FFF { 0x7FFF } else { sum }) as i16;
        }
    }

    /// Keying a voice on restarts its envelope: attack phase from level
    /// zero.
    pub fn key_on(&mut self)
        ensures
            *final(self) == (AdsrEnvelope { phase: AdsrPhase::Attack, level: 0, ..*old(self) }),
            spec_adsr_settings_wf(old(self).settings) ==> spec_adsr_wf(*final(self)),
    {
        self.phase = AdsrPhase::Attack;
        self.level = 0;
    }

    /// Keying a voice off sends its envelope to the release phase.
    pub fn key_off(&mut self)
        ensures
            *final(self) == (AdsrEnvelope { phase: AdsrPhase::Release, ..*old(self) }),
            spec_adsr_wf(*old(self)) ==> spec_adsr_wf(*final(self)),
    {
        self.phase = AdsrPhase::Release;
    }
}


} // verus!
