//! The sound processing unit's register file: voice registers, volume
//! and control registers, and the sound RAM data port.

use vstd::prelude::*;

verus! {

use crate::bit_set;
use crate::word_bit;
use crate::envelope::halfword_as_i16;
use crate::envelope::spec_adsr_wf;
use crate::envelope::spec_adsr_write_high;
use crate::envelope::spec_adsr_write_low;
use crate::envelope::spec_halfword_as_i16;
use crate::envelope::spec_sweep_envelope_wf;
use crate::envelope::spec_sweep_written;
use crate::envelope::spec_volume_control_wf;
use crate::envelope::AdsrEnvelope;
use crate::envelope::AdsrPhase;
use crate::envelope::SweepEnvelope;
use crate::envelope::VolumeControl;

/// Bytes of sound RAM.
pub const AUDIO_RAM_LEN: usize = 0x80000;

/// Wraparound mask for sound RAM addresses.
pub const AUDIO_RAM_MASK: u32 = 0x7FFFF;

/// Voices the SPU mixes.
pub const NUM_VOICES: usize = 24;

/// The SPU clock rate is exactly 1/768 of the CPU clock rate.
pub const SPU_CLOCK_DIVIDER: u32 = 768;

/// The width of one CPU access to an SPU register.
#[derive(Debug, Clone, Copy, PartialEq, Eq, Structural)]
pub enum OpSize {
    Byte,
    HalfWord,
    Word,
}

/// What the sound RAM data port is set up to do.
#[derive(Debug, Clone, Copy, PartialEq, Eq, Structural)]
pub enum DataPortMode {
    Off,
    ManualWrite,
    DmaWrite,
    DmaRead,
}

/// The port mode selected by the low 2 bits.
pub open spec fn spec_data_port_mode(bits: u32) -> DataPortMode {
    if bits & 3 == 0 {
        DataPortMode::Off
    } else if bits & 3 == 1 {
        DataPortMode::ManualWrite
    } else if bits & 3 == 2 {
        DataPortMode::DmaWrite
    } else {
        DataPortMode::DmaRead
    }
}

/// The mode's 2-bit encoding.
pub open spec fn spec_data_port_mode_bits(m: DataPortMode) -> u32 {
    match m {
        DataPortMode::Off => 0,
        DataPortMode::ManualWrite => 1,
        DataPortMode::DmaWrite => 2,
        DataPortMode::DmaRead => 3,
    }
}

impl DataPortMode {
    /// Decodes the port mode from the low 2 bits.
    fn from_bits(bits: u32) -> (r: Self)
        ensures
            r == spec_data_port_mode(bits),
    {
        proof {
            crate::lemma_word_mask_bound(bits, 3);
        }
        match bits & 3 {
            0 => Self::Off,
            1 => Self::ManualWrite,
            2 => Self::DmaWrite,
            _ => Self::DmaRead,
        }
    }

    /// The mode's 2-bit encoding.
    fn to_bits(self) -> (r: u32)
        ensures
            r == spec_data_port_mode_bits(self),
    {
        match self {
            Self::Off => 0,
            Self::ManualWrite => 1,
            Self::DmaWrite => 2,
            Self::DmaRead => 3,
        }
    }

    /// Whether the mode is one of the two DMA modes.
    fn is_dma(self) -> (r: bool)
        ensures
            r == spec_is_dma(self),
    {
        matches!(self, Self::DmaWrite | Self::DmaRead)
    }
}

/// Whether a port mode is one of the two DMA modes.
pub open spec fn spec_is_dma(m: DataPortMode) -> bool {
    m == DataPortMode::DmaWrite || m == DataPortMode::DmaRead
}

/// The sound RAM data port: its mode and transfer addresses.
#[derive(Debug, Clone, Copy, PartialEq, Eq, Structural)]
pub struct DataPort {
    pub mode: DataPortMode,
    pub start_address: u32,
    pub current_address: u32,
}

/// A data port whose current address is an even sound RAM address, so a
/// halfword write at it stays in bounds.
pub open spec fn spec_data_port_wf(p: DataPort) -> bool {
    p.current_address % 2 == 0 && p.current_address < AUDIO_RAM_LEN
}

/// The sound RAM address a transfer-address write sets: the halfword in
/// 8-byte units.
pub open spec fn spec_transfer_address(value: u32) -> u32 {
    ((value & 0xFFFF) * 8) as u32
}

impl DataPort {
    /// A data port at reset.
    fn new() -> (r: Self)
        ensures
            r == (DataPort { mode: DataPortMode::Off, start_address: 0, current_address: 0 }),
            spec_data_port_wf(r),
    {
        Self { mode: DataPortMode::Off, start_address: 0, current_address: 0 }
    }

    /// A write to the transfer address register: the address, in 8-byte
    /// units, lands in both the start and the internal current address.
    fn write_transfer_address(&mut self, value: u32)
        ensures
            *final(self) == (DataPort {
                start_address: spec_transfer_address(value),
                current_address: spec_transfer_address(value),
                ..*old(self)
            }),
            spec_data_port_wf(*final(self)),
    {
        let halfword = value & 0xFFFF;
        proof {
            crate::lemma_word_mask_bound(value, 0xFFFF);
        }
        self.start_address = halfword * 8;
        self.current_address = self.start_address;
    }
}

/// The SPU's global control flags.
#[derive(Debug, Clone, Copy, PartialEq, Eq, Structural)]
pub struct ControlRegisters {
    pub spu_enabled: bool,
    pub amplifier_enabled: bool,
    pub external_audio_enabled: bool,
    pub cd_audio_enabled: bool,
    pub external_audio_reverb_enabled: bool,
    pub cd_audio_reverb_enabled: bool,
    pub irq_enabled: bool,
    pub noise_shift: u8,
    pub noise_step: u8,
    /// Recorded in case software reads the key-on register back.
    pub last_key_on_write: u32,
    /// Recorded in case software reads the key-off register back.
    pub last_key_off_write: u32,
}

/// Control registers whose noise fields are inside their encoded widths.
pub open spec fn spec_control_wf(c: ControlRegisters) -> bool {
    c.noise_shift <= 0xF && c.noise_step <= 3
}

/// The control registers at reset.
pub open spec fn spec_control_reset() -> ControlRegisters {
    ControlRegisters {
        spu_enabled: false,
        amplifier_enabled: false,
        external_audio_enabled: false,
        cd_audio_enabled: false,
        external_audio_reverb_enabled: false,
        cd_audio_reverb_enabled: false,
        irq_enabled: false,
        noise_shift: 0,
        noise_step: 0,
        last_key_on_write: 0,
        last_key_off_write: 0,
    }
}

/// The control register (SPUCNT) read back from the control flags, the
/// data port mode, and the reverb write-enable.
pub open spec fn spec_spucnt(c: ControlRegisters, port_mode: DataPortMode, reverb_writes: bool) -> u32 {
    ((if c.spu_enabled { 1u32 } else { 0u32 }) << 15)
        | ((if c.amplifier_enabled { 1u32 } else { 0u32 }) << 14)
        | ((c.noise_shift as u32) << 10)
        | ((c.noise_step as u32) << 8)
        | ((if reverb_writes { 1u32 } else { 0u32 }) << 7)
        | ((if c.irq_enabled { 1u32 } else { 0u32 }) << 6)
        | (spec_data_port_mode_bits(port_mode) << 4)
        | ((if c.external_audio_reverb_enabled { 1u32 } else { 0u32 }) << 3)
        | ((if c.cd_audio_reverb_enabled { 1u32 } else { 0u32 }) << 2)
        | ((if c.external_audio_enabled { 1u32 } else { 0u32 }) << 1)
        | (if c.cd_audio_enabled { 1u32 } else { 0u32 })
}

/// The control flags a control register (SPUCNT) write decodes to.
pub open spec fn spec_spucnt_written(c: ControlRegisters, value: u32) -> ControlRegisters {
    ControlRegisters {
        spu_enabled: bit_set(value, 15),
        amplifier_enabled: bit_set(value, 14),
        noise_shift: ((value >> 10) & 0xF) as u8,
        noise_step: ((value >> 8) & 3) as u8,
        irq_enabled: bit_set(value, 6),
        external_audio_reverb_enabled: bit_set(value, 3),
        cd_audio_reverb_enabled: bit_set(value, 2),
        external_audio_enabled: bit_set(value, 1),
        cd_audio_enabled: bit_set(value, 0),
        ..c
    }
}

impl ControlRegisters {
    /// The control registers at reset.
    fn new() -> (r: Self)
        ensures
            r == spec_control_reset(),
            spec_control_wf(r),
    {
        Self {
            spu_enabled: false,
            amplifier_enabled: false,
            external_audio_enabled: false,
            cd_audio_enabled: false,
            external_audio_reverb_enabled: false,
            cd_audio_reverb_enabled: false,
            irq_enabled: false,
            noise_shift: 0,
            noise_step: 0,
            last_key_on_write: 0,
            last_key_off_write: 0,
        }
    }

    /// Reads the control register back.
    fn read_spucnt(&self, data_port: &DataPort, reverb: &ReverbSettings) -> (r: u32)
        ensures
            r == spec_spucnt(*self, data_port.mode, reverb.writes_enabled),
    {
        ((if self.spu_enabled { 1u32 } else { 0u32 }) << 15)
            | ((if self.amplifier_enabled { 1u32 } else { 0u32 }) << 14)
            | ((self.noise_shift as u32) << 10)
            | ((self.noise_step as u32) << 8)
            | ((if reverb.writes_enabled { 1u32 } else { 0u32 }) << 7)
            | ((if self.irq_enabled { 1u32 } else { 0u32 }) << 6)
            | (data_port.mode.to_bits() << 4)
            | ((if self.external_audio_reverb_enabled { 1u32 } else { 0u32 }) << 3)
            | ((if self.cd_audio_reverb_enabled { 1u32 } else { 0u32 }) << 2)
            | ((if self.external_audio_enabled { 1u32 } else { 0u32 }) << 1)
            | (if self.cd_audio_enabled { 1u32 } else { 0u32 })
    }

    /// A control register write: control flags, the data port mode, and
    /// the reverb write-enable, all from the written bits.
    fn write_spucnt(&mut self, value: u32, data_port: &mut DataPort, reverb: &mut ReverbSettings)
        ensures
            *final(self) == spec_spucnt_written(*old(self), value),
            *final(data_port) == (DataPort { mode: spec_data_port_mode(value >> 4), ..*old(data_port) }),
            *final(reverb) == (ReverbSettings { writes_enabled: bit_set(value, 7), ..*old(reverb) }),
            spec_control_wf(*final(self)),
            spec_data_port_wf(*old(data_port)) ==> spec_data_port_wf(*final(data_port)),
    {
        self.spu_enabled = word_bit(value, 15);
        self.amplifier_enabled = word_bit(value, 14);
        let noise_shift_bits = (value >> 10) & 0xF;
        let noise_step_bits = (value >> 8) & 3;
        proof {
            crate::lemma_word_mask_bound(value >> 10, 0xF);
            crate::lemma_word_mask_bound(value >> 8, 3);
        }
        self.noise_shift = noise_shift_bits as u8;
        self.noise_step = noise_step_bits as u8;
        reverb.writes_enabled = word_bit(value, 7);
        self.irq_enabled = word_bit(value, 6);
        data_port.mode = DataPortMode::from_bits(value >> 4);
        self.external_audio_reverb_enabled = word_bit(value, 3);
        self.cd_audio_reverb_enabled = word_bit(value, 2);
        self.external_audio_enabled = word_bit(value, 1);
        self.cd_audio_enabled = word_bit(value, 0);
    }

    /// Records the low halfword of a key-on write.
    fn record_kon_low_write(&mut self, value: u32)
        ensures
            final(self).last_key_on_write == (old(self).last_key_on_write & 0xFFFF0000) | (value & 0xFFFF),
            *final(self) == (ControlRegisters { last_key_on_write: final(self).last_key_on_write, ..*old(self) }),
    {
        self.last_key_on_write = (self.last_key_on_write & 0xFFFF0000) | (value & 0xFFFF);
    }

    /// Records the high halfword of a key-on write.
    fn record_kon_high_write(&mut self, value: u32)
        ensures
            final(self).last_key_on_write == (old(self).last_key_on_write & 0xFFFF) | ((value & 0xFFFF) << 16),
            *final(self) == (ControlRegisters { last_key_on_write: final(self).last_key_on_write, ..*old(self) }),
    {
        let shifted = (value & 0xFFFF) << 16;
        self.last_key_on_write = (self.last_key_on_write & 0xFFFF) | shifted;
    }

    /// Records the low halfword of a key-off write.
    fn record_koff_low_write(&mut self, value: u32)
        ensures
            final(self).last_key_off_write == (old(self).last_key_off_write & 0xFFFF0000) | (value & 0xFFFF),
            *final(self) == (ControlRegisters { last_key_off_write: final(self).last_key_off_write, ..*old(self) }),
    {
        self.last_key_off_write = (self.last_key_off_write & 0xFFFF0000) | (value & 0xFFFF);
    }

    /// Records the high halfword of a key-off write.
    fn record_koff_high_write(&mut self, value: u32)
        ensures
            final(self).last_key_off_write == (old(self).last_key_off_write & 0xFFFF) | ((value & 0xFFFF) << 16),
            *final(self) == (ControlRegisters { last_key_off_write: final(self).last_key_off_write, ..*old(self) }),
    {
        let shifted = (value & 0xFFFF) << 16;
        self.last_key_off_write = (self.last_key_off_write & 0xFFFF) | shifted;
    }
}

/// The reverb unit's registers, as far as the register file tracks them:
/// the write-enable, output volumes, buffer start address, and the raw
/// coefficient registers.
#[derive(Debug, Clone, Copy, PartialEq, Eq)]
pub struct ReverbSettings {
    pub writes_enabled: bool,
    pub output_volume_l: i16,
    pub output_volume_r: i16,
    pub buffer_start_address: u32,
    pub registers: [u16; 32],
}

impl ReverbSettings {
    /// The reverb registers at reset: everything zero.
    fn new() -> (r: Self)
        ensures
            r.writes_enabled == false,
            r.output_volume_l == 0 && r.output_volume_r == 0,
            r.buffer_start_address == 0,
            forall|i: int| 0 <= i < 32 ==> r.registers[i] == 0,
    {
        Self {
            writes_enabled: false,
            output_volume_l: 0,
            output_volume_r: 0,
            buffer_start_address: 0,
            registers: [0; 32],
        }
    }

    /// A write to the left reverb output volume.
    fn write_output_volume_l(&mut self, value: u32)
        ensures
            *final(self) == (ReverbSettings { output_volume_l: spec_halfword_as_i16(value), ..*old(self) }),
    {
        self.output_volume_l = halfword_as_i16(value);
    }

    /// A write to the right reverb output volume.
    fn write_output_volume_r(&mut self, value: u32)
        ensures
            *final(self) == (ReverbSettings { output_volume_r: spec_halfword_as_i16(value), ..*old(self) }),
    {
        self.output_volume_r = halfword_as_i16(value);
    }

    /// A write to the reverb buffer start address, in 8-byte units.
    fn write_buffer_start_address(&mut self, value: u32)
        ensures
            *final(self) == (ReverbSettings { buffer_start_address: spec_transfer_address(value), ..*old(self) }),
    {
        let halfword = value & 0xFFFF;
        proof {
            crate::lemma_word_mask_bound(value, 0xFFFF);
        }
        self.buffer_start_address = halfword * 8;
    }

    /// A write to one of the raw reverb coefficient registers.
    fn write_register(&mut self, address: u32, value: u32)
        ensures
            final(self).registers@ == old(self).registers@.update(
                spec_reverb_register_index(address),
                (value & 0xFFFF) as u16,
            ),
            *final(self) == (ReverbSettings { registers: final(self).registers, ..*old(self) }),
    {
        let index = (address & 0x3F) / 2;
        proof {
            crate::lemma_word_mask_bound(address, 0x3F);
            crate::lemma_word_mask_bound(value, 0xFFFF);
        }
        self.registers[index as usize] = (value & 0xFFFF) as u16;
    }
}

/// Which raw reverb register an address in the reverb range selects.
pub open spec fn spec_reverb_register_index(address: u32) -> int {
    (address & 0x3F) as int / 2
}

/// One of the 24 voices, as far as the register file tracks it: its
/// volumes, sample rate, start address, and ADSR envelope.
#[derive(Debug, Clone, Copy, PartialEq, Eq, Structural)]
pub struct Voice {
    pub volume_l: SweepEnvelope,
    pub volume_r: SweepEnvelope,
    pub sample_rate: u16,
    pub start_address: u32,
    pub adsr: AdsrEnvelope,
}

/// A voice whose envelopes are well-formed.
pub open spec fn spec_voice_wf(v: Voice) -> bool {
    spec_sweep_envelope_wf(v.volume_l) && spec_sweep_envelope_wf(v.volume_r) && spec_adsr_wf(v.adsr)
}

impl Voice {
    /// A silent voice.
    pub fn new() -> (r: Self)
        ensures
            r == (Voice {
                volume_l: SweepEnvelope::spec_new(),
                volume_r: SweepEnvelope::spec_new(),
                sample_rate: 0,
                start_address: 0,
                adsr: AdsrEnvelope {
                    level: 0,
                    settings: crate::envelope::spec_adsr_settings_reset(),
                    phase: AdsrPhase::Release,
                    counter: crate::envelope::ENVELOPE_COUNTER,
                },
            }),
            spec_voice_wf(r),
    {
        Self {
            volume_l: SweepEnvelope::new(),
            volume_r: SweepEnvelope::new(),
            sample_rate: 0,
            start_address: 0,
            adsr: AdsrEnvelope::new(),
        }
    }

    /// Keying the voice on restarts its ADSR envelope.
    pub fn key_on(&mut self)
        ensures
            *final(self) == spec_voice_keyed_on(*old(self)),
            spec_voice_wf(*old(self)) ==> spec_voice_wf(*final(self)),
    {
        self.adsr.key_on();
    }

    /// Keying the voice off releases its ADSR envelope.
    pub fn key_off(&mut self)
        ensures
            *final(self) == spec_voice_keyed_off(*old(self)),
            spec_voice_wf(*old(self)) ==> spec_voice_wf(*final(self)),
    {
        self.adsr.key_off();
    }
}

/// A voice after key-on: ADSR back to attack from level zero.
pub open spec fn spec_voice_keyed_on(v: Voice) -> Voice {
    Voice { adsr: AdsrEnvelope { phase: AdsrPhase::Attack, level: 0, ..v.adsr }, ..v }
}

/// A voice after key-off: ADSR to the release phase.
pub open spec fn spec_voice_keyed_off(v: Voice) -> Voice {
    Voice { adsr: AdsrEnvelope { phase: AdsrPhase::Release, ..v.adsr }, ..v }
}

/// The voice number an address in the voice register range selects.
pub open spec fn spec_voice_number(address: u32) -> int {
    ((address >> 4) & 0x1F) as int
}

/// The voice number an address selects.
pub fn get_voice_number(address: u32) -> (r: usize)
    ensures
        r == spec_voice_number(address),
        r < 32,
{
    let n = (address >> 4) & 0x1F;
    proof {
        crate::lemma_word_mask_bound(address >> 4, 0x1F);
    }
    n as usize
}


/// The sound processing unit, as the CPU sees it through its register
/// file: sound RAM, 24 voices, control and volume registers, the data
/// port, and the reverb registers.
#[derive(Debug, Clone)]
pub struct Spu {
    pub audio_ram: Vec<u8>,
    pub voices: [Voice; 24],
    pub control: ControlRegisters,
    pub volume: VolumeControl,
    pub data_port: DataPort,
    pub reverb: ReverbSettings,
    pub cpu_cycles: u32,
}

/// The mathematical view of [`Spu`].
#[verifier::ext_equal]
pub struct SpuView {
    pub audio_ram: Seq<u8>,
    pub voices: Seq<Voice>,
    pub control: ControlRegisters,
    pub volume: VolumeControl,
    pub data_port: DataPort,
    pub reverb: ReverbSettings,
    pub cpu_cycles: u32,
}

impl View for Spu {
    type V = SpuView;

    open spec fn view(&self) -> SpuView {
        SpuView {
            audio_ram: self.audio_ram@,
            voices: self.voices@,
            control: self.control,
            volume: self.volume,
            data_port: self.data_port,
            reverb: self.reverb,
            cpu_cycles: self.cpu_cycles,
        }
    }
}

/// A well-formed SPU: full-size sound RAM, 24 well-formed voices, fields
/// inside their encoded widths, and fewer than one SPU tick of CPU
/// cycles banked.
pub open spec fn spec_spu_wf(s: SpuView) -> bool {
    &&& s.audio_ram.len() == AUDIO_RAM_LEN
    &&& s.voices.len() == NUM_VOICES
    &&& forall|i: int| 0 <= i < NUM_VOICES ==> spec_voice_wf(#[trigger] s.voices[i])
    &&& spec_control_wf(s.control)
    &&& spec_volume_control_wf(s.volume)
    &&& spec_data_port_wf(s.data_port)
    &&& s.cpu_cycles < SPU_CLOCK_DIVIDER
}

/// A voice register write decoded: which voice, and which of its fields
/// the low 4 address bits select. An out-of-range voice number leaves
/// everything unchanged.
pub open spec fn spec_voice_written(s: SpuView, address: u32, value: u32) -> SpuView {
    let n = spec_voice_number(address);
    if n >= 24 {
        s
    } else {
        let v = s.voices[n];
        let offset = address & 0xF;
        let written = if offset == 0x0 {
            Voice { volume_l: spec_sweep_written(v.volume_l, value), ..v }
        } else if offset == 0x2 {
            Voice { volume_r: spec_sweep_written(v.volume_r, value), ..v }
        } else if offset == 0x4 {
            Voice { sample_rate: (value & 0xFFFF) as u16, ..v }
        } else if offset == 0x6 {
            Voice { start_address: spec_transfer_address(value), ..v }
        } else if offset == 0x8 {
            Voice { adsr: AdsrEnvelope { settings: spec_adsr_write_low(v.adsr.settings, value), ..v.adsr }, ..v }
        } else {
            Voice { adsr: AdsrEnvelope { settings: spec_adsr_write_high(v.adsr.settings, value), ..v.adsr }, ..v }
        };
        SpuView { voices: s.voices.update(n, written), ..s }
    }
}

/// The voices after a key-on write for voices `base` through
/// `base + 15`: each voice whose bit is set restarts its envelope.
pub open spec fn spec_keyed_voices_on(voices: Seq<Voice>, value: u32, base: int) -> Seq<Voice> {
    Seq::new(voices.len(), |i: int|
        if base <= i < base + 16 && bit_set(value, (i - base) as u32) {
            spec_voice_keyed_on(voices[i])
        } else {
            voices[i]
        })
}

/// The voices after a key-off write for voices `base` through
/// `base + 15`: each voice whose bit is set moves to release.
pub open spec fn spec_keyed_voices_off(voices: Seq<Voice>, value: u32, base: int) -> Seq<Voice> {
    Seq::new(voices.len(), |i: int|
        if base <= i < base + 16 && bit_set(value, (i - base) as u32) {
            spec_voice_keyed_off(voices[i])
        } else {
            voices[i]
        })
}

/// Sound RAM and the data port after one data port write: the halfword
/// lands at the current address, low byte first, and the current address
/// advances two bytes with wraparound.
pub open spec fn spec_data_port_written(s: SpuView, value: u32) -> SpuView {
    let cur = s.data_port.current_address as int;
    SpuView {
        audio_ram: s.audio_ram.update(cur, (value & 0xFF) as u8).update(cur + 1, ((value >> 8) & 0xFF) as u8),
        data_port: DataPort {
            current_address: ((s.data_port.current_address + 2) as u32) & AUDIO_RAM_MASK,
            ..s.data_port
        },
        ..s
    }
}

/// Whether one halfword-sized register write is recognized. Writes to
/// unknown registers, to odd or reserved voice register offsets, and of
/// unexpected transfer control values have no defined behavior and are
/// refused.
pub open spec fn spec_spu_write_halfword_ok(address: u32, value: u32) -> bool {
    let a = address & 0xFFFF;
    if 0x1C00 <= a < 0x1D80 {
        spec_voice_number(address) >= 24 || (address & 0xF == 0x0 || address & 0xF == 0x2
            || address & 0xF == 0x4 || address & 0xF == 0x6 || address & 0xF == 0x8 || address & 0xF
            == 0xA)
    } else if a == 0x1DAC {
        // Sound RAM data transfer control: only the standard value.
        value & 0xFFFF == 0x0004
    } else {
        ||| a == 0x1D80
        ||| a == 0x1D82
        ||| a == 0x1D84
        ||| a == 0x1D86
        ||| a == 0x1D88
        ||| a == 0x1D8A
        ||| a == 0x1D8C
        ||| a == 0x1D8E
        ||| a == 0x1D90
        ||| a == 0x1D92
        ||| a == 0x1D94
        ||| a == 0x1D96
        ||| a == 0x1D98
        ||| a == 0x1D9A
        ||| a == 0x1DA2
        ||| a == 0x1DA6
        ||| a == 0x1DA8
        ||| a == 0x1DAA
        ||| a == 0x1DB0
        ||| a == 0x1DB2
        ||| a == 0x1DB4
        ||| a == 0x1DB6
        ||| 0x1DC0 <= a < 0x1E00
    }
}

/// What one recognized halfword-sized register write does. The FM,
/// noise, voice-reverb, and external-volume registers are accepted and
/// ignored; so is the transfer control register with its standard value.
pub open spec fn spec_spu_write_halfword(s: SpuView, address: u32, value: u32) -> SpuView {
    let a = address & 0xFFFF;
    if 0x1C00 <= a < 0x1D80 {
        spec_voice_written(s, address, value)
    } else if a == 0x1D80 {
        SpuView { volume: VolumeControl { main_l: spec_sweep_written(s.volume.main_l, value), ..s.volume }, ..s }
    } else if a == 0x1D82 {
        SpuView { volume: VolumeControl { main_r: spec_sweep_written(s.volume.main_r, value), ..s.volume }, ..s }
    } else if a == 0x1D84 {
        SpuView { reverb: ReverbSettings { output_volume_l: spec_halfword_as_i16(value), ..s.reverb }, ..s }
    } else if a == 0x1D86 {
        SpuView { reverb: ReverbSettings { output_volume_r: spec_halfword_as_i16(value), ..s.reverb }, ..s }
    } else if a == 0x1D88 {
        SpuView {
            voices: spec_keyed_voices_on(s.voices, value, 0),
            control: ControlRegisters {
                last_key_on_write: (s.control.last_key_on_write & 0xFFFF0000) | (value & 0xFFFF),
                ..s.control
            },
            ..s
        }
    } else if a == 0x1D8A {
        SpuView {
            voices: spec_keyed_voices_on(s.voices, value, 16),
            control: ControlRegisters {
                last_key_on_write: (s.control.last_key_on_write & 0xFFFF) | ((value & 0xFFFF) << 16),
                ..s.control
            },
            ..s
        }
    } else if a == 0x1D8C {
        SpuView {
            voices: spec_keyed_voices_off(s.voices, value, 0),
            control: ControlRegisters {
                last_key_off_write: (s.control.last_key_off_write & 0xFFFF0000) | (value & 0xFFFF),
                ..s.control
            },
            ..s
        }
    } else if a == 0x1D8E {
        SpuView {
            voices: spec_keyed_voices_off(s.voices, value, 16),
            control: ControlRegisters {
                last_key_off_write: (s.control.last_key_off_write & 0xFFFF) | ((value & 0xFFFF) << 16),
                ..s.control
            },
            ..s
        }
    } else if a == 0x1DA2 {
        SpuView { reverb: ReverbSettings { buffer_start_address: spec_transfer_address(value), ..s.reverb }, ..s }
    } else if a == 0x1DA6 {
        SpuView {
            data_port: DataPort {
                start_address: spec_transfer_address(value),
                current_address: spec_transfer_address(value),
                ..s.data_port
            },
            ..s
        }
    } else if a == 0x1DA8 {
        spec_data_port_written(s, value)
    } else if a == 0x1DAA {
        SpuView {
            control: spec_spucnt_written(s.control, value),
            data_port: DataPort { mode: spec_data_port_mode(value >> 4), ..s.data_port },
            reverb: ReverbSettings { writes_enabled: bit_set(value, 7), ..s.reverb },
            ..s
        }
    } else if a == 0x1DB0 {
        SpuView { volume: VolumeControl { cd_l: spec_halfword_as_i16(value), ..s.volume }, ..s }
    } else if a == 0x1DB2 {
        SpuView { volume: VolumeControl { cd_r: spec_halfword_as_i16(value), ..s.volume }, ..s }
    } else if 0x1DC0 <= a < 0x1E00 {
        SpuView {
            reverb: ReverbSettings {
                registers: vstd::array::spec_array_update(
                    s.reverb.registers,
                    spec_reverb_register_index(address),
                    (value & 0xFFFF) as u16,
                ),
                ..s.reverb
            },
            ..s
        }
    } else {
        s
    }
}

/// Whether a register write of the given width is recognized: byte
/// writes to odd addresses do nothing, word writes land as two halfword
/// writes, both of which must be recognized.
pub open spec fn spec_spu_write_ok(address: u32, value: u32, size: OpSize) -> bool {
    match size {
        OpSize::Byte => address & 1 == 1 || spec_spu_write_halfword_ok(address, value),
        OpSize::HalfWord => spec_spu_write_halfword_ok(address, value),
        OpSize::Word => spec_spu_write_halfword_ok(address, value & 0xFFFF)
            && spec_spu_write_halfword_ok(address | 2, value >> 16),
    }
}

/// What one recognized register write of the given width does.
pub open spec fn spec_spu_write(s: SpuView, address: u32, value: u32, size: OpSize) -> SpuView {
    match size {
        OpSize::Byte => if address & 1 == 1 {
            s
        } else {
            spec_spu_write_halfword(s, address, value)
        },
        OpSize::HalfWord => spec_spu_write_halfword(s, address, value),
        OpSize::Word => spec_spu_write_halfword(
            spec_spu_write_halfword(s, address, value & 0xFFFF),
            address | 2,
            value >> 16,
        ),
    }
}

/// The status register (SPUSTAT) read back.
pub open spec fn spec_spustat(s: SpuView) -> u32 {
    ((if s.data_port.mode == DataPortMode::DmaRead { 1u32 } else { 0u32 }) << 9)
        | ((if s.data_port.mode == DataPortMode::DmaWrite { 1u32 } else { 0u32 }) << 8)
        | ((if spec_is_dma(s.data_port.mode) { 1u32 } else { 0u32 }) << 7)
        | (spec_data_port_mode_bits(s.data_port.mode) << 5)
        | ((if s.control.external_audio_reverb_enabled { 1u32 } else { 0u32 }) << 3)
        | ((if s.control.cd_audio_reverb_enabled { 1u32 } else { 0u32 }) << 2)
        | ((if s.control.external_audio_enabled { 1u32 } else { 0u32 }) << 1)
        | (if s.control.cd_audio_enabled { 1u32 } else { 0u32 })
}

/// Whether a halfword-sized register read is recognized: the key
/// registers read back their last written values, and the control,
/// transfer control, and status registers are readable.
pub open spec fn spec_spu_read_halfword_ok(address: u32) -> bool {
    let a = address & 0xFFFE;
    a == 0x1D88 || a == 0x1D8A || a == 0x1D8C || a == 0x1D8E || a == 0x1DAA || a == 0x1DAC
        || a == 0x1DAE
}

/// What one recognized halfword-sized register read returns.
pub open spec fn spec_spu_read_halfword(s: SpuView, address: u32) -> u32 {
    let a = address & 0xFFFE;
    if a == 0x1D88 {
        s.control.last_key_on_write & 0xFFFF
    } else if a == 0x1D8A {
        s.control.last_key_on_write >> 16
    } else if a == 0x1D8C {
        s.control.last_key_off_write & 0xFFFF
    } else if a == 0x1D8E {
        s.control.last_key_off_write >> 16
    } else if a == 0x1DAA {
        spec_spucnt(s.control, s.data_port.mode, s.reverb.writes_enabled)
    } else if a == 0x1DAC {
        // Sound RAM data transfer control reads back its standard value.
        0x0004
    } else {
        spec_spustat(s)
    }
}

/// Whether a register read of the given width is recognized.
pub open spec fn spec_spu_read_ok(address: u32, size: OpSize) -> bool {
    match size {
        OpSize::Byte => spec_spu_read_halfword_ok(address),
        OpSize::HalfWord => spec_spu_read_halfword_ok(address),
        OpSize::Word => spec_spu_read_halfword_ok(address) && spec_spu_read_halfword_ok(address | 2),
    }
}

/// What one recognized register read of the given width returns: a byte
/// read picks its half of the halfword, a word read combines two
/// halfword reads.
pub open spec fn spec_spu_read(s: SpuView, address: u32, size: OpSize) -> u32 {
    match size {
        OpSize::Byte => {
            let halfword = spec_spu_read_halfword(s, address);
            if address & 1 == 0 {
                halfword & 0xFF
            } else {
                (halfword >> 8) & 0xFF
            }
        },
        OpSize::HalfWord => spec_spu_read_halfword(s, address),
        OpSize::Word => (spec_spu_read_halfword(s, address) | (spec_spu_read_halfword(s, address | 2)
            << 16)) as u32,
    }
}



impl Spu {
    /// An SPU at reset: zeroed sound RAM, silent voices, everything off.
    pub fn new() -> (r: Self)
        ensures
            spec_spu_wf(r@),
            r@.control == spec_control_reset(),
            r@.cpu_cycles == 0,
            forall|i: int| 0 <= i < AUDIO_RAM_LEN ==> r@.audio_ram[i] == 0,
    {
        let mut audio_ram: Vec<u8> = Vec::new();
        while audio_ram.len() < AUDIO_RAM_LEN
            invariant
                audio_ram@.len() <= AUDIO_RAM_LEN,
                forall|i: int| 0 <= i < audio_ram@.len() ==> audio_ram@[i] == 0,
            decreases AUDIO_RAM_LEN - audio_ram@.len(),
        {
            audio_ram.push(0);
        }
        let voice = Voice::new();
        Spu {
            audio_ram,
            voices: [voice; 24],
            control: ControlRegisters::new(),
            volume: VolumeControl::new(),
            data_port: DataPort::new(),
            reverb: ReverbSettings::new(),
            cpu_cycles: 0,
        }
    }

    /// One SPU tick. The mixer proper is not modeled here, so every tick
    /// contributes a silent stereo sample.
    fn clock(&mut self) -> (sample: (i16, i16))
        ensures
            sample == (0i16, 0i16),
            *final(self) == *old(self),
    {
        (0, 0)
    }

    /// Banks CPU cycles and emits one stereo sample for every full SPU
    /// tick they cover: `(banked + cpu_cycles) / 768` samples, with the
    /// remainder banked for the next call.
    pub fn tick(&mut self, cpu_cycles: u32, audio_queue: &mut Vec<(i16, i16)>)
        requires
            spec_spu_wf(old(self)@),
            cpu_cycles <= 0xFFFFF000,
        ensures
            spec_spu_wf(final(self)@),
            final(self)@ == (SpuView { cpu_cycles: final(self)@.cpu_cycles, ..old(self)@ }),
            final(self)@.cpu_cycles == (old(self)@.cpu_cycles + cpu_cycles) % 768,
            final(audio_queue)@ == old(audio_queue)@ + Seq::new(
                ((old(self)@.cpu_cycles + cpu_cycles) / 768) as nat,
                |i: int| (0i16, 0i16),
            ),
    {
        let ghost total = old(self)@.cpu_cycles + cpu_cycles;
        let ghost mut emitted: int = 0;
        self.cpu_cycles = self.cpu_cycles + cpu_cycles;
        while self.cpu_cycles >= SPU_CLOCK_DIVIDER
            invariant
                spec_spu_wf(SpuView { cpu_cycles: 0, ..self@ }),
                self@ == (SpuView { cpu_cycles: self@.cpu_cycles, ..old(self)@ }),
                0 <= emitted,
                self@.cpu_cycles == total - emitted * 768,
                audio_queue@ == old(audio_queue)@ + Seq::new(emitted as nat, |i: int| (0i16, 0i16)),
            decreases self@.cpu_cycles,
        {
            self.cpu_cycles = self.cpu_cycles - SPU_CLOCK_DIVIDER;
            let sample = self.clock();
            audio_queue.push(sample);
            proof {
                emitted = emitted + 1;
                assert(audio_queue@ =~= old(audio_queue)@ + Seq::new(emitted as nat, |i: int| (0i16, 0i16)));
            }
        }
        proof {
            vstd::arithmetic::div_mod::lemma_fundamental_div_mod_converse(
                total as int,
                768,
                emitted,
                self@.cpu_cycles as int,
            );
        }
    }

    /// Reads the status register (SPUSTAT).
    fn read_status_register(&self) -> (r: u32)
        ensures
            r == spec_spustat(self@),
    {
        ((if matches!(self.data_port.mode, DataPortMode::DmaRead) { 1u32 } else { 0u32 }) << 9)
            | ((if matches!(self.data_port.mode, DataPortMode::DmaWrite) { 1u32 } else { 0u32 }) << 8)
            | ((if self.data_port.mode.is_dma() { 1u32 } else { 0u32 }) << 7)
            | (self.data_port.mode.to_bits() << 5)
            | ((if self.control.external_audio_reverb_enabled { 1u32 } else { 0u32 }) << 3)
            | ((if self.control.cd_audio_reverb_enabled { 1u32 } else { 0u32 }) << 2)
            | ((if self.control.external_audio_enabled { 1u32 } else { 0u32 }) << 1)
            | (if self.control.cd_audio_enabled { 1u32 } else { 0u32 })
    }

    /// One recognized halfword-sized register read.
    fn read_halfword(&self, address: u32) -> (r: u32)
        requires
            spec_spu_read_halfword_ok(address),
        ensures
            r == spec_spu_read_halfword(self@, address),
    {
        let a = address & 0xFFFE;
        if a == 0x1D88 {
            self.control.last_key_on_write & 0xFFFF
        } else if a == 0x1D8A {
            self.control.last_key_on_write >> 16
        } else if a == 0x1D8C {
            self.control.last_key_off_write & 0xFFFF
        } else if a == 0x1D8E {
            self.control.last_key_off_write >> 16
        } else if a == 0x1DAA {
            self.control.read_spucnt(&self.data_port, &self.reverb)
        } else if a == 0x1DAC {
            0x0004
        } else {
            self.read_status_register()
        }
    }

    /// A recognized register read: the key registers read back their
    /// last written values; the control, transfer control, and status
    /// registers read back their current encoding. Reads of other
    /// registers have no defined behavior and are refused.
    pub fn read_register(&mut self, address: u32, size: OpSize) -> (r: u32)
        requires
            spec_spu_wf(old(self)@),
            spec_spu_read_ok(address, size),
        ensures
            *final(self) == *old(self),
            r == spec_spu_read(old(self)@, address, size),
    {
        match size {
            OpSize::Word => {
                let low_halfword = self.read_halfword(address);
                let high_halfword = self.read_halfword(address | 2);
                low_halfword | (high_halfword << 16)
            },
            OpSize::HalfWord => self.read_halfword(address),
            OpSize::Byte => {
                let value = self.read_halfword(address);
                if address & 1 == 0 {
                    value & 0xFF
                } else {
                    (value >> 8) & 0xFF
                }
            },
        }
    }

    /// One recognized write to an individual voice register: the low 4
    /// address bits select the field; writes naming voices 24-31 do
    /// nothing.
    fn write_voice_register(&mut self, address: u32, value: u32)
        requires
            spec_spu_wf(old(self)@),
            spec_voice_number(address) >= 24 || (address & 0xF == 0x0 || address & 0xF == 0x2
                || address & 0xF == 0x4 || address & 0xF == 0x6 || address & 0xF == 0x8
                || address & 0xF == 0xA),
        ensures
            final(self)@ == spec_voice_written(old(self)@, address, value),
            spec_spu_wf(final(self)@),
    {
        let voice = get_voice_number(address);
        if voice >= NUM_VOICES {
            proof {
                assert(self@ =~= spec_voice_written(old(self)@, address, value));
            }
            return ;
        }

        let mut v = self.voices[voice];
        let offset = address & 0xF;
        if offset == 0x0 {
            // Voice volume L
            v.volume_l.write(value);
        } else if offset == 0x2 {
            // Voice volume R
            v.volume_r.write(value);
        } else if offset == 0x4 {
            // Voice sample rate
            let halfword = value & 0xFFFF;
            proof {
                crate::lemma_word_mask_bound(value, 0xFFFF);
            }
            v.sample_rate = halfword as u16;
        } else if offset == 0x6 {
            // ADPCM start address, in 8-byte units
            let halfword = value & 0xFFFF;
            proof {
                crate::lemma_word_mask_bound(value, 0xFFFF);
            }
            v.start_address = halfword * 8;
        } else if offset == 0x8 {
            // ADSR settings, low halfword
            v.adsr.settings.write_low(value);
        } else {
            // ADSR settings, high halfword
            v.adsr.settings.write_high(value);
        }
        self.voices[voice] = v;
        proof {
            assert(self@.voices =~= spec_voice_written(old(self)@, address, value).voices);
            assert(self@ =~= spec_voice_written(old(self)@, address, value));
        }
    }

    /// A write to the sound RAM data port: the halfword lands at the
    /// port's current address and the address advances with wraparound.
    fn write_data_port(&mut self, value: u32)
        requires
            spec_spu_wf(old(self)@),
        ensures
            final(self)@ == spec_data_port_written(old(self)@, value),
            spec_spu_wf(final(self)@),
    {
        let address = self.data_port.current_address as usize;
        proof {
            crate::lemma_word_mask_bound(value, 0xFF);
            crate::lemma_word_mask_bound(value >> 8, 0xFF);
        }
        self.audio_ram[address] = (value & 0xFF) as u8;
        self.audio_ram[address + 1] = ((value >> 8) & 0xFF) as u8;

        let advanced = (self.data_port.current_address + 2) & AUDIO_RAM_MASK;
        proof {
            let c = self.data_port.current_address;
            assert(c % 2 == 0 ==> ((c + 2) as u32 & 0x7FFFF) % 2 == 0 && ((c + 2) as u32 & 0x7FFFF) < 0x80000) by (bit_vector);
        }
        self.data_port.current_address = advanced;
    }

    /// A key-on write for voices 0-15: each voice whose bit is set
    /// restarts its envelope, and the written halfword is recorded.
    fn key_on_low(&mut self, value: u32)
        requires
            spec_spu_wf(old(self)@),
        ensures
            final(self)@ == (SpuView {
                voices: spec_keyed_voices_on(old(self)@.voices, value, 0),
                control: ControlRegisters {
                    last_key_on_write: (old(self)@.control.last_key_on_write & 0xFFFF0000) | (value & 0xFFFF),
                    ..old(self)@.control
                },
                ..old(self)@
            }),
            spec_spu_wf(final(self)@),
    {
        let mut voice: u32 = 0;
        while voice < 16
            invariant
                spec_spu_wf(old(self)@),
                voice <= 16,
                self@ == (SpuView { voices: self@.voices, ..old(self)@ }),
                self@.voices.len() == 24,
                forall|i: int| 0 <= i < voice && bit_set(value, i as u32)
                    ==> self@.voices[i] == spec_voice_keyed_on(old(self)@.voices[i]),
                forall|i: int| 0 <= i < 24 && !(0 <= i < voice && bit_set(value, i as u32))
                    ==> self@.voices[i] == old(self)@.voices[i],
            decreases 16 - voice,
        {
            if word_bit(value, voice) {
                let mut v = self.voices[voice as usize];
                v.key_on();
                self.voices[voice as usize] = v;
            }
            voice = voice + 1;
        }

        self.control.record_kon_low_write(value);
        proof {
            assert(self@.voices =~= spec_keyed_voices_on(old(self)@.voices, value, 0));
        }
    }

    /// A key-on write for voices 16-23.
    fn key_on_high(&mut self, value: u32)
        requires
            spec_spu_wf(old(self)@),
        ensures
            final(self)@ == (SpuView {
                voices: spec_keyed_voices_on(old(self)@.voices, value, 16),
                control: ControlRegisters {
                    last_key_on_write: (old(self)@.control.last_key_on_write & 0xFFFF) | ((value & 0xFFFF) << 16),
                    ..old(self)@.control
                },
                ..old(self)@
            }),
            spec_spu_wf(final(self)@),
    {
        let mut voice: u32 = 16;
        while voice < 24
            invariant
                spec_spu_wf(old(self)@),
                16 <= voice <= 24,
                self@ == (SpuView { voices: self@.voices, ..old(self)@ }),
                self@.voices.len() == 24,
                forall|i: int| 16 <= i < voice && bit_set(value, (i - 16) as u32)
                    ==> self@.voices[i] == spec_voice_keyed_on(old(self)@.voices[i]),
                forall|i: int| 0 <= i < 24 && !(16 <= i < voice && bit_set(value, (i - 16) as u32))
                    ==> self@.voices[i] == old(self)@.voices[i],
            decreases 24 - voice,
        {
            if word_bit(value, voice - 16) {
                let mut v = self.voices[voice as usize];
                v.key_on();
                self.voices[voice as usize] = v;
            }
            voice = voice + 1;
        }

        self.control.record_kon_high_write(value);
        proof {
            assert(self@.voices =~= spec_keyed_voices_on(old(self)@.voices, value, 16));
        }
    }

    /// A key-off write for voices 0-15: each voice whose bit is set
    /// moves to release, and the written halfword is recorded.
    fn key_off_low(&mut self, value: u32)
        requires
            spec_spu_wf(old(self)@),
        ensures
            final(self)@ == (SpuView {
                voices: spec_keyed_voices_off(old(self)@.voices, value, 0),
                control: ControlRegisters {
                    last_key_off_write: (old(self)@.control.last_key_off_write & 0xFFFF0000) | (value & 0xFFFF),
                    ..old(self)@.control
                },
                ..old(self)@
            }),
            spec_spu_wf(final(self)@),
    {
        let mut voice: u32 = 0;
        while voice < 16
            invariant
                spec_spu_wf(old(self)@),
                voice <= 16,
                self@ == (SpuView { voices: self@.voices, ..old(self)@ }),
                self@.voices.len() == 24,
                forall|i: int| 0 <= i < voice && bit_set(value, i as u32)
                    ==> self@.voices[i] == spec_voice_keyed_off(old(self)@.voices[i]),
                forall|i: int| 0 <= i < 24 && !(0 <= i < voice && bit_set(value, i as u32))
                    ==> self@.voices[i] == old(self)@.voices[i],
            decreases 16 - voice,
        {
            if word_bit(value, voice) {
                let mut v = self.voices[voice as usize];
                v.key_off();
                self.voices[voice as usize] = v;
            }
            voice = voice + 1;
        }

        self.control.record_koff_low_write(value);
        proof {
            assert(self@.voices =~= spec_keyed_voices_off(old(self)@.voices, value, 0));
        }
    }

    /// A key-off write for voices 16-23.
    fn key_off_high(&mut self, value: u32)
        requires
            spec_spu_wf(old(self)@),
        ensures
            final(self)@ == (SpuView {
                voices: spec_keyed_voices_off(old(self)@.voices, value, 16),
                control: ControlRegisters {
                    last_key_off_write: (old(self)@.control.last_key_off_write & 0xFFFF) | ((value & 0xFFFF) << 16),
                    ..old(self)@.control
                },
                ..old(self)@
            }),
            spec_spu_wf(final(self)@),
    {
        let mut voice: u32 = 16;
        while voice < 24
            invariant
                spec_spu_wf(old(self)@),
                16 <= voice <= 24,
                self@ == (SpuView { voices: self@.voices, ..old(self)@ }),
                self@.voices.len() == 24,
                forall|i: int| 16 <= i < voice && bit_set(value, (i - 16) as u32)
                    ==> self@.voices[i] == spec_voice_keyed_off(old(self)@.voices[i]),
                forall|i: int| 0 <= i < 24 && !(16 <= i < voice && bit_set(value, (i - 16) as u32))
                    ==> self@.voices[i] == old(self)@.voices[i],
            decreases 24 - voice,
        {
            if word_bit(value, voice - 16) {
                let mut v = self.voices[voice as usize];
                v.key_off();
                self.voices[voice as usize] = v;
            }
            voice = voice + 1;
        }

        self.control.record_koff_high_write(value);
        proof {
            assert(self@.voices =~= spec_keyed_voices_off(old(self)@.voices, value, 16));
        }
    }

    /// One recognized halfword-sized register write.
    fn write_halfword(&mut self, address: u32, value: u32)
        requires
            spec_spu_wf(old(self)@),
            spec_spu_write_halfword_ok(address, value),
        ensures
            final(self)@ == spec_spu_write_halfword(old(self)@, address, value),
            spec_spu_wf(final(self)@),
    {
        let a = address & 0xFFFF;
        if 0x1C00 <= a && a < 0x1D80 {
            self.write_voice_register(address, value);
        } else if a == 0x1D80 {
            self.volume.write_main_l(value);
        } else if a == 0x1D82 {
            self.volume.write_main_r(value);
        } else if a == 0x1D84 {
            self.reverb.write_output_volume_l(value);
        } else if a == 0x1D86 {
            self.reverb.write_output_volume_r(value);
        } else if a == 0x1D88 {
            self.key_on_low(value);
        } else if a == 0x1D8A {
            self.key_on_high(value);
        } else if a == 0x1D8C {
            self.key_off_low(value);
        } else if a == 0x1D8E {
            self.key_off_high(value);
        } else if a == 0x1DA2 {
            self.reverb.write_buffer_start_address(value);
        } else if a == 0x1DA6 {
            self.data_port.write_transfer_address(value);
        } else if a == 0x1DA8 {
            self.write_data_port(value);
        } else if a == 0x1DAA {
            self.control.write_spucnt(value, &mut self.data_port, &mut self.reverb);
        } else if a == 0x1DB0 {
            self.volume.write_cd_l(value);
        } else if a == 0x1DB2 {
            self.volume.write_cd_r(value);
        } else if 0x1DC0 <= a && a < 0x1E00 {
            self.reverb.write_register(address, value);
            proof {
                broadcast use vstd::array::group_array_axioms;

                crate::lemma_word_mask_bound(address, 0x3F);
                assert(self@.reverb.registers =~= spec_spu_write_halfword(old(self)@, address, value).reverb.registers);
            }
        }
        // The FM, noise, voice-reverb, external-volume, and transfer
        // control registers are accepted and ignored.
        proof {
            assert(self@ =~= spec_spu_write_halfword(old(self)@, address, value));
        }
    }

    /// A recognized register write. Byte writes to odd addresses do
    /// nothing; word writes land as two halfword writes, low half first.
    /// Writes the register file does not recognize have no defined
    /// behavior and are refused; see [`spec_spu_write_ok`].
    pub fn write_register(&mut self, address: u32, value: u32, size: OpSize)
        requires
            spec_spu_wf(old(self)@),
            spec_spu_write_ok(address, value, size),
        ensures
            final(self)@ == spec_spu_write(old(self)@, address, value, size),
            spec_spu_wf(final(self)@),
    {
        match size {
            OpSize::Byte => {
                if address & 1 == 1 {
                    // 8-bit writes to odd addresses do nothing.
                    return ;
                }
                self.write_halfword(address, value);
            },
            OpSize::HalfWord => {
                self.write_halfword(address, value);
            },
            OpSize::Word => {
                self.write_halfword(address, value & 0xFFFF);
                self.write_halfword(address | 2, value >> 16);
            },
        }
    }
}


} // verus!
