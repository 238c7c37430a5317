//! Tests of the SPU register file, envelopes, and the sound RAM data
//! port.

use ps1_core::envelope::AdsrEnvelope;
use ps1_core::envelope::AdsrPhase;
use ps1_core::envelope::EnvelopeDirection;
use ps1_core::envelope::EnvelopeMode;
use ps1_core::envelope::EnvelopeSettings;
use ps1_core::envelope::SweepEnvelope;
use ps1_core::envelope::SweepSetting;
use ps1_core::envelope::ENVELOPE_COUNTER;
use ps1_core::spu::OpSize;
use ps1_core::spu::Spu;

#[test]
fn spucnt_round_trips_through_write_and_read() {
    let mut spu = Spu::new();
    let value = (1 << 15) | (1 << 14) | (0xA << 10) | (2 << 8) | (1 << 7) | (1 << 6) | (1 << 4) | 0xF;
    spu.write_register(0x1DAA, value, OpSize::HalfWord);
    let read = spu.read_register(0x1DAA, OpSize::HalfWord);
    assert_eq!(read, value);
}

#[test]
fn key_on_restarts_a_voice_envelope() {
    let mut spu = Spu::new();
    assert_eq!(spu.voices[0].adsr.phase, AdsrPhase::Release);
    spu.write_register(0x1D88, 0x0005, OpSize::HalfWord); // voices 0 and 2
    assert_eq!(spu.voices[0].adsr.phase, AdsrPhase::Attack);
    assert_eq!(spu.voices[1].adsr.phase, AdsrPhase::Release);
    assert_eq!(spu.voices[2].adsr.phase, AdsrPhase::Attack);

    // The key-on register reads back the last written halfwords.
    spu.write_register(0x1D8A, 0x0081, OpSize::HalfWord); // voices 16 and 23
    assert_eq!(spu.voices[16].adsr.phase, AdsrPhase::Attack);
    assert_eq!(spu.voices[23].adsr.phase, AdsrPhase::Attack);
    assert_eq!(spu.read_register(0x1D88, OpSize::HalfWord), 0x0005);
    assert_eq!(spu.read_register(0x1D8A, OpSize::HalfWord), 0x0081);

    // Key off sends a voice back to release.
    spu.write_register(0x1D8C, 0x0004, OpSize::HalfWord);
    assert_eq!(spu.voices[2].adsr.phase, AdsrPhase::Release);
    assert_eq!(spu.voices[0].adsr.phase, AdsrPhase::Attack);
}

#[test]
fn data_port_writes_land_at_the_transfer_address() {
    let mut spu = Spu::new();
    // Transfer address register takes 8-byte units.
    spu.write_register(0x1DA6, 2, OpSize::HalfWord);
    spu.write_register(0x1DA8, 0xBEEF, OpSize::HalfWord);
    assert_eq!(spu.audio_ram[16], 0xEF);
    assert_eq!(spu.audio_ram[17], 0xBE);
    spu.write_register(0x1DA8, 0x1234, OpSize::HalfWord);
    assert_eq!(spu.audio_ram[18], 0x34);
    assert_eq!(spu.audio_ram[19], 0x12);
}

#[test]
fn word_writes_land_as_two_halfword_writes() {
    let mut spu = Spu::new();
    // One word write covers main volume L (0x1D80) and R (0x1D82).
    spu.write_register(0x1D80, 0x2000_1000, OpSize::Word);
    assert_eq!(spu.volume.main_l.volume, 0x2000);
    assert_eq!(spu.volume.main_r.volume, 0x4000);
}

#[test]
fn byte_writes_to_odd_addresses_do_nothing() {
    let mut spu = Spu::new();
    spu.write_register(0x1D81, 0x7F, OpSize::Byte);
    assert_eq!(spu.volume.main_l.volume, 0);
}

#[test]
fn voice_registers_decode_their_fields() {
    let mut spu = Spu::new();
    spu.write_register(0x1C04, 0x1234, OpSize::HalfWord); // voice 0 sample rate
    assert_eq!(spu.voices[0].sample_rate, 0x1234);
    spu.write_register(0x1C06, 0x0002, OpSize::HalfWord); // voice 0 start address
    assert_eq!(spu.voices[0].start_address, 16);
    spu.write_register(0x1C10, 0x0100, OpSize::HalfWord); // voice 1 volume L, fixed
    assert_eq!(spu.voices[1].volume_l.volume, 0x0200);

    // ADSR low halfword: sustain level field 0xF decodes to 0x8000.
    spu.write_register(0x1C08, 0x000F, OpSize::HalfWord);
    assert_eq!(spu.voices[0].adsr.settings.sustain_level, 0x8000);
}

#[test]
fn status_register_follows_the_data_port_mode() {
    let mut spu = Spu::new();
    spu.write_register(0x1DAA, 3 << 4, OpSize::HalfWord); // DMA read mode
    let status = spu.read_register(0x1DAE, OpSize::HalfWord);
    assert_eq!(status & (1 << 9), 1 << 9, "DMA-read bit");
    assert_eq!(status & (1 << 8), 0, "DMA-write bit clear");
    assert_eq!(status & (1 << 7), 1 << 7, "DMA bit");
    assert_eq!((status >> 5) & 3, 3, "mode bits");
}

#[test]
fn tick_emits_one_sample_per_spu_clock() {
    let mut spu = Spu::new();
    let mut queue: Vec<(i16, i16)> = Vec::new();
    spu.tick(768 * 2 + 5, &mut queue);
    assert_eq!(queue.len(), 2);
    assert_eq!(queue[0], (0, 0));
    spu.tick(763, &mut queue);
    assert_eq!(queue.len(), 3);
}

#[test]
fn sweep_envelope_write_sets_fixed_volume_doubled() {
    let mut envelope = SweepEnvelope::new();
    envelope.write(0x2000);
    assert_eq!(envelope.volume, 0x4000);
    assert!(matches!(envelope.setting, SweepSetting::Fixed));
    assert_eq!(envelope.read(), 0x2000);

    // A sweep write keeps the level and decodes the slope.
    envelope.write((1 << 15) | (1 << 14) | (1 << 13) | (1 << 12) | (7 << 2) | 2);
    assert_eq!(envelope.volume, 0x4000);
    match envelope.setting {
        SweepSetting::Sweep(slope, _) => {
            assert_eq!(slope.step, 2);
            assert_eq!(slope.shift, 7);
            assert_eq!(slope.direction, EnvelopeDirection::Decreasing);
            assert_eq!(slope.mode, EnvelopeMode::Exponential);
        },
        SweepSetting::Fixed => panic!("expected a sweep setting"),
    }
    assert_eq!(envelope.read(), (1 << 15) | (1 << 14) | (1 << 13) | (1 << 12) | (7 << 2) | 2);
}

#[test]
fn envelope_step_scales_with_shift_and_direction() {
    let slope = EnvelopeSettings {
        step: 0,
        shift: 0,
        direction: EnvelopeDirection::Increasing,
        mode: EnvelopeMode::Linear,
    };
    // Step (7 - 0) shifted up by 11.
    assert_eq!(slope.next_step(0), 7 << 11);
    assert_eq!(slope.counter_decrement(0), ENVELOPE_COUNTER);

    let falling = EnvelopeSettings {
        step: 3,
        shift: 11,
        direction: EnvelopeDirection::Decreasing,
        mode: EnvelopeMode::Linear,
    };
    // Step -(8 - 3), unshifted at shift 11.
    assert_eq!(falling.next_step(0), -5);

    let slow = EnvelopeSettings {
        step: 0,
        shift: 13,
        direction: EnvelopeDirection::Increasing,
        mode: EnvelopeMode::Linear,
    };
    assert_eq!(slow.counter_decrement(0), ENVELOPE_COUNTER >> 2);

    // Exponential decrease attenuates by the current magnitude.
    let exp = EnvelopeSettings {
        step: 0,
        shift: 11,
        direction: EnvelopeDirection::Decreasing,
        mode: EnvelopeMode::Exponential,
    };
    assert_eq!(i32::from(exp.next_step(0x4000)), (-8 * 0x4000) >> 15);
}

#[test]
fn adsr_attack_rises_and_hands_off_to_decay() {
    let mut envelope = AdsrEnvelope::new();
    envelope.key_on();
    assert_eq!(envelope.phase, AdsrPhase::Attack);
    assert_eq!(envelope.level, 0);

    // Attack step 0 shift 0: one clock per step of 7 << 11.
    envelope.clock();
    assert_eq!(envelope.level, 7 << 11);

    // Force the level to full scale: the next clock flips to decay, and
    // with the default sustain level 0x800 the following one sustains.
    envelope.level = i16::MAX;
    envelope.clock();
    assert_eq!(envelope.phase, AdsrPhase::Decay);

    envelope.level = 0x700;
    envelope.clock();
    assert_eq!(envelope.phase, AdsrPhase::Sustain);

    envelope.key_off();
    assert_eq!(envelope.phase, AdsrPhase::Release);
}

#[test]
fn word_reads_combine_two_halfwords() {
    let mut spu = Spu::new();
    spu.write_register(0x1D88, 0x00220011, OpSize::Word);
    assert_eq!(spu.read_register(0x1D88, OpSize::Word), 0x00220011);
    assert_eq!(spu.read_register(0x1D88, OpSize::Byte), 0x11);
    assert_eq!(spu.read_register(0x1D89, OpSize::Byte), 0x00);
}
