//! Channel-level operations of the chip facade, checked against the exact
//! register traffic they must produce.

use ym2149::audio::{AudioChannel, BuiltinEnvelopeShape, EnvelopeFrequency, EnvelopeShape,
    RawEnvelope};
use ym2149::bus::{BusRecorder, Level, PinRecorder};
use ym2149::chip::{DriverError, YM2149};

fn recorder_chip(clock: u32) -> YM2149<BusRecorder, PinRecorder, PinRecorder> {
    YM2149::new(BusRecorder::new(), clock, PinRecorder::new(), PinRecorder::new())
}

#[test]
fn tone_writes_exactly_two_registers_in_order() {
    // Channel B: fine byte to register 2, rough byte to register 3.
    let mut chip = recorder_chip(2_000_000);
    chip.tone(AudioChannel::B, 0x0ABC);
    assert_eq!(chip.bus().bytes, vec![2, 0xBC, 3, 0x0A]);
}

#[test]
fn tone_on_each_channel_uses_its_register_pair() {
    for (channel, pair) in [
        (AudioChannel::A, 0u8),
        (AudioChannel::B, 2u8),
        (AudioChannel::C, 4u8),
    ] {
        let mut chip = recorder_chip(2_000_000);
        chip.tone(channel, 0x0123);
        assert_eq!(chip.bus().bytes, vec![pair, 0x23, pair + 1, 0x01]);
    }
}

#[test]
fn tone_period_zero_is_a_valid_encoding() {
    let mut chip = recorder_chip(2_000_000);
    chip.tone(AudioChannel::A, 0);
    assert_eq!(chip.bus().bytes, vec![0, 0, 1, 0]);
}

#[test]
fn volume_masks_to_five_bits() {
    let mut chip = recorder_chip(2_000_000);
    chip.volume(AudioChannel::A, 0xFF);
    assert_eq!(chip.bus().bytes, vec![8, 0x1F]);
}

#[test]
fn volume_uses_each_channels_level_register() {
    for (channel, register) in [
        (AudioChannel::A, 8u8),
        (AudioChannel::B, 9u8),
        (AudioChannel::C, 10u8),
    ] {
        let mut chip = recorder_chip(2_000_000);
        chip.volume(channel, 0x0F);
        assert_eq!(chip.bus().bytes, vec![register, 0x0F]);
    }
}

#[test]
fn noise_frequency_masks_to_five_bits() {
    let mut chip = recorder_chip(2_000_000);
    chip.set_noise_freq(0xFF);
    assert_eq!(chip.bus().bytes, vec![6, 0x1F]);
}

#[test]
fn mixer_settings_pass_through_unmasked() {
    let mut chip = recorder_chip(2_000_000);
    chip.set_mixer(0b1100_0111);
    assert_eq!(chip.bus().bytes, vec![7, 0b1100_0111]);
}

#[test]
fn tone_hz_divides_the_master_clock() {
    // 2,000,000 / (16 × 440) = 284 = 0x011C: low byte 28 to register 0,
    // high byte 1 to register 1.
    let mut chip = recorder_chip(2_000_000);
    chip.tone_hz(AudioChannel::A, 440);
    assert_eq!(chip.bus().bytes, vec![0, 28, 1, 1]);
}

#[test]
fn tone_hz_denominator_is_exactly_sixteen_frequencies() {
    // Guards the divider formula: 1700 / (16 × 1) = 106, whereas a
    // 16 × f + 1 denominator would give 100.
    let mut chip = recorder_chip(1_700);
    chip.tone_hz(AudioChannel::A, 1);
    assert_eq!(chip.bus().bytes, vec![0, 106, 1, 0]);
}

#[test]
fn end_to_end_scenario_issues_four_writes_in_order() {
    let mut chip = recorder_chip(2_000_000);
    chip.set_mixer(0b1111_1110);
    chip.volume(AudioChannel::A, 0x0F);
    chip.tone(AudioChannel::A, 0x100);
    assert_eq!(
        chip.bus().bytes,
        vec![7, 0xFE, 8, 0x0F, 0, 0x00, 1, 0x01]
    );
    // Four register writes: four ADDRESS/INACTIVE/WRITE/INACTIVE rounds on
    // the control lines.
    let bdir_round = [Level::High, Level::Low, Level::High, Level::Low];
    let bc1_round = [Level::High, Level::Low, Level::Low, Level::Low];
    let expected_bdir: Vec<Level> = bdir_round.iter().copied().cycle().take(16).collect();
    let expected_bc1: Vec<Level> = bc1_round.iter().copied().cycle().take(16).collect();
    assert_eq!(chip.bdir().levels, expected_bdir);
    assert_eq!(chip.bc1().levels, expected_bc1);
}

#[test]
fn envelope_frequency_fills_the_register_pair() {
    let mut chip = recorder_chip(2_000_000);
    chip.set_envelope_frequency(EnvelopeFrequency::Integer(0x1234));
    assert_eq!(chip.bus().bytes, vec![11, 0x34, 12, 0x12]);
}

#[test]
fn envelope_frequency_resolves_hertz_through_the_clock() {
    // 2,000,000 / (256 × 120) = 65 = 0x41.
    let mut chip = recorder_chip(2_000_000);
    chip.set_envelope_frequency(EnvelopeFrequency::Hertz(120));
    assert_eq!(chip.bus().bytes, vec![11, 0x41, 12, 0x00]);
}

#[test]
fn envelope_shape_writes_the_shape_register() {
    let mut chip = recorder_chip(2_000_000);
    let outcome = chip.set_envelope_shape(EnvelopeShape::Builtin(BuiltinEnvelopeShape::Saw));
    assert_eq!(outcome, Ok(()));
    assert_eq!(chip.bus().bytes, vec![13, 0x0C]);
}

#[test]
fn inverted_envelope_shape_flips_bit_two() {
    let mut chip = recorder_chip(2_000_000);
    let outcome =
        chip.set_envelope_shape(EnvelopeShape::InvertedBuiltin(BuiltinEnvelopeShape::Saw));
    assert_eq!(outcome, Ok(()));
    assert_eq!(chip.bus().bytes, vec![13, 0x08]);
}

#[test]
fn custom_envelope_code_passes_through() {
    let mut chip = recorder_chip(2_000_000);
    let outcome = chip.set_envelope_shape(EnvelopeShape::CustomU8(0x42));
    assert_eq!(outcome, Ok(()));
    assert_eq!(chip.bus().bytes, vec![13, 0x42]);
}

#[test]
fn raw_envelope_shape_fails_loudly_with_no_traffic() {
    let table = RawEnvelope::new(vec![0, 7, 15], 4).unwrap();
    let mut chip = recorder_chip(2_000_000);
    let outcome = chip.set_envelope_shape(EnvelopeShape::RawEnvelope(table));
    assert_eq!(outcome, Err(DriverError::RawEnvelopeNotSupported));
    assert_eq!(chip.bus().bytes, Vec::<u8>::new());
    assert_eq!(chip.bdir().levels, Vec::<Level>::new());
    assert_eq!(chip.bc1().levels, Vec::<Level>::new());
}

#[test]
fn master_clock_frequency_is_kept() {
    let chip = recorder_chip(1_750_000);
    assert_eq!(chip.master_clock_frequency(), 1_750_000);
}
