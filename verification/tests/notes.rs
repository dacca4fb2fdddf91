//! Equal-temperament note frequencies, A4 = 440 Hz, rounded to integer Hz.

use ym2149::audio::{Accidental, AudioChannel, BaseNote, Note};
use ym2149::bus::{BusRecorder, PinRecorder};
use ym2149::chip::YM2149;

#[test]
fn a4_is_exactly_440() {
    assert_eq!(Note::new(BaseNote::A, 4, None).as_hz(), 440);
}

#[test]
fn c4_rounds_to_262() {
    // Middle C is 261.6256 Hz; the rounded integer is 262.
    assert_eq!(Note::new(BaseNote::C, 4, None).as_hz(), 262);
}

#[test]
fn octaves_double_the_frequency() {
    assert_eq!(Note::new(BaseNote::A, 5, None).as_hz(), 880);
    assert_eq!(Note::new(BaseNote::A, 3, None).as_hz(), 220);
}

#[test]
fn the_fourth_octave_scale() {
    assert_eq!(Note::new(BaseNote::C, 4, None).as_hz(), 262);
    assert_eq!(Note::new(BaseNote::D, 4, None).as_hz(), 294);
    assert_eq!(Note::new(BaseNote::E, 4, None).as_hz(), 330);
    assert_eq!(Note::new(BaseNote::F, 4, None).as_hz(), 349);
    assert_eq!(Note::new(BaseNote::G, 4, None).as_hz(), 392);
    assert_eq!(Note::new(BaseNote::A, 4, None).as_hz(), 440);
    assert_eq!(Note::new(BaseNote::B, 4, None).as_hz(), 494);
    assert_eq!(Note::new(BaseNote::C, 5, None).as_hz(), 523);
}

#[test]
fn accidentals_shift_by_half_and_quarter_steps() {
    assert_eq!(Note::new(BaseNote::A, 4, Some(Accidental::Sharp)).as_hz(), 466);
    assert_eq!(Note::new(BaseNote::A, 4, Some(Accidental::Flat)).as_hz(), 415);
    assert_eq!(Note::new(BaseNote::A, 4, Some(Accidental::MicroSharp)).as_hz(), 453);
    assert_eq!(Note::new(BaseNote::A, 4, Some(Accidental::Natural)).as_hz(), 440);
}

#[test]
fn octave_is_clamped_to_fourteen() {
    assert_eq!(
        Note::new(BaseNote::A, 200, None).as_hz(),
        Note::new(BaseNote::A, 14, None).as_hz()
    );
    assert_eq!(Note::new(BaseNote::A, 14, None).as_hz(), 450_560);
}

#[test]
fn transposition_moves_by_semitones() {
    assert_eq!(Note::new(BaseNote::A, 4, None).transpose(12).as_hz(), 880);
    assert_eq!(Note::new(BaseNote::A, 4, None).transpose(-9).as_hz(), 262);
    assert_eq!(Note::new(BaseNote::A, 4, None).transpose(0).as_hz(), 440);
}

#[test]
fn subsonic_notes_round_to_zero() {
    assert_eq!(Note::new(BaseNote::C, 0, None).as_hz(), 16);
    assert_eq!(Note::new(BaseNote::C, 0, None).transpose(-200).as_hz(), 0);
}

#[test]
fn play_note_sets_the_tone_period_of_the_rounded_frequency() {
    // A4 on a 2 MHz clock: 440 Hz, period 284.
    let mut chip = YM2149::new(
        BusRecorder::new(),
        2_000_000,
        PinRecorder::new(),
        PinRecorder::new(),
    );
    chip.play_note(AudioChannel::A, Note::new(BaseNote::A, 4, None));
    assert_eq!(chip.bus().bytes, vec![0, 28, 1, 1]);
}
