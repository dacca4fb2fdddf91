//! The encoding layer: pure numeric transforms from channel-level intentions
//! (a tone period, a volume, an envelope rate or shape) to the register
//! addresses and byte values the chip understands.  Nothing here touches a
//! pin; the chip driver consumes these encodings.

use vstd::prelude::*;

verus! {

/// One of the 3 analog audio channels (A, B, C) of the chip.
#[derive(Clone, Copy, Debug, PartialEq, Eq, Structural)]
pub enum AudioChannel {
    A,
    B,
    C,
}

/// The index of a channel: A is 0, B is 1, C is 2.  A channel's tone-period
/// registers are 2·index and 2·index + 1; its level register is 8 + index.
pub open spec fn channel_index(channel: AudioChannel) -> u8 {
    match channel {
        AudioChannel::A => 0,
        AudioChannel::B => 1,
        AudioChannel::C => 2,
    }
}

/// The low 8 bits of a tone period: the "fine" byte.
pub open spec fn period_fine(period: u16) -> u8 {
    (period & 0xFF) as u8
}

/// The high 8 bits of a tone period: the "rough" byte.  Only its low 4 bits
/// are meaningful to the chip, which masks the rest in hardware; the driver
/// passes the byte through unmasked.
pub open spec fn period_rough(period: u16) -> u8 {
    (period >> 8) as u8
}

/// The tone period that plays `frequency` Hz on a chip clocked at
/// `master_clock_frequency` Hz: `clock / (16 × frequency)`, truncating, then
/// truncated to the low 16 bits.  (The chip itself keeps only 12 of them.)
pub open spec fn tone_period(master_clock_frequency: u32, frequency: u32) -> u16 {
    ((master_clock_frequency as int / (16 * frequency as int)) % 0x10000) as u16
}

impl AudioChannel {
    /// This channel's index: A is 0, B is 1, C is 2.
    pub fn index(self) -> (i: u8)
        ensures
            i == channel_index(self),
    {
        match self {
            AudioChannel::A => 0,
            AudioChannel::B => 1,
            AudioChannel::C => 2,
        }
    }

    /// Encode a tone period for this channel as the two (register, value)
    /// writes that set it: the fine byte to register 2·index, then the rough
    /// byte to register 2·index + 1.
    pub fn tone(self, period: u16) -> (writes: ((u8, u8), (u8, u8)))
        ensures
            writes.0 == ((2 * channel_index(self)) as u8, period_fine(period)),
            writes.1 == ((2 * channel_index(self) + 1) as u8, period_rough(period)),
    {
        let index = self.index();
        ((2 * index, (period & 0xFF) as u8), (2 * index + 1, (period >> 8) as u8))
    }

    /// Encode a frequency in Hz for this channel as the two (register, value)
    /// writes of its tone period, `clock / (16 × frequency)`.
    pub fn tone_hz(self, master_clock_frequency: u32, frequency: u32) -> (writes: ((u8, u8), (
        u8,
        u8,
    )))
        requires
            1 <= frequency <= 0x0FFF_FFFF,
        ensures
            writes.0 == (
                (2 * channel_index(self)) as u8,
                period_fine(tone_period(master_clock_frequency, frequency)),
            ),
            writes.1 == (
                (2 * channel_index(self) + 1) as u8,
                period_rough(tone_period(master_clock_frequency, frequency)),
            ),
    {
        let divider: u32 = master_clock_frequency / (16 * frequency);
        let period: u16 = (divider & 0xFFFF) as u16;
        proof {
            assert(divider & 0xFFFF == divider % 0x10000) by (bit_vector);
        }
        self.tone(period)
    }
}

/// A note letter, carrying its fixed semitone offset from A within the
/// octave convention of the scale (C is −9 … B is +2).
#[derive(Clone, Copy, Debug, PartialEq, Eq, Structural)]
pub enum BaseNote {
    C,
    D,
    E,
    F,
    G,
    A,
    B,
}

/// The semitone offset of each note letter from A.
pub open spec fn base_semitones(base: BaseNote) -> int {
    match base {
        BaseNote::C => -9,
        BaseNote::D => -7,
        BaseNote::E => -5,
        BaseNote::F => -4,
        BaseNote::G => -2,
        BaseNote::A => 0,
        BaseNote::B => 2,
    }
}

impl BaseNote {
    /// This letter's semitone offset from A.
    pub fn semitones_from_a(self) -> (semitones: i8)
        ensures
            semitones as int == base_semitones(self),
    {
        match self {
            BaseNote::C => -9,
            BaseNote::D => -7,
            BaseNote::E => -5,
            BaseNote::F => -4,
            BaseNote::G => -2,
            BaseNote::A => 0,
            BaseNote::B => 2,
        }
    }
}

/// An accidental: a half- or quarter-step alteration of a note letter.
#[derive(Clone, Copy, Debug, PartialEq, Eq, Structural)]
pub enum Accidental {
    Natural,
    Sharp,
    Flat,
    MicroSharp,
    MicroFlat,
}

/// Each accidental's alteration in half-semitones: a sharp raises by a whole
/// semitone (2 half-semitones), a micro sharp by a quarter tone (1).
pub open spec fn accidental_half_semitones(accidental: Accidental) -> int {
    match accidental {
        Accidental::Natural => 0,
        Accidental::Sharp => 2,
        Accidental::Flat => -2,
        Accidental::MicroSharp => 1,
        Accidental::MicroFlat => -1,
    }
}

impl Accidental {
    /// This accidental's alteration in half-semitones.
    pub fn half_semitones(self) -> (steps: i8)
        ensures
            steps as int == accidental_half_semitones(self),
    {
        match self {
            Accidental::Natural => 0,
            Accidental::Sharp => 2,
            Accidental::Flat => -2,
            Accidental::MicroSharp => 1,
            Accidental::MicroFlat => -1,
        }
    }
}

/// An octave number clamped into the supported range 0 through 14.
pub open spec fn clamped_octave(octave: u8) -> int {
    if octave > 14 {
        14
    } else {
        octave as int
    }
}

/// A musical note: a letter, an octave (0 through 14, clamped), an optional
/// accidental, and a transposition offset in whole semitones.
#[derive(Clone, Copy, Debug)]
pub struct Note {
    base_note: BaseNote,
    octave: u8,
    accidental: Option<Accidental>,
    offset: i16,
}

/// How far a note lies above A4, in half-semitones: the letter's offset, the
/// accidental's alteration, 12 semitones per octave away from octave 4, and
/// the transposition.
pub open spec fn note_distance(note: Note) -> int {
    2 * base_semitones(note.base()) + (match note.accidental() {
        Some(accidental) => accidental_half_semitones(accidental),
        None => 0,
    }) + 24 * (clamped_octave(note.octave()) - 4) + 2 * note.transposition()
}

impl Note {
    /// The note's letter.
    pub closed spec fn base(&self) -> BaseNote {
        self.base_note
    }

    /// The note's octave, as given (clamping happens where it is used).
    pub closed spec fn octave(&self) -> u8 {
        self.octave
    }

    /// The note's accidental, if any.
    pub closed spec fn accidental(&self) -> Option<Accidental> {
        self.accidental
    }

    /// The note's transposition offset, in whole semitones.
    pub closed spec fn transposition(&self) -> int {
        self.offset as int
    }

    /// A note with no transposition.
    pub fn new(base_note: BaseNote, octave: u8, accidental: Option<Accidental>) -> (note: Note)
        ensures
            note.base() == base_note,
            note.octave() == octave,
            note.accidental() == accidental,
            note.transposition() == 0,
    {
        Note { base_note, octave, accidental, offset: 0 }
    }

    /// The same note with its transposition offset set to `semitones`.
    pub fn transpose(self, semitones: i16) -> (note: Note)
        ensures
            note.base() == self.base(),
            note.octave() == self.octave(),
            note.accidental() == self.accidental(),
            note.transposition() == semitones as int,
    {
        Note { offset: semitones, ..self }
    }

    /// The note's equal-temperament frequency, rounded to the nearest
    /// integer Hz: `440 · 2^(distance/12 semitones)`, with A4 = 440 Hz.
    ///
    /// The distance bound keeps the frequency representable; it admits
    /// every note twenty octaves up from A4, far past the chip's range.
    pub fn as_hz(&self) -> (hz: u32)
        requires
            note_distance(*self) <= 480,
        ensures
            hz as int == crate::pitch::pitch_hz(note_distance(*self)),
    {
        let base: i8 = self.base_note.semitones_from_a();
        let accidental: i8 = match self.accidental {
            Some(accidental) => accidental.half_semitones(),
            None => 0,
        };
        let octave: u8 = if self.octave > 14 {
            14
        } else {
            self.octave
        };
        let distance: i32 = 2 * (base as i32) + (accidental as i32) + 24 * ((octave as i32) - 4)
            + 2 * (self.offset as i32);
        crate::pitch::hz_for_half_semitones(distance)
    }
}

/// An error in parsing a note name.  Note-name parsing itself is a declared
/// non-goal of this driver and no parser is provided; the type records the
/// failure modes a parser would surface.
#[derive(Clone, Copy, Debug, PartialEq, Eq, Structural)]
pub enum NoteParseError {
    InvalidLength,
    InvalidAccidental,
    InvalidNote,
    OctaveOutOfRange,
}

/// A requested envelope repetition rate, convertible to the chip's raw
/// 16-bit envelope-period divider.
#[derive(Clone, Copy, Debug, PartialEq, Eq, Structural)]
pub enum EnvelopeFrequency {
    /// Envelope repetitions per second; the divider is
    /// `clock / (256 × hertz)`.
    Hertz(u16),
    /// Beats per minute; the divider is 60 times the divider of
    /// `Hertz(the same number)`.
    BeatsPerMinute(u16),
    /// The raw divider itself, passed through unchanged.
    Integer(u16),
}

/// The raw envelope divider for a rate in Hz: `clock / (256 × hertz)`,
/// truncating.  A divider that is not representable — a zero rate, a rate so
/// high the quotient is 0, or one so low it exceeds 16 bits — falls back to
/// the minimum divider 1 rather than wrapping.
pub open spec fn hertz_divider(master_clock_frequency: u32, hertz: u16) -> u16 {
    if hertz == 0 {
        1
    } else {
        let divider = master_clock_frequency as int / (256 * hertz as int);
        if divider == 0 || divider > 0xFFFF {
            1
        } else {
            divider as u16
        }
    }
}

/// The raw envelope divider of each request; see [`hertz_divider`] for the
/// fallback on unrepresentable dividers.  The beats-per-minute divider is
/// deliberately `60 × hertz_divider(bpm)`, as unusual as that is.
pub open spec fn envelope_divider(frequency: EnvelopeFrequency, master_clock_frequency: u32) -> u16 {
    match frequency {
        EnvelopeFrequency::Hertz(hertz) => hertz_divider(master_clock_frequency, hertz),
        EnvelopeFrequency::BeatsPerMinute(bpm) => {
            let scaled = 60 * hertz_divider(master_clock_frequency, bpm) as int;
            if scaled > 0xFFFF {
                1
            } else {
                scaled as u16
            }
        },
        EnvelopeFrequency::Integer(divider) => divider,
    }
}

/// The raw divider for a rate in Hz; see [`hertz_divider`].
fn divider_for_hertz(master_clock_frequency: u32, hertz: u16) -> (divider: u16)
    ensures
        divider == hertz_divider(master_clock_frequency, hertz),
{
    if hertz == 0 {
        1
    } else {
        let divider = master_clock_frequency / (256 * (hertz as u32));
        if divider == 0 || divider > 0xFFFF {
            1
        } else {
            divider as u16
        }
    }
}

impl EnvelopeFrequency {
    /// The raw 16-bit envelope-period divider this request stands for, on a
    /// chip clocked at `master_clock_frequency` Hz.
    pub fn as_ep(self, master_clock_frequency: u32) -> (ep: u16)
        ensures
            ep == envelope_divider(self, master_clock_frequency),
    {
        match self {
            EnvelopeFrequency::Hertz(hertz) => divider_for_hertz(master_clock_frequency, hertz),
            EnvelopeFrequency::BeatsPerMinute(bpm) => {
                let hertz_ep = divider_for_hertz(master_clock_frequency, bpm);
                let scaled: u32 = 60 * (hertz_ep as u32);
                if scaled > 0xFFFF {
                    1
                } else {
                    scaled as u16
                }
            },
            EnvelopeFrequency::Integer(divider) => divider,
        }
    }
}

/// For every master clock, the beats-per-minute divider is exactly 60 times
/// the divider of `Hertz` of the same number — whenever that product still
/// fits the 16-bit register pair (beyond it the driver falls back to the
/// minimum divider instead).
pub proof fn lemma_bpm_divider_is_sixty_hertz_dividers(bpm: u16, master_clock_frequency: u32)
    requires
        60 * hertz_divider(master_clock_frequency, bpm) <= 0xFFFF,
    ensures
        envelope_divider(EnvelopeFrequency::BeatsPerMinute(bpm), master_clock_frequency) == 60
            * envelope_divider(EnvelopeFrequency::Hertz(bpm), master_clock_frequency),
{
}

/// One of the chip's built-in envelope shapes.
#[derive(Clone, Copy, Debug, PartialEq, Eq, Structural)]
pub enum BuiltinEnvelopeShape {
    /// Fade out, then hold low.
    FadeOut,
    /// Fade in, then hold high.
    FadeIn,
    /// Fade in, then drop and hold low.
    Tooth,
    /// Fade in on every repetition.
    Saw,
    /// Alternate between fading out and fading in.
    Triangle,
}

/// The shape register's code for each built-in shape, per the datasheet.
pub open spec fn builtin_shape_code(shape: BuiltinEnvelopeShape) -> u8 {
    match shape {
        BuiltinEnvelopeShape::FadeOut => 0x09,
        BuiltinEnvelopeShape::FadeIn => 0x0D,
        BuiltinEnvelopeShape::Tooth => 0x0F,
        BuiltinEnvelopeShape::Saw => 0x0C,
        BuiltinEnvelopeShape::Triangle => 0x0E,
    }
}

impl BuiltinEnvelopeShape {
    /// This shape's code for the shape register.
    pub fn code(self) -> (code: u8)
        ensures
            code == builtin_shape_code(self),
    {
        match self {
            BuiltinEnvelopeShape::FadeOut => 0x09,
            BuiltinEnvelopeShape::FadeIn => 0x0D,
            BuiltinEnvelopeShape::Tooth => 0x0F,
            BuiltinEnvelopeShape::Saw => 0x0C,
            BuiltinEnvelopeShape::Triangle => 0x0E,
        }
    }
}

/// A raw envelope waveform: a table of 4-bit amplitude samples.  The chip
/// cannot play such a table through its shape register — see
/// [`EnvelopeShape`] — but the table can be prepared and transformed.
#[derive(Debug)]
pub struct RawEnvelope {
    data: Vec<u8>,
    length_beats: u8,
}

impl RawEnvelope {
    /// Every sample fits the chip's 4-bit amplitude range.
    pub open spec fn wf(&self) -> bool {
        forall|i: int| 0 <= i < self.samples().len() ==> self.samples()[i] <= 0x0F
    }

    /// The amplitude samples, in playback order.
    pub closed spec fn samples(&self) -> Seq<u8> {
        self.data@
    }

    /// How many beats the table spans.
    pub closed spec fn beats(&self) -> u8 {
        self.length_beats
    }

    /// Build a table from 4-bit amplitude samples.  Returns `None` exactly
    /// when some sample exceeds the 4-bit range.
    pub fn new(data: Vec<u8>, length_beats: u8) -> (result: Option<Self>)
        ensures
            match result {
                Some(envelope) => {
                    &&& envelope.samples() == data@
                    &&& envelope.beats() == length_beats
                    &&& envelope.wf()
                },
                None => exists|i: int| 0 <= i < data@.len() && data@[i] > 0x0F,
            },
    {
        let mut i: usize = 0;
        while i < data.len()
            invariant
                i <= data@.len(),
                forall|j: int| 0 <= j < i ==> data@[j] <= 0x0F,
            decreases data@.len() - i,
        {
            if data[i] > 0x0F {
                return None;
            }
            i = i + 1;
        }
        Some(RawEnvelope { data, length_beats })
    }

    /// Flip the table upside down: each sample becomes `0xF - sample`.
    pub fn invert(&mut self)
        requires
            old(self).wf(),
        ensures
            final(self).wf(),
            final(self).samples().len() == old(self).samples().len(),
            forall|i: int|
                0 <= i < old(self).samples().len() ==> final(self).samples()[i] == 0x0F - old(
                    self,
                ).samples()[i],
            final(self).beats() == old(self).beats(),
    {
        let mut i: usize = 0;
        while i < self.data.len()
            invariant
                old(self).wf(),
                i <= self.data@.len(),
                self.data@.len() == old(self).data@.len(),
                self.length_beats == old(self).length_beats,
                forall|j: int| 0 <= j < i ==> self.data@[j] == 0x0F - old(self).data@[j],
                forall|j: int| i <= j < self.data@.len() ==> self.data@[j] == old(self).data@[j],
            decreases self.data@.len() - i,
        {
            let sample = self.data[i];
            assert(sample == old(self).samples()[i as int] && old(self).samples()[i as int]
                <= 0x0F);
            self.data[i] = 0x0F - sample;
            i = i + 1;
        }
    }

    /// Shift every sample by `offset` steps, saturating into the 4-bit
    /// amplitude range instead of wrapping.
    pub fn offset(&mut self, offset: i8)
        requires
            old(self).wf(),
        ensures
            final(self).wf(),
            final(self).samples().len() == old(self).samples().len(),
            forall|i: int|
                0 <= i < old(self).samples().len() ==> final(self).samples()[i] as int
                    == clipped_amplitude(old(self).samples()[i] as int + offset as int),
            final(self).beats() == old(self).beats(),
    {
        let mut i: usize = 0;
        while i < self.data.len()
            invariant
                old(self).wf(),
                i <= self.data@.len(),
                self.data@.len() == old(self).data@.len(),
                self.length_beats == old(self).length_beats,
                forall|j: int|
                    0 <= j < i ==> self.data@[j] as int == clipped_amplitude(
                        old(self).data@[j] as int + offset as int,
                    ),
                forall|j: int| i <= j < self.data@.len() ==> self.data@[j] == old(self).data@[j],
            decreases self.data@.len() - i,
        {
            let shifted: i16 = self.data[i] as i16 + offset as i16;
            let clipped: u8 = if shifted < 0 {
                0
            } else if shifted > 0x0F {
                0x0F
            } else {
                shifted as u8
            };
            self.data[i] = clipped;
            i = i + 1;
        }
    }

    /// The amplitude samples, for inspection.
    pub fn data(&self) -> (samples: &Vec<u8>)
        ensures
            samples@ == self.samples(),
    {
        &self.data
    }
}

/// A sample value clipped into the chip's 4-bit amplitude range.
pub open spec fn clipped_amplitude(value: int) -> int {
    if value < 0 {
        0
    } else if value > 0x0F {
        0x0F
    } else {
        value
    }
}

/// A requested envelope shape, convertible to the shape register's 8-bit
/// code.
#[derive(Debug)]
pub enum EnvelopeShape {
    /// One of the datasheet's built-in shapes.
    Builtin(BuiltinEnvelopeShape),
    /// A built-in shape with its attack direction inverted: bit 2 of the
    /// code is flipped.
    InvertedBuiltin(BuiltinEnvelopeShape),
    /// A raw waveform table.  The chip has no register encoding for it, so
    /// conversion yields no code; see [`EnvelopeShape::to_code`].
    RawEnvelope(RawEnvelope),
    /// An arbitrary code, passed through unchanged.
    CustomU8(u8),
}

/// The shape register code of each request; `None` exactly for a raw
/// waveform table, which has no register encoding.
pub open spec fn shape_code(shape: EnvelopeShape) -> Option<u8> {
    match shape {
        EnvelopeShape::Builtin(builtin) => Some(builtin_shape_code(builtin)),
        EnvelopeShape::InvertedBuiltin(builtin) => Some(builtin_shape_code(builtin) ^ 0x04),
        EnvelopeShape::RawEnvelope(_) => None,
        EnvelopeShape::CustomU8(code) => Some(code),
    }
}

impl EnvelopeShape {
    /// The 8-bit code to write to the shape register, or `None` for a raw
    /// waveform table, which the shape register cannot express.
    pub fn to_code(&self) -> (code: Option<u8>)
        ensures
            code == shape_code(*self),
    {
        match self {
            EnvelopeShape::Builtin(builtin) => Some(builtin.code()),
            EnvelopeShape::InvertedBuiltin(builtin) => Some(builtin.code() ^ 0x04),
            EnvelopeShape::RawEnvelope(_) => None,
            EnvelopeShape::CustomU8(code) => Some(*code),
        }
    }
}

} // verus!
