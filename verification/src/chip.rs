//! The chip-level driver: the bus-control decoder table and the
//! register-access protocol.
//!
//! The chip multiplexes register addresses and register data onto one 8-bit
//! bus; the pair of control lines (BDIR, BC1) selects what the chip does with
//! the byte currently driven.  Writing a register is therefore a fixed
//! handshake: latch the address in ADDRESS mode, fall back to
//! INACTIVE (mandatory, to avoid bus contention between the two drive
//! phases), drive the value in WRITE mode, and go INACTIVE again.
//!
//! Every operation of the driver is specified by the exact sequence of
//! [`BusEvent`]s it appends to the chip's protocol trace, and the trace's
//! projections are tied to the histories of the real bus and control lines.

use vstd::prelude::*;

use crate::audio::{
    channel_index, envelope_divider, note_distance, period_fine, period_rough, shape_code,
    tone_period, AudioChannel, EnvelopeFrequency, EnvelopeShape, Note,
};
use crate::bus::{DigitalOutputPin, Level, OutputBus};
use crate::pitch::pitch_hz;

verus! {

/// The four modes of the bus-control decoder, as latched from (BDIR, BC2,
/// BC1).  BC2 is redundant and held high; only BDIR and BC1 are driven.
///
/// | Mode     | BDIR | BC2 | BC1 |
/// | -------- | ---- | --- | --- |
/// | INACTIVE |  0   |  1  |  0  |
/// | READ     |  0   |  1  |  1  |
/// | WRITE    |  1   |  1  |  0  |
/// | ADDRESS  |  1   |  1  |  1  |
#[allow(non_camel_case_types)]
#[derive(Clone, Copy, Debug, PartialEq, Eq, Structural)]
pub enum Mode {
    /// The data lines have high impedance; the chip ignores the bus.
    INACTIVE,
    /// The chip drives the addressed register's value onto the bus.
    ///
    /// Entering READ is unsupported by this driver: the chip would drive 5 V
    /// onto a bus the host also drives.  See [`YM2149::read_register`].
    READ,
    /// The chip reads the bus into the currently addressed register.
    WRITE,
    /// The chip latches the bus as a register address.
    ADDRESS,
}

/// The decoder table: the fixed (BDIR, BC2, BC1) level triple of each mode.
/// A total, pure function of the mode — the same mode always yields the same
/// levels.
pub open spec fn mode_levels(mode: Mode) -> (Level, Level, Level) {
    match mode {
        Mode::INACTIVE => (Level::Low, Level::High, Level::Low),
        Mode::READ => (Level::Low, Level::High, Level::High),
        Mode::WRITE => (Level::High, Level::High, Level::Low),
        Mode::ADDRESS => (Level::High, Level::High, Level::High),
    }
}

impl Mode {
    /// The (BDIR, BC2, BC1) levels of this mode, per the decoder table.
    pub fn pin_states(self) -> (levels: (Level, Level, Level))
        ensures
            levels == mode_levels(self),
    {
        match self {
            Mode::INACTIVE => (Level::Low, Level::High, Level::Low),
            Mode::READ => (Level::Low, Level::High, Level::High),
            Mode::WRITE => (Level::High, Level::High, Level::Low),
            Mode::ADDRESS => (Level::High, Level::High, Level::High),
        }
    }
}

/// One of the 16 registers of the chip, in address order (0 through 15).
#[derive(Clone, Copy, Debug, PartialEq, Eq, Structural)]
pub enum Register {
    /// Channel A tone period, fine 8 bits (address 0).
    AFreq8bitFinetone,
    /// Channel A tone period, rough 4 bits (address 1).
    AFreq4bitRoughtone,
    /// Channel B tone period, fine 8 bits (address 2).
    BFreq8bitFinetone,
    /// Channel B tone period, rough 4 bits (address 3).
    BFreq4bitRoughtone,
    /// Channel C tone period, fine 8 bits (address 4).
    CFreq8bitFinetone,
    /// Channel C tone period, rough 4 bits (address 5).
    CFreq4bitRoughtone,
    /// Noise period, 5 bits (address 6).
    NoiseFreq5bit,
    /// Mixer and I/O-port direction, active low (address 7): bits 0-2 enable
    /// tone on A/B/C, bits 3-5 enable noise on A/B/C, bits 6-7 set the I/O
    /// port directions.
    IoPortMixerSettings,
    /// Channel A level: bit 4 selects fixed/variable mode, bits 0-3 the fixed
    /// level (address 8).
    ALevel,
    /// Channel B level, same format as channel A (address 9).
    BLevel,
    /// Channel C level, same format as channel A (address 10).
    CLevel,
    /// Envelope period, fine 8 bits (address 11).
    EFreq8bitFineAdj,
    /// Envelope period, rough 8 bits (address 12).
    EFreq8bitRoughAdj,
    /// Envelope shape (address 13).
    EShape,
    /// I/O port A data (address 14).
    DataIoA,
    /// I/O port B data (address 15).
    DataIoB,
}

/// The address of each register.
pub open spec fn register_number(register: Register) -> u8 {
    match register {
        Register::AFreq8bitFinetone => 0,
        Register::AFreq4bitRoughtone => 1,
        Register::BFreq8bitFinetone => 2,
        Register::BFreq4bitRoughtone => 3,
        Register::CFreq8bitFinetone => 4,
        Register::CFreq4bitRoughtone => 5,
        Register::NoiseFreq5bit => 6,
        Register::IoPortMixerSettings => 7,
        Register::ALevel => 8,
        Register::BLevel => 9,
        Register::CLevel => 10,
        Register::EFreq8bitFineAdj => 11,
        Register::EFreq8bitRoughAdj => 12,
        Register::EShape => 13,
        Register::DataIoA => 14,
        Register::DataIoB => 15,
    }
}

impl Register {
    /// This register's bus address, 0 through 15.
    pub fn number(self) -> (n: u8)
        ensures
            n == register_number(self),
    {
        match self {
            Register::AFreq8bitFinetone => 0,
            Register::AFreq4bitRoughtone => 1,
            Register::BFreq8bitFinetone => 2,
            Register::BFreq4bitRoughtone => 3,
            Register::CFreq8bitFinetone => 4,
            Register::CFreq4bitRoughtone => 5,
            Register::NoiseFreq5bit => 6,
            Register::IoPortMixerSettings => 7,
            Register::ALevel => 8,
            Register::BLevel => 9,
            Register::CLevel => 10,
            Register::EFreq8bitFineAdj => 11,
            Register::EFreq8bitRoughAdj => 12,
            Register::EShape => 13,
            Register::DataIoA => 14,
            Register::DataIoB => 15,
        }
    }
}

/// One step of traffic towards the chip: a bus-control mode transition, or a
/// byte driven on the data bus.
#[derive(Clone, Copy, Debug, PartialEq, Eq, Structural)]
pub enum BusEvent {
    /// Both control lines were set to the mode's decoder-table levels.
    ModeSet(Mode),
    /// The data bus was driven with this byte.
    Data(u8),
}

/// The bytes a trace drives on the data bus, in order.
pub open spec fn data_bytes(events: Seq<BusEvent>) -> Seq<u8>
    decreases events.len(),
{
    if events.len() == 0 {
        Seq::empty()
    } else {
        data_bytes(events.drop_last()) + (match events.last() {
            BusEvent::Data(b) => seq![b],
            BusEvent::ModeSet(_) => Seq::empty(),
        })
    }
}

/// The levels a trace drives on the BDIR control line, in order.
pub open spec fn bdir_levels(events: Seq<BusEvent>) -> Seq<Level>
    decreases events.len(),
{
    if events.len() == 0 {
        Seq::empty()
    } else {
        bdir_levels(events.drop_last()) + (match events.last() {
            BusEvent::ModeSet(m) => seq![mode_levels(m).0],
            BusEvent::Data(_) => Seq::empty(),
        })
    }
}

/// The levels a trace drives on the BC1 control line, in order.
pub open spec fn bc1_levels(events: Seq<BusEvent>) -> Seq<Level>
    decreases events.len(),
{
    if events.len() == 0 {
        Seq::empty()
    } else {
        bc1_levels(events.drop_last()) + (match events.last() {
            BusEvent::ModeSet(m) => seq![mode_levels(m).2],
            BusEvent::Data(_) => Seq::empty(),
        })
    }
}

/// The projections distribute over concatenation of traces.
pub proof fn lemma_projections_concat(a: Seq<BusEvent>, b: Seq<BusEvent>)
    ensures
        data_bytes(a + b) == data_bytes(a) + data_bytes(b),
        bdir_levels(a + b) == bdir_levels(a) + bdir_levels(b),
        bc1_levels(a + b) == bc1_levels(a) + bc1_levels(b),
    decreases b.len(),
{
    if b.len() == 0 {
        assert(a + b =~= a);
        assert(data_bytes(b) =~= Seq::<u8>::empty());
        assert(data_bytes(a) + data_bytes(b) =~= data_bytes(a));
        assert(bdir_levels(a) + bdir_levels(b) =~= bdir_levels(a));
        assert(bc1_levels(a) + bc1_levels(b) =~= bc1_levels(a));
    } else {
        lemma_projections_concat(a, b.drop_last());
        assert((a + b).drop_last() =~= a + b.drop_last());
        assert((a + b).last() == b.last());
        assert(data_bytes(a + b) =~= data_bytes(a) + data_bytes(b));
        assert(bdir_levels(a + b) =~= bdir_levels(a) + bdir_levels(b));
        assert(bc1_levels(a + b) =~= bc1_levels(a) + bc1_levels(b));
    }
}

/// Out-of-range register addresses are clamped into 0 through 15, never
/// rejected.
pub open spec fn clamped_address(address: u8) -> u8 {
    if address > 15 {
        15
    } else {
        address
    }
}

/// The exact traffic of one register write: latch the (clamped) address in
/// ADDRESS mode, return to INACTIVE, drive the value in WRITE mode, return to
/// INACTIVE.  The intermediate INACTIVE hop is mandatory: it keeps the chip
/// and the host from driving the bus at once between the two phases.
pub open spec fn write_events(address: u8, value: u8) -> Seq<BusEvent> {
    seq![
        BusEvent::ModeSet(Mode::ADDRESS),
        BusEvent::Data(address),
        BusEvent::ModeSet(Mode::INACTIVE),
        BusEvent::ModeSet(Mode::WRITE),
        BusEvent::Data(value),
        BusEvent::ModeSet(Mode::INACTIVE),
    ]
}

/// What one register write looks like on each physical resource: the data
/// bus carries the address then the value, and the control lines step
/// through ADDRESS, INACTIVE, WRITE, INACTIVE.
pub proof fn lemma_write_events_traffic(address: u8, value: u8)
    ensures
        data_bytes(write_events(address, value)) == seq![address, value],
        bdir_levels(write_events(address, value)) == seq![
            Level::High,
            Level::Low,
            Level::High,
            Level::Low,
        ],
        bc1_levels(write_events(address, value)) == seq![
            Level::High,
            Level::Low,
            Level::Low,
            Level::Low,
        ],
{
    reveal_with_fuel(data_bytes, 7);
    reveal_with_fuel(bdir_levels, 7);
    reveal_with_fuel(bc1_levels, 7);
    assert(data_bytes(write_events(address, value)) =~= seq![address, value]);
    assert(bdir_levels(write_events(address, value)) =~= seq![
        Level::High,
        Level::Low,
        Level::High,
        Level::Low,
    ]);
    assert(bc1_levels(write_events(address, value)) =~= seq![
        Level::High,
        Level::Low,
        Level::Low,
        Level::Low,
    ]);
}

/// Writing to an out-of-range address is identical to writing to address 15:
/// the clamped address produces the same traffic.
pub proof fn lemma_out_of_range_address_clamps(address: u8, value: u8)
    requires
        address > 15,
    ensures
        write_events(clamped_address(address), value) == write_events(15, value),
{
}

/// The driver for one chip: the data bus, the two driven control lines, and
/// the frequency of the master clock the chip is wired to.
///
/// `events()` is the chip's protocol trace: every mode transition and data
/// byte issued through this driver, in order.  Each operation's contract
/// gives the exact events it appends, and ties the trace's projections to
/// the histories of the underlying bus and control lines.
pub struct YM2149<DATABUS, BC1, BDIR> where
    DATABUS: OutputBus,
    BC1: DigitalOutputPin,
    BDIR: DigitalOutputPin,
 {
    data_bus: DATABUS,
    master_clock_frequency: u32,
    bc1: BC1,
    bdir: BDIR,
    events: Ghost<Seq<BusEvent>>,
}

impl<DATABUS, BC1, BDIR> YM2149<DATABUS, BC1, BDIR> where
    DATABUS: OutputBus,
    BC1: DigitalOutputPin,
    BDIR: DigitalOutputPin,
 {
    /// The protocol trace: all traffic issued through this driver, in order.
    pub closed spec fn events(&self) -> Seq<BusEvent> {
        self.events@
    }

    /// The master clock frequency (Hz) the driver was configured with.
    pub closed spec fn clock(&self) -> u32 {
        self.master_clock_frequency
    }

    /// The byte history of the underlying data bus.
    pub closed spec fn bus_history(&self) -> Seq<u8> {
        self.data_bus.written()
    }

    /// The level history of the BC1 control line.
    pub closed spec fn bc1_history(&self) -> Seq<Level> {
        self.bc1.history()
    }

    /// The level history of the BDIR control line.
    pub closed spec fn bdir_history(&self) -> Seq<Level> {
        self.bdir.history()
    }

    /// The step from `pre` to `post` appended exactly the trace `delta`: to
    /// the protocol trace itself, and — through the trace's projections — to
    /// the byte history of the data bus and the level histories of both
    /// control lines.  The clock never changes.
    pub open spec fn appends(pre: Self, post: Self, delta: Seq<BusEvent>) -> bool {
        &&& post.events() == pre.events() + delta
        &&& post.bus_history() == pre.bus_history() + data_bytes(delta)
        &&& post.bdir_history() == pre.bdir_history() + bdir_levels(delta)
        &&& post.bc1_history() == pre.bc1_history() + bc1_levels(delta)
        &&& post.clock() == pre.clock()
    }

    /// Two appended traces compose into their concatenation.
    pub proof fn lemma_appends_concat(
        first: Self,
        middle: Self,
        last: Self,
        d1: Seq<BusEvent>,
        d2: Seq<BusEvent>,
    )
        requires
            Self::appends(first, middle, d1),
            Self::appends(middle, last, d2),
        ensures
            Self::appends(first, last, d1 + d2),
    {
        lemma_projections_concat(d1, d2);
        assert(last.events() =~= first.events() + (d1 + d2));
        assert(last.bus_history() =~= first.bus_history() + data_bytes(d1 + d2));
        assert(last.bdir_history() =~= first.bdir_history() + bdir_levels(d1 + d2));
        assert(last.bc1_history() =~= first.bc1_history() + bc1_levels(d1 + d2));
    }

    /// Take exclusive ownership of the bus and control lines.
    ///
    /// The decoder's state is undefined until the first `set_mode`; drive the
    /// chip to `Mode::INACTIVE` immediately after construction, before any
    /// other mode, so two drivers never fight over the bus.
    pub fn new(data_bus: DATABUS, master_clock_frequency: u32, bc1: BC1, bdir: BDIR) -> (chip:
        Self)
        ensures
            chip.events() == Seq::<BusEvent>::empty(),
            chip.clock() == master_clock_frequency,
            chip.bus_history() == data_bus.written(),
            chip.bc1_history() == bc1.history(),
            chip.bdir_history() == bdir.history(),
    {
        YM2149 { data_bus, master_clock_frequency, bc1, bdir, events: Ghost(Seq::empty()) }
    }

    /// Set the bus-control decoder's mode: drive BDIR then BC1 to the mode's
    /// decoder-table levels.  No side effect beyond the two pin writes, and
    /// no automatic transitions — callers sequence modes explicitly.
    pub fn set_mode(&mut self, mode: Mode)
        ensures
            final(self).events() == old(self).events().push(BusEvent::ModeSet(mode)),
            final(self).bdir_history() == old(self).bdir_history().push(mode_levels(mode).0),
            final(self).bc1_history() == old(self).bc1_history().push(mode_levels(mode).2),
            final(self).bus_history() == old(self).bus_history(),
            final(self).clock() == old(self).clock(),
    {
        let (bdir_level, _bc2_level, bc1_level) = mode.pin_states();
        self.bdir.set_level(bdir_level);
        self.bc1.set_level(bc1_level);
        self.events = Ghost(self.events@.push(BusEvent::ModeSet(mode)));
    }

    /// Drive one byte on the data bus and record it in the trace.
    fn drive_data(&mut self, data: u8)
        ensures
            final(self).events() == old(self).events().push(BusEvent::Data(data)),
            final(self).bus_history() == old(self).bus_history().push(data),
            final(self).bdir_history() == old(self).bdir_history(),
            final(self).bc1_history() == old(self).bc1_history(),
            final(self).clock() == old(self).clock(),
    {
        self.data_bus.write_u8(data);
        self.events = Ghost(self.events@.push(BusEvent::Data(data)));
    }

    /// Write `value` to register `register`, clamping the address into 0
    /// through 15.
    ///
    /// The write is the chip's required handshake, exactly: ADDRESS mode,
    /// address byte, INACTIVE, WRITE mode, value byte, INACTIVE.  It never
    /// fails — an out-of-range address is clamped, not rejected — and the
    /// value is passed through unmasked; masking to a register's meaningful
    /// width is the caller's responsibility.
    pub fn write_register(&mut self, register: u8, value: u8)
        ensures
            Self::appends(*old(self), *final(self), write_events(clamped_address(register), value)),
            final(self).events() == old(self).events() + write_events(
                clamped_address(register),
                value,
            ),
            final(self).bus_history() == old(self).bus_history() + seq![
                clamped_address(register),
                value,
            ],
            final(self).bdir_history() == old(self).bdir_history() + seq![
                Level::High,
                Level::Low,
                Level::High,
                Level::Low,
            ],
            final(self).bc1_history() == old(self).bc1_history() + seq![
                Level::High,
                Level::Low,
                Level::Low,
                Level::Low,
            ],
            final(self).clock() == old(self).clock(),
    {
        let address = if register > 15 {
            15
        } else {
            register
        };
        self.set_mode(Mode::ADDRESS);
        self.drive_data(address);
        self.set_mode(Mode::INACTIVE);
        self.set_mode(Mode::WRITE);
        self.drive_data(value);
        self.set_mode(Mode::INACTIVE);
        proof {
            lemma_write_events_traffic(address, value);
            assert(self.events() =~= old(self).events() + write_events(address, value));
            assert(self.bus_history() =~= old(self).bus_history() + seq![address, value]);
            assert(self.bdir_history() =~= old(self).bdir_history() + seq![
                Level::High,
                Level::Low,
                Level::High,
                Level::Low,
            ]);
            assert(self.bc1_history() =~= old(self).bc1_history() + seq![
                Level::High,
                Level::Low,
                Level::Low,
                Level::Low,
            ]);
        }
    }

    /// Set a channel's tone period: the fine byte goes to register 2·index,
    /// then the rough byte to register 2·index + 1 — exactly two register
    /// writes, in that order.
    ///
    /// A period of 0 is a valid encoding: it yields the chip's minimum
    /// representable rate, not silence.  Only the low 12 bits of the period
    /// are meaningful to the chip, which masks the rough byte in hardware.
    pub fn tone(&mut self, channel: AudioChannel, period: u16)
        ensures
            Self::appends(
                *old(self),
                *final(self),
                write_events((2 * channel_index(channel)) as u8, period_fine(period))
                    + write_events(
                    (2 * channel_index(channel) + 1) as u8,
                    period_rough(period),
                ),
            ),
    {
        let ghost pre = *self;
        let (fine_write, rough_write) = channel.tone(period);
        self.write_register(fine_write.0, fine_write.1);
        let ghost middle = *self;
        self.write_register(rough_write.0, rough_write.1);
        proof {
            Self::lemma_appends_concat(
                pre,
                middle,
                *self,
                write_events(fine_write.0, fine_write.1),
                write_events(rough_write.0, rough_write.1),
            );
        }
    }

    /// Play a frequency in Hz on a channel: sets the channel's tone period
    /// to `clock / (16 × frequency)` — the denominator is exactly sixteen
    /// times the frequency — truncating, and keeping the low 16 bits of the
    /// quotient.
    ///
    /// A zero frequency is a caller contract violation (the period division
    /// would divide by zero), and the frequency must be small enough that
    /// sixteen times it still fits 32 bits; both are preconditions.
    pub fn tone_hz(&mut self, channel: AudioChannel, frequency: u32)
        requires
            1 <= frequency <= 0x0FFF_FFFF,
        ensures
            Self::appends(
                *old(self),
                *final(self),
                write_events(
                    (2 * channel_index(channel)) as u8,
                    period_fine(tone_period(old(self).clock(), frequency)),
                ) + write_events(
                    (2 * channel_index(channel) + 1) as u8,
                    period_rough(tone_period(old(self).clock(), frequency)),
                ),
            ),
    {
        let ghost pre = *self;
        let (fine_write, rough_write) = channel.tone_hz(self.master_clock_frequency, frequency);
        self.write_register(fine_write.0, fine_write.1);
        let ghost middle = *self;
        self.write_register(rough_write.0, rough_write.1);
        proof {
            Self::lemma_appends_concat(
                pre,
                middle,
                *self,
                write_events(fine_write.0, fine_write.1),
                write_events(rough_write.0, rough_write.1),
            );
        }
    }

    /// Set a channel's volume: writes `volume & 0x1F` to level register
    /// 8 + index.  The 5 meaningful bits are the mode bit (bit 4: fixed or
    /// envelope-variable level) above the 4 fixed-level bits.
    pub fn volume(&mut self, channel: AudioChannel, volume: u8)
        ensures
            Self::appends(
                *old(self),
                *final(self),
                write_events((8 + channel_index(channel)) as u8, volume & 0x1F),
            ),
    {
        let index = channel.index();
        self.write_register(8 + index, volume & 0x1F);
    }

    /// Set the noise generator's period: writes the low 5 bits of
    /// `frequency` to register 6.
    pub fn set_noise_freq(&mut self, frequency: u8)
        ensures
            Self::appends(*old(self), *final(self), write_events(6, frequency & 0x1F)),
    {
        self.write_register(6, frequency & 0x1F);
    }

    /// Configure the mixer and I/O-port directions: writes `settings` to
    /// register 7 unchanged.  Bits 0-2 enable tone on A/B/C, bits 3-5 noise
    /// on A/B/C — all active low, 0 enables — and bits 6-7 direct the I/O
    /// ports.
    pub fn set_mixer(&mut self, settings: u8)
        ensures
            Self::appends(*old(self), *final(self), write_events(7, settings)),
    {
        self.write_register(7, settings);
    }

    /// Play a note on a channel: the note's rounded equal-temperament
    /// frequency, `440 · 2^(semitones from A4 / 12)` Hz, becomes the
    /// channel's tone period via `clock / (16 × frequency)`.
    ///
    /// The preconditions rule out the arithmetic edge cases: a note so low
    /// its rounded frequency is 0 (the period division would divide by
    /// zero), or so high the period computation would overflow.
    pub fn play_note(&mut self, channel: AudioChannel, note: Note)
        requires
            note_distance(note) <= 480,
            1 <= pitch_hz(note_distance(note)) <= 0x0FFF_FFFF,
        ensures
            Self::appends(
                *old(self),
                *final(self),
                write_events(
                    (2 * channel_index(channel)) as u8,
                    period_fine(
                        tone_period(old(self).clock(), pitch_hz(note_distance(note)) as u32),
                    ),
                ) + write_events(
                    (2 * channel_index(channel) + 1) as u8,
                    period_rough(
                        tone_period(old(self).clock(), pitch_hz(note_distance(note)) as u32),
                    ),
                ),
            ),
    {
        let frequency = note.as_hz();
        self.tone_hz(channel, frequency);
    }

    /// Set the envelope repetition rate: resolves the request to its 16-bit
    /// divider and writes the fine byte to register 11, then the rough byte
    /// to register 12.
    pub fn set_envelope_frequency(&mut self, frequency: EnvelopeFrequency)
        ensures
            Self::appends(
                *old(self),
                *final(self),
                write_events(11, period_fine(envelope_divider(frequency, old(self).clock())))
                    + write_events(
                    12,
                    period_rough(envelope_divider(frequency, old(self).clock())),
                ),
            ),
    {
        let ghost pre = *self;
        let divider = frequency.as_ep(self.master_clock_frequency);
        let fine = (divider & 0xFF) as u8;
        let rough = (divider >> 8) as u8;
        self.write_register(11, fine);
        let ghost middle = *self;
        self.write_register(12, rough);
        proof {
            Self::lemma_appends_concat(
                pre,
                middle,
                *self,
                write_events(11, fine),
                write_events(12, rough),
            );
        }
    }

    /// Set the envelope shape: writes the shape's code to register 13.
    ///
    /// A raw waveform table has no register encoding; requesting one fails
    /// loudly with `DriverError::RawEnvelopeNotSupported` and issues no
    /// traffic at all.
    pub fn set_envelope_shape(&mut self, shape: EnvelopeShape) -> (result: Result<
        (),
        DriverError,
    >)
        ensures
            shape_code(shape) matches Some(code) ==> {
                &&& result == Ok::<(), DriverError>(())
                &&& Self::appends(*old(self), *final(self), write_events(13, code))
            },
            shape_code(shape) is None ==> {
                &&& result == Err::<(), DriverError>(DriverError::RawEnvelopeNotSupported)
                &&& *final(self) == *old(self)
            },
    {
        match shape.to_code() {
            Some(code) => {
                self.write_register(13, code);
                Ok(())
            },
            None => Err(DriverError::RawEnvelopeNotSupported),
        }
    }

    /// Reading a register is not supported: in READ mode the chip drives 5 V
    /// onto the data bus, which this driver will not risk.  Fails loudly
    /// instead of degrading silently.
    pub fn read_register(&self, _register: Register) -> (result: Result<u8, DriverError>)
        ensures
            result == Err::<u8, DriverError>(DriverError::ReadNotSupported),
    {
        Err(DriverError::ReadNotSupported)
    }

    /// The master clock frequency (Hz) the driver was configured with.
    pub fn master_clock_frequency(&self) -> (frequency: u32)
        ensures
            frequency == self.clock(),
    {
        self.master_clock_frequency
    }

    /// The underlying data bus, for inspection.
    pub fn bus(&self) -> (bus: &DATABUS)
        ensures
            bus.written() == self.bus_history(),
    {
        &self.data_bus
    }

    /// The BC1 control line, for inspection.
    pub fn bc1(&self) -> (line: &BC1)
        ensures
            line.history() == self.bc1_history(),
    {
        &self.bc1
    }

    /// The BDIR control line, for inspection.
    pub fn bdir(&self) -> (line: &BDIR)
        ensures
            line.history() == self.bdir_history(),
    {
        &self.bdir
    }
}

/// An operation the driver refuses to perform.
#[derive(Clone, Copy, Debug, PartialEq, Eq, Structural)]
pub enum DriverError {
    /// Register reads would let the chip drive 5 V onto the shared bus.
    ReadNotSupported,
    /// Raw envelope waveform tables cannot be encoded into the shape
    /// register.
    RawEnvelopeNotSupported,
}

} // verus!
