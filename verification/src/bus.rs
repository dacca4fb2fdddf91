//! The pin-level capabilities the driver is built on: a single settable
//! digital output line, and an 8-bit parallel output bus assembled from eight
//! such lines.  Both are modelled by the full history of levels (or bytes)
//! driven since the value was created, so that contracts can pin down exactly
//! what reaches the chip, and in what order.

use vstd::prelude::*;

verus! {

/// A logic level on a digital output line.
#[derive(Clone, Copy, Debug, PartialEq, Eq, Structural)]
pub enum Level {
    Low,
    High,
}

/// Capability for one settable digital output line.
///
/// `history()` is the sequence of levels driven on the line since the value
/// was created; `set_level` appends to it.  The driver owns its lines
/// exclusively, so the history is exactly the traffic the wire has seen.
/// An unverified platform adapter outside the proof boundary may leave
/// `history` at its default; a verified implementation overrides it with the
/// pin's real model, since the default satisfies `set_level`'s contract on
/// no implementation.
pub trait DigitalOutputPin: Sized {
    open spec fn history(&self) -> Seq<Level> {
        Seq::empty()
    }

    fn set_level(&mut self, level: Level)
        ensures
            final(self).history() == old(self).history().push(level),
    ;
}

/// An 8-bit parallel output bus.
///
/// `written()` is the sequence of bytes driven onto the bus since the value
/// was created; `write_u8` appends to it.
pub trait OutputBus: Sized {
    spec fn written(&self) -> Seq<u8>;

    fn write_u8(&mut self, data: u8)
        ensures
            final(self).written() == old(self).written().push(data),
    ;
}

/// A pin that records the levels driven on it instead of touching hardware.
pub struct PinRecorder {
    /// Every level driven on this pin, oldest first.
    pub levels: Vec<Level>,
}

impl PinRecorder {
    pub fn new() -> (p: Self)
        ensures
            p.history() == Seq::<Level>::empty(),
    {
        PinRecorder { levels: Vec::new() }
    }
}

impl DigitalOutputPin for PinRecorder {
    open spec fn history(&self) -> Seq<Level> {
        self.levels@
    }

    fn set_level(&mut self, level: Level) {
        self.levels.push(level);
    }
}

/// A bus that records the bytes driven on it instead of touching hardware.
pub struct BusRecorder {
    /// Every byte driven on this bus, oldest first.
    pub bytes: Vec<u8>,
}

impl BusRecorder {
    pub fn new() -> (b: Self)
        ensures
            b.written() == Seq::<u8>::empty(),
    {
        BusRecorder { bytes: Vec::new() }
    }
}

impl OutputBus for BusRecorder {
    open spec fn written(&self) -> Seq<u8> {
        self.bytes@
    }

    fn write_u8(&mut self, data: u8) {
        self.bytes.push(data);
    }
}

/// The level a byte puts on data line `i`: line 0 carries bit 0.
pub open spec fn bit_level(data: u8, i: int) -> Level {
    if (data >> (i as u8)) & 1 == 1 {
        Level::High
    } else {
        Level::Low
    }
}

/// An 8-bit parallel bus made of eight digital output lines, least
/// significant bit first: data line 0 carries bit 0 of every byte.
pub struct DataBus<T> {
    pins: [T; 8],
    log: Ghost<Seq<u8>>,
}

impl<T> DataBus<T> where T: DigitalOutputPin {
    /// The history of levels driven on data line `i`.
    pub closed spec fn line_history(&self, i: int) -> Seq<Level> {
        self.pins[i].history()
    }

    /// Build a bus from its eight data lines, least significant bit first.
    pub fn new(pins: [T; 8]) -> (b: Self)
        ensures
            b.written() == Seq::<u8>::empty(),
            forall|i: int| 0 <= i < 8 ==> b.line_history(i) == pins[i].history(),
    {
        DataBus { pins, log: Ghost(Seq::empty()) }
    }

    /// Drive one byte: each of the eight lines is set to the corresponding
    /// bit of `data`, line 0 (bit 0) first.  The writes are sequential, not
    /// atomic; the chip only samples the bus in a stable control mode, never
    /// mid-write, so the order is functionally irrelevant.
    pub fn drive(&mut self, data: u8)
        ensures
            final(self).written() == old(self).written().push(data),
            forall|i: int|
                0 <= i < 8 ==> final(self).line_history(i) == old(self).line_history(i).push(
                    bit_level(data, i),
                ),
    {
        let mut bit: u8 = 0;
        while bit < 8
            invariant
                bit <= 8,
                self.log == old(self).log,
                forall|i: int|
                    0 <= i < bit ==> self.pins[i].history() == old(self).pins[i].history().push(
                        bit_level(data, i),
                    ),
                forall|i: int| bit <= i < 8 ==> self.pins[i] == old(self).pins[i],
            decreases 8 - bit,
        {
            let level = if (data >> bit) & 1 == 1 {
                Level::High
            } else {
                Level::Low
            };
            self.pins[bit as usize].set_level(level);
            assert(level == bit_level(data, bit as int));
            bit = bit + 1;
        }
        self.log = Ghost(self.log@.push(data));
        assert forall|i: int| 0 <= i < 8 implies self.line_history(i) == old(self).line_history(
            i,
        ).push(bit_level(data, i)) by {
            assert(self.pins[i].history() == old(self).pins[i].history().push(bit_level(data, i)));
        }
    }

    /// Data line `index`, for inspection.
    pub fn pin(&self, index: usize) -> (line: &T)
        requires
            index < 8,
        ensures
            line.history() == self.line_history(index as int),
    {
        &self.pins[index]
    }
}

impl<T> OutputBus for DataBus<T> where T: DigitalOutputPin {
    closed spec fn written(&self) -> Seq<u8> {
        self.log@
    }

    fn write_u8(&mut self, data: u8) {
        self.drive(data);
    }
}

} // verus!
