//! Driver for a three-voice programmable sound generator chip controlled over
//! an 8-bit parallel data bus plus a two-line bus-control decoder (BC1, BDIR).
//!
//! The heart of the crate is the register-access protocol: to write one of the
//! 16 internal registers the driver latches the register address (ADDRESS
//! mode), returns the bus to high impedance (INACTIVE mode), drives the value
//! (WRITE mode), and goes inactive again.  Every public operation is specified
//! down to the exact sequence of bus bytes and control-line levels it produces.
//!
//! Out of the driver's scope are platform bring-up (clocks, pin muxing), the
//! physical toggling of a pin — consumed as the
//! [`bus::DigitalOutputPin`] capability — and timing: in particular, device
//! reset is a caller-driven sequence (drive the reset line low, wait a few
//! milliseconds, drive it high, wait again), not something the driver
//! automates.

pub mod audio;
pub mod bus;
pub mod chip;
pub mod pitch;

pub use audio::{
    Accidental, AudioChannel, BaseNote, BuiltinEnvelopeShape, EnvelopeFrequency, EnvelopeShape,
    Note, NoteParseError, RawEnvelope,
};

pub use bus::{BusRecorder, DataBus, DigitalOutputPin, Level, OutputBus, PinRecorder};
pub use chip::{BusEvent, DriverError, Mode, Register, YM2149};
