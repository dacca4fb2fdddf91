//! The bus-control decoder table and the register-access handshake, observed
//! through recording pins and buses.

use ym2149::bus::{BusRecorder, DataBus, DigitalOutputPin, Level, OutputBus, PinRecorder};
use ym2149::chip::{Mode, Register, YM2149};

fn recorder_chip(clock: u32) -> YM2149<BusRecorder, PinRecorder, PinRecorder> {
    YM2149::new(BusRecorder::new(), clock, PinRecorder::new(), PinRecorder::new())
}

#[test]
fn mode_table_matches_datasheet() {
    // (BDIR, BC2, BC1); BC2 is held high throughout.
    assert_eq!(Mode::INACTIVE.pin_states(), (Level::Low, Level::High, Level::Low));
    assert_eq!(Mode::READ.pin_states(), (Level::Low, Level::High, Level::High));
    assert_eq!(Mode::WRITE.pin_states(), (Level::High, Level::High, Level::Low));
    assert_eq!(Mode::ADDRESS.pin_states(), (Level::High, Level::High, Level::High));
}

#[test]
fn mode_table_is_pure() {
    // Two calls with the same mode always produce the same levels.
    for mode in [Mode::INACTIVE, Mode::READ, Mode::WRITE, Mode::ADDRESS] {
        assert_eq!(mode.pin_states(), mode.pin_states());
    }
}

#[test]
fn set_mode_drives_both_control_lines() {
    let mut chip = recorder_chip(2_000_000);
    chip.set_mode(Mode::INACTIVE);
    chip.set_mode(Mode::WRITE);
    assert_eq!(chip.bdir().levels, vec![Level::Low, Level::High]);
    assert_eq!(chip.bc1().levels, vec![Level::Low, Level::Low]);
    assert_eq!(chip.bus().bytes, Vec::<u8>::new());
}

#[test]
fn write_register_is_the_five_hop_handshake() {
    let mut chip = recorder_chip(2_000_000);
    chip.write_register(7, 0xFE);
    // Address byte then value byte on the bus...
    assert_eq!(chip.bus().bytes, vec![7, 0xFE]);
    // ...while the control lines step ADDRESS, INACTIVE, WRITE, INACTIVE.
    assert_eq!(
        chip.bdir().levels,
        vec![Level::High, Level::Low, Level::High, Level::Low]
    );
    assert_eq!(
        chip.bc1().levels,
        vec![Level::High, Level::Low, Level::Low, Level::Low]
    );
}

#[test]
fn write_register_clamps_out_of_range_addresses() {
    // For every address above 15 the traffic is identical to address 15.
    for address in 16..=255u8 {
        let mut clamped = recorder_chip(2_000_000);
        clamped.write_register(address, 0x5A);
        let mut direct = recorder_chip(2_000_000);
        direct.write_register(15, 0x5A);
        assert_eq!(clamped.bus().bytes, direct.bus().bytes);
        assert_eq!(clamped.bdir().levels, direct.bdir().levels);
        assert_eq!(clamped.bc1().levels, direct.bc1().levels);
    }
}

#[test]
fn in_range_addresses_pass_through() {
    for address in 0..=15u8 {
        let mut chip = recorder_chip(2_000_000);
        chip.write_register(address, 0x00);
        assert_eq!(chip.bus().bytes[0], address);
    }
}

#[test]
fn register_numbers_cover_the_map() {
    let registers = [
        Register::AFreq8bitFinetone,
        Register::AFreq4bitRoughtone,
        Register::BFreq8bitFinetone,
        Register::BFreq4bitRoughtone,
        Register::CFreq8bitFinetone,
        Register::CFreq4bitRoughtone,
        Register::NoiseFreq5bit,
        Register::IoPortMixerSettings,
        Register::ALevel,
        Register::BLevel,
        Register::CLevel,
        Register::EFreq8bitFineAdj,
        Register::EFreq8bitRoughAdj,
        Register::EShape,
        Register::DataIoA,
        Register::DataIoB,
    ];
    for (expected, register) in registers.into_iter().enumerate() {
        assert_eq!(register.number(), expected as u8);
    }
}

#[test]
fn data_bus_drives_bit_zero_on_line_zero() {
    let pins = [
        PinRecorder::new(),
        PinRecorder::new(),
        PinRecorder::new(),
        PinRecorder::new(),
        PinRecorder::new(),
        PinRecorder::new(),
        PinRecorder::new(),
        PinRecorder::new(),
    ];
    let mut bus = DataBus::new(pins);
    bus.write_u8(0b1011_0001);
    for (line, expected) in [
        Level::High,
        Level::Low,
        Level::Low,
        Level::Low,
        Level::High,
        Level::High,
        Level::Low,
        Level::High,
    ]
    .into_iter()
    .enumerate()
    {
        assert_eq!(bus.pin(line).levels, vec![expected]);
    }
}

#[test]
fn data_bus_keeps_byte_order() {
    let pins = [
        PinRecorder::new(),
        PinRecorder::new(),
        PinRecorder::new(),
        PinRecorder::new(),
        PinRecorder::new(),
        PinRecorder::new(),
        PinRecorder::new(),
        PinRecorder::new(),
    ];
    let mut bus = DataBus::new(pins);
    bus.write_u8(0x00);
    bus.write_u8(0xFF);
    // Every line saw Low then High.
    for line in 0..8 {
        assert_eq!(bus.pin(line).levels, vec![Level::Low, Level::High]);
    }
}

#[test]
fn chip_over_a_pin_level_bus() {
    // The chip composes with the per-bit bus: one register write reaches the
    // eight data lines bit by bit, twice.
    let pins = [
        PinRecorder::new(),
        PinRecorder::new(),
        PinRecorder::new(),
        PinRecorder::new(),
        PinRecorder::new(),
        PinRecorder::new(),
        PinRecorder::new(),
        PinRecorder::new(),
    ];
    let mut chip = YM2149::new(DataBus::new(pins), 2_000_000, PinRecorder::new(), PinRecorder::new());
    chip.write_register(8, 0x0F);
    // Address 8 = 0b0000_1000: line 3 high; value 0x0F: lines 0-3 high.
    assert_eq!(chip.bus().pin(3).levels, vec![Level::High, Level::High]);
    assert_eq!(chip.bus().pin(0).levels, vec![Level::Low, Level::High]);
    assert_eq!(chip.bus().pin(7).levels, vec![Level::Low, Level::Low]);
}

#[test]
fn read_register_fails_loudly() {
    let chip = recorder_chip(2_000_000);
    assert_eq!(
        chip.read_register(Register::ALevel),
        Err(ym2149::chip::DriverError::ReadNotSupported)
    );
}
