//! Panel descriptor, color model and opcode table.

use epd1in54b::color::TriColor;
use epd1in54b::command::Command;
use epd1in54b::driver::{Epd1in54b, DEFAULT_BACKGROUND_COLOR, HEIGHT, WIDTH};
use epd1in54b::interface::DisplayInterface;

#[test]
fn epd_size() {
    assert_eq!(WIDTH, 200);
    assert_eq!(HEIGHT, 200);
    assert_eq!(DEFAULT_BACKGROUND_COLOR, TriColor::White);
}

#[test]
fn default_background_and_dimensions() {
    let mut bus = DisplayInterface::new();
    let epd = Epd1in54b::new(&mut bus);
    assert_eq!(*epd.background_color(), TriColor::White);
    assert_eq!(epd.width(), 200);
    assert_eq!(epd.height(), 200);
}

#[test]
fn set_background_color_updates_getter() {
    let mut bus = DisplayInterface::new();
    let mut epd = Epd1in54b::new(&mut bus);
    epd.set_background_color(TriColor::Black);
    assert_eq!(*epd.background_color(), TriColor::Black);
    epd.set_background_color(TriColor::Chromatic);
    assert_eq!(*epd.background_color(), TriColor::Chromatic);
}

#[test]
fn color_byte_values() {
    assert_eq!(TriColor::White.get_byte_value(), 0xFF);
    assert_eq!(TriColor::Black.get_byte_value(), 0x00);
    assert_eq!(TriColor::Chromatic.get_byte_value(), 0x00);
}

#[test]
fn opcode_table() {
    assert_eq!(Command::SwReset.opcode(), 0x12);
    assert_eq!(Command::DriverOutputControl.opcode(), 0x01);
    assert_eq!(Command::DataEntryModeSetting.opcode(), 0x11);
    assert_eq!(Command::SetRamXAddressStartEndPosition.opcode(), 0x44);
    assert_eq!(Command::SetRamYAddressStartEndPosition.opcode(), 0x45);
    assert_eq!(Command::SetRamXAddressCounter.opcode(), 0x4E);
    assert_eq!(Command::SetRamYAddressCounter.opcode(), 0x4F);
    assert_eq!(Command::WriteRam.opcode(), 0x24);
    assert_eq!(Command::WriteRam2.opcode(), 0x26);
    assert_eq!(Command::BorderWaveformControl.opcode(), 0x3C);
    assert_eq!(Command::TemperatureSensorSelection.opcode(), 0x18);
    assert_eq!(Command::TemperatureSensorControl.opcode(), 0x1A);
    assert_eq!(Command::DisplayUpdateControl2.opcode(), 0x22);
    assert_eq!(Command::MasterActivation.opcode(), 0x20);
    assert_eq!(Command::Nop.opcode(), 0xFF);
    assert_eq!(Command::DeepSleepMode.opcode(), 0x10);
}
