//! Protocol opcode table.
//!
//! The closed enumeration of the controller opcodes this driver issues,
//! together with the fixed mapping from each named operation to its binary
//! opcode.  Purely declarative: the meaning of an opcode lives in the
//! transcripts that the driver's contracts state.

use vstd::prelude::*;

verus! {

/// A documented opcode of the panel's controller chip.
#[derive(Clone, Copy, Debug, PartialEq, Eq, Structural)]
pub enum Command {
    /// Software reset of the controller.
    SwReset,
    /// Output-driver control: gate count and scan mode.
    DriverOutputControl,
    /// Data-entry mode: address increment direction.
    DataEntryModeSetting,
    /// Start/end of the RAM X addressing window, in byte units.
    SetRamXAddressStartEndPosition,
    /// Start/end of the RAM Y addressing window.
    SetRamYAddressStartEndPosition,
    /// RAM X write cursor, in byte units.
    SetRamXAddressCounter,
    /// RAM Y write cursor.
    SetRamYAddressCounter,
    /// Write the achromatic (black/white) RAM plane.
    WriteRam,
    /// Write the chromatic (red) RAM plane.
    WriteRam2,
    /// Border waveform selection.
    BorderWaveformControl,
    /// Temperature-sensor source selection.
    TemperatureSensorSelection,
    /// Temperature-sensor control register.
    TemperatureSensorControl,
    /// Display-update sequence selection.
    DisplayUpdateControl2,
    /// Trigger the physical panel redraw from RAM contents.
    MasterActivation,
    /// No operation; terminates an in-flight master activation safely.
    Nop,
    /// Enter deep sleep.
    DeepSleepMode,
}

impl Command {
    /// The binary opcode sent on the bus for this command.
    pub open spec fn spec_opcode(self) -> u8 {
        match self {
            Command::SwReset => 0x12,
            Command::DriverOutputControl => 0x01,
            Command::DataEntryModeSetting => 0x11,
            Command::SetRamXAddressStartEndPosition => 0x44,
            Command::SetRamYAddressStartEndPosition => 0x45,
            Command::SetRamXAddressCounter => 0x4E,
            Command::SetRamYAddressCounter => 0x4F,
            Command::WriteRam => 0x24,
            Command::WriteRam2 => 0x26,
            Command::BorderWaveformControl => 0x3C,
            Command::TemperatureSensorSelection => 0x18,
            Command::TemperatureSensorControl => 0x1A,
            Command::DisplayUpdateControl2 => 0x22,
            Command::MasterActivation => 0x20,
            Command::Nop => 0xFF,
            Command::DeepSleepMode => 0x10,
        }
    }

    /// Returns the binary opcode for this command.
    pub fn opcode(self) -> (r: u8)
        ensures
            r == self.spec_opcode(),
    {
        match self {
            Command::SwReset => 0x12,
            Command::DriverOutputControl => 0x01,
            Command::DataEntryModeSetting => 0x11,
            Command::SetRamXAddressStartEndPosition => 0x44,
            Command::SetRamYAddressStartEndPosition => 0x45,
            Command::SetRamXAddressCounter => 0x4E,
            Command::SetRamYAddressCounter => 0x4F,
            Command::WriteRam => 0x24,
            Command::WriteRam2 => 0x26,
            Command::BorderWaveformControl => 0x3C,
            Command::TemperatureSensorSelection => 0x18,
            Command::TemperatureSensorControl => 0x1A,
            Command::DisplayUpdateControl2 => 0x22,
            Command::MasterActivation => 0x20,
            Command::Nop => 0xFF,
            Command::DeepSleepMode => 0x10,
        }
    }
}

} // verus!
