//! The command-protocol transcripts.
//!
//! Each operation of the driver issues a fixed, order-sensitive sequence of
//! bus transactions.  The spec functions here state those sequences exactly;
//! the driver's contracts promise that each operation appends precisely its
//! transcript to the bus.

use vstd::prelude::*;

use crate::color::TriColor;
use crate::command::Command;
use crate::driver::{HEIGHT, IS_BUSY_LOW, RESET_DELAY_US, WIDTH};
use crate::transaction::Txn;

verus! {

/// Number of bytes in one RAM plane: each byte covers eight X pixels of one
/// row, so a full plane is `WIDTH / 8 * HEIGHT` bytes.
pub open spec fn plane_len() -> int {
    WIDTH as int / 8 * HEIGHT as int
}

/// The single payload byte that carries an X coordinate.  The controller is
/// byte-granular in X: the low three bits are dropped by protocol design.
pub open spec fn x_coord_byte(x: u32) -> u8 {
    (x >> 3) as u8
}

/// The two payload bytes that carry a Y coordinate, little-endian: the low
/// byte first, then the byte holding bit eight.
pub open spec fn y_coord_bytes(y: u32) -> Seq<u8> {
    seq![y as u8, (y >> 8) as u8]
}

/// A busy-synchronization point: one poll of the busy line with this
/// panel's polarity.
pub open spec fn busy_wait_txn() -> Txn {
    Txn::WaitUntilIdle(IS_BUSY_LOW)
}

/// The addressing-window protocol: busy-wait, then the X window in byte
/// units, then the Y window as two little-endian 9-bit values.
pub open spec fn set_ram_area_txns(start_x: u32, start_y: u32, end_x: u32, end_y: u32) -> Seq<
    Txn,
> {
    seq![
        busy_wait_txn(),
        Txn::Cmd(Command::SetRamXAddressStartEndPosition),
        Txn::Data(seq![x_coord_byte(start_x), x_coord_byte(end_x)]),
        Txn::Cmd(Command::SetRamYAddressStartEndPosition),
        Txn::Data(y_coord_bytes(start_y) + y_coord_bytes(end_y)),
    ]
}

/// The RAM-cursor protocol: busy-wait, then the X cursor in byte units,
/// then the Y cursor as a little-endian 9-bit value.
pub open spec fn set_ram_counter_txns(x: u32, y: u32) -> Seq<Txn> {
    seq![
        busy_wait_txn(),
        Txn::Cmd(Command::SetRamXAddressCounter),
        Txn::Data(seq![x_coord_byte(x)]),
        Txn::Cmd(Command::SetRamYAddressCounter),
        Txn::Data(y_coord_bytes(y)),
    ]
}

/// The standard preamble before any whole-buffer write: window the full
/// panel extent and reset the cursor to the origin.
pub open spec fn use_full_frame_txns() -> Seq<Txn> {
    set_ram_area_txns(0, 0, (WIDTH - 1) as u32, (HEIGHT - 1) as u32) + set_ram_counter_txns(
        0,
        0,
    )
}

/// A whole-buffer write to one RAM plane: busy-wait, full-frame preamble,
/// then the plane's write opcode with the buffer as payload.
pub open spec fn frame_write_txns(plane: Command, buffer: Seq<u8>) -> Seq<Txn> {
    seq![busy_wait_txn()] + use_full_frame_txns() + seq![Txn::Cmd(plane), Txn::Data(buffer)]
}

/// The full initialization sequence: timed reset pulse, software reset,
/// output-driver and data-entry configuration, full-extent window, border
/// waveform, temperature sensor selection and control, cursor reset, and a
/// final busy-wait.
pub open spec fn init_txns() -> Seq<Txn> {
    seq![
        Txn::Reset(RESET_DELAY_US, RESET_DELAY_US),
        busy_wait_txn(),
        Txn::Cmd(Command::SwReset),
        busy_wait_txn(),
        Txn::Cmd(Command::DriverOutputControl),
        Txn::Data(seq![(HEIGHT - 1) as u8, 0x00, 0x00]),
        Txn::Cmd(Command::DataEntryModeSetting),
        Txn::Data(seq![0x03u8]),
    ] + set_ram_area_txns(0, 0, (WIDTH - 1) as u32, (HEIGHT - 1) as u32) + seq![
        Txn::Cmd(Command::BorderWaveformControl),
        Txn::Data(seq![0x05u8]),
        Txn::Cmd(Command::TemperatureSensorSelection),
        Txn::Data(seq![0x80u8]),
        Txn::Cmd(Command::TemperatureSensorControl),
        Txn::Data(seq![0xB1u8, 0x20]),
    ] + set_ram_counter_txns(0, 0) + seq![busy_wait_txn()]
}

/// The display/refresh sequence: busy-wait, full-refresh waveform profile,
/// then master activation followed immediately by a no-op.  The no-op is
/// mandatory: no other transaction may interpose while the controller
/// redraws the panel.
pub open spec fn display_frame_txns() -> Seq<Txn> {
    seq![
        busy_wait_txn(),
        Txn::Cmd(Command::DisplayUpdateControl2),
        Txn::Data(seq![0xF7u8]),
        Txn::Cmd(Command::MasterActivation),
        Txn::Cmd(Command::Nop),
    ]
}

/// The clear sequence: busy-wait, full-frame preamble, then both planes
/// filled according to the background color.  A chromatic background fills
/// the achromatic plane with `0xFF` at twice the plane size — an asymmetry
/// mirrored from the vendor's reference firmware and preserved on purpose.
pub open spec fn clear_frame_txns(background: TriColor) -> Seq<Txn> {
    seq![busy_wait_txn()] + use_full_frame_txns() + (if background == TriColor::Chromatic {
        seq![
            Txn::Cmd(Command::WriteRam),
            Txn::DataRepeat(0xFF, (2 * plane_len()) as u32),
            Txn::Cmd(Command::WriteRam2),
            Txn::DataRepeat(0x00, plane_len() as u32),
        ]
    } else {
        seq![
            Txn::Cmd(Command::WriteRam),
            Txn::DataRepeat(background.spec_byte_value(), plane_len() as u32),
            Txn::Cmd(Command::WriteRam2),
            Txn::DataRepeat(0x00, plane_len() as u32),
        ]
    })
}

/// The deep-sleep sequence: busy-wait, then the deep-sleep opcode with its
/// fixed mode byte.
pub open spec fn sleep_txns() -> Seq<Txn> {
    seq![busy_wait_txn(), Txn::Cmd(Command::DeepSleepMode), Txn::Data(seq![0x01u8])]
}

} // verus!
