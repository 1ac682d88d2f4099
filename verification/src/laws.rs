//! Protocol laws.
//!
//! Properties of the command-protocol transcripts that hold for every input,
//! proved once and for all: the byte granularity of X coordinates, the
//! little-endian 9-bit encoding of Y coordinates, and the master-activation
//! termination discipline.

use vstd::prelude::*;

use crate::command::Command;
use crate::protocol::{
    display_frame_txns, set_ram_area_txns, set_ram_counter_txns, x_coord_byte, y_coord_bytes,
};
use crate::transaction::Txn;

verus! {

/// X coordinates are byte-granular: the addressing-window transcript
/// depends only on `coordinate >> 3`, never on the low three bits of either
/// X coordinate.
pub proof fn lemma_x_window_ignores_low_bits(
    start_x1: u32,
    end_x1: u32,
    start_x2: u32,
    end_x2: u32,
    start_y: u32,
    end_y: u32,
)
    requires
        start_x1 >> 3 == start_x2 >> 3,
        end_x1 >> 3 == end_x2 >> 3,
    ensures
        set_ram_area_txns(start_x1, start_y, end_x1, end_y) == set_ram_area_txns(
            start_x2,
            start_y,
            end_x2,
            end_y,
        ),
{
    assert(x_coord_byte(start_x1) == x_coord_byte(start_x2));
    assert(x_coord_byte(end_x1) == x_coord_byte(end_x2));
    assert(set_ram_area_txns(start_x1, start_y, end_x1, end_y) =~~= set_ram_area_txns(
        start_x2,
        start_y,
        end_x2,
        end_y,
    ));
}

/// The RAM-cursor transcript likewise depends only on `x >> 3`, never on
/// the low three bits of the X coordinate.
pub proof fn lemma_x_counter_ignores_low_bits(x1: u32, x2: u32, y: u32)
    requires
        x1 >> 3 == x2 >> 3,
    ensures
        set_ram_counter_txns(x1, y) == set_ram_counter_txns(x2, y),
{
    assert(x_coord_byte(x1) == x_coord_byte(x2));
    assert(set_ram_counter_txns(x1, y) =~~= set_ram_counter_txns(x2, y));
}

/// A Y coordinate travels as exactly two bytes, little-endian, and within
/// the controller's 9-bit range only the low bit of the high byte is
/// significant: the two bytes reconstruct the coordinate exactly.
pub proof fn lemma_y_coord_bytes_little_endian(y: u32)
    requires
        y < 512,
    ensures
        y_coord_bytes(y).len() == 2,
        y_coord_bytes(y)[0] == y as u8,
        y_coord_bytes(y)[1] == (y >> 8) as u8,
        y_coord_bytes(y)[1] == 0 || y_coord_bytes(y)[1] == 1,
        (y_coord_bytes(y)[0] as u32) + 256 * (y_coord_bytes(y)[1] as u32) == y,
{
    assert(((y >> 8) as u8 == 0 || (y >> 8) as u8 == 1) && ((y as u8) as u32) + 256 * (((y >> 8)
        as u8) as u32) == y) by (bit_vector)
        requires
            y < 512,
    ;
}

/// The display transcript never lets another transaction interpose on an
/// in-flight redraw: wherever it issues master activation, the very next
/// transaction is the no-op terminator.
pub proof fn lemma_master_activation_immediately_terminated()
    ensures
        forall|i: int|
            0 <= i < display_frame_txns().len() && #[trigger] display_frame_txns()[i] == Txn::Cmd(
                Command::MasterActivation,
            ) ==> i + 1 < display_frame_txns().len() && display_frame_txns()[i + 1] == Txn::Cmd(
                Command::Nop,
            ),
{
    let s = display_frame_txns();
    assert forall|i: int|
        0 <= i < s.len() && #[trigger] s[i] == Txn::Cmd(Command::MasterActivation) implies i + 1
        < s.len() && s[i + 1] == Txn::Cmd(Command::Nop) by {
        assert(s.len() == 5);
        assert(s[0] != Txn::Cmd(Command::MasterActivation));
        assert(s[1] != Txn::Cmd(Command::MasterActivation));
        assert(s[2] != Txn::Cmd(Command::MasterActivation));
        assert(s[4] != Txn::Cmd(Command::MasterActivation));
        assert(s[3] == Txn::Cmd(Command::MasterActivation));
        assert(s[4] == Txn::Cmd(Command::Nop));
    }
}

} // verus!
