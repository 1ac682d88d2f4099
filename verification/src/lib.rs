//! Driver for the Waveshare 1.54" (B) v2 tri-color e-paper panel.
//!
//! The panel's controller chip is addressed over a half-duplex command/data
//! bus with auxiliary control lines (reset, data-or-command, busy).  The
//! driver translates the high-level display operations — initialize, write a
//! frame, refresh, clear, sleep and wake — into the exact, order-sensitive
//! sequence of opcode and payload transactions the controller requires.
//!
//! The driver records that sequence in a [`interface::DisplayInterface`]
//! transcript; every contract states the transcript an operation appends, so
//! the addressing-window arithmetic, the two-plane write protocol, the
//! master-activation sequencing and the busy-wait discipline are all pinned
//! down exactly.  Executing a transcript over real hardware is the concern of
//! an unverified I/O shim outside this crate.

pub mod color;
pub mod command;
pub mod driver;
pub mod interface;
pub mod laws;
pub mod protocol;
pub mod transaction;
