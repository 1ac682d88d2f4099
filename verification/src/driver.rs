//! The panel driver state machine.
//!
//! [`Epd1in54b`] orchestrates the controller's command protocol: the
//! addressing-window arithmetic, the two-plane write/refresh protocol, the
//! master-activation sequencing and the busy-wait discipline.  Every
//! operation's contract states the exact transcript it appends to the bus,
//! so a caller knows the full order-sensitive transaction sequence.

use vstd::prelude::*;
use vstd::slice::slice_to_vec;

use crate::color::TriColor;
use crate::command::Command;
use crate::interface::DisplayInterface;
use crate::protocol::{
    busy_wait_txn, clear_frame_txns, display_frame_txns, frame_write_txns, init_txns, plane_len,
    set_ram_area_txns, set_ram_counter_txns, sleep_txns, use_full_frame_txns, x_coord_byte,
    y_coord_bytes,
};

verus! {

/// Width of the panel in pixels.
pub const WIDTH: u32 = 200;

/// Height of the panel in pixels.
pub const HEIGHT: u32 = 200;

/// Background color a freshly constructed driver clears with.
pub const DEFAULT_BACKGROUND_COLOR: TriColor = TriColor::White;

/// Busy-line polarity of this panel: the line is high while the controller
/// is busy, so "busy low" does not hold.
pub const IS_BUSY_LOW: bool = false;

/// Length of each delay phase bounding the hardware reset pulse, in
/// microseconds.
pub const RESET_DELAY_US: u32 = 10_000;

/// A programming error: the operation violates the driver's protocol
/// contract and fails before any bus transaction is issued.
#[derive(Clone, Copy, Debug, PartialEq, Eq, Structural)]
pub enum DriverError {
    /// An addressing window whose start does not lie strictly before its
    /// end on both axes.
    InvalidWindow,
    /// The operation's controller protocol is not implemented for this
    /// panel (partial refresh, custom refresh look-up tables).
    Unsupported,
}

/// Refresh waveform profiles a caller may ask for.  This panel implements
/// neither selectable profile, so [`Epd1in54b::set_lut`] always fails.
#[derive(Clone, Copy, Debug, PartialEq, Eq, Structural)]
pub enum RefreshLut {
    /// The full-refresh waveform.
    Full,
    /// The quick-refresh waveform.
    Quick,
}

/// Driver for the 1.54" (B) v2 tri-color panel.
pub struct Epd1in54b {
    background_color: TriColor,
}

/// The payload byte carrying an X coordinate: byte-granular, low three bits
/// dropped by protocol design.
fn x_byte(x: u32) -> (r: u8)
    ensures
        r == x_coord_byte(x),
{
    #[verifier::truncate] ((x >> 3) as u8)
}

/// The two payload bytes carrying a Y coordinate, little-endian.
fn y_bytes(y: u32) -> (r: Vec<u8>)
    ensures
        r@ == y_coord_bytes(y),
{
    let lo: u8 = #[verifier::truncate] (y as u8);
    let hi: u8 = #[verifier::truncate] ((y >> 8) as u8);
    let r = vec![lo, hi];
    proof {
        assert(r@ =~= y_coord_bytes(y));
    }
    r
}

impl Epd1in54b {
    /// The driver's current background color, as the contracts see it.
    pub closed spec fn background(self) -> TriColor {
        self.background_color
    }

    /// Binds a bus handle, performs the mandatory hardware reset, and runs
    /// the full initialization sequence.
    pub fn new(bus: &mut DisplayInterface) -> (epd: Epd1in54b)
        ensures
            final(bus)@ == old(bus)@ + init_txns(),
            epd.background() == DEFAULT_BACKGROUND_COLOR,
    {
        let mut epd = Epd1in54b { background_color: DEFAULT_BACKGROUND_COLOR };
        let _ = epd.init(bus);
        epd
    }

    /// Runs the full initialization sequence.  Idempotent: running it again
    /// fully re-establishes the controller state, which is exactly how
    /// [`Epd1in54b::wake_up`] works.
    pub fn init(&mut self, bus: &mut DisplayInterface) -> (r: Result<(), DriverError>)
        ensures
            r == Ok::<(), DriverError>(()),
            final(bus)@ == old(bus)@ + init_txns(),
            *final(self) == *old(self),
    {
        bus.reset(RESET_DELAY_US, RESET_DELAY_US);
        let _ = self.wait_until_idle(bus);
        bus.cmd(Command::SwReset);
        let _ = self.wait_until_idle(bus);
        let gates: u8 = #[verifier::truncate] ((HEIGHT - 1) as u8);
        bus.cmd_with_data(Command::DriverOutputControl, vec![gates, 0x00, 0x00]);
        bus.cmd_with_data(Command::DataEntryModeSetting, vec![0x03]);
        let _ = self.set_ram_area(bus, 0, 0, WIDTH - 1, HEIGHT - 1);
        bus.cmd_with_data(Command::BorderWaveformControl, vec![0x05]);
        bus.cmd_with_data(Command::TemperatureSensorSelection, vec![0x80]);
        bus.cmd_with_data(Command::TemperatureSensorControl, vec![0xB1, 0x20]);
        let _ = self.set_ram_counter(bus, 0, 0);
        let _ = self.wait_until_idle(bus);
        proof {
            assert(bus@ =~~= old(bus)@ + init_txns());
        }
        Ok(())
    }

    /// Deep sleep: busy-wait, then the deep-sleep opcode with its mode
    /// byte.  Reversed by [`Epd1in54b::wake_up`].
    pub fn sleep(&mut self, bus: &mut DisplayInterface) -> (r: Result<(), DriverError>)
        ensures
            r == Ok::<(), DriverError>(()),
            final(bus)@ == old(bus)@ + sleep_txns(),
            *final(self) == *old(self),
    {
        let _ = self.wait_until_idle(bus);
        bus.cmd_with_data(Command::DeepSleepMode, vec![0x01]);
        proof {
            assert(bus@ =~~= old(bus)@ + sleep_txns());
        }
        Ok(())
    }

    /// Wakes the panel by re-running the full initialization sequence; no
    /// distinct wake opcode exists, so the transcript equals that of
    /// [`Epd1in54b::init`].
    pub fn wake_up(&mut self, bus: &mut DisplayInterface) -> (r: Result<(), DriverError>)
        ensures
            r == Ok::<(), DriverError>(()),
            final(bus)@ == old(bus)@ + init_txns(),
            *final(self) == *old(self),
    {
        self.init(bus)
    }

    /// Sets the background color used by [`Epd1in54b::clear_frame`].
    pub fn set_background_color(&mut self, color: TriColor)
        ensures
            final(self).background() == color,
    {
        self.background_color = color;
    }

    /// The current background color.
    pub fn background_color(&self) -> (r: &TriColor)
        ensures
            *r == self.background(),
    {
        &self.background_color
    }

    /// Panel width in pixels.
    pub fn width(&self) -> (r: u32)
        ensures
            r == WIDTH,
    {
        WIDTH
    }

    /// Panel height in pixels.
    pub fn height(&self) -> (r: u32)
        ensures
            r == HEIGHT,
    {
        HEIGHT
    }

    /// Writes both frame planes: the achromatic buffer, then the chromatic
    /// buffer, each with the full-frame preamble.
    pub fn update_color_frame(
        &mut self,
        bus: &mut DisplayInterface,
        black: &[u8],
        chromatic: &[u8],
    ) -> (r: Result<(), DriverError>)
        requires
            black@.len() == plane_len(),
            chromatic@.len() == plane_len(),
        ensures
            r == Ok::<(), DriverError>(()),
            final(bus)@ == old(bus)@ + frame_write_txns(Command::WriteRam, black@)
                + frame_write_txns(Command::WriteRam2, chromatic@),
            *final(self) == *old(self),
    {
        let _ = self.update_achromatic_frame(bus, black);
        let _ = self.update_chromatic_frame(bus, chromatic);
        proof {
            assert(bus@ =~~= old(bus)@ + frame_write_txns(Command::WriteRam, black@)
                + frame_write_txns(Command::WriteRam2, chromatic@));
        }
        Ok(())
    }

    /// Writes the achromatic (black/white) RAM plane: busy-wait, full-frame
    /// preamble, then the buffer.
    pub fn update_achromatic_frame(&mut self, bus: &mut DisplayInterface, black: &[u8]) -> (r:
        Result<(), DriverError>)
        requires
            black@.len() == plane_len(),
        ensures
            r == Ok::<(), DriverError>(()),
            final(bus)@ == old(bus)@ + frame_write_txns(Command::WriteRam, black@),
            *final(self) == *old(self),
    {
        let _ = self.wait_until_idle(bus);
        let _ = self.use_full_frame(bus);
        bus.cmd_with_data(Command::WriteRam, slice_to_vec(black));
        proof {
            assert(bus@ =~~= old(bus)@ + frame_write_txns(Command::WriteRam, black@));
        }
        Ok(())
    }

    /// Writes the chromatic (red) RAM plane: busy-wait, full-frame
    /// preamble, then the buffer.
    pub fn update_chromatic_frame(&mut self, bus: &mut DisplayInterface, chromatic: &[u8]) -> (r:
        Result<(), DriverError>)
        requires
            chromatic@.len() == plane_len(),
        ensures
            r == Ok::<(), DriverError>(()),
            final(bus)@ == old(bus)@ + frame_write_txns(Command::WriteRam2, chromatic@),
            *final(self) == *old(self),
    {
        let _ = self.wait_until_idle(bus);
        let _ = self.use_full_frame(bus);
        bus.cmd_with_data(Command::WriteRam2, slice_to_vec(chromatic));
        proof {
            assert(bus@ =~~= old(bus)@ + frame_write_txns(Command::WriteRam2, chromatic@));
        }
        Ok(())
    }

    /// Writes the achromatic plane from `buffer`; the single-plane frame
    /// write of the common display interface.
    pub fn update_frame(&mut self, bus: &mut DisplayInterface, buffer: &[u8]) -> (r: Result<
        (),
        DriverError,
    >)
        requires
            buffer@.len() == plane_len(),
        ensures
            r == Ok::<(), DriverError>(()),
            final(bus)@ == old(bus)@ + frame_write_txns(Command::WriteRam, buffer@),
            *final(self) == *old(self),
    {
        self.update_achromatic_frame(bus, buffer)
    }

    /// Partial-window refresh is not implemented for this panel: fails
    /// unconditionally, before any bus transaction is issued.
    pub fn update_partial_frame(
        &mut self,
        bus: &mut DisplayInterface,
        buffer: &[u8],
        x: u32,
        y: u32,
        width: u32,
        height: u32,
    ) -> (r: Result<(), DriverError>)
        ensures
            r == Err::<(), DriverError>(DriverError::Unsupported),
            final(bus)@ == old(bus)@,
            *final(self) == *old(self),
    {
        let _ = (buffer, x, y, width, height);
        Err(DriverError::Unsupported)
    }

    /// Triggers the physical redraw: busy-wait, the full-refresh waveform
    /// profile, then master activation followed immediately by a no-op so
    /// that no other transaction can interrupt the in-flight redraw.
    pub fn display_frame(&mut self, bus: &mut DisplayInterface) -> (r: Result<(), DriverError>)
        ensures
            r == Ok::<(), DriverError>(()),
            final(bus)@ == old(bus)@ + display_frame_txns(),
            *final(self) == *old(self),
    {
        let _ = self.wait_until_idle(bus);
        bus.cmd_with_data(Command::DisplayUpdateControl2, vec![0xF7]);
        bus.cmd(Command::MasterActivation);
        bus.cmd(Command::Nop);
        proof {
            assert(bus@ =~~= old(bus)@ + display_frame_txns());
        }
        Ok(())
    }

    /// Frame write and redraw as one logical unit; callers wanting
    /// atomicity must not interleave other driver calls between the two
    /// phases.
    pub fn update_and_display_frame(&mut self, bus: &mut DisplayInterface, buffer: &[u8]) -> (r:
        Result<(), DriverError>)
        requires
            buffer@.len() == plane_len(),
        ensures
            r == Ok::<(), DriverError>(()),
            final(bus)@ == old(bus)@ + frame_write_txns(Command::WriteRam, buffer@)
                + display_frame_txns(),
            *final(self) == *old(self),
    {
        let _ = self.update_frame(bus, buffer);
        let _ = self.display_frame(bus);
        proof {
            assert(bus@ =~~= old(bus)@ + frame_write_txns(Command::WriteRam, buffer@)
                + display_frame_txns());
        }
        Ok(())
    }

    /// Fills both RAM planes according to the background color.  With a
    /// chromatic background the achromatic plane takes `0xFF` at twice the
    /// plane size, mirroring the vendor's reference firmware; otherwise
    /// both planes take one plane size of fill bytes.
    pub fn clear_frame(&mut self, bus: &mut DisplayInterface) -> (r: Result<(), DriverError>)
        ensures
            r == Ok::<(), DriverError>(()),
            final(bus)@ == old(bus)@ + clear_frame_txns(old(self).background()),
            *final(self) == *old(self),
    {
        let _ = self.wait_until_idle(bus);
        let _ = self.use_full_frame(bus);
        let color: u8 = self.background_color.get_byte_value();
        if self.background_color == TriColor::Chromatic {
            bus.cmd(Command::WriteRam);
            bus.data_x_times(0xFF, 2 * (WIDTH / 8 * HEIGHT));
            bus.cmd(Command::WriteRam2);
            bus.data_x_times(0x00, WIDTH / 8 * HEIGHT);
        } else {
            bus.cmd(Command::WriteRam);
            bus.data_x_times(color, WIDTH / 8 * HEIGHT);
            bus.cmd(Command::WriteRam2);
            bus.data_x_times(0x00, WIDTH / 8 * HEIGHT);
        }
        proof {
            assert(bus@ =~~= old(bus)@ + clear_frame_txns(old(self).background()));
        }
        Ok(())
    }

    /// Custom refresh look-up tables are not implemented for this panel:
    /// fails unconditionally, before any bus transaction is issued.
    pub fn set_lut(
        &mut self,
        bus: &mut DisplayInterface,
        refresh_rate: Option<RefreshLut>,
    ) -> (r: Result<(), DriverError>)
        ensures
            r == Err::<(), DriverError>(DriverError::Unsupported),
            final(bus)@ == old(bus)@,
            *final(self) == *old(self),
    {
        let _ = refresh_rate;
        Err(DriverError::Unsupported)
    }

    /// Blocks until the controller's busy line reads idle.
    pub fn wait_until_idle(&mut self, bus: &mut DisplayInterface) -> (r: Result<(), DriverError>)
        ensures
            r == Ok::<(), DriverError>(()),
            final(bus)@ == old(bus)@.push(busy_wait_txn()),
            *final(self) == *old(self),
    {
        bus.wait_until_idle(IS_BUSY_LOW);
        Ok(())
    }

    /// The standard preamble before any whole-buffer write: window the full
    /// panel extent and reset the RAM cursor to the origin.
    pub fn use_full_frame(&mut self, bus: &mut DisplayInterface) -> (r: Result<(), DriverError>)
        ensures
            r == Ok::<(), DriverError>(()),
            final(bus)@ == old(bus)@ + use_full_frame_txns(),
            *final(self) == *old(self),
    {
        let _ = self.set_ram_area(bus, 0, 0, WIDTH - 1, HEIGHT - 1);
        let _ = self.set_ram_counter(bus, 0, 0);
        proof {
            assert(bus@ =~~= old(bus)@ + use_full_frame_txns());
        }
        Ok(())
    }

    /// Sets the addressing window.  A window whose start does not lie
    /// strictly before its end on both axes is a programming error: the
    /// call fails before any bus transaction is issued.
    pub fn set_ram_area(
        &mut self,
        bus: &mut DisplayInterface,
        start_x: u32,
        start_y: u32,
        end_x: u32,
        end_y: u32,
    ) -> (r: Result<(), DriverError>)
        ensures
            start_x < end_x && start_y < end_y ==> r == Ok::<(), DriverError>(()) && final(bus)@
                == old(bus)@ + set_ram_area_txns(start_x, start_y, end_x, end_y),
            !(start_x < end_x && start_y < end_y) ==> r == Err::<(), DriverError>(
                DriverError::InvalidWindow,
            ) && final(bus)@ == old(bus)@,
            *final(self) == *old(self),
    {
        if !(start_x < end_x && start_y < end_y) {
            return Err(DriverError::InvalidWindow);
        }
        let _ = self.wait_until_idle(bus);
        bus.cmd_with_data(
            Command::SetRamXAddressStartEndPosition,
            vec![x_byte(start_x), x_byte(end_x)],
        );
        let mut y_window = y_bytes(start_y);
        let mut y_end = y_bytes(end_y);
        y_window.append(&mut y_end);
        bus.cmd_with_data(Command::SetRamYAddressStartEndPosition, y_window);
        proof {
            assert(bus@ =~~= old(bus)@ + set_ram_area_txns(start_x, start_y, end_x, end_y));
        }
        Ok(())
    }

    /// Resets the RAM write cursor.
    pub fn set_ram_counter(&mut self, bus: &mut DisplayInterface, x: u32, y: u32) -> (r: Result<
        (),
        DriverError,
    >)
        ensures
            r == Ok::<(), DriverError>(()),
            final(bus)@ == old(bus)@ + set_ram_counter_txns(x, y),
            *final(self) == *old(self),
    {
        let _ = self.wait_until_idle(bus);
        bus.cmd_with_data(Command::SetRamXAddressCounter, vec![x_byte(x)]);
        bus.cmd_with_data(Command::SetRamYAddressCounter, y_bytes(y));
        proof {
            assert(bus@ =~~= old(bus)@ + set_ram_counter_txns(x, y));
        }
        Ok(())
    }
}

} // verus!
