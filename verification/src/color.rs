//! Color model of the tri-color panel.
//!
//! The panel shows three colors: white, black, and one chromatic color
//! (red on this panel model).  White and black have a direct byte encoding
//! used when filling the achromatic RAM plane; the chromatic color has no
//! achromatic-plane encoding of its own, so the clear operation treats it
//! structurally instead of through this mapping.

use vstd::prelude::*;

verus! {

/// One of the three colors the panel can show.
#[derive(Clone, Copy, Debug, PartialEq, Eq, Structural)]
pub enum TriColor {
    /// Plain white.
    White,
    /// Plain black.
    Black,
    /// The panel's third color (red), held on the chromatic RAM plane.
    Chromatic,
}

impl TriColor {
    /// The byte used when a RAM plane is filled with this color.
    pub open spec fn spec_byte_value(self) -> u8 {
        match self {
            TriColor::White => 0xFF,
            TriColor::Black => 0x00,
            TriColor::Chromatic => 0x00,
        }
    }

    /// Returns the fill byte for this color.
    pub fn get_byte_value(self) -> (r: u8)
        ensures
            r == self.spec_byte_value(),
    {
        match self {
            TriColor::White => 0xFF,
            TriColor::Black => 0x00,
            TriColor::Chromatic => 0x00,
        }
    }
}

} // verus!
