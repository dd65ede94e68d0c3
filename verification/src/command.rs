//! What a lamp can be told to do.

use vstd::prelude::*;

use crate::mode::LampMode;

verus! {

/// An order to the lamp.
#[derive(Debug, Clone, Copy, PartialEq, Eq, Structural)]
pub enum Command {
    /// Switch to a mode.
    Mode(LampMode),
    /// Take a color given by its red, green and blue.
    Rgb(u8, u8, u8),
    /// Take a color given by its hue, saturation and value.
    Hsv(u8, u8, u8),
    /// Take the warm light of a brightness.
    Warm(u8),
    /// Show how far something has come, out of 255.
    Progress(u8),
    /// Turn the color wheel this far with every tick.
    WheelSpeed(u16),
}

} // verus!
