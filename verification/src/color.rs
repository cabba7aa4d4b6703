//! Terminal colours named by the HUD and the animations; the terminal
//! front end maps them onto its own colour type.

use vstd::prelude::*;

verus! {

/// A terminal colour: one of the named palette entries or a true colour.
#[derive(Debug, Clone, Copy, PartialEq, Eq, Structural)]
pub enum TermColor {
    Red,
    Green,
    Yellow,
    Blue,
    Magenta,
    Cyan,
    White,
    Grey,
    DarkGrey,
    DarkYellow,
    Rgb { r: u8, g: u8, b: u8 },
}

} // verus!
