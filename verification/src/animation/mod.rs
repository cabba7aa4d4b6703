//! Integer state and ASCII-art handling of the scene's animation systems.

pub mod airplanes;
pub mod house_life;
pub mod rainbow;
pub mod holidays;
pub mod night_sky;
pub mod sky_art;
pub mod cat;
pub mod snow;

use vstd::prelude::*;

verus! {

/// Left edge of the house, which stands in the middle of the screen.
pub open spec fn house_left(width: u16, house_width: u16) -> int {
    if width / 2 >= house_width / 2 {
        (width / 2 - house_width / 2) as int
    } else {
        0
    }
}

/// Column of the house's left edge.
pub fn house_left_column(width: u16, house_width: u16) -> (r: u16)
    ensures
        r == house_left(width, house_width),
{
    let half = width / 2;
    if half >= house_width / 2 {
        half - house_width / 2
    } else {
        0
    }
}

} // verus!
