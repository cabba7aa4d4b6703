//! Logic of the `weathr` ASCII weather screensaver: weather glyphs and the
//! HUD block, the cat's AI mood pulse, real flight labels, Starlink trains,
//! the timed states and choices of the scene's animation systems, and the
//! character cells they draw.

pub mod text;
pub mod ai_cat;
pub mod color;
pub mod canvas;
pub mod weather;
pub mod clock;
pub mod app_state;
pub mod hud;
pub mod flights;
pub mod starlink;
pub mod animation;
