//! Rainbow: appears for about half a minute when rain gives way to sun.
//! This module keeps its timing, the arcs' colours and how they thin out
//! while fading; the arcs' curves are traced by the front end.

use vstd::prelude::*;
use crate::color::TermColor;

verus! {

/// Frames a rainbow stays on screen.
pub const RAINBOW_FRAMES: u32 = 700;

/// Frames of the fading tail, during which the arcs thin out.
pub const RAINBOW_FADE_FRAMES: u32 = 120;

/// In demo mode the rainbow shows up by itself once per cycle of this many
/// frames ...
pub const DEMO_CYCLE_FRAMES: u32 = 2700;

/// ... at this frame of the cycle.
pub const DEMO_SHOW_FRAME: u32 = 600;

pub struct RainbowSystem {
    pub demo: bool,
    pub frame: u32,
    /// It rained in the previous frame: rain turning to sun makes a rainbow.
    pub was_raining: bool,
    /// Frames of display left.
    pub show_frames: u32,
    pub terminal_width: u16,
    pub terminal_height: u16,
}

/// Frames left after one update, given the weather of this frame.
pub open spec fn next_show_frames(
    demo: bool,
    frame_after: u32,
    was_raining: bool,
    show_frames: u32,
    raining: bool,
    is_day: bool,
) -> u32 {
    let started = (was_raining && !raining && is_day) || (demo && is_day && frame_after
        % DEMO_CYCLE_FRAMES == DEMO_SHOW_FRAME);
    let shown = if started { RAINBOW_FRAMES } else { show_frames };
    if shown > 0 && !raining {
        (shown - 1) as u32
    } else {
        0
    }
}

impl RainbowSystem {
    pub fn new(terminal_width: u16, terminal_height: u16) -> (s: Self)
        ensures
            !s.demo,
            s.frame == 0,
            !s.was_raining,
            s.show_frames == 0,
            s.terminal_width == terminal_width,
            s.terminal_height == terminal_height,
    {
        RainbowSystem {
            demo: false,
            frame: 0,
            was_raining: false,
            show_frames: 0,
            terminal_width,
            terminal_height,
        }
    }

    pub fn on_resize(&mut self, width: u16, height: u16)
        ensures
            *final(self) == (RainbowSystem {
                terminal_width: width,
                terminal_height: height,
                ..*old(self)
            }),
    {
        self.terminal_width = width;
        self.terminal_height = height;
    }

    pub fn on_demo_mode(&mut self, demo: bool)
        ensures
            *final(self) == (RainbowSystem { demo, ..*old(self) }),
    {
        self.demo = demo;
    }

    /// One frame: rain (or a thunderstorm) ending in daylight starts the
    /// rainbow, and in demo mode it also starts on a fixed frame of every
    /// cycle by day; any rain wipes it out, otherwise it counts down.
    pub fn update(
        &mut self,
        width: u16,
        height: u16,
        is_raining: bool,
        is_thunderstorm: bool,
        is_day: bool,
    )
        ensures
            final(self).terminal_width == width,
            final(self).terminal_height == height,
            final(self).demo == old(self).demo,
            final(self).frame == (if old(self).frame == u32::MAX {
                0
            } else {
                (old(self).frame + 1) as u32
            }),
            final(self).was_raining == (is_raining || is_thunderstorm),
            final(self).show_frames == next_show_frames(
                old(self).demo,
                final(self).frame,
                old(self).was_raining,
                old(self).show_frames,
                is_raining || is_thunderstorm,
                is_day,
            ),
            (is_raining || is_thunderstorm) ==> final(self).show_frames == 0,
            old(self).show_frames <= RAINBOW_FRAMES ==> final(self).show_frames < RAINBOW_FRAMES,
    {
        self.terminal_width = width;
        self.terminal_height = height;
        self.frame = self.frame.wrapping_add(1);

        let raining = is_raining || is_thunderstorm;

        if self.was_raining && !raining && is_day {
            self.show_frames = RAINBOW_FRAMES;
        }
        self.was_raining = raining;

        if self.demo && is_day && self.frame % DEMO_CYCLE_FRAMES == DEMO_SHOW_FRAME {
            self.show_frames = RAINBOW_FRAMES;
        }

        if self.show_frames > 0 && !raining {
            self.show_frames = self.show_frames - 1;
        } else {
            self.show_frames = 0;
        }
    }

    /// The rainbow is on screen.
    pub fn is_visible(&self) -> (r: bool)
        ensures
            r == (self.show_frames > 0),
    {
        self.show_frames > 0
    }

    /// The rainbow is in its fading tail.
    pub fn is_fading(&self) -> (r: bool)
        ensures
            r == (self.show_frames < RAINBOW_FADE_FRAMES),
    {
        self.show_frames < RAINBOW_FADE_FRAMES
    }
}

/// Arcs of the rainbow, outermost first.
pub const RAINBOW_BANDS: usize = 5;

/// Colour of an arc, from the outer red to the inner violet.
pub open spec fn band_color_spec(band: int) -> TermColor {
    if band == 0 {
        TermColor::Rgb { r: 255, g: 105, b: 100 }
    } else if band == 1 {
        TermColor::Rgb { r: 255, g: 215, b: 90 }
    } else if band == 2 {
        TermColor::Rgb { r: 120, g: 230, b: 130 }
    } else if band == 3 {
        TermColor::Rgb { r: 100, g: 200, b: 255 }
    } else {
        TermColor::Rgb { r: 195, g: 130, b: 255 }
    }
}

/// Colour of an arc.
pub fn band_color(band: usize) -> (r: TermColor)
    ensures
        r == band_color_spec(band as int),
{
    if band == 0 {
        TermColor::Rgb { r: 255, g: 105, b: 100 }
    } else if band == 1 {
        TermColor::Rgb { r: 255, g: 215, b: 90 }
    } else if band == 2 {
        TermColor::Rgb { r: 120, g: 230, b: 130 }
    } else if band == 3 {
        TermColor::Rgb { r: 100, g: 200, b: 255 }
    } else {
        TermColor::Rgb { r: 195, g: 130, b: 255 }
    }
}

/// While fading, the arcs thin out: column `x` of arc `band` is left out
/// every third column, the gaps moving every four frames.
pub fn fading_gap(x: u16, band: usize, frame: u32) -> (r: bool)
    requires
        band < RAINBOW_BANDS,
    ensures
        r == ((x + band + frame / 4) % 3 == 0),
{
    (x as u64 + band as u64 + (frame / 4) as u64) % 3 == 0
}

} // verus!
