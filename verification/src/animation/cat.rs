//! The cat living in the scene. In bad weather it sits under the roof of
//! the house; in good weather it walks, sleeps (and stretches afterwards),
//! hunts (and grooms after a catch), digs by the fence, watches planes,
//! the ISS and the full moon. This module holds its state machine for the
//! timed states, its poses and how a pose is drawn in either direction.

use vstd::prelude::*;
use crate::animation::airplanes::pad_char;
use crate::canvas::{put_char, put_text, text_cells, Cell, Paint};
use crate::color::TermColor;
use crate::text::push_char;

verus! {

/// Phases of a hunt.
#[derive(Debug, Clone, Copy, PartialEq, Eq, Structural)]
pub enum HuntPhase {
    Stalk,
    Pounce,
}

/// What is hunted: flying prey flutters, a mouse runs away on the ground.
#[derive(Debug, Clone, Copy, PartialEq, Eq, Structural)]
pub enum Prey {
    Butterfly,
    Firefly,
    Leaf,
    Mouse,
}

#[derive(Debug, Clone, Copy, PartialEq, Eq, Structural)]
pub enum CatState {
    /// Bad weather: sits by the wall of the house.
    Shelter,
    Sit,
    Walk,
    Sleep,
    /// Stretching after sleep.
    Stretch,
    /// Grooming after a successful hunt.
    Groom,
    Hunt(HuntPhase),
    Dig(u8),
    /// Watches a plane or the ISS fly by.
    SkyWatch,
    /// Clear full-moon night: sits and looks at the moon.
    MoonGaze,
}

/// Frames the cat follows a real aircraft with its eyes.
pub const PLANE_WATCH_FRAMES: u32 = 300;

/// Frames the cat follows the ISS with its eyes.
pub const ISS_WATCH_FRAMES: u32 = 220;

/// Divider of the cat's timers: in demo mode its life runs four times
/// faster.
pub fn pace(demo: bool) -> (r: u32)
    ensures
        r == (if demo { 4u32 } else { 1u32 }),
{
    if demo {
        4
    } else {
        1
    }
}

/// Outcome of a pounce: every other time the prey is caught (the cat
/// grooms), otherwise it escapes. Gives the new state and its timer.
pub fn resolve_pounce(caught: bool) -> (r: (CatState, u32))
    ensures
        caught ==> r == (CatState::Groom, 45u32),
        !caught ==> r == (CatState::Sit, 30u32),
{
    if caught {
        (CatState::Groom, 45)
    } else {
        (CatState::Sit, 30)
    }
}

/// What the front end still has to do after the timed step: nothing,
/// choose the next activity (a random roll), or move the cat (walking and
/// hunting move it across the yard).
#[derive(Debug, Clone, Copy, PartialEq, Eq, Structural)]
pub enum CatNeed {
    Nothing,
    PickNextState,
    Move,
}

/// The cat's timed state after one frame of good weather.
#[derive(Debug, Clone, Copy, PartialEq, Eq, Structural)]
pub struct CatTick {
    pub state: CatState,
    pub timer: u32,
    pub need: CatNeed,
}

/// A calm state that a passing plane or the ISS interrupts.
pub open spec fn interruptible(state: CatState) -> bool {
    state == CatState::Sit || state == CatState::Walk || state == CatState::Groom || state
        == CatState::Stretch
}

/// Counts a timer down, or moves to `next` with `next_timer` when it ran out.
pub open spec fn countdown(state: CatState, timer: u32, next: CatState, next_timer: u32) -> CatTick {
    if timer == 0 {
        CatTick { state: next, timer: next_timer, need: CatNeed::Nothing }
    } else {
        CatTick { state, timer: (timer - 1) as u32, need: CatNeed::Nothing }
    }
}

/// One frame of the timed states in good weather: leaving the shelter, the
/// sky-watch interruption, and the countdowns of sitting, sleeping,
/// stretching, grooming, digging, watching the sky and gazing at the moon.
pub open spec fn cat_tick_spec(
    state: CatState,
    timer: u32,
    sky_watch_frames: u32,
    full_moon_night: bool,
) -> CatTick {
    let (state, timer) = if state == CatState::Shelter {
        (CatState::Sit, 45u32)
    } else {
        (state, timer)
    };
    let state = if sky_watch_frames > 0 && interruptible(state) {
        CatState::SkyWatch
    } else {
        state
    };
    match state {
        CatState::Shelter => CatTick { state, timer, need: CatNeed::Nothing },
        CatState::SkyWatch => if sky_watch_frames == 0 {
            CatTick { state: CatState::Sit, timer: 45, need: CatNeed::Nothing }
        } else {
            CatTick { state, timer, need: CatNeed::Nothing }
        },
        CatState::MoonGaze => if timer == 0 || !full_moon_night {
            CatTick { state: CatState::Sit, timer: 60, need: CatNeed::Nothing }
        } else {
            CatTick { state, timer: (timer - 1) as u32, need: CatNeed::Nothing }
        },
        CatState::Sit => if timer == 0 {
            CatTick { state, timer, need: CatNeed::PickNextState }
        } else {
            CatTick { state, timer: (timer - 1) as u32, need: CatNeed::Nothing }
        },
        CatState::Walk => CatTick { state, timer, need: CatNeed::Move },
        CatState::Hunt(_) => CatTick { state, timer, need: CatNeed::Move },
        CatState::Sleep => countdown(state, timer, CatState::Stretch, 35),
        CatState::Stretch => countdown(state, timer, CatState::Sit, 60),
        CatState::Groom => countdown(state, timer, CatState::Sit, 90),
        CatState::Dig(step) => if step >= 2 {
            countdown(state, timer, CatState::Sit, 120)
        } else {
            countdown(state, timer, CatState::Dig((step + 1) as u8), 60)
        },
    }
}

/// One frame of the cat's timed states in good weather. `sky_watch_frames`
/// is the watch counter after this frame's decrement.
pub fn cat_tick(state: CatState, timer: u32, sky_watch_frames: u32, full_moon_night: bool) -> (r:
    CatTick)
    ensures
        r == cat_tick_spec(state, timer, sky_watch_frames, full_moon_night),
{
    let (state, timer) = if state == CatState::Shelter {
        (CatState::Sit, 45u32)
    } else {
        (state, timer)
    };
    let calm = match state {
        CatState::Sit | CatState::Walk | CatState::Groom | CatState::Stretch => true,
        _ => false,
    };
    let state = if sky_watch_frames > 0 && calm {
        CatState::SkyWatch
    } else {
        state
    };
    let nothing = CatNeed::Nothing;
    match state {
        CatState::Shelter => CatTick { state, timer, need: nothing },
        CatState::SkyWatch => {
            if sky_watch_frames == 0 {
                CatTick { state: CatState::Sit, timer: 45, need: nothing }
            } else {
                CatTick { state, timer, need: nothing }
            }
        },
        CatState::MoonGaze => {
            if timer == 0 || !full_moon_night {
                CatTick { state: CatState::Sit, timer: 60, need: nothing }
            } else {
                CatTick { state, timer: timer - 1, need: nothing }
            }
        },
        CatState::Sit => {
            if timer == 0 {
                CatTick { state, timer, need: CatNeed::PickNextState }
            } else {
                CatTick { state, timer: timer - 1, need: nothing }
            }
        },
        CatState::Walk => CatTick { state, timer, need: CatNeed::Move },
        CatState::Hunt(_) => CatTick { state, timer, need: CatNeed::Move },
        CatState::Sleep => {
            if timer == 0 {
                CatTick { state: CatState::Stretch, timer: 35, need: nothing }
            } else {
                CatTick { state, timer: timer - 1, need: nothing }
            }
        },
        CatState::Stretch => {
            if timer == 0 {
                CatTick { state: CatState::Sit, timer: 60, need: nothing }
            } else {
                CatTick { state, timer: timer - 1, need: nothing }
            }
        },
        CatState::Groom => {
            if timer == 0 {
                CatTick { state: CatState::Sit, timer: 90, need: nothing }
            } else {
                CatTick { state, timer: timer - 1, need: nothing }
            }
        },
        CatState::Dig(step) => {
            if timer == 0 {
                if step >= 2 {
                    CatTick { state: CatState::Sit, timer: 120, need: nothing }
                } else {
                    CatTick { state: CatState::Dig(step + 1), timer: 60, need: nothing }
                }
            } else {
                CatTick { state, timer: timer - 1, need: nothing }
            }
        },
    }
}

/// The cat never stays in the shelter once the weather is good, and a dig
/// never goes past its third stage.
pub proof fn lemma_tick_leaves_shelter_and_bounds_dig(
    state: CatState,
    timer: u32,
    sky_watch_frames: u32,
    full_moon_night: bool,
)
    ensures
        cat_tick_spec(state, timer, sky_watch_frames, full_moon_night).state != CatState::Shelter,
        (state matches CatState::Dig(s) && s <= 2) ==> (cat_tick_spec(
            state,
            timer,
            sky_watch_frames,
            full_moon_night,
        ).state matches CatState::Dig(t) ==> t <= 2),
{
}

/// The cat's poses (looking right; mirrored for the other direction).
#[derive(Debug, Clone, Copy, PartialEq, Eq, Structural)]
pub enum CatPose {
    Sit,
    SitBlink,
    WalkA,
    WalkB,
    SleepA,
    SleepB,
    Pounce,
    Dig,
    SkyWatch,
    Stretch,
    GroomA,
    GroomB,
}

/// The pose drawn for a state at a given frame: blinking while sitting,
/// legs and tail alternating while walking, breathing while asleep.
pub open spec fn pose_spec(state: CatState, frame: u32) -> CatPose {
    match state {
        CatState::Shelter => if frame % 90 < 8 {
            CatPose::SitBlink
        } else {
            CatPose::Sit
        },
        CatState::Sit => if frame % 75 < 6 {
            CatPose::SitBlink
        } else {
            CatPose::Sit
        },
        CatState::SkyWatch | CatState::MoonGaze => CatPose::SkyWatch,
        CatState::Stretch => CatPose::Stretch,
        CatState::Groom => if (frame / 8) % 2 == 0 {
            CatPose::GroomA
        } else {
            CatPose::GroomB
        },
        CatState::Walk => if (frame / 4) % 2 == 0 {
            CatPose::WalkA
        } else {
            CatPose::WalkB
        },
        CatState::Sleep => if (frame / 12) % 2 == 0 {
            CatPose::SleepA
        } else {
            CatPose::SleepB
        },
        CatState::Hunt(HuntPhase::Stalk) => if (frame / 6) % 2 == 0 {
            CatPose::WalkA
        } else {
            CatPose::WalkB
        },
        CatState::Hunt(HuntPhase::Pounce) => CatPose::Pounce,
        CatState::Dig(_) => CatPose::Dig,
    }
}

/// The pose of the cat in a state at a frame.
pub fn current_pose(state: CatState, frame: u32) -> (p: CatPose)
    ensures
        p == pose_spec(state, frame),
{
    match state {
        CatState::Shelter => {
            if frame % 90 < 8 {
                CatPose::SitBlink
            } else {
                CatPose::Sit
            }
        },
        CatState::Sit => {
            if frame % 75 < 6 {
                CatPose::SitBlink
            } else {
                CatPose::Sit
            }
        },
        CatState::SkyWatch | CatState::MoonGaze => CatPose::SkyWatch,
        CatState::Stretch => CatPose::Stretch,
        CatState::Groom => {
            if (frame / 8) % 2 == 0 {
                CatPose::GroomA
            } else {
                CatPose::GroomB
            }
        },
        CatState::Walk => {
            if (frame / 4) % 2 == 0 {
                CatPose::WalkA
            } else {
                CatPose::WalkB
            }
        },
        CatState::Sleep => {
            if (frame / 12) % 2 == 0 {
                CatPose::SleepA
            } else {
                CatPose::SleepB
            }
        },
        CatState::Hunt(HuntPhase::Stalk) => {
            if (frame / 6) % 2 == 0 {
                CatPose::WalkA
            } else {
                CatPose::WalkB
            }
        },
        CatState::Hunt(HuntPhase::Pounce) => CatPose::Pounce,
        CatState::Dig(_) => CatPose::Dig,
    }
}

/// The two rows of a pose's art.
pub open spec fn pose_rows_spec(pose: CatPose) -> (Seq<char>, Seq<char>) {
    match pose {
        CatPose::Sit => ("  /\\_/\\"@, "~(=^.^=)"@),
        CatPose::SitBlink => ("  /\\_/\\"@, "~(=-.-=)"@),
        CatPose::WalkA => ("/ /\\_/\\"@, " (=o.o=)"@),
        CatPose::WalkB => ("\\ /\\_/\\"@, " (=o.o=)"@),
        CatPose::SleepA => ("   z    "@, "~(=-.-=)"@),
        CatPose::SleepB => ("   Z    "@, "_(=-.-=)"@),
        CatPose::Pounce => ("| /\\_/\\"@, " (=>o<=)"@),
        CatPose::Dig => ("  /\\_/\\"@, "~(=-.o=)"@),
        CatPose::SkyWatch => ("  /\\_/\\"@, "~(=*.*=)"@),
        CatPose::Stretch => ("  /\\_/\\"@, "\\(=>.<=)/"@),
        CatPose::GroomA => ("  /\\_/\\"@, "~(=-.-=)c"@),
        CatPose::GroomB => ("  /\\_/\\"@, "~(=^.^=)"@),
    }
}

/// The art of a pose: ears on top, face and tail below.
pub fn pose_rows(pose: CatPose) -> (r: (&'static str, &'static str))
    ensures
        (r.0@, r.1@) == pose_rows_spec(pose),
{
    match pose {
        CatPose::Sit => ("  /\\_/\\", "~(=^.^=)"),
        CatPose::SitBlink => ("  /\\_/\\", "~(=-.-=)"),
        CatPose::WalkA => ("/ /\\_/\\", " (=o.o=)"),
        CatPose::WalkB => ("\\ /\\_/\\", " (=o.o=)"),
        CatPose::SleepA => ("   z    ", "~(=-.-=)"),
        CatPose::SleepB => ("   Z    ", "_(=-.-=)"),
        CatPose::Pounce => ("| /\\_/\\", " (=>o<=)"),
        CatPose::Dig => ("  /\\_/\\", "~(=-.o=)"),
        CatPose::SkyWatch => ("  /\\_/\\", "~(=*.*=)"),
        CatPose::Stretch => ("  /\\_/\\", "\\(=>.<=)/"),
        CatPose::GroomA => ("  /\\_/\\", "~(=-.-=)c"),
        CatPose::GroomB => ("  /\\_/\\", "~(=^.^=)"),
    }
}

/// Mirror image of a character of the cat: brackets and slashes swap, the
/// grooming paw turns around.
pub open spec fn cat_mirror_char_spec(c: char) -> char {
    if c == '(' {
        ')'
    } else if c == ')' {
        '('
    } else if c == '/' {
        '\\'
    } else if c == '\\' {
        '/'
    } else if c == 'c' {
        'ɔ'
    } else {
        c
    }
}

fn cat_mirror_char(c: char) -> (r: char)
    ensures
        r == cat_mirror_char_spec(c),
{
    match c {
        '(' => ')',
        ')' => '(',
        '/' => '\\',
        '\\' => '/',
        'c' => 'ɔ',
        c => c,
    }
}

/// A row of the pose as drawn: as is when facing right; padded to the
/// pose's width, reversed and mirrored when facing left (so that the ears
/// stay above the face).
pub open spec fn pose_row_spec(row: Seq<char>, pose_width: nat, facing_right: bool) -> Seq<char> {
    if facing_right {
        row
    } else {
        Seq::new(pose_width, |k: int| cat_mirror_char_spec(pad_char(row, pose_width - 1 - k)))
    }
}

/// The characters of one pose row in the cat's direction.
pub fn pose_row(row: &str, pose_width: usize, facing_right: bool) -> (r: String)
    ensures
        r@ == pose_row_spec(row@, pose_width as nat, facing_right),
{
    if facing_right {
        return String::from_str(row);
    }
    let n = row.unicode_len();
    let mut r = String::new();
    let mut k: usize = 0;
    while k < pose_width
        invariant
            n == row@.len(),
            k <= pose_width,
            r@ == pose_row_spec(row@, pose_width as nat, false).take(k as int),
        decreases pose_width - k,
    {
        let src = pose_width - 1 - k;
        let c = if src < n {
            row.get_char(src)
        } else {
            ' '
        };
        push_char(&mut r, cat_mirror_char(c));
        assert(r@ =~= pose_row_spec(row@, pose_width as nat, false).take(k + 1));
        k = k + 1;
    }
    assert(pose_row_spec(row@, pose_width as nat, false).take(pose_width as int) =~= pose_row_spec(
        row@,
        pose_width as nat,
        false,
    ));
    r
}

/// Colour of a character of the cat: the eyes glow red on the hunt, green
/// by day and yellow in the dark; the sleep marks are cyan; the fur is
/// ginger.
pub open spec fn cat_char_color_spec(c: char, hunting: bool, is_day: bool) -> TermColor {
    if c == 'o' || c == '^' || c == '*' || c == '>' || c == '<' {
        if hunting {
            TermColor::Rgb { r: 255, g: 70, b: 70 }
        } else if is_day {
            TermColor::Green
        } else {
            TermColor::Yellow
        }
    } else if c == 'z' || c == 'Z' {
        TermColor::Cyan
    } else {
        TermColor::DarkYellow
    }
}

/// Colour of a character of the cat.
pub fn cat_char_color(c: char, hunting: bool, is_day: bool) -> (r: TermColor)
    ensures
        r == cat_char_color_spec(c, hunting, is_day),
{
    match c {
        'o' | '^' | '*' | '>' | '<' => {
            if hunting {
                TermColor::Rgb { r: 255, g: 70, b: 70 }
            } else if is_day {
                TermColor::Green
            } else {
                TermColor::Yellow
            }
        },
        'z' | 'Z' => TermColor::Cyan,
        _ => TermColor::DarkYellow,
    }
}

/// The mark left by digging at each stage.
pub open spec fn dig_mark_spec(step: u8) -> char {
    if step == 0 {
        '.'
    } else if step == 1 {
        'o'
    } else {
        'O'
    }
}

/// The mark left by digging at each stage.
pub fn dig_mark(step: u8) -> (c: char)
    ensures
        c == dig_mark_spec(step),
{
    match step {
        0 => '.',
        1 => 'o',
        _ => 'O',
    }
}

/// Rows the cat takes up on the screen.
pub const CAT_HEIGHT: i16 = 2;

/// Columns of the cat's art.
pub const CAT_WIDTH: i16 = 9;

/// The cat's upper row: its feet stand on the line of the house's base.
pub fn ground_row(horizon_y: u16) -> (r: i16)
    requires
        horizon_y <= i16::MAX,
    ensures
        r == horizon_y - CAT_HEIGHT,
{
    horizon_y as i16 - CAT_HEIGHT
}

/// Width of the widest row of a pose.
pub open spec fn pose_width_spec(pose: CatPose) -> nat {
    let (r0, r1) = pose_rows_spec(pose);
    if r0.len() >= r1.len() {
        r0.len()
    } else {
        r1.len()
    }
}

/// The hunted prey as drawn: where it is this frame.
#[derive(Debug, Clone, Copy, PartialEq, Eq, Structural)]
pub enum PreyView {
    /// The mouse, whose middle is at column `x`, running right or left on
    /// the cat's lower row.
    Mouse { x: i16, runs_right: bool },
    Butterfly { x: i16, y: i16 },
    Firefly { x: i16, y: i16 },
    Leaf { x: i16, y: i16 },
}

/// The mouse runs away from the cat with its snout ahead.
pub open spec fn mouse_sprite(runs_right: bool) -> Seq<char> {
    if runs_right {
        "~~E:>"@
    } else {
        "<:3~~"@
    }
}

/// The butterfly flaps its wings every five frames.
pub open spec fn butterfly_char(frame: u32) -> char {
    if (frame / 5) % 2 == 0 {
        'Ж'
    } else {
        'ж'
    }
}

/// The cells of the prey beside a cat whose upper row is `cat_y`.
pub open spec fn prey_cells_spec(
    prey: PreyView,
    cat_y: int,
    frame: u32,
    width: int,
    height: int,
) -> Seq<Cell> {
    match prey {
        PreyView::Mouse { x, runs_right } => text_cells(
            x - 2,
            cat_y + 1,
            mouse_sprite(runs_right),
            false,
            Paint::Solid(TermColor::Grey),
            width,
            height,
        ),
        PreyView::Butterfly { x, y } => text_cells(
            x as int,
            y as int,
            seq![butterfly_char(frame)],
            false,
            Paint::Solid(TermColor::Magenta),
            width,
            height,
        ),
        PreyView::Firefly { x, y } => text_cells(
            x as int,
            y as int,
            seq!['*'],
            false,
            Paint::Solid(TermColor::Yellow),
            width,
            height,
        ),
        PreyView::Leaf { x, y } => text_cells(
            x as int,
            y as int,
            seq!['*'],
            false,
            Paint::Solid(TermColor::DarkYellow),
            width,
            height,
        ),
    }
}

/// Colour of the firefly resting on the sleeping cat's tail.
pub open spec fn resting_firefly_color() -> TermColor {
    TermColor::Rgb { r: 255, g: 250, b: 130 }
}

/// Everything the cat system draws in a frame, in drawing order: the two
/// rows of the pose in the cat's direction (blanks let the scene show
/// through), the prey while hunting, the firefly blinking on the tail
/// while one rests there, and the mark in front of the paws while digging.
pub open spec fn cat_cells_spec(
    x: int,
    cat_y: int,
    state: CatState,
    frame: u32,
    facing_right: bool,
    is_day: bool,
    prey: PreyView,
    firefly_rest: u32,
    width: int,
    height: int,
) -> Seq<Cell> {
    let pose = pose_spec(state, frame);
    let pw = pose_width_spec(pose);
    let paint = Paint::Cat { hunting: state is Hunt, is_day };
    let body = text_cells(x, cat_y, pose_row_spec(pose_rows_spec(pose).0, pw, facing_right), true, paint, width, height)
        + text_cells(x, cat_y + 1, pose_row_spec(pose_rows_spec(pose).1, pw, facing_right), true, paint, width, height);
    let hunted = if state is Hunt {
        prey_cells_spec(prey, cat_y, frame, width, height)
    } else {
        Seq::empty()
    };
    let tail = if firefly_rest > 0 && (frame / 7) % 2 == 0 {
        text_cells(
            if facing_right { x } else { x + CAT_WIDTH - 2 },
            cat_y + 1,
            seq!['*'],
            false,
            Paint::Solid(resting_firefly_color()),
            width,
            height,
        )
    } else {
        Seq::empty()
    };
    let dig = match state {
        CatState::Dig(step) => text_cells(
            if facing_right { x + CAT_WIDTH + 1 } else { x - 2 },
            cat_y + CAT_HEIGHT - 1,
            seq![dig_mark_spec(step)],
            false,
            Paint::Solid(TermColor::DarkGrey),
            width,
            height,
        ),
        _ => Seq::empty(),
    };
    body + hunted + tail + dig
}

/// The cells of the prey.
fn put_prey(cells: &mut Vec<Cell>, prey: PreyView, cat_y: i16, frame: u32, width: u16, height: u16)
    ensures
        final(cells)@ == old(cells)@ + prey_cells_spec(
            prey,
            cat_y as int,
            frame,
            width as int,
            height as int,
        ),
{
    match prey {
        PreyView::Mouse { x, runs_right } => {
            let sprite = if runs_right {
                "~~E:>"
            } else {
                "<:3~~"
            };
            proof {
                reveal_strlit("~~E:>");
                reveal_strlit("<:3~~");
            }
            put_text(
                cells,
                x as i64 - 2,
                cat_y as i64 + 1,
                sprite,
                false,
                Paint::Solid(TermColor::Grey),
                width,
                height,
            );
        },
        PreyView::Butterfly { x, y } => {
            let c = if (frame / 5) % 2 == 0 {
                'Ж'
            } else {
                'ж'
            };
            put_char(cells, x as i64, y as i64, c, Paint::Solid(TermColor::Magenta), width, height);
        },
        PreyView::Firefly { x, y } => {
            put_char(cells, x as i64, y as i64, '*', Paint::Solid(TermColor::Yellow), width, height);
        },
        PreyView::Leaf { x, y } => {
            put_char(
                cells,
                x as i64,
                y as i64,
                '*',
                Paint::Solid(TermColor::DarkYellow),
                width,
                height,
            );
        },
    }
}

/// Everything the cat system draws in a frame. `x` is the cat's column,
/// `cat_y` its upper row.
pub fn cat_cells(
    x: i16,
    cat_y: i16,
    state: CatState,
    frame: u32,
    facing_right: bool,
    is_day: bool,
    prey: PreyView,
    firefly_rest: u32,
    width: u16,
    height: u16,
) -> (cells: Vec<Cell>)
    ensures
        cells@ == cat_cells_spec(
            x as int,
            cat_y as int,
            state,
            frame,
            facing_right,
            is_day,
            prey,
            firefly_rest,
            width as int,
            height as int,
        ),
{
    let mut cells: Vec<Cell> = Vec::new();
    let pose = current_pose(state, frame);
    let (r0, r1) = pose_rows(pose);
    let n0 = r0.unicode_len();
    let n1 = r1.unicode_len();
    let pw = if n0 >= n1 {
        n0
    } else {
        n1
    };
    let hunting = match state {
        CatState::Hunt(_) => true,
        _ => false,
    };
    let paint = Paint::Cat { hunting, is_day };
    let row0 = pose_row(r0, pw, facing_right);
    let row1 = pose_row(r1, pw, facing_right);
    put_text(&mut cells, x as i64, cat_y as i64, row0.as_str(), true, paint, width, height);
    put_text(&mut cells, x as i64, cat_y as i64 + 1, row1.as_str(), true, paint, width, height);
    if hunting {
        put_prey(&mut cells, prey, cat_y, frame, width, height);
    }
    if firefly_rest > 0 && (frame / 7) % 2 == 0 {
        let tail_x: i64 = if facing_right {
            x as i64
        } else {
            x as i64 + 7
        };
        put_char(
            &mut cells,
            tail_x,
            cat_y as i64 + 1,
            '*',
            Paint::Solid(TermColor::Rgb { r: 255, g: 250, b: 130 }),
            width,
            height,
        );
    }
    if let CatState::Dig(step) = state {
        let dot_x: i64 = if facing_right {
            x as i64 + 10
        } else {
            x as i64 - 2
        };
        put_char(
            &mut cells,
            dot_x,
            cat_y as i64 + 1,
            dig_mark(step),
            Paint::Solid(TermColor::DarkGrey),
            width,
            height,
        );
    }
    proof {
        assert(cells@ =~= cat_cells_spec(
            x as int,
            cat_y as int,
            state,
            frame,
            facing_right,
            is_day,
            prey,
            firefly_rest,
            width as int,
            height as int,
        ));
    }
    cells
}

/// What the cat does next when it has sat long enough.
#[derive(Debug, Clone, Copy, PartialEq, Eq, Structural)]
pub enum CatActivity {
    /// Gazes at the full moon.
    MoonGaze,
    /// A mouse jumps out and runs.
    MouseHunt,
    /// Hunts a butterfly, a firefly or a leaf.
    Hunt,
    /// Walks (or runs) somewhere in the yard.
    Walk,
    Sleep,
    /// Walks to the fence to dig there.
    WalkToDig,
    /// Sits on.
    Sit,
}

/// Chances of the next activity, in hundredths of a percent (out of
/// 10_000), in the order they are tried: the moon, a mouse, a hunt, a
/// walk, sleep, digging. At night the cat sleeps more and mice are about;
/// in demo mode a mouse shows up almost every other time and hunts are
/// half again as likely; only a clear full-moon night draws the cat's eyes
/// to the moon. What the chances leave over is sitting on.
pub open spec fn activity_chances(is_day: bool, demo: bool, full_moon_night: bool) -> (
    int,
    int,
    int,
    int,
    int,
    int,
) {
    let moon = if full_moon_night {
        if demo {
            2000int
        } else {
            1500int
        }
    } else {
        0int
    };
    let (walk, sleep, hunt, mouse, dig) = if is_day {
        (3300int, 1300int, 2000int, 1000int, 1000int)
    } else {
        (1800int, 3000int, 1200int, 1600int, 500int)
    };
    let (hunt, mouse) = if demo {
        (hunt * 3 / 2, 4000int)
    } else {
        (hunt, mouse)
    };
    (moon, mouse, hunt, walk, sleep, dig)
}

/// The activity a roll out of 10_000 picks: the first whose running total
/// of chances lies above the roll.
pub open spec fn activity_spec(roll: int, is_day: bool, demo: bool, full_moon_night: bool) -> CatActivity {
    let (moon, mouse, hunt, walk, sleep, dig) = activity_chances(is_day, demo, full_moon_night);
    if roll < moon {
        CatActivity::MoonGaze
    } else if roll < moon + mouse {
        CatActivity::MouseHunt
    } else if roll < moon + mouse + hunt {
        CatActivity::Hunt
    } else if roll < moon + mouse + hunt + walk {
        CatActivity::Walk
    } else if roll < moon + mouse + hunt + walk + sleep {
        CatActivity::Sleep
    } else if roll < moon + mouse + hunt + walk + sleep + dig {
        CatActivity::WalkToDig
    } else {
        CatActivity::Sit
    }
}

/// The next activity for a random roll out of 10_000.
pub fn choose_activity(roll: u32, is_day: bool, demo: bool, full_moon_night: bool) -> (a:
    CatActivity)
    ensures
        a == activity_spec(roll as int, is_day, demo, full_moon_night),
{
    let moon: u32 = if full_moon_night {
        if demo {
            2000
        } else {
            1500
        }
    } else {
        0
    };
    let (walk, sleep, hunt, mouse, dig): (u32, u32, u32, u32, u32) = if is_day {
        (3300, 1300, 2000, 1000, 1000)
    } else {
        (1800, 3000, 1200, 1600, 500)
    };
    let (hunt, mouse): (u32, u32) = if demo {
        (hunt * 3 / 2, 4000)
    } else {
        (hunt, mouse)
    };
    let mut threshold: u32 = moon;
    if roll < threshold {
        return CatActivity::MoonGaze;
    }
    threshold = threshold + mouse;
    if roll < threshold {
        return CatActivity::MouseHunt;
    }
    threshold = threshold + hunt;
    if roll < threshold {
        return CatActivity::Hunt;
    }
    threshold = threshold + walk;
    if roll < threshold {
        return CatActivity::Walk;
    }
    threshold = threshold + sleep;
    if roll < threshold {
        return CatActivity::Sleep;
    }
    threshold = threshold + dig;
    if roll < threshold {
        return CatActivity::WalkToDig;
    }
    CatActivity::Sit
}

/// Only a clear full-moon night draws the cat to the moon, and on such a
/// night a roll below the moon's chance always does.
pub proof fn lemma_moon_only_on_full_moon(roll: u32, is_day: bool, demo: bool, full_moon_night: bool)
    ensures
        !full_moon_night ==> activity_spec(roll as int, is_day, demo, full_moon_night)
            != CatActivity::MoonGaze,
        full_moon_night && roll < 1500 ==> activity_spec(roll as int, is_day, demo, full_moon_night)
            == CatActivity::MoonGaze,
{
}

/// The odds of the next activity, as the ranges of a roll out of 10_000
/// that lead to it, on a night without a full moon. By day: a mouse 10%,
/// a hunt 20%, a walk 33%, sleep 13%, digging 10%, sitting the rest. By
/// night the cat sleeps more than it walks: a mouse 16%, a hunt 12%, a
/// walk 18%, sleep 30%, digging 5%. In demo mode a mouse takes 40% and a
/// hunt half as much again (30% by day, 18% by night).
pub proof fn lemma_activity_odds(roll: int)
    ensures
        0 <= roll < 1000 ==> activity_spec(roll, true, false, false) == CatActivity::MouseHunt,
        1000 <= roll < 3000 ==> activity_spec(roll, true, false, false) == CatActivity::Hunt,
        3000 <= roll < 6300 ==> activity_spec(roll, true, false, false) == CatActivity::Walk,
        6300 <= roll < 7600 ==> activity_spec(roll, true, false, false) == CatActivity::Sleep,
        7600 <= roll < 8600 ==> activity_spec(roll, true, false, false)
            == CatActivity::WalkToDig,
        8600 <= roll ==> activity_spec(roll, true, false, false) == CatActivity::Sit,
        0 <= roll < 1600 ==> activity_spec(roll, false, false, false) == CatActivity::MouseHunt,
        1600 <= roll < 2800 ==> activity_spec(roll, false, false, false) == CatActivity::Hunt,
        2800 <= roll < 4600 ==> activity_spec(roll, false, false, false) == CatActivity::Walk,
        4600 <= roll < 7600 ==> activity_spec(roll, false, false, false) == CatActivity::Sleep,
        7600 <= roll < 8100 ==> activity_spec(roll, false, false, false)
            == CatActivity::WalkToDig,
        8100 <= roll ==> activity_spec(roll, false, false, false) == CatActivity::Sit,
        0 <= roll < 4000 ==> activity_spec(roll, true, true, false) == CatActivity::MouseHunt,
        4000 <= roll < 7000 ==> activity_spec(roll, true, true, false) == CatActivity::Hunt,
        7000 <= roll < 10300 ==> activity_spec(roll, true, true, false) == CatActivity::Walk,
        0 <= roll < 4000 ==> activity_spec(roll, false, true, false) == CatActivity::MouseHunt,
        4000 <= roll < 5800 ==> activity_spec(roll, false, true, false) == CatActivity::Hunt,
        5800 <= roll < 7600 ==> activity_spec(roll, false, true, false) == CatActivity::Walk,
        7600 <= roll < 10600 ==> activity_spec(roll, false, true, false) == CatActivity::Sleep,
{
}

/// On a clear full-moon night the moon comes first: a roll below its
/// chance (15%, 20% in demo mode) draws the cat to the moon, and every
/// other activity keeps its odds, moved up by the moon's share.
pub proof fn lemma_full_moon_comes_first(roll: int, is_day: bool, demo: bool)
    ensures
        0 <= roll < (if demo { 2000int } else { 1500int }) ==> activity_spec(
            roll,
            is_day,
            demo,
            true,
        ) == CatActivity::MoonGaze,
        roll >= (if demo { 2000int } else { 1500int }) ==> activity_spec(roll, is_day, demo, true)
            == activity_spec(roll - (if demo { 2000int } else { 1500int }), is_day, demo, false),
{
}

/// A timer of `base` frames plus up to `span - 1` more, given a random
/// number, run four times faster in demo mode.
pub open spec fn paced_timer_spec(base: u32, span: u32, roll: u32, demo: bool) -> u32 {
    ((base + roll % span) / (if demo { 4int } else { 1int })) as u32
}

/// Frames the cat gazes at the moon: 40 to 70 seconds at 15 frames a
/// second.
pub fn moon_gaze_timer(roll: u32, demo: bool) -> (r: u32)
    ensures
        r == paced_timer_spec(600, 450, roll, demo),
{
    (600 + roll % 450) / pace(demo)
}

/// Frames the cat sleeps.
pub fn sleep_timer(roll: u32, demo: bool) -> (r: u32)
    ensures
        r == paced_timer_spec(450, 900, roll, demo),
{
    (450 + roll % 900) / pace(demo)
}

/// Frames the cat sits before it picks another activity.
pub fn sit_timer(roll: u32, demo: bool) -> (r: u32)
    ensures
        r == paced_timer_spec(90, 240, roll, demo),
{
    (90 + roll % 240) / pace(demo)
}

/// A walk is a run three times in ten (a roll out of 10_000).
pub fn walk_is_run(roll: u32) -> (r: bool)
    ensures
        r == (roll < 3000),
{
    roll < 3000
}

/// Whether a firefly lands on the tail of a cat asleep on a warm night
/// this frame: a chance of 2 in 1000 (2 in 100 in demo mode), the roll
/// out of 10_000.
pub fn firefly_lands(roll: u32, demo: bool) -> (r: bool)
    ensures
        r == (roll < (if demo { 200u32 } else { 20u32 })),
{
    roll < if demo {
        200
    } else {
        20
    }
}

/// Frames a landed firefly rests on the tail.
pub fn firefly_rest_frames(roll: u32) -> (r: u32)
    ensures
        r == 120 + roll % 150,
{
    120 + roll % 150
}

/// Weather that sends the cat under the roof: rain, a thunderstorm,
/// snow, fog, or a frost below -8 degrees (`freezing`).
pub fn bad_weather(raining: bool, thunderstorm: bool, snowing: bool, foggy: bool, freezing: bool) -> (r:
    bool)
    ensures
        r == (raining || thunderstorm || snowing || foggy || freezing),
{
    raining || thunderstorm || snowing || foggy || freezing
}

/// What the cat hunts: a butterfly by day (a falling leaf when leaves are
/// falling), a firefly at night.
pub fn hunt_prey(is_day: bool, show_leaves: bool) -> (p: Prey)
    ensures
        p == (if is_day {
            if show_leaves {
                Prey::Leaf
            } else {
                Prey::Butterfly
            }
        } else {
            Prey::Firefly
        }),
{
    if is_day {
        if show_leaves {
            Prey::Leaf
        } else {
            Prey::Butterfly
        }
    } else {
        Prey::Firefly
    }
}

/// Frames the cat stalks flying prey before giving up.
pub const HUNT_FRAMES: u32 = 300;

/// Frames the cat chases a mouse before giving up.
pub const MOUSE_HUNT_FRAMES: u32 = 450;

/// A hunt after the cat and its prey moved this frame: while stalking,
/// the prey gets away when a mouse escaped over the edge or time ran out
/// (the cat sits down), and the cat pounces once it is close; after the
/// pounce's frames the prey is caught every other time. Gives the new
/// state and its timer.
pub open spec fn hunt_step_spec(phase: HuntPhase, timer: u32, escaped: bool, close: bool, caught: bool) -> (
    CatState,
    u32,
) {
    match phase {
        HuntPhase::Stalk => if escaped || timer == 0 {
            (CatState::Sit, 45u32)
        } else if close {
            (CatState::Hunt(HuntPhase::Pounce), 12u32)
        } else {
            (CatState::Hunt(HuntPhase::Stalk), (timer - 1) as u32)
        },
        HuntPhase::Pounce => if timer == 0 {
            if caught {
                (CatState::Groom, 45u32)
            } else {
                (CatState::Sit, 30u32)
            }
        } else {
            (CatState::Hunt(HuntPhase::Pounce), (timer - 1) as u32)
        },
    }
}

/// A hunt's frame. `escaped`: a hunted mouse reached an edge; `close`:
/// the cat's middle is within three columns of the prey; `caught`: the
/// coin tossed for the pounce.
pub fn hunt_step(phase: HuntPhase, timer: u32, escaped: bool, close: bool, caught: bool) -> (r: (
    CatState,
    u32,
))
    ensures
        r == hunt_step_spec(phase, timer, escaped, close, caught),
{
    match phase {
        HuntPhase::Stalk => {
            if escaped || timer == 0 {
                (CatState::Sit, 45)
            } else if close {
                (CatState::Hunt(HuntPhase::Pounce), 12)
            } else {
                (CatState::Hunt(HuntPhase::Stalk), timer - 1)
            }
        },
        HuntPhase::Pounce => {
            if timer == 0 {
                resolve_pounce(caught)
            } else {
                (CatState::Hunt(HuntPhase::Pounce), timer - 1)
            }
        },
    }
}

/// A walk after the cat moved this frame: arrived at the fence, it digs;
/// arrived elsewhere, it sits for a while (given a random number);
/// otherwise it walks on.
pub open spec fn walk_step_spec(arrived: bool, at_fence: bool, timer: u32, roll: u32, demo: bool) -> (
    CatState,
    u32,
) {
    if !arrived {
        (CatState::Walk, timer)
    } else if at_fence {
        (CatState::Dig(0), 90u32)
    } else {
        (CatState::Sit, paced_timer_spec(90, 240, roll, demo))
    }
}

/// A walk's frame. `arrived`: the cat is within a column of its target;
/// `at_fence`: the target lies in the right fifth of the yard, by the
/// fence.
pub fn walk_step(arrived: bool, at_fence: bool, timer: u32, roll: u32, demo: bool) -> (r: (
    CatState,
    u32,
))
    ensures
        r == walk_step_spec(arrived, at_fence, timer, roll, demo),
{
    if !arrived {
        (CatState::Walk, timer)
    } else if at_fence {
        (CatState::Dig(0), 90)
    } else {
        (CatState::Sit, sit_timer(roll, demo))
    }
}

/// A hunt always ends: stalking counts its timer down unless the cat
/// pounces (which counts down from 12), and a pounce ends in grooming or
/// sitting once its timer runs out.
pub proof fn lemma_hunt_progresses(phase: HuntPhase, timer: u32, escaped: bool, close: bool, caught: bool)
    ensures
        ({
            let (state, t) = hunt_step_spec(phase, timer, escaped, close, caught);
            &&& phase == HuntPhase::Stalk && state == CatState::Hunt(HuntPhase::Stalk) ==> t < timer
            &&& phase == HuntPhase::Pounce && state == CatState::Hunt(HuntPhase::Pounce) ==> t
                < timer
            &&& phase == HuntPhase::Pounce && timer == 0 ==> state == CatState::Groom || state
                == CatState::Sit
            &&& state == CatState::Hunt(HuntPhase::Pounce) && phase == HuntPhase::Stalk ==> t == 12
        }),
{
}

/// The firefly on the cat's tail after this frame: it rests only on a
/// sleeping cat, counting its frames down; on a warm night a firefly may
/// land on a sleeping cat without one (`roll` out of 10_000, see
/// `firefly_lands`) and stays `firefly_rest_frames(rest_roll)` frames;
/// a cat that is not asleep has none.
pub open spec fn firefly_step_spec(
    state: CatState,
    rest: u32,
    warm_night: bool,
    roll: u32,
    rest_roll: u32,
    demo: bool,
) -> u32 {
    if state != CatState::Sleep {
        0
    } else if rest > 0 {
        (rest - 1) as u32
    } else if warm_night && roll < (if demo { 200u32 } else { 20u32 }) {
        (120 + rest_roll % 150) as u32
    } else {
        0
    }
}

/// The firefly's frames left on the cat's tail after this frame.
pub fn firefly_step(
    state: CatState,
    rest: u32,
    warm_night: bool,
    roll: u32,
    rest_roll: u32,
    demo: bool,
) -> (r: u32)
    ensures
        r == firefly_step_spec(state, rest, warm_night, roll, rest_roll, demo),
{
    if state != CatState::Sleep {
        0
    } else if rest > 0 {
        rest - 1
    } else if warm_night && firefly_lands(roll, demo) {
        firefly_rest_frames(rest_roll)
    } else {
        0
    }
}

/// A firefly rests only on a sleeping cat, and never longer than 269
/// frames.
pub proof fn lemma_firefly_only_on_sleeping_cat(
    state: CatState,
    rest: u32,
    warm_night: bool,
    roll: u32,
    rest_roll: u32,
    demo: bool,
)
    requires
        rest <= 269,
    ensures
        firefly_step_spec(state, rest, warm_night, roll, rest_roll, demo) > 0 ==> state
            == CatState::Sleep,
        firefly_step_spec(state, rest, warm_night, roll, rest_roll, demo) <= 269,
{
}

/// The cat in bad weather this frame: far from its shelter it runs there
/// (a running walk), next to it it shelters and keeps its pace flag.
/// Either way it is awake, so no firefly rests on its tail.
pub struct ShelterStep {
    pub state: CatState,
    pub running: bool,
    pub firefly_rest: u32,
}

/// One frame of bad weather for a cat whose walk was `running`.
pub fn shelter_step(far_from_shelter: bool, running: bool) -> (r: ShelterStep)
    ensures
        r.state == (if far_from_shelter {
            CatState::Walk
        } else {
            CatState::Shelter
        }),
        r.running == (far_from_shelter || running),
        r.firefly_rest == 0,
{
    if far_from_shelter {
        ShelterStep { state: CatState::Walk, running: true, firefly_rest: 0 }
    } else {
        ShelterStep { state: CatState::Shelter, running, firefly_rest: 0 }
    }
}

/// How an activity starts: the cat's new state, its timer (`None` for a
/// walk, which ends on arrival), whether a walk is a run, and the prey of
/// a hunt.
#[derive(Debug, Clone, Copy, PartialEq, Eq, Structural)]
pub struct ActivityStart {
    pub state: CatState,
    pub timer: Option<u32>,
    pub running: Option<bool>,
    pub prey: Option<Prey>,
}

/// The start of each activity: gazing at the moon, sleeping and sitting
/// run for a paced random time (`timer_roll`); a hunt stalks its prey for
/// `HUNT_FRAMES` (a mouse for `MOUSE_HUNT_FRAMES`); a walk is a run three
/// times in ten (`run_roll` out of 10_000); the walk to the fence to dig
/// is never a run.
pub open spec fn activity_start_spec(
    activity: CatActivity,
    is_day: bool,
    show_leaves: bool,
    timer_roll: u32,
    run_roll: u32,
    demo: bool,
) -> ActivityStart {
    match activity {
        CatActivity::MoonGaze => ActivityStart {
            state: CatState::MoonGaze,
            timer: Some(paced_timer_spec(600, 450, timer_roll, demo)),
            running: None,
            prey: None,
        },
        CatActivity::MouseHunt => ActivityStart {
            state: CatState::Hunt(HuntPhase::Stalk),
            timer: Some(MOUSE_HUNT_FRAMES),
            running: None,
            prey: Some(Prey::Mouse),
        },
        CatActivity::Hunt => ActivityStart {
            state: CatState::Hunt(HuntPhase::Stalk),
            timer: Some(HUNT_FRAMES),
            running: None,
            prey: Some(
                if is_day {
                    if show_leaves {
                        Prey::Leaf
                    } else {
                        Prey::Butterfly
                    }
                } else {
                    Prey::Firefly
                },
            ),
        },
        CatActivity::Walk => ActivityStart {
            state: CatState::Walk,
            timer: None,
            running: Some(run_roll < 3000),
            prey: None,
        },
        CatActivity::Sleep => ActivityStart {
            state: CatState::Sleep,
            timer: Some(paced_timer_spec(450, 900, timer_roll, demo)),
            running: None,
            prey: None,
        },
        CatActivity::WalkToDig => ActivityStart {
            state: CatState::Walk,
            timer: None,
            running: Some(false),
            prey: None,
        },
        CatActivity::Sit => ActivityStart {
            state: CatState::Sit,
            timer: Some(paced_timer_spec(90, 240, timer_roll, demo)),
            running: None,
            prey: None,
        },
    }
}

/// How the chosen activity starts (see `activity_start_spec`).
pub fn start_activity(
    activity: CatActivity,
    is_day: bool,
    show_leaves: bool,
    timer_roll: u32,
    run_roll: u32,
    demo: bool,
) -> (r: ActivityStart)
    ensures
        r == activity_start_spec(activity, is_day, show_leaves, timer_roll, run_roll, demo),
{
    match activity {
        CatActivity::MoonGaze => ActivityStart {
            state: CatState::MoonGaze,
            timer: Some(moon_gaze_timer(timer_roll, demo)),
            running: None,
            prey: None,
        },
        CatActivity::MouseHunt => ActivityStart {
            state: CatState::Hunt(HuntPhase::Stalk),
            timer: Some(MOUSE_HUNT_FRAMES),
            running: None,
            prey: Some(Prey::Mouse),
        },
        CatActivity::Hunt => ActivityStart {
            state: CatState::Hunt(HuntPhase::Stalk),
            timer: Some(HUNT_FRAMES),
            running: None,
            prey: Some(hunt_prey(is_day, show_leaves)),
        },
        CatActivity::Walk => ActivityStart {
            state: CatState::Walk,
            timer: None,
            running: Some(walk_is_run(run_roll)),
            prey: None,
        },
        CatActivity::Sleep => ActivityStart {
            state: CatState::Sleep,
            timer: Some(sleep_timer(timer_roll, demo)),
            running: None,
            prey: None,
        },
        CatActivity::WalkToDig => ActivityStart {
            state: CatState::Walk,
            timer: None,
            running: Some(false),
            prey: None,
        },
        CatActivity::Sit => ActivityStart {
            state: CatState::Sit,
            timer: Some(sit_timer(timer_roll, demo)),
            running: None,
            prey: None,
        },
    }
}

} // verus!
