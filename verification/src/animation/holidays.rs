//! Seasonal easter eggs: a garland on the pine tree in New Year week
//! (31 December - 7 January), a rocket on Cosmonautics Day (12 April) and
//! fireworks on the evening of 9 May. In demo mode every holiday is on.

use vstd::prelude::*;
use crate::animation::{house_left, house_left_column};
use crate::canvas::{put_char, put_text, text_cells, Cell, Paint};
use crate::clock;
use crate::clock::LocalClock;
use crate::color::TermColor;

verus! {

/// New Year week: 31 December to 7 January.
pub open spec fn new_year_week(month: u32, day: u32) -> bool {
    (month == 12 && day >= 31) || (month == 1 && day <= 7)
}

/// Cosmonautics Day: 12 April.
pub open spec fn cosmonautics_day(month: u32, day: u32) -> bool {
    month == 4 && day == 12
}

/// Victory Day: 9 May.
pub open spec fn victory_day(month: u32, day: u32) -> bool {
    month == 5 && day == 9
}

/// Whether the garland is lit at the given local date.
pub fn garland_active_at(demo: bool, now: &LocalClock) -> (r: bool)
    ensures
        r == (demo || new_year_week(now.month, now.day)),
        !demo ==> (r <==> ((now.month == 12 && now.day >= 31) || (now.month == 1 && now.day
            <= 7))),
{
    if demo {
        return true;
    }
    (now.month == 12 && now.day >= 31) || (now.month == 1 && now.day <= 7)
}

/// Whether the rocket flies at the given local date.
pub fn cosmonautics_active_at(demo: bool, now: &LocalClock) -> (r: bool)
    ensures
        r == (demo || cosmonautics_day(now.month, now.day)),
        !demo ==> (r <==> (now.month == 4 && now.day == 12)),
{
    if demo {
        return true;
    }
    now.month == 4 && now.day == 12
}

/// Whether fireworks go up at the given local date: Victory Day, in the
/// evening and at night.
pub fn victory_active_at(demo: bool, now: &LocalClock, is_day: bool) -> (r: bool)
    ensures
        r == (demo || (victory_day(now.month, now.day) && !is_day)),
        !demo ==> (r <==> (now.month == 5 && now.day == 9 && !is_day)),
        is_day ==> (r <==> demo),
{
    if demo {
        return true;
    }
    now.month == 5 && now.day == 9 && !is_day
}

/// Whether the garland is lit today; not when the local date cannot be
/// read.
pub fn garland_active(demo: bool) -> (r: bool)
    ensures
        demo ==> r,
        !demo ==> exists|now: LocalClock| now.wf() && r == new_year_week(now.month, now.day),
{
    if demo {
        return true;
    }
    match clock::read_local_clock() {
        Some(now) => garland_active_at(demo, &now),
        None => {
            proof {
                let w = LocalClock { month: 3, day: 1, hour: 0, minute: 0 };
                assert(w.wf() && !new_year_week(w.month, w.day));
            }
            false
        },
    }
}

/// Whether the rocket flies today; not when the local date cannot be read.
pub fn cosmonautics_active(demo: bool) -> (r: bool)
    ensures
        demo ==> r,
        !demo ==> exists|now: LocalClock| now.wf() && r == cosmonautics_day(now.month, now.day),
{
    if demo {
        return true;
    }
    match clock::read_local_clock() {
        Some(now) => cosmonautics_active_at(demo, &now),
        None => {
            proof {
                let w = LocalClock { month: 3, day: 1, hour: 0, minute: 0 };
                assert(w.wf() && !cosmonautics_day(w.month, w.day));
            }
            false
        },
    }
}

/// Whether fireworks go up now; not when the local date cannot be read.
pub fn victory_active(demo: bool, is_day: bool) -> (r: bool)
    ensures
        demo ==> r,
        !demo ==> exists|now: LocalClock|
            now.wf() && r == (victory_day(now.month, now.day) && !is_day),
{
    if demo {
        return true;
    }
    match clock::read_local_clock() {
        Some(now) => victory_active_at(demo, &now, is_day),
        None => {
            proof {
                let w = LocalClock { month: 3, day: 1, hour: 0, minute: 0 };
                assert(w.wf() && !(victory_day(w.month, w.day) && !is_day));
            }
            false
        },
    }
}

/// Frames between two fireworks, given a random number.
pub fn firework_cooldown(demo: bool, roll: u32) -> (r: u32)
    ensures
        r == (if demo { (30 + roll % 30) as u32 } else { (45 + roll % 90) as u32 }),
{
    if demo {
        30 + roll % 30
    } else {
        45 + roll % 90
    }
}

/// Frames the launch pad rests after a rocket left the screen: an hour on
/// the holiday, a minute in demo mode.
pub fn rocket_rest(demo: bool) -> (r: u32)
    ensures
        r == (if demo { 900u32 } else { 54_000u32 }),
{
    if demo {
        900
    } else {
        54_000
    }
}

/// What the Cosmonautics Day rocket does this frame.
#[derive(Debug, Clone, Copy, PartialEq, Eq, Structural)]
pub enum RocketEvent {
    /// Keeps flying, or keeps resting on its pad.
    Wait,
    /// Goes up from its pad.
    Launch,
    /// Has left the top of the screen and is back on its pad.
    Land,
}

/// One frame of the rocket on Cosmonautics Day: a flying rocket that has
/// left the top of the screen (`out_of_sight`) is back on its pad, which
/// rests `rocket_rest` frames; a rocket on its pad counts its rest down
/// and goes up when it has run out. Gives the new rest and the event.
pub fn rocket_step(cooldown: u32, flying: bool, out_of_sight: bool, demo: bool) -> (r: (
    u32,
    RocketEvent,
))
    ensures
        flying && out_of_sight ==> r == (
            if demo { 900u32 } else { 54_000u32 },
            RocketEvent::Land,
        ),
        flying && !out_of_sight ==> r == (cooldown, RocketEvent::Wait),
        !flying ==> r == (
            if cooldown == 0 { 0u32 } else { (cooldown - 1) as u32 },
            if cooldown <= 1 { RocketEvent::Launch } else { RocketEvent::Wait },
        ),
{
    if flying {
        if out_of_sight {
            (rocket_rest(demo), RocketEvent::Land)
        } else {
            (cooldown, RocketEvent::Wait)
        }
    } else {
        let left = cooldown.saturating_sub(1);
        if left == 0 {
            (left, RocketEvent::Launch)
        } else {
            (left, RocketEvent::Wait)
        }
    }
}

/// Most fireworks in the sky at once.
pub const MAX_FIREWORKS: usize = 4;

/// One frame of the salvo timer while fireworks go up: the timer counts
/// down, and when it has run out and there is room in the sky (fewer than
/// four salvos) a salvo goes up and the timer is set anew; otherwise the
/// salvo waits for room. The new timer and whether a salvo goes up.
pub open spec fn firework_step_spec(cooldown: u32, in_sky: int, demo: bool, roll: u32) -> (u32, bool) {
    let left = if cooldown == 0 { 0 } else { cooldown - 1 };
    if left == 0 && in_sky < MAX_FIREWORKS {
        (if demo { (30 + roll % 30) as u32 } else { (45 + roll % 90) as u32 }, true)
    } else {
        (left as u32, false)
    }
}

/// One frame of the salvo timer (see `firework_step_spec`).
pub fn firework_step(cooldown: u32, in_sky: usize, demo: bool, roll: u32) -> (r: (u32, bool))
    ensures
        r == firework_step_spec(cooldown, in_sky as int, demo, roll),
{
    let left = if cooldown == 0 {
        0
    } else {
        cooldown - 1
    };
    if left == 0 && in_sky < MAX_FIREWORKS {
        (firework_cooldown(demo, roll), true)
    } else {
        (left, false)
    }
}

/// The salvos still in the sky after each moved on: those for which the
/// move gave `Some`, in their order.
pub open spec fn still_burning<T>(moved: Seq<Option<T>>) -> Seq<T>
    decreases moved.len(),
{
    if moved.len() == 0 {
        Seq::empty()
    } else {
        let rest = still_burning(moved.drop_last());
        match moved.last() {
            Some(t) => rest.push(t),
            None => rest,
        }
    }
}

/// No more salvos stay in the sky than there were.
pub proof fn lemma_still_burning_len<T>(moved: Seq<Option<T>>)
    ensures
        still_burning(moved).len() <= moved.len(),
    decreases moved.len(),
{
    if moved.len() > 0 {
        lemma_still_burning_len(moved.drop_last());
    }
}

/// How a frame moved the salvos on: `made` holds the new salvo, which
/// `make` built, when one went up; `moved` holds what `advance` gave for
/// each salvo of the sky before it and of `made`, in order; what stays in
/// the sky are the salvos still burning.
pub open spec fn salvos_moved_on<T, G: FnOnce() -> T, F: Fn(T) -> Option<T>>(
    make: G,
    advance: F,
    launch: bool,
    before: Seq<T>,
    made: Seq<T>,
    moved: Seq<Option<T>>,
    after: Seq<T>,
) -> bool {
    &&& made.len() == (if launch { 1int } else { 0int })
    &&& (launch ==> make.ensures((), made[0]))
    &&& moved.len() == before.len() + made.len()
    &&& forall|j: int|
        0 <= j < moved.len() ==> advance.ensures(((before + made)[j],), #[trigger] moved[j])
    &&& after == still_burning(moved)
}

/// One frame of the fireworks. While they are on (`active`), the salvo
/// timer runs (`firework_step_spec`); when a salvo is due, `make` builds
/// it and it joins the sky; then every salvo moves on by `advance`, which
/// gives `None` for one that has burnt out, and those stay in their
/// order. When the fireworks are off the sky is cleared and the timer
/// kept. Gives the new timer. The sky never holds more than
/// `MAX_FIREWORKS` salvos: one goes up only while there is room, and a
/// frame removes salvos but adds none.
pub fn salvo_frame<T, G: FnOnce() -> T, F: Fn(T) -> Option<T>>(
    salvos: &mut Vec<T>,
    cooldown: u32,
    active: bool,
    demo: bool,
    roll: u32,
    make: G,
    advance: F,
) -> (r: u32)
    requires
        make.requires(()),
        forall|t: T| advance.requires((t,)),
    ensures
        !active ==> r == cooldown && final(salvos)@.len() == 0,
        active ==> ({
            let (timer, launch) = firework_step_spec(cooldown, old(salvos)@.len() as int, demo, roll);
            &&& r == timer
            &&& launch ==> old(salvos)@.len() < MAX_FIREWORKS
            &&& exists|made: Seq<T>, moved: Seq<Option<T>>|
                #[trigger] salvos_moved_on(
                    make,
                    advance,
                    launch,
                    old(salvos)@,
                    made,
                    moved,
                    final(salvos)@,
                )
        }),
        old(salvos)@.len() <= MAX_FIREWORKS ==> final(salvos)@.len() <= MAX_FIREWORKS,
{
    if !active {
        salvos.clear();
        return cooldown;
    }
    let ghost before = salvos@;
    let (timer, launch) = firework_step(cooldown, salvos.len(), demo, roll);
    let ghost mut made: Seq<T> = Seq::empty();
    if launch {
        let m = make();
        salvos.push(m);
        proof {
            made = seq![m];
        }
    }
    let ghost pre = salvos@;
    assert(pre == before + made);
    let mut sky: Vec<T> = Vec::new();
    std::mem::swap(&mut sky, salvos);
    let ghost mut moved: Seq<Option<T>> = Seq::empty();
    let mut i: usize = 0;
    while sky.len() > 0
        invariant
            forall|t: T| advance.requires((t,)),
            i + sky@.len() == pre.len(),
            pre.len() <= usize::MAX,
            sky@ == pre.subrange(i as int, pre.len() as int),
            moved.len() == i,
            forall|j: int| 0 <= j < i ==> advance.ensures((pre[j],), #[trigger] moved[j]),
            salvos@ == still_burning(moved),
        decreases sky@.len(),
    {
        let s = sky.remove(0);
        let next = advance(s);
        proof {
            assert(moved.push(next).drop_last() == moved);
            moved = moved.push(next);
        }
        match next {
            Some(t) => salvos.push(t),
            None => {},
        }
        i = i + 1;
    }
    proof {
        lemma_still_burning_len(moved);
        assert(salvos_moved_on(make, advance, launch, old(salvos)@, made, moved, salvos@));
    }
    timer
}

/// What the holidays keep from frame to frame. `R` is the rocket in
/// flight and `S` a salvo of fireworks; both carry the positions that
/// only the caller moves.
pub struct HolidayState<R, S> {
    pub demo: bool,
    /// Frame counter for the garland's and the rocket's blinking.
    pub frame: u32,
    /// The rocket while it flies.
    pub rocket: Option<R>,
    /// Column of the launch pad the rocket went up from.
    pub rocket_x: i32,
    /// Frames until the next rocket goes up.
    pub rocket_cooldown: u32,
    /// The salvos in the sky.
    pub fireworks: Vec<S>,
    /// Frames until the next salvo may go up.
    pub firework_cooldown: u32,
}

impl<R, S> HolidayState<R, S> {
    /// The holidays before the first frame: no rocket, no salvo, the
    /// first rocket after 300 frames and the first salvo after 60.
    pub fn new() -> (h: Self)
        ensures
            !h.demo && h.frame == 0 && h.rocket is None && h.rocket_x == 0,
            h.rocket_cooldown == 300 && h.fireworks@.len() == 0 && h.firework_cooldown == 60,
    {
        HolidayState {
            demo: false,
            frame: 0,
            rocket: None,
            rocket_x: 0,
            rocket_cooldown: 300,
            fireworks: Vec::new(),
            firework_cooldown: 60,
        }
    }

    /// Demo mode on or off; turning it on brings the next rocket within
    /// 90 frames and the next salvo within 20.
    pub fn set_demo(&mut self, demo: bool)
        ensures
            final(self).demo == demo,
            final(self).frame == old(self).frame,
            final(self).rocket == old(self).rocket,
            final(self).rocket_x == old(self).rocket_x,
            final(self).fireworks == old(self).fireworks,
            final(self).rocket_cooldown == (if demo { 90 } else { old(self).rocket_cooldown }),
            final(self).firework_cooldown == (if demo { 20 } else { old(self).firework_cooldown }),
    {
        self.demo = demo;
        if demo {
            self.rocket_cooldown = 90;
            self.firework_cooldown = 20;
        }
    }

    /// One frame of the holidays from `self` to `next`, with the rocket
    /// flying (`rocket_on`) and the fireworks going up (`fireworks_on`) as
    /// given. The frame counter moves on. While the rocket is on, a flying
    /// rocket moves as `fly` says, and once it has left the screen (`fly`
    /// gave `None`) its pad rests `rocket_rest` frames; a rocket on its pad
    /// counts the rest down and goes up from `launch_column` as `launch`
    /// builds it. While the rocket is off it stays as it is. The fireworks
    /// go as `salvo_frame` says, with `roll` for the salvo timer.
    pub open spec fn holiday_step<
        LR: FnOnce() -> R,
        FR: Fn(R) -> Option<R>,
        G: FnOnce() -> S,
        F: Fn(S) -> Option<S>,
    >(
        self,
        next: Self,
        rocket_on: bool,
        fireworks_on: bool,
        width: u16,
        house_width: u16,
        roll: u32,
        launch: LR,
        fly: FR,
        make: G,
        advance: F,
    ) -> bool {
        &&& next.demo == self.demo
        &&& next.frame == self.frame.wrapping_add(1)
        &&& !rocket_on ==> next.rocket == self.rocket && next.rocket_x == self.rocket_x
            && next.rocket_cooldown == self.rocket_cooldown
        &&& rocket_on && self.rocket is Some ==> {
            &&& fly.ensures((self.rocket->0,), next.rocket)
            &&& next.rocket_x == self.rocket_x
            &&& next.rocket_cooldown == (if next.rocket is None {
                if self.demo {
                    900u32
                } else {
                    54_000u32
                }
            } else {
                self.rocket_cooldown
            })
        }
        &&& rocket_on && self.rocket is None ==> {
            let left = if self.rocket_cooldown == 0 {
                0u32
            } else {
                (self.rocket_cooldown - 1) as u32
            };
            &&& next.rocket_cooldown == left
            &&& left == 0 ==> next.rocket_x == launch_column_spec(width, house_width) && (
            next.rocket matches Some(r) && launch.ensures((), r))
            &&& left != 0 ==> next.rocket is None && next.rocket_x == self.rocket_x
        }
        &&& !fireworks_on ==> next.fireworks@.len() == 0 && next.firework_cooldown
            == self.firework_cooldown
        &&& fireworks_on ==> {
            let (timer, salvo) = firework_step_spec(
                self.firework_cooldown,
                self.fireworks@.len() as int,
                self.demo,
                roll,
            );
            &&& next.firework_cooldown == timer
            &&& exists|made: Seq<S>, moved: Seq<Option<S>>|
                #[trigger] salvos_moved_on(
                    make,
                    advance,
                    salvo,
                    self.fireworks@,
                    made,
                    moved,
                    next.fireworks@,
                )
        }
    }

    /// One frame of the holidays, with the rocket flying (`rocket_on`) and
    /// the fireworks going up (`fireworks_on`) as given (see `holiday_step`).
    /// The sky never holds more than `MAX_FIREWORKS` salvos.
    pub fn update_with<
        LR: FnOnce() -> R,
        FR: Fn(R) -> Option<R>,
        G: FnOnce() -> S,
        F: Fn(S) -> Option<S>,
    >(
        &mut self,
        rocket_on: bool,
        fireworks_on: bool,
        width: u16,
        house_width: u16,
        roll: u32,
        launch: LR,
        fly: FR,
        make: G,
        advance: F,
    )
        requires
            launch.requires(()),
            forall|r: R| fly.requires((r,)),
            make.requires(()),
            forall|s: S| advance.requires((s,)),
        ensures
            old(self).holiday_step(
                *final(self),
                rocket_on,
                fireworks_on,
                width,
                house_width,
                roll,
                launch,
                fly,
                make,
                advance,
            ),
            old(self).fireworks@.len() <= MAX_FIREWORKS ==> final(self).fireworks@.len()
                <= MAX_FIREWORKS,
    {
        self.frame = self.frame.wrapping_add(1);
        if rocket_on {
            match self.rocket.take() {
                Some(r) => {
                    let moved = fly(r);
                    let (rest, _event) = rocket_step(
                        self.rocket_cooldown,
                        true,
                        moved.is_none(),
                        self.demo,
                    );
                    self.rocket_cooldown = rest;
                    self.rocket = moved;
                },
                None => {
                    let (rest, event) = rocket_step(self.rocket_cooldown, false, false, self.demo);
                    self.rocket_cooldown = rest;
                    if event == RocketEvent::Launch {
                        self.rocket_x = launch_column(width, house_width);
                        self.rocket = Some(launch());
                    }
                },
            }
        }
        let ghost before = self.fireworks@;
        let ghost salvo = firework_step_spec(self.firework_cooldown, before.len() as int, self.demo, roll).1;
        self.firework_cooldown = salvo_frame(
            &mut self.fireworks,
            self.firework_cooldown,
            fireworks_on,
            self.demo,
            roll,
            make,
            advance,
        );
        proof {
            if fireworks_on {
                let (made, moved) = choose|made: Seq<S>, moved: Seq<Option<S>>|
                    salvos_moved_on(make, advance, salvo, before, made, moved, self.fireworks@);
                assert(salvos_moved_on(make, advance, salvo, before, made, moved, self.fireworks@));
            }
        }
    }

    /// One frame of the holidays now: the rocket flies on Cosmonautics Day
    /// (`cosmonautics_active`) and the fireworks go up on the evening of
    /// Victory Day (`victory_active`), both always in demo mode; the frame
    /// is then `holiday_step`. So a rocket moves only on its day, salvos
    /// are in the sky only on the evening of theirs, never more than
    /// `MAX_FIREWORKS` of them, and the frame counter moves on by one.
    pub fn update<
        LR: FnOnce() -> R,
        FR: Fn(R) -> Option<R>,
        G: FnOnce() -> S,
        F: Fn(S) -> Option<S>,
    >(
        &mut self,
        is_day: bool,
        width: u16,
        house_width: u16,
        roll: u32,
        launch: LR,
        fly: FR,
        make: G,
        advance: F,
    )
        requires
            launch.requires(()),
            forall|r: R| fly.requires((r,)),
            make.requires(()),
            forall|s: S| advance.requires((s,)),
        ensures
            exists|rocket_on: bool, fireworks_on: bool|
                {
                    &&& old(self).demo ==> rocket_on && fireworks_on
                    &&& !old(self).demo ==> exists|now: LocalClock|
                        now.wf() && rocket_on == cosmonautics_day(now.month, now.day)
                    &&& !old(self).demo ==> exists|now: LocalClock|
                        now.wf() && fireworks_on == (victory_day(now.month, now.day) && !is_day)
                    &&& #[trigger] old(self).holiday_step(
                        *final(self),
                        rocket_on,
                        fireworks_on,
                        width,
                        house_width,
                        roll,
                        launch,
                        fly,
                        make,
                        advance,
                    )
                },
            final(self).frame == old(self).frame.wrapping_add(1),
            old(self).fireworks@.len() <= MAX_FIREWORKS ==> final(self).fireworks@.len()
                <= MAX_FIREWORKS,
            final(self).fireworks@.len() > 0 ==> old(self).demo || (!is_day && exists|
                now: LocalClock,
            | now.wf() && victory_day(now.month, now.day)),
            final(self).rocket != old(self).rocket || final(self).rocket_x != old(self).rocket_x
                || final(self).rocket_cooldown != old(self).rocket_cooldown ==> old(self).demo
                || exists|now: LocalClock| now.wf() && cosmonautics_day(now.month, now.day),
    {
        let rocket_on = cosmonautics_active(self.demo);
        let fireworks_on = victory_active(self.demo, is_day);
        self.update_with(
            rocket_on,
            fireworks_on,
            width,
            house_width,
            roll,
            launch,
            fly,
            make,
            advance,
        );
    }
}

/// Where the pine tree stands (its top left), as the scenery places it:
/// 18 columns right of the house, on the ground; none when its 9 columns
/// do not fit on the screen.
pub open spec fn pine_position_spec(width: u16, horizon_y: u16, house_width: u16) -> Option<(int, int)> {
    let pine_x = house_left(width, house_width) + house_width + 18;
    if pine_x + 9 > width {
        None
    } else {
        Some((pine_x, horizon_y - 5))
    }
}

/// Where the pine tree stands, if it is on the screen.
pub fn pine_position(width: u16, horizon_y: u16, house_width: u16) -> (r: Option<(i32, i32)>)
    ensures
        match r {
            Some((x, y)) => pine_position_spec(width, horizon_y, house_width) == Some(
                (x as int, y as int),
            ),
            None => pine_position_spec(width, horizon_y, house_width) is None,
        },
{
    let house_x = house_left_column(width, house_width) as u32;
    let pine_x: u32 = house_x + house_width as u32 + 18;
    if pine_x + 9 > width as u32 {
        None
    } else {
        Some((pine_x as i32, horizon_y as i32 - 5))
    }
}

/// Column of the rocket's launch pad: to the right behind the house, or
/// near the right edge when there is no room there.
pub open spec fn launch_column_spec(width: u16, house_width: u16) -> int {
    let right = house_left(width, house_width) + house_width;
    if right + 10 < width {
        right + 8
    } else if width >= 6 {
        width - 6
    } else {
        0
    }
}

/// Column of the rocket's launch pad.
pub fn launch_column(width: u16, house_width: u16) -> (r: i32)
    ensures
        r == launch_column_spec(width, house_width),
{
    let house_x = house_left_column(width, house_width) as u32;
    let right: u32 = house_x + house_width as u32;
    if right + 10 < width as u32 {
        (right + 8) as i32
    } else if width >= 6 {
        (width - 6) as i32
    } else {
        0
    }
}

/// Offset of a garland bulb from the pine's top left: the bulbs hang on
/// the tree's stars, row by row.
pub open spec fn bulb_offset(i: int) -> (int, int) {
    if i == 0 {
        (4, 0)
    } else if i == 1 {
        (3, 1)
    } else if i == 2 {
        (5, 1)
    } else if i == 3 {
        (2, 2)
    } else if i == 4 {
        (4, 2)
    } else if i == 5 {
        (6, 2)
    } else if i == 6 {
        (1, 3)
    } else if i == 7 {
        (3, 3)
    } else if i == 8 {
        (5, 3)
    } else {
        (7, 3)
    }
}

/// Bulbs on the pine.
pub const GARLAND_BULBS: usize = 10;

/// Colour of a bulb: red, yellow, cyan, magenta and green in turn (also
/// the colours of the fireworks).
pub open spec fn garland_color_spec(i: int) -> TermColor {
    if i % 5 == 0 {
        TermColor::Red
    } else if i % 5 == 1 {
        TermColor::Yellow
    } else if i % 5 == 2 {
        TermColor::Cyan
    } else if i % 5 == 3 {
        TermColor::Magenta
    } else {
        TermColor::Green
    }
}

/// Colour number `i` of the garland.
pub fn garland_color(i: usize) -> (r: TermColor)
    ensures
        r == garland_color_spec(i as int),
{
    let k = i % 5;
    if k == 0 {
        TermColor::Red
    } else if k == 1 {
        TermColor::Yellow
    } else if k == 2 {
        TermColor::Cyan
    } else if k == 3 {
        TermColor::Magenta
    } else {
        TermColor::Green
    }
}

/// The first `n` bulbs of the garland on a pine at (x, y): each bulb is
/// dark one frame-step in three, the dark ones moving along the garland.
pub open spec fn garland_cells_spec(x: int, y: int, frame: u32, n: int, width: int, height: int) -> Seq<
    Cell,
>
    decreases n,
{
    if n <= 0 {
        Seq::empty()
    } else {
        let i = n - 1;
        let rest = garland_cells_spec(x, y, frame, n - 1, width, height);
        if ((frame / 6) as int + i) % 3 == 0 {
            rest
        } else {
            rest + text_cells(
                x + bulb_offset(i).0,
                y + bulb_offset(i).1,
                seq!['o'],
                false,
                Paint::Solid(garland_color_spec(i)),
                width,
                height,
            )
        }
    }
}

/// The garland's cells on a pine whose top left is at (x, y).
pub fn garland_cells(x: i32, y: i32, frame: u32, width: u16, height: u16) -> (cells: Vec<Cell>)
    ensures
        cells@ == garland_cells_spec(
            x as int,
            y as int,
            frame,
            GARLAND_BULBS as int,
            width as int,
            height as int,
        ),
{
    let mut cells: Vec<Cell> = Vec::new();
    let mut i: usize = 0;
    while i < GARLAND_BULBS
        invariant
            i <= GARLAND_BULBS,
            cells@ == garland_cells_spec(x as int, y as int, frame, i as int, width as int, height as int),
        decreases GARLAND_BULBS - i,
    {
        if ((frame / 6) as u64 + i as u64) % 3 != 0 {
            let (dx, dy): (i64, i64) = if i == 0 {
                (4, 0)
            } else if i == 1 {
                (3, 1)
            } else if i == 2 {
                (5, 1)
            } else if i == 3 {
                (2, 2)
            } else if i == 4 {
                (4, 2)
            } else if i == 5 {
                (6, 2)
            } else if i == 6 {
                (1, 3)
            } else if i == 7 {
                (3, 3)
            } else if i == 8 {
                (5, 3)
            } else {
                (7, 3)
            };
            put_char(
                &mut cells,
                x as i64 + dx,
                y as i64 + dy,
                'o',
                Paint::Solid(garland_color(i)),
                width,
                height,
            );
        }
        i = i + 1;
    }
    cells
}

/// The rocket's rows: a nose cone, the body and the fins.
pub open spec fn rocket_rows(row: int) -> Seq<char> {
    if row == 0 {
        " /\\ "@
    } else if row == 3 {
        "/||\\"@
    } else {
        " || "@
    }
}

/// The rocket's flame flickers every other frame-pair.
pub open spec fn flame_spec(frame: u32) -> Seq<char> {
    if (frame / 2) % 2 == 0 {
        "vVv"@
    } else {
        "VvV"@
    }
}

/// The rocket with its top at row `y` over the launch column `x`: four
/// white rows (blanks let the sky show through), the flame under the
/// nozzle, and "Поехали!" to the left (the right may lack room).
pub open spec fn rocket_cells_spec(x: int, y: int, frame: u32, width: int, height: int) -> Seq<Cell> {
    let white = Paint::Solid(TermColor::White);
    text_cells(x, y, rocket_rows(0), true, white, width, height) + text_cells(
        x,
        y + 1,
        rocket_rows(1),
        true,
        white,
        width,
        height,
    ) + text_cells(x, y + 2, rocket_rows(2), true, white, width, height) + text_cells(
        x,
        y + 3,
        rocket_rows(3),
        true,
        white,
        width,
        height,
    ) + text_cells(x, y + 4, flame_spec(frame), false, Paint::Flame, width, height) + text_cells(
        x - 10,
        y + 1,
        "Поехали!"@,
        false,
        Paint::Solid(TermColor::DarkGrey),
        width,
        height,
    )
}

/// The rocket's cells.
pub fn rocket_cells(x: i16, y: i16, frame: u32, width: u16, height: u16) -> (cells: Vec<Cell>)
    ensures
        cells@ == rocket_cells_spec(x as int, y as int, frame, width as int, height as int),
{
    let mut cells: Vec<Cell> = Vec::new();
    let white = Paint::Solid(TermColor::White);
    let x = x as i64;
    let y = y as i64;
    put_text(&mut cells, x, y, " /\\ ", true, white, width, height);
    put_text(&mut cells, x, y + 1, " || ", true, white, width, height);
    put_text(&mut cells, x, y + 2, " || ", true, white, width, height);
    put_text(&mut cells, x, y + 3, "/||\\", true, white, width, height);
    let flame = if (frame / 2) % 2 == 0 {
        "vVv"
    } else {
        "VvV"
    };
    put_text(&mut cells, x, y + 4, flame, false, Paint::Flame, width, height);
    put_text(
        &mut cells,
        x - 10,
        y + 1,
        "Поехали!",
        false,
        Paint::Solid(TermColor::DarkGrey),
        width,
        height,
    );
    cells
}

} // verus!
