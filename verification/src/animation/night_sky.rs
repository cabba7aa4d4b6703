//! Night sky guests: shooting stars, comets, a UFO, Ded Moroz's sleigh in
//! New Year week, Baba Yaga, the aurora in winter and Starlink trains. All
//! of them come only on a clear night. This module holds the calendar seasons, the size of a drawn train and
//! the guests' timers.

use vstd::prelude::*;
use crate::animation::holidays;
use crate::clock;
use crate::clock::LocalClock;

verus! {

/// Winter months, the aurora's season: December to February.
pub open spec fn winter_month(month: u32) -> bool {
    month == 12 || month == 1 || month == 2
}

/// New Year week always falls in winter.
pub proof fn lemma_new_year_week_is_winter(month: u32, day: u32)
    ensures
        holidays::new_year_week(month, day) ==> winter_month(month),
{
}

/// Whether it is aurora season at the given local date.
pub fn winter_season_at(demo: bool, now: &LocalClock) -> (r: bool)
    ensures
        r == (demo || winter_month(now.month)),
{
    if demo {
        return true;
    }
    now.month == 12 || now.month == 1 || now.month == 2
}

/// Whether it is aurora season now; not when the local date cannot be
/// read.
pub fn winter_season(demo: bool) -> (r: bool)
    ensures
        demo ==> r,
        !demo ==> exists|now: LocalClock| now.wf() && r == winter_month(now.month),
{
    if demo {
        return true;
    }
    match clock::read_local_clock() {
        Some(now) => winter_season_at(demo, &now),
        None => {
            proof {
                let w = LocalClock { month: 3, day: 1, hour: 0, minute: 0 };
                assert(w.wf() && !winter_month(w.month));
            }
            false
        },
    }
}

/// Whether the sleigh may fly now: New Year week, as for the garland.
pub fn new_year_season(demo: bool) -> (r: bool)
    ensures
        demo ==> r,
        !demo ==> exists|now: LocalClock|
            now.wf() && r == holidays::new_year_week(now.month, now.day),
{
    holidays::garland_active(demo)
}

/// Fewest lights drawn for a train.
pub const MIN_TRAIN_LIGHTS: usize = 4;

/// Most lights drawn for a train.
pub const MAX_TRAIN_LIGHTS: usize = 10;

/// Lights drawn for a reported train: its size clamped to 4..=10.
pub fn starlink_lights(count: usize) -> (r: usize)
    ensures
        r == (if count < MIN_TRAIN_LIGHTS {
            MIN_TRAIN_LIGHTS
        } else if count > MAX_TRAIN_LIGHTS {
            MAX_TRAIN_LIGHTS
        } else {
            count
        }),
        MIN_TRAIN_LIGHTS <= r <= MAX_TRAIN_LIGHTS,
{
    if count < MIN_TRAIN_LIGHTS {
        MIN_TRAIN_LIGHTS
    } else if count > MAX_TRAIN_LIGHTS {
        MAX_TRAIN_LIGHTS
    } else {
        count
    }
}

/// The guests of the night sky that come and go on their own timers.
#[derive(Debug, Clone, Copy, PartialEq, Eq, Structural)]
pub enum SkyGuest {
    Meteor,
    Bolide,
    Aurora,
    Comet,
    Ufo,
    Sleigh,
    Yaga,
}

/// Frames until a guest's first visit after start.
pub open spec fn initial_cooldown_spec(guest: SkyGuest) -> u32 {
    match guest {
        SkyGuest::Meteor => 300,
        SkyGuest::Bolide => 40_000,
        SkyGuest::Aurora => 20_000,
        SkyGuest::Comet => 4_000,
        SkyGuest::Ufo => 9_000,
        SkyGuest::Sleigh => 2_000,
        SkyGuest::Yaga => 14_000,
    }
}

/// Frames until a guest's first visit once demo mode is switched on.
pub open spec fn demo_cooldown_spec(guest: SkyGuest) -> u32 {
    match guest {
        SkyGuest::Meteor => 60,
        SkyGuest::Bolide => 1_050,
        SkyGuest::Aurora => 400,
        SkyGuest::Comet => 250,
        SkyGuest::Ufo => 500,
        SkyGuest::Sleigh => 150,
        SkyGuest::Yaga => 800,
    }
}

/// Frames until a guest's first visit after start.
pub fn initial_cooldown(guest: SkyGuest) -> (r: u32)
    ensures
        r == initial_cooldown_spec(guest),
{
    match guest {
        SkyGuest::Meteor => 300,
        SkyGuest::Bolide => 40_000,
        SkyGuest::Aurora => 20_000,
        SkyGuest::Comet => 4_000,
        SkyGuest::Ufo => 9_000,
        SkyGuest::Sleigh => 2_000,
        SkyGuest::Yaga => 14_000,
    }
}

/// Frames until a guest's first visit once demo mode is switched on.
pub fn demo_cooldown(guest: SkyGuest) -> (r: u32)
    ensures
        r == demo_cooldown_spec(guest),
{
    match guest {
        SkyGuest::Meteor => 60,
        SkyGuest::Bolide => 1_050,
        SkyGuest::Aurora => 400,
        SkyGuest::Comet => 250,
        SkyGuest::Ufo => 500,
        SkyGuest::Sleigh => 150,
        SkyGuest::Yaga => 800,
    }
}

/// Frames until a guest returns after a visit, given a random number:
/// rare guests return after hours, demo mode brings them back in a minute
/// or so.
pub open spec fn respawn_cooldown_spec(guest: SkyGuest, demo: bool, roll: u32) -> u32 {
    match guest {
        SkyGuest::Meteor => if demo {
            (90 + roll % 120) as u32
        } else {
            (900 + roll % 1800) as u32
        },
        SkyGuest::Bolide => if demo {
            1_300
        } else {
            (108_000 + roll % 108_000) as u32
        },
        SkyGuest::Aurora => if demo {
            1_200
        } else {
            (54_000 + roll % 54_000) as u32
        },
        SkyGuest::Comet => if demo {
            600
        } else {
            (13_500 + roll % 9_000) as u32
        },
        SkyGuest::Ufo => if demo {
            900
        } else {
            (18_000 + roll % 18_000) as u32
        },
        SkyGuest::Sleigh => if demo {
            1_100
        } else {
            (9_000 + roll % 9_000) as u32
        },
        SkyGuest::Yaga => if demo {
            1_400
        } else {
            (27_000 + roll % 27_000) as u32
        },
    }
}

/// Frames until a guest returns after a visit.
pub fn respawn_cooldown(guest: SkyGuest, demo: bool, roll: u32) -> (r: u32)
    ensures
        r == respawn_cooldown_spec(guest, demo, roll),
{
    match guest {
        SkyGuest::Meteor => if demo {
            90 + roll % 120
        } else {
            900 + roll % 1800
        },
        SkyGuest::Bolide => if demo {
            1_300
        } else {
            108_000 + roll % 108_000
        },
        SkyGuest::Aurora => if demo {
            1_200
        } else {
            54_000 + roll % 54_000
        },
        SkyGuest::Comet => if demo {
            600
        } else {
            13_500 + roll % 9_000
        },
        SkyGuest::Ufo => if demo {
            900
        } else {
            18_000 + roll % 18_000
        },
        SkyGuest::Sleigh => if demo {
            1_100
        } else {
            9_000 + roll % 9_000
        },
        SkyGuest::Yaga => if demo {
            1_400
        } else {
            27_000 + roll % 27_000
        },
    }
}

/// Frames an aurora lasts, given a random number: two to four minutes.
pub fn aurora_duration(roll: u32) -> (r: u32)
    ensures
        r == 1_800 + roll % 1_800,
        1_800 <= r < 3_600,
{
    1_800 + roll % 1_800
}

/// A bolide is a true rarity: outside demo mode it returns after two to
/// four hours (at 15 frames a second), every other guest comes back sooner
/// and every guest comes back at all.
pub proof fn lemma_bolide_is_rarest(roll: u32, guest: SkyGuest)
    ensures
        108_000 <= respawn_cooldown_spec(SkyGuest::Bolide, false, roll) < 216_000,
        guest != SkyGuest::Bolide ==> respawn_cooldown_spec(guest, false, roll) < 108_000,
        respawn_cooldown_spec(guest, false, roll) > 0,
        respawn_cooldown_spec(guest, true, roll) > 0,
{
}

/// Counts a guest's timer down by one frame; the guest appears when it
/// reaches zero.
pub fn tick_cooldown(cooldown: u32) -> (r: (u32, bool))
    ensures
        r.0 == (if cooldown == 0 { 0 } else { (cooldown - 1) as u32 }),
        r.1 == (r.0 == 0),
{
    let c = cooldown.saturating_sub(1);
    (c, c == 0)
}

/// The timers of the night sky's guests. Where a flyer is on the screen,
/// and how it moves, is kept by the front end, which tells each frame
/// which flyers are on the screen.
#[derive(Debug, Clone, Copy, PartialEq, Eq, Structural)]
pub struct SkySchedule {
    pub demo: bool,
    pub meteor_cooldown: u32,
    pub bolide_cooldown: u32,
    pub aurora_cooldown: u32,
    /// Frames left of the aurora now shining (0 = none).
    pub aurora_frames: u32,
    pub comet_cooldown: u32,
    pub ufo_cooldown: u32,
    pub sleigh_cooldown: u32,
    pub yaga_cooldown: u32,
}

/// What the sky is like this frame, and which flyers are on the screen
/// at its start.
#[derive(Debug, Clone, Copy, PartialEq, Eq, Structural)]
pub struct SkyFrame {
    pub night: bool,
    /// No dense clouds hide the sky: a clear night.
    pub sky_visible: bool,
    /// Aurora season (see `winter_season`).
    pub winter: bool,
    /// Sleigh season (see `new_year_season`).
    pub new_year: bool,
    pub bolide_flying: bool,
    pub comet_flying: bool,
    pub ufo_flying: bool,
    pub sleigh_flying: bool,
    pub yaga_flying: bool,
}

/// Random numbers for the frame, one for each timer that may be set.
#[derive(Debug, Clone, Copy, PartialEq, Eq, Structural)]
pub struct SkyRolls {
    pub meteor: u32,
    pub bolide: u32,
    pub aurora_length: u32,
    pub aurora: u32,
    pub comet: u32,
    pub ufo: u32,
    pub sleigh: u32,
    pub yaga: u32,
}

/// The guests that appear this frame, and whether a shining aurora moves
/// its waves on.
#[derive(Debug, Clone, Copy, PartialEq, Eq, Structural)]
pub struct SkySpawns {
    pub meteor: bool,
    pub bolide: bool,
    pub aurora: bool,
    pub aurora_waves: bool,
    pub comet: bool,
    pub ufo: bool,
    pub sleigh: bool,
    pub yaga: bool,
}

/// One guest's timer for a frame: while the guest may come, its timer
/// counts down, and when it runs out the guest appears and the timer is
/// set for its return. Gives the new timer and whether the guest appears.
pub open spec fn guest_step_spec(
    cooldown: u32,
    eligible: bool,
    guest: SkyGuest,
    demo: bool,
    roll: u32,
) -> (u32, bool) {
    if !eligible {
        (cooldown, false)
    } else if cooldown <= 1 {
        (respawn_cooldown_spec(guest, demo, roll), true)
    } else {
        ((cooldown - 1) as u32, false)
    }
}

/// The sky's timers after one frame, and who appears.
pub open spec fn sky_step_spec(s: SkySchedule, f: SkyFrame, r: SkyRolls) -> (SkySchedule, SkySpawns) {
    let clear = f.night && f.sky_visible;
    let meteor = guest_step_spec(s.meteor_cooldown, clear, SkyGuest::Meteor, s.demo, r.meteor);
    let bolide = guest_step_spec(
        s.bolide_cooldown,
        !f.bolide_flying && clear,
        SkyGuest::Bolide,
        s.demo,
        r.bolide,
    );
    let waves = s.aurora_frames > 0;
    let aurora = guest_step_spec(
        s.aurora_cooldown,
        !waves && clear && f.winter,
        SkyGuest::Aurora,
        s.demo,
        r.aurora,
    );
    let aurora_frames = if waves {
        (s.aurora_frames - 1) as u32
    } else if aurora.1 {
        (1_800 + r.aurora_length % 1_800) as u32
    } else {
        0u32
    };
    let comet = guest_step_spec(
        s.comet_cooldown,
        !f.comet_flying && clear,
        SkyGuest::Comet,
        s.demo,
        r.comet,
    );
    let ufo = guest_step_spec(s.ufo_cooldown, !f.ufo_flying && clear, SkyGuest::Ufo, s.demo, r.ufo);
    let sleigh = guest_step_spec(
        s.sleigh_cooldown,
        !f.sleigh_flying && clear && f.new_year,
        SkyGuest::Sleigh,
        s.demo,
        r.sleigh,
    );
    let yaga = guest_step_spec(
        s.yaga_cooldown,
        !f.yaga_flying && clear,
        SkyGuest::Yaga,
        s.demo,
        r.yaga,
    );
    (
        SkySchedule {
            demo: s.demo,
            meteor_cooldown: meteor.0,
            bolide_cooldown: bolide.0,
            aurora_cooldown: aurora.0,
            aurora_frames,
            comet_cooldown: comet.0,
            ufo_cooldown: ufo.0,
            sleigh_cooldown: sleigh.0,
            yaga_cooldown: yaga.0,
        },
        SkySpawns {
            meteor: meteor.1,
            bolide: bolide.1,
            aurora: aurora.1,
            aurora_waves: waves,
            comet: comet.1,
            ufo: ufo.1,
            sleigh: sleigh.1,
            yaga: yaga.1,
        },
    )
}

/// One guest's timer for a frame.
fn guest_step(cooldown: u32, eligible: bool, guest: SkyGuest, demo: bool, roll: u32) -> (r: (
    u32,
    bool,
))
    ensures
        r == guest_step_spec(cooldown, eligible, guest, demo, roll),
{
    if !eligible {
        return (cooldown, false);
    }
    let (left, due) = tick_cooldown(cooldown);
    if due {
        (respawn_cooldown(guest, demo, roll), true)
    } else {
        (left, false)
    }
}

impl SkySchedule {
    /// The timers at start: the first shooting star after 20 seconds, the
    /// bolide after 45 minutes.
    pub fn new() -> (s: Self)
        ensures
            !s.demo,
            s.aurora_frames == 0,
            s.meteor_cooldown == initial_cooldown_spec(SkyGuest::Meteor),
            s.bolide_cooldown == initial_cooldown_spec(SkyGuest::Bolide),
            s.aurora_cooldown == initial_cooldown_spec(SkyGuest::Aurora),
            s.comet_cooldown == initial_cooldown_spec(SkyGuest::Comet),
            s.ufo_cooldown == initial_cooldown_spec(SkyGuest::Ufo),
            s.sleigh_cooldown == initial_cooldown_spec(SkyGuest::Sleigh),
            s.yaga_cooldown == initial_cooldown_spec(SkyGuest::Yaga),
    {
        SkySchedule {
            demo: false,
            meteor_cooldown: initial_cooldown(SkyGuest::Meteor),
            bolide_cooldown: initial_cooldown(SkyGuest::Bolide),
            aurora_cooldown: initial_cooldown(SkyGuest::Aurora),
            aurora_frames: 0,
            comet_cooldown: initial_cooldown(SkyGuest::Comet),
            ufo_cooldown: initial_cooldown(SkyGuest::Ufo),
            sleigh_cooldown: initial_cooldown(SkyGuest::Sleigh),
            yaga_cooldown: initial_cooldown(SkyGuest::Yaga),
        }
    }

    /// Demo mode on: every guest comes within a minute; off: the timers
    /// run on as they are.
    pub fn on_demo_mode(&mut self, demo: bool)
        ensures
            final(self).demo == demo,
            final(self).aurora_frames == old(self).aurora_frames,
            demo ==> {
                &&& final(self).meteor_cooldown == demo_cooldown_spec(SkyGuest::Meteor)
                &&& final(self).bolide_cooldown == demo_cooldown_spec(SkyGuest::Bolide)
                &&& final(self).aurora_cooldown == demo_cooldown_spec(SkyGuest::Aurora)
                &&& final(self).comet_cooldown == demo_cooldown_spec(SkyGuest::Comet)
                &&& final(self).ufo_cooldown == demo_cooldown_spec(SkyGuest::Ufo)
                &&& final(self).sleigh_cooldown == demo_cooldown_spec(SkyGuest::Sleigh)
                &&& final(self).yaga_cooldown == demo_cooldown_spec(SkyGuest::Yaga)
            },
            !demo ==> *final(self) == (SkySchedule { demo: false, ..*old(self) }),
    {
        self.demo = demo;
        if demo {
            self.meteor_cooldown = demo_cooldown(SkyGuest::Meteor);
            self.comet_cooldown = demo_cooldown(SkyGuest::Comet);
            self.ufo_cooldown = demo_cooldown(SkyGuest::Ufo);
            self.sleigh_cooldown = demo_cooldown(SkyGuest::Sleigh);
            self.yaga_cooldown = demo_cooldown(SkyGuest::Yaga);
            self.bolide_cooldown = demo_cooldown(SkyGuest::Bolide);
            self.aurora_cooldown = demo_cooldown(SkyGuest::Aurora);
        }
    }

    /// One frame of the sky's timers: every guest comes only on a clear
    /// night (the aurora in winter only, the sleigh in New Year week only);
    /// a guest already on the screen keeps its timer still.
    pub fn step(&mut self, f: SkyFrame, r: SkyRolls) -> (spawns: SkySpawns)
        ensures
            (*final(self), spawns) == sky_step_spec(*old(self), f, r),
    {
        let clear = f.night && f.sky_visible;
        let demo = self.demo;
        let (meteor_cd, meteor) = guest_step(
            self.meteor_cooldown,
            clear,
            SkyGuest::Meteor,
            demo,
            r.meteor,
        );
        let (bolide_cd, bolide) = guest_step(
            self.bolide_cooldown,
            !f.bolide_flying && clear,
            SkyGuest::Bolide,
            demo,
            r.bolide,
        );
        let waves = self.aurora_frames > 0;
        let (aurora_cd, aurora) = guest_step(
            self.aurora_cooldown,
            !waves && clear && f.winter,
            SkyGuest::Aurora,
            demo,
            r.aurora,
        );
        let aurora_frames = if waves {
            self.aurora_frames - 1
        } else if aurora {
            aurora_duration(r.aurora_length)
        } else {
            0
        };
        let (comet_cd, comet) = guest_step(
            self.comet_cooldown,
            !f.comet_flying && clear,
            SkyGuest::Comet,
            demo,
            r.comet,
        );
        let (ufo_cd, ufo) = guest_step(
            self.ufo_cooldown,
            !f.ufo_flying && clear,
            SkyGuest::Ufo,
            demo,
            r.ufo,
        );
        let (sleigh_cd, sleigh) = guest_step(
            self.sleigh_cooldown,
            !f.sleigh_flying && clear && f.new_year,
            SkyGuest::Sleigh,
            demo,
            r.sleigh,
        );
        let (yaga_cd, yaga) = guest_step(
            self.yaga_cooldown,
            !f.yaga_flying && clear,
            SkyGuest::Yaga,
            demo,
            r.yaga,
        );
        self.meteor_cooldown = meteor_cd;
        self.bolide_cooldown = bolide_cd;
        self.aurora_cooldown = aurora_cd;
        self.aurora_frames = aurora_frames;
        self.comet_cooldown = comet_cd;
        self.ufo_cooldown = ufo_cd;
        self.sleigh_cooldown = sleigh_cd;
        self.yaga_cooldown = yaga_cd;
        SkySpawns { meteor, bolide, aurora, aurora_waves: waves, comet, ufo, sleigh, yaga }
    }
}

/// Guests come only on clear nights: by day or under dense clouds no guest
/// appears and no timer runs; a flyer on the screen is never doubled; the
/// sleigh keeps to New Year week and the aurora to winter; and a guest that
/// appears is not due again for a while.
pub proof fn lemma_sky_step_guards(s: SkySchedule, f: SkyFrame, r: SkyRolls)
    ensures
        ({
            let (t, sp) = sky_step_spec(s, f, r);
            &&& !f.night ==> !sp.meteor && !sp.bolide && !sp.aurora && !sp.comet && !sp.ufo
                && !sp.sleigh && !sp.yaga
            &&& !f.night ==> t.meteor_cooldown == s.meteor_cooldown && t.bolide_cooldown
                == s.bolide_cooldown && t.comet_cooldown == s.comet_cooldown && t.ufo_cooldown
                == s.ufo_cooldown && t.sleigh_cooldown == s.sleigh_cooldown && t.yaga_cooldown
                == s.yaga_cooldown && t.aurora_cooldown == s.aurora_cooldown
            &&& f.bolide_flying ==> !sp.bolide
            &&& f.comet_flying ==> !sp.comet
            &&& f.ufo_flying ==> !sp.ufo
            &&& f.sleigh_flying ==> !sp.sleigh
            &&& f.yaga_flying ==> !sp.yaga
            &&& sp.sleigh ==> f.new_year
            &&& sp.aurora ==> f.winter && s.aurora_frames == 0 && t.aurora_frames >= 1_800
            &&& !f.sky_visible ==> !sp.meteor && !sp.bolide && !sp.aurora && !sp.comet && !sp.ufo
                && !sp.sleigh && !sp.yaga
            &&& !f.sky_visible ==> t.meteor_cooldown == s.meteor_cooldown && t.bolide_cooldown
                == s.bolide_cooldown && t.comet_cooldown == s.comet_cooldown && t.ufo_cooldown
                == s.ufo_cooldown && t.sleigh_cooldown == s.sleigh_cooldown && t.yaga_cooldown
                == s.yaga_cooldown && t.aurora_cooldown == s.aurora_cooldown
            &&& sp.meteor ==> t.meteor_cooldown >= 90
            &&& sp.bolide ==> t.bolide_cooldown >= 1_300
            &&& sp.comet ==> t.comet_cooldown >= 600
            &&& sp.ufo ==> t.ufo_cooldown >= 900
            &&& sp.sleigh ==> t.sleigh_cooldown >= 1_100
            &&& sp.yaga ==> t.yaga_cooldown >= 1_400
        }),
{
}

} // verus!
