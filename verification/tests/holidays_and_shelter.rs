use weathr::animation::cat::{
    shelter_step, start_activity, ActivityStart, CatActivity, CatState, HuntPhase, Prey,
    HUNT_FRAMES, MOUSE_HUNT_FRAMES,
};
use weathr::animation::holidays::{
    launch_column, rocket_step, salvo_frame, HolidayState, RocketEvent, MAX_FIREWORKS,
};
use weathr::clock::{local_clock_at, LAST_CALENDAR_SECOND};

#[test]
fn local_clock_reads_within_the_calendar() {
    let epoch = local_clock_at(0).expect("1970 is on the calendar");
    assert!((1..=12).contains(&epoch.month));
    assert!((1..=31).contains(&epoch.day));
    assert!(epoch.hour <= 23 && epoch.minute <= 59);
    // 1 January 1970 00:00 UTC is 31 December or 1 January anywhere
    assert!(
        (epoch.month == 1 && epoch.day == 1) || (epoch.month == 12 && epoch.day == 31)
    );
    let last = local_clock_at(LAST_CALENDAR_SECOND as u64).expect("the year 9999 is read");
    assert!((last.month == 12 && last.day == 31) || (last.month == 1 && last.day == 1));
    assert_eq!(local_clock_at(LAST_CALENDAR_SECOND as u64 + 1), None);
    assert_eq!(local_clock_at(u64::MAX), None);
}

#[test]
fn bad_weather_sends_the_cat_to_shelter_and_the_firefly_away() {
    let far = shelter_step(true, false);
    assert_eq!((far.state, far.running, far.firefly_rest), (CatState::Walk, true, 0));
    let near = shelter_step(false, false);
    assert_eq!((near.state, near.running, near.firefly_rest), (CatState::Shelter, false, 0));
    let near_after_run = shelter_step(false, true);
    assert_eq!(near_after_run.state, CatState::Shelter);
    assert!(near_after_run.running);
}

#[test]
fn each_activity_starts_as_it_should() {
    assert_eq!(
        start_activity(CatActivity::Sleep, true, false, 100, 0, false),
        ActivityStart { state: CatState::Sleep, timer: Some(550), running: None, prey: None }
    );
    // Demo mode paces timers four times faster: (450 + 100) / 4
    assert_eq!(start_activity(CatActivity::Sleep, true, false, 100, 0, true).timer, Some(137));
    assert_eq!(
        start_activity(CatActivity::Sit, true, false, 250, 0, false),
        ActivityStart { state: CatState::Sit, timer: Some(100), running: None, prey: None }
    );
    assert_eq!(
        start_activity(CatActivity::MoonGaze, false, false, 10, 0, false),
        ActivityStart { state: CatState::MoonGaze, timer: Some(610), running: None, prey: None }
    );
    assert_eq!(
        start_activity(CatActivity::Hunt, true, true, 0, 0, false),
        ActivityStart {
            state: CatState::Hunt(HuntPhase::Stalk),
            timer: Some(HUNT_FRAMES),
            running: None,
            prey: Some(Prey::Leaf),
        }
    );
    assert_eq!(start_activity(CatActivity::Hunt, true, false, 0, 0, false).prey, Some(Prey::Butterfly));
    assert_eq!(start_activity(CatActivity::Hunt, false, true, 0, 0, false).prey, Some(Prey::Firefly));
    assert_eq!(
        start_activity(CatActivity::MouseHunt, true, false, 0, 0, false),
        ActivityStart {
            state: CatState::Hunt(HuntPhase::Stalk),
            timer: Some(MOUSE_HUNT_FRAMES),
            running: None,
            prey: Some(Prey::Mouse),
        }
    );
    assert_eq!(
        start_activity(CatActivity::Walk, true, false, 0, 2999, false),
        ActivityStart { state: CatState::Walk, timer: None, running: Some(true), prey: None }
    );
    assert_eq!(start_activity(CatActivity::Walk, true, false, 0, 3000, false).running, Some(false));
    assert_eq!(
        start_activity(CatActivity::WalkToDig, true, false, 0, 0, false),
        ActivityStart { state: CatState::Walk, timer: None, running: Some(false), prey: None }
    );
}

#[test]
fn rocket_counts_down_flies_and_rests() {
    assert_eq!(rocket_step(5, false, false, false), (4, RocketEvent::Wait));
    assert_eq!(rocket_step(1, false, false, false), (0, RocketEvent::Launch));
    assert_eq!(rocket_step(0, false, false, true), (0, RocketEvent::Launch));
    assert_eq!(rocket_step(7, true, false, false), (7, RocketEvent::Wait));
    assert_eq!(rocket_step(0, true, true, false), (54_000, RocketEvent::Land));
    assert_eq!(rocket_step(0, true, true, true), (900, RocketEvent::Land));
}

#[test]
fn the_sky_never_holds_more_than_four_salvos() {
    // Salvos that never burn out, with a timer always due
    let mut sky: Vec<u32> = Vec::new();
    let mut cooldown = 1;
    for frame in 0..20u32 {
        cooldown = salvo_frame(&mut sky, cooldown, true, true, 0, || frame, |s| Some(s));
        assert!(sky.len() <= MAX_FIREWORKS);
        cooldown = 1;
    }
    assert_eq!(sky, vec![0, 1, 2, 3]);
}

#[test]
fn burnt_out_salvos_leave_and_the_rest_keep_their_order() {
    let mut sky: Vec<u32> = vec![1, 5, 2, 6];
    // Salvos age by one; those past 5 burn out. The timer is not due.
    let next = salvo_frame(&mut sky, 10, true, false, 0, || 0, |s| if s + 1 > 5 { None } else { Some(s + 1) });
    assert_eq!(next, 9);
    assert_eq!(sky, vec![2, 3]);
    // A due timer sends one up before the sky moves on: (45 + 7 % 90)
    let next = salvo_frame(&mut sky, 1, true, false, 7, || 0, |s| Some(s + 1));
    assert_eq!(next, 52);
    assert_eq!(sky, vec![3, 4, 1]);
}

#[test]
fn fireworks_off_clear_the_sky_and_keep_the_timer() {
    let mut sky: Vec<u32> = vec![1, 2, 3];
    let next = salvo_frame(&mut sky, 17, false, false, 0, || 9, |s| Some(s));
    assert_eq!(next, 17);
    assert!(sky.is_empty());
}

#[test]
fn holidays_start_quiet_and_demo_shortens_the_waits() {
    let mut h: HolidayState<i32, u32> = HolidayState::new();
    assert!(!h.demo);
    assert_eq!((h.frame, h.rocket, h.rocket_x), (0, None, 0));
    assert_eq!((h.rocket_cooldown, h.firework_cooldown), (300, 60));
    assert!(h.fireworks.is_empty());
    h.set_demo(true);
    assert!(h.demo);
    assert_eq!((h.rocket_cooldown, h.firework_cooldown), (90, 20));
    h.set_demo(false);
    assert_eq!((h.rocket_cooldown, h.firework_cooldown), (90, 20));
}

#[test]
fn a_holiday_frame_moves_the_rocket_and_the_salvos() {
    let mut h: HolidayState<i32, u32> = HolidayState::new();
    h.rocket_cooldown = 1;
    h.firework_cooldown = 1;
    h.update_with(true, true, 120, 30, 0, || 20, |y| Some(y - 1), || 100, |s| Some(s + 1));
    assert_eq!(h.frame, 1);
    assert_eq!(h.rocket, Some(20));
    assert_eq!(h.rocket_x, launch_column(120, 30));
    assert_eq!(h.rocket_cooldown, 0);
    assert_eq!(h.firework_cooldown, 45);
    assert_eq!(h.fireworks, vec![101]);
    // The rocket flies on and leaves the screen
    h.update_with(true, true, 120, 30, 0, || 20, |_| None, || 100, |s| Some(s + 1));
    assert_eq!(h.rocket, None);
    assert_eq!(h.rocket_cooldown, 54_000);
    assert_eq!(h.fireworks, vec![102]);
    // Off: the rocket stays, the sky is cleared, the frame still counts
    h.rocket = Some(5);
    h.update_with(false, false, 120, 30, 0, || 20, |y| Some(y - 1), || 100, |s| Some(s + 1));
    assert_eq!(h.rocket, Some(5));
    assert!(h.fireworks.is_empty());
    assert_eq!(h.frame, 3);
}

#[test]
fn in_demo_mode_every_holiday_runs_at_once() {
    let mut h: HolidayState<i32, u32> = HolidayState::new();
    h.set_demo(true);
    h.rocket_cooldown = 1;
    h.firework_cooldown = 1;
    h.frame = u32::MAX;
    h.update(true, 120, 30, 3, || 20, |y| Some(y - 1), || 7, |s| Some(s));
    assert_eq!(h.frame, 0);
    assert_eq!(h.rocket, Some(20));
    assert_eq!(h.fireworks, vec![7]);
    // Demo timer: 30 + 3 % 30
    assert_eq!(h.firework_cooldown, 33);
}
