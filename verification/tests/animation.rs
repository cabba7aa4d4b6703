use weathr::animation::airplanes::{
    airplane_char_color, art_eastbound, art_westbound, art_width, iss_char_color, mirror_art,
    mirror_char,
};
use weathr::animation::cat::{
    cat_char_color, cat_tick, current_pose, dig_mark, pace, pose_row, pose_rows, resolve_pounce,
    CatNeed, CatPose, CatState, HuntPhase,
};
use weathr::animation::holidays::{
    cosmonautics_active_at, garland_active, garland_active_at, victory_active_at,
};
use weathr::animation::house_life::{find_windows, mood_at, HouseLifeSystem, HouseMood, Window};
use weathr::animation::night_sky::{new_year_season, starlink_lights, winter_season_at};
use weathr::animation::rainbow::RainbowSystem;
use weathr::animation::snow::{cover_rank, ground_snow_char, snowman_ball, snowman_char_color};
use weathr::clock::LocalClock;
use weathr::color::TermColor;

const PLANE: &str = "  __\n\\(__[o]>\n  `";

#[test]
fn mirror_pads_reverses_and_swaps() {
    let m = mirror_art(PLANE);
    assert_eq!(m, vec!["    __  ".to_string(), "<[o]__)/".to_string(), "     '  ".to_string()]);
    assert_eq!(mirror_char('('), ')');
    assert_eq!(mirror_char('`'), '\'');
    assert_eq!(mirror_char('x'), 'x');
}

#[test]
fn mirror_twice_restores_padded_art() {
    let once = mirror_art(PLANE).join("\n");
    let twice = mirror_art(&once);
    assert_eq!(twice, vec!["  __    ".to_string(), "\\(__[o]>".to_string(), "  `     ".to_string()]);
    assert_eq!(art_westbound(PLANE), mirror_art(PLANE));
}

#[test]
fn eastbound_art_and_width() {
    let east = art_eastbound(PLANE);
    assert_eq!(east, vec!["  __".to_string(), "\\(__[o]>".to_string(), "  `".to_string()]);
    assert_eq!(art_width(&east), 8);
    assert_eq!(art_width(&Vec::new()), 0);
    assert_eq!(mirror_art(""), Vec::<String>::new());
}

#[test]
fn sprite_colors() {
    assert_eq!(airplane_char_color('"'), TermColor::Cyan);
    assert_eq!(airplane_char_color('/'), TermColor::Blue);
    assert_eq!(airplane_char_color('A'), TermColor::White);
    assert_eq!(iss_char_color('='), TermColor::DarkYellow);
    assert_eq!(iss_char_color('o'), TermColor::Cyan);
}

const HOUSE: &str = "   /\\\n [] [__]\n|[x] [ |";

#[test]
fn windows_found_in_house_art() {
    let w = find_windows(HOUSE);
    assert_eq!(
        w,
        vec![
            Window { dx: 1, dy: 1, len: 2 },
            Window { dx: 4, dy: 1, len: 4 },
            Window { dx: 1, dy: 2, len: 3 },
        ]
    );
    let sys = HouseLifeSystem::new(80, 24, HOUSE);
    assert_eq!(sys.windows, w);
    assert_eq!(sys.terminal_width, 80);
    assert!(find_windows("").is_empty());
}

#[test]
fn house_moods() {
    assert_eq!(mood_at(true, true, 3), HouseMood::WindowsOpen);
    assert_eq!(mood_at(true, false, 3), HouseMood::Plain);
    assert_eq!(mood_at(false, true, 22), HouseMood::EveningLight);
    assert_eq!(mood_at(false, false, 23), HouseMood::NightLight);
    assert_eq!(mood_at(false, false, 5), HouseMood::NightLight);
    assert_eq!(mood_at(false, false, 6), HouseMood::EveningLight);
    assert_eq!(HouseLifeSystem::mood(true, false), HouseMood::Plain);
}

#[test]
fn rainbow_after_rain_in_daylight() {
    let mut r = RainbowSystem::new(80, 24);
    r.update(80, 24, true, false, true);
    assert!(!r.is_visible());
    r.update(80, 24, false, false, true);
    assert!(r.is_visible());
    assert_eq!(r.show_frames, 699);
    assert!(!r.is_fading());
    r.update(80, 24, false, true, true);
    assert_eq!(r.show_frames, 0);
    r.update(80, 24, false, false, false);
    assert_eq!(r.show_frames, 0);
}

#[test]
fn rainbow_demo_cycle_and_fade() {
    let mut r = RainbowSystem::new(80, 24);
    r.on_demo_mode(true);
    for _ in 0..600 {
        r.update(100, 30, false, false, true);
    }
    assert_eq!(r.frame, 600);
    assert_eq!(r.show_frames, 699);
    assert_eq!(r.terminal_width, 100);
    for _ in 0..600 {
        r.update(100, 30, false, false, true);
    }
    assert_eq!(r.show_frames, 99);
    assert!(r.is_fading());
    r.on_resize(10, 5);
    assert_eq!((r.terminal_width, r.terminal_height), (10, 5));
}

#[test]
fn cat_timed_states() {
    let t = cat_tick(CatState::Sleep, 0, 0, false);
    assert_eq!((t.state, t.timer, t.need), (CatState::Stretch, 35, CatNeed::Nothing));
    let t = cat_tick(CatState::Sleep, 10, 0, false);
    assert_eq!((t.state, t.timer), (CatState::Sleep, 9));
    let t = cat_tick(CatState::Shelter, 500, 0, false);
    assert_eq!((t.state, t.timer), (CatState::Sit, 44));
    let t = cat_tick(CatState::Sit, 0, 0, false);
    assert_eq!(t.need, CatNeed::PickNextState);
    let t = cat_tick(CatState::Walk, 7, 10, false);
    assert_eq!((t.state, t.need), (CatState::SkyWatch, CatNeed::Nothing));
    let t = cat_tick(CatState::SkyWatch, 7, 0, false);
    assert_eq!((t.state, t.timer), (CatState::Sit, 45));
    let t = cat_tick(CatState::MoonGaze, 7, 0, false);
    assert_eq!((t.state, t.timer), (CatState::Sit, 60));
    let t = cat_tick(CatState::MoonGaze, 7, 0, true);
    assert_eq!((t.state, t.timer), (CatState::MoonGaze, 6));
    let t = cat_tick(CatState::Dig(1), 0, 0, false);
    assert_eq!((t.state, t.timer), (CatState::Dig(2), 60));
    let t = cat_tick(CatState::Dig(2), 0, 0, false);
    assert_eq!((t.state, t.timer), (CatState::Sit, 120));
    let t = cat_tick(CatState::Hunt(HuntPhase::Stalk), 5, 9, false);
    assert_eq!((t.state, t.need), (CatState::Hunt(HuntPhase::Stalk), CatNeed::Move));
    assert_eq!(resolve_pounce(true), (CatState::Groom, 45));
    assert_eq!(resolve_pounce(false), (CatState::Sit, 30));
    assert_eq!(pace(true), 4);
    assert_eq!(pace(false), 1);
}

#[test]
fn cat_poses_and_drawing() {
    assert_eq!(current_pose(CatState::Sit, 3), CatPose::SitBlink);
    assert_eq!(current_pose(CatState::Sit, 10), CatPose::Sit);
    assert_eq!(current_pose(CatState::Walk, 4), CatPose::WalkB);
    assert_eq!(current_pose(CatState::MoonGaze, 4), CatPose::SkyWatch);
    assert_eq!(current_pose(CatState::Hunt(HuntPhase::Pounce), 4), CatPose::Pounce);
    let (ears, face) = pose_rows(CatPose::GroomA);
    assert_eq!(ears, "  /\\_/\\");
    assert_eq!(face, "~(=-.-=)c");
    assert_eq!(pose_row(face, 9, true), face);
    assert_eq!(pose_row(face, 9, false), "ɔ(=-.-=)~");
    assert_eq!(pose_row(ears, 9, false), "  /\\_/\\  ");
    assert_eq!(cat_char_color('o', true, true), TermColor::Rgb { r: 255, g: 70, b: 70 });
    assert_eq!(cat_char_color('^', false, true), TermColor::Green);
    assert_eq!(cat_char_color('*', false, false), TermColor::Yellow);
    assert_eq!(cat_char_color('Z', false, false), TermColor::Cyan);
    assert_eq!(cat_char_color('~', false, false), TermColor::DarkYellow);
    assert_eq!(dig_mark(0), '.');
    assert_eq!(dig_mark(1), 'o');
    assert_eq!(dig_mark(7), 'O');
}

#[test]
fn holiday_dates() {
    let at = |month, day| LocalClock { month, day, hour: 20, minute: 15 };
    assert!(garland_active_at(false, &at(12, 31)));
    assert!(garland_active_at(false, &at(1, 7)));
    assert!(!garland_active_at(false, &at(1, 8)));
    assert!(!garland_active_at(false, &at(12, 30)));
    assert!(garland_active_at(true, &at(6, 1)));
    assert!(cosmonautics_active_at(false, &at(4, 12)));
    assert!(!cosmonautics_active_at(false, &at(4, 13)));
    assert!(victory_active_at(false, &at(5, 9), false));
    assert!(!victory_active_at(false, &at(5, 9), true));
    assert!(winter_season_at(false, &at(2, 28)));
    assert!(!winter_season_at(false, &at(3, 1)));
    assert!(garland_active(true));
    assert!(new_year_season(true));
    assert_eq!(starlink_lights(1), 4);
    assert_eq!(starlink_lights(7), 7);
    assert_eq!(starlink_lights(60), 10);
}

#[test]
fn snow_masks_and_snowman() {
    assert_eq!(cover_rank(0, 1), 71);
    assert_eq!(cover_rank(1, 1), 11);
    assert_eq!(cover_rank(-5, 0), (-185i32).rem_euclid(97) as i16);
    assert_eq!(ground_snow_char(1), '*');
    assert_eq!(ground_snow_char(0), '.');
    assert_eq!(snowman_ball(0), "(  :  )");
    assert_eq!(snowman_ball(2), "  (.)>");
    assert_eq!(snowman_char_color('>'), TermColor::Rgb { r: 255, g: 150, b: 60 });
    assert_eq!(snowman_char_color('-'), TermColor::Rgb { r: 150, g: 100, b: 60 });
    assert_eq!(snowman_char_color('('), TermColor::White);
}
