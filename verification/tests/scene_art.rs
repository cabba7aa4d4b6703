use weathr::animation::airplanes::{plane_step, real_aircraft_may_appear, sprite_cells};
use weathr::animation::cat::{
    bad_weather, cat_cells, choose_activity, firefly_step, hunt_prey, hunt_step, walk_step, Prey, firefly_lands, firefly_rest_frames, ground_row, moon_gaze_timer,
    sit_timer, sleep_timer, walk_is_run, CatActivity, CatState, HuntPhase, PreyView,
};
use weathr::animation::holidays::{
    firework_step, garland_cells, garland_color, launch_column, pine_position, rocket_cells,
};
use weathr::animation::house_life::{HouseLifeSystem, HouseMood};
use weathr::animation::night_sky::{SkyFrame, SkyRolls, SkySchedule};
use weathr::animation::rainbow::{band_color, fading_gap};
use weathr::animation::sky_art::{
    aurora_cells, comet_cells, flyer_cells, train_cells, trail_cells, Flyer,
};
use weathr::animation::snow::{snow_cover_cells, snowman_cells, snowman_column, SnowLevels};
use weathr::canvas::{put_char, put_text, Cell, Paint};
use weathr::color::TermColor;

fn cell(x: u16, y: u16, ch: char, color: TermColor) -> Cell {
    Cell { x, y, ch, color }
}

fn chars(cells: &[Cell]) -> String {
    cells.iter().map(|c| c.ch).collect()
}

#[test]
fn text_is_clipped_to_the_screen() {
    let mut cells = Vec::new();
    put_text(&mut cells, -2, 1, "ab cd", true, Paint::Solid(TermColor::Red), 3, 5);
    assert_eq!(cells, vec![cell(1, 1, 'c', TermColor::Red), cell(2, 1, 'd', TermColor::Red)]);
    let mut cells = Vec::new();
    put_text(&mut cells, 0, 0, "a b", false, Paint::Solid(TermColor::Grey), 10, 5);
    assert_eq!(chars(&cells), "a b");
    let mut cells = Vec::new();
    put_text(&mut cells, 0, 5, "abc", false, Paint::Solid(TermColor::Grey), 10, 5);
    put_text(&mut cells, 0, -1, "abc", false, Paint::Solid(TermColor::Grey), 10, 5);
    put_char(&mut cells, 10, 0, 'x', Paint::Solid(TermColor::Grey), 10, 5);
    assert!(cells.is_empty());
    put_char(&mut cells, 9, 4, 'x', Paint::Airplane, 10, 5);
    assert_eq!(cells, vec![cell(9, 4, 'x', TermColor::White)]);
}

#[test]
fn cat_sitting_facing_right() {
    assert_eq!(ground_row(22), 20);
    let prey = PreyView::Butterfly { x: 0, y: 0 };
    let cells = cat_cells(10, 20, CatState::Sit, 10, true, true, prey, 0, 80, 24);
    assert_eq!(cells.len(), 13);
    assert_eq!(cells[0], cell(12, 20, '/', TermColor::DarkYellow));
    assert_eq!(chars(&cells[..5]), "/\\_/\\");
    assert_eq!(chars(&cells[5..]), "~(=^.^=)");
    assert_eq!(cells[5], cell(10, 21, '~', TermColor::DarkYellow));
    assert_eq!(cells[8], cell(13, 21, '^', TermColor::Green));
    // The prey is drawn only while hunting
    assert!(!cells.iter().any(|c| c.ch == 'Ж'));
}

#[test]
fn cat_facing_left_is_mirrored() {
    let prey = PreyView::Firefly { x: 0, y: 0 };
    let cells = cat_cells(10, 20, CatState::Sit, 10, false, false, prey, 0, 80, 24);
    assert_eq!(chars(&cells[..5]), "/\\_/\\");
    assert_eq!(cells[0].x, 11);
    assert_eq!(chars(&cells[5..]), "(=^.^=)~");
    assert_eq!(cells[5].x, 10);
    assert_eq!(cells[7], cell(12, 21, '^', TermColor::Yellow));
    assert_eq!(cells[8], cell(13, 21, '.', TermColor::DarkYellow));
}

#[test]
fn cat_hunting_digging_and_resting_firefly() {
    let mouse = PreyView::Mouse { x: 30, runs_right: true };
    let cells = cat_cells(10, 20, CatState::Hunt(HuntPhase::Pounce), 0, true, true, mouse, 0, 80, 24);
    let n = cells.len();
    assert_eq!(chars(&cells[n - 5..]), "~~E:>");
    assert_eq!(cells[n - 5], cell(28, 21, '~', TermColor::Grey));
    // Eyes glow red on the hunt
    assert!(cells.contains(&cell(14, 21, 'o', TermColor::Rgb { r: 255, g: 70, b: 70 })));
    let butterfly = PreyView::Butterfly { x: 25, y: 17 };
    let cells = cat_cells(10, 20, CatState::Hunt(HuntPhase::Stalk), 5, true, true, butterfly, 0, 80, 24);
    assert_eq!(cells.last(), Some(&cell(25, 17, 'ж', TermColor::Magenta)));
    let dig = cat_cells(10, 20, CatState::Dig(1), 0, true, true, butterfly, 0, 80, 24);
    assert_eq!(dig.last(), Some(&cell(20, 21, 'o', TermColor::DarkGrey)));
    let dig_left = cat_cells(10, 20, CatState::Dig(2), 0, false, true, butterfly, 0, 80, 24);
    assert_eq!(dig_left.last(), Some(&cell(8, 21, 'O', TermColor::DarkGrey)));
    let asleep = cat_cells(10, 20, CatState::Sleep, 0, false, false, butterfly, 50, 80, 24);
    assert_eq!(
        asleep.last(),
        Some(&cell(17, 21, '*', TermColor::Rgb { r: 255, g: 250, b: 130 }))
    );
    let blink_off = cat_cells(10, 20, CatState::Sleep, 7, false, false, butterfly, 50, 80, 24);
    assert_ne!(blink_off.last().map(|c| c.ch), Some('*'));
}

#[test]
fn cat_chooses_its_next_activity() {
    assert_eq!(choose_activity(0, true, false, true), CatActivity::MoonGaze);
    assert_eq!(choose_activity(1499, false, false, true), CatActivity::MoonGaze);
    assert_eq!(choose_activity(1500, true, false, true), CatActivity::MouseHunt);
    assert_eq!(choose_activity(0, true, false, false), CatActivity::MouseHunt);
    assert_eq!(choose_activity(1000, true, false, false), CatActivity::Hunt);
    assert_eq!(choose_activity(3000, true, false, false), CatActivity::Walk);
    assert_eq!(choose_activity(6300, true, false, false), CatActivity::Sleep);
    assert_eq!(choose_activity(8599, true, false, false), CatActivity::WalkToDig);
    assert_eq!(choose_activity(8600, true, false, false), CatActivity::Sit);
    assert_eq!(choose_activity(9999, true, false, false), CatActivity::Sit);
    // Demo at night: mice almost every other time, then long sleeps
    assert_eq!(choose_activity(3999, false, true, false), CatActivity::MouseHunt);
    assert_eq!(choose_activity(5799, false, true, false), CatActivity::Hunt);
    assert_eq!(choose_activity(9999, false, true, false), CatActivity::Sleep);
    assert_eq!(moon_gaze_timer(449, false), 1049);
    assert_eq!(moon_gaze_timer(449, true), 262);
    assert_eq!(sleep_timer(0, false), 450);
    assert_eq!(sit_timer(239, true), 82);
    assert!(walk_is_run(2999));
    assert!(!walk_is_run(3000));
    assert!(firefly_lands(19, false));
    assert!(!firefly_lands(20, false));
    assert!(firefly_lands(199, true));
    assert_eq!(firefly_rest_frames(150), 120);
    assert_eq!(hunt_prey(true, false), Prey::Butterfly);
    assert_eq!(hunt_prey(true, true), Prey::Leaf);
    assert_eq!(hunt_prey(false, true), Prey::Firefly);
    assert!(bad_weather(false, false, false, false, true));
    assert!(!bad_weather(false, false, false, false, false));
    assert!(bad_weather(false, false, true, false, false));
}

#[test]
fn comet_and_trails() {
    let cells = comet_cells(20, 5, true, 80, 24);
    assert_eq!(cells.len(), 9);
    assert_eq!(cells[0], cell(20, 5, 'O', TermColor::Cyan));
    assert_eq!(cells[1], cell(21, 5, 'o', TermColor::Cyan));
    assert_eq!(cells[2], cell(22, 4, '*', TermColor::Cyan));
    assert_eq!(cells[4], cell(24, 4, '+', TermColor::DarkGrey));
    assert_eq!(cells[5], cell(25, 3, '+', TermColor::DarkGrey));
    assert_eq!(cells[8], cell(28, 3, '.', TermColor::DarkGrey));
    let right = comet_cells(20, 5, false, 80, 24);
    assert_eq!(right[1].x, 19);
    assert_eq!(right[8].x, 12);
    let meteor = trail_cells(&vec![(5, 2), (4, 1), (3, 1), (-1, 0), (0, 0)], false, 80, 24);
    assert_eq!(
        meteor,
        vec![
            cell(5, 2, '*', TermColor::White),
            cell(4, 1, '+', TermColor::White),
            cell(3, 1, '.', TermColor::Grey),
        ]
    );
    let bolide = trail_cells(&vec![(10, 3), (9, 2)], true, 80, 24);
    assert_eq!(bolide[0], cell(10, 3, '@', TermColor::Rgb { r: 255, g: 245, b: 190 }));
    assert_eq!(bolide[1].ch, 'O');
}

#[test]
fn starlink_train_cells() {
    let cells = train_cells(20, 22, 4, 0, 80, 24);
    assert_eq!(cells[0], cell(20, 6, '·', TermColor::Grey));
    assert_eq!(cells[1], cell(17, 6, '•', TermColor::Rgb { r: 220, g: 230, b: 255 }));
    assert_eq!(cells[3].x, 11);
    assert_eq!(chars(&cells[4..]), "Starlink x4");
    assert_eq!(cells[4], cell(22, 7, 'S', TermColor::DarkGrey));
    assert!(train_cells(20, 22, 4, 0, 80, 6).is_empty());
}

#[test]
fn flyers_and_aurora() {
    let ufo = flyer_cells(Flyer::Ufo, 5, 2, false, 0, 80, 24);
    assert_eq!(chars(&ufo), "_._<(_o_)>");
    assert_eq!(ufo[0], cell(7, 2, '_', TermColor::Grey));
    assert_eq!(ufo[6], cell(8, 3, 'o', TermColor::Red));
    assert_eq!(ufo[3], cell(5, 3, '<', TermColor::DarkGrey));
    let later = flyer_cells(Flyer::Ufo, 5, 2, false, 5, 80, 24);
    assert_eq!(later[6].color, TermColor::Green);
    let yaga = flyer_cells(Flyer::Yaga, 0, 0, true, 0, 80, 24);
    assert_eq!(chars(&yaga), "}:{*--\\(_)/Баба Яга");
    assert_eq!(yaga[0], cell(4, 0, '}', TermColor::Grey));
    assert_eq!(yaga[3], cell(0, 1, '*', TermColor::DarkYellow));
    let sleigh = flyer_cells(Flyer::Sleigh, 0, 0, false, 0, 80, 24);
    assert!(chars(&sleigh).ends_with("С Новым годом!"));
    assert_eq!(sleigh.last(), Some(&cell(17, 2, '!', TermColor::DarkGrey)));
    let aurora = aurora_cells(&vec![3, 1], 0, 24);
    assert_eq!(
        aurora,
        vec![
            cell(0, 1, '.', TermColor::Rgb { r: 205, g: 120, b: 255 }),
            cell(0, 2, ':', TermColor::Rgb { r: 150, g: 140, b: 255 }),
            cell(0, 3, ':', TermColor::Rgb { r: 95, g: 215, b: 205 }),
        ]
    );
    assert_eq!(aurora_cells(&vec![5], 1, 3).len(), 1);
}

#[test]
fn sky_schedule_timers() {
    let mut s = SkySchedule::new();
    assert_eq!(s.meteor_cooldown, 300);
    assert_eq!(s.bolide_cooldown, 40_000);
    let day = SkyFrame {
        night: false,
        sky_visible: true,
        winter: true,
        new_year: true,
        bolide_flying: false,
        comet_flying: false,
        ufo_flying: false,
        sleigh_flying: false,
        yaga_flying: false,
    };
    let rolls = SkyRolls {
        meteor: 5,
        bolide: 7,
        aurora_length: 10,
        aurora: 0,
        comet: 0,
        ufo: 0,
        sleigh: 0,
        yaga: 0,
    };
    let before = s;
    let spawns = s.step(day, rolls);
    assert_eq!(s, before);
    assert!(!spawns.meteor && !spawns.ufo && !spawns.sleigh);
    let night = SkyFrame { night: true, ..day };
    s.step(night, rolls);
    assert_eq!(s.meteor_cooldown, 299);
    assert_eq!(s.ufo_cooldown, 8_999);
    s.meteor_cooldown = 1;
    s.aurora_cooldown = 1;
    s.yaga_cooldown = 1;
    let flying = SkyFrame { yaga_flying: true, ..night };
    let spawns = s.step(flying, rolls);
    assert!(spawns.meteor);
    assert_eq!(s.meteor_cooldown, 905);
    assert!(spawns.aurora);
    assert_eq!(s.aurora_frames, 1_810);
    assert_eq!(s.aurora_cooldown, 54_000);
    assert!(!spawns.yaga);
    assert_eq!(s.yaga_cooldown, 1);
    let spawns = s.step(night, rolls);
    assert!(spawns.aurora_waves);
    assert_eq!(s.aurora_frames, 1_809);
    assert!(spawns.yaga);
    s.on_demo_mode(true);
    assert_eq!(s.meteor_cooldown, 60);
    assert_eq!(s.bolide_cooldown, 1_050);
    s.bolide_cooldown = 0;
    let spawns = s.step(night, rolls);
    assert!(spawns.bolide);
    assert_eq!(s.bolide_cooldown, 1_300);
    let cloudy = SkyFrame { sky_visible: false, ..night };
    let comet_before = s.comet_cooldown;
    s.ufo_cooldown = 1;
    let spawns = s.step(cloudy, rolls);
    assert_eq!(s.comet_cooldown, comet_before);
    assert!(!spawns.ufo && !spawns.yaga && !spawns.sleigh);
    assert_eq!(s.ufo_cooldown, 1);
}

#[test]
fn holiday_cells() {
    assert_eq!(pine_position(80, 20, 30), None);
    assert_eq!(pine_position(100, 20, 30), Some((83, 15)));
    assert_eq!(launch_column(80, 30), 63);
    assert_eq!(launch_column(40, 30), 34);
    assert_eq!(launch_column(4, 30), 0);
    assert_eq!(garland_color(7), TermColor::Cyan);
    let garland = garland_cells(10, 5, 0, 80, 24);
    assert_eq!(
        garland,
        vec![
            cell(13, 6, 'o', TermColor::Yellow),
            cell(15, 6, 'o', TermColor::Cyan),
            cell(14, 7, 'o', TermColor::Green),
            cell(16, 7, 'o', TermColor::Red),
            cell(13, 8, 'o', TermColor::Cyan),
            cell(15, 8, 'o', TermColor::Magenta),
        ]
    );
    let rocket = rocket_cells(30, 10, 0, 80, 24);
    assert_eq!(rocket.len(), 21);
    assert_eq!(rocket[0], cell(31, 10, '/', TermColor::White));
    assert_eq!(chars(&rocket[..10]), "/\\||||/||\\");
    assert_eq!(rocket[10], cell(30, 14, 'v', TermColor::Yellow));
    assert_eq!(rocket[11], cell(31, 14, 'V', TermColor::Red));
    assert_eq!(chars(&rocket[13..]), "Поехали!");
    assert_eq!(rocket[13], cell(20, 11, 'П', TermColor::DarkGrey));
    let flame = rocket_cells(30, 10, 2, 80, 24);
    assert_eq!(flame[10].ch, 'V');
}

#[test]
fn airplane_and_iss_sprites() {
    let art = vec!["ab".to_string(), " c".to_string()];
    let cells = sprite_cells(&art, "L1", 0, 0, Paint::Airplane, 80, 24);
    assert_eq!(
        cells,
        vec![
            cell(0, 0, 'a', TermColor::White),
            cell(1, 0, 'b', TermColor::White),
            cell(1, 1, 'c', TermColor::White),
            cell(0, 2, 'L', TermColor::DarkGrey),
            cell(1, 2, '1', TermColor::DarkGrey),
        ]
    );
    let clipped = sprite_cells(&art, "", -1, 22, Paint::Iss, 80, 24);
    assert_eq!(clipped, vec![cell(0, 22, 'b', TermColor::White), cell(0, 23, 'c', TermColor::White)]);
    assert!(real_aircraft_may_appear(&vec![]));
    assert!(real_aircraft_may_appear(&vec![false, false]));
    assert!(!real_aircraft_may_appear(&vec![false, true]));
}

const HOUSE: &str = "   /\\\n [] [__]\n|[x] [ |";

#[test]
fn house_windows_glow() {
    let sys = HouseLifeSystem::new(80, 24, HOUSE);
    assert!(sys.render_cells(HouseMood::Plain, 10, 8, 3).is_empty());
    let warm = TermColor::Rgb { r: 255, g: 205, b: 95 };
    let evening = sys.render_cells(HouseMood::EveningLight, 10, 8, 3);
    assert_eq!(chars(&evening), "[][__][x]");
    assert_eq!(evening[0], cell(37, 8, '[', warm));
    assert_eq!(evening[2], cell(40, 8, '[', warm));
    assert_eq!(evening[6], cell(37, 9, '[', warm));
    let open = sys.render_cells(HouseMood::WindowsOpen, 10, 8, 3);
    assert_eq!(chars(&open), "[/[__/[x/");
    assert_eq!(open[1], cell(38, 8, '/', TermColor::Yellow));
    let night = sys.render_cells(HouseMood::NightLight, 10, 8, 3);
    assert_eq!(night[0].color, TermColor::Rgb { r: 140, g: 100, b: 45 });
}

#[test]
fn snow_cover_and_snowman_cells() {
    let full = SnowLevels { cover: 97, drift: None, ridge: None };
    let cells = snow_cover_cells(full, 5, 4, 3, 10, 12);
    assert_eq!(cells.len(), 13);
    assert_eq!(chars(&cells[..10]), ".*..*..*..");
    assert_eq!(cells[1], cell(1, 5, '*', TermColor::White));
    assert_eq!(cells[10], cell(7, 6, '~', TermColor::White));
    let none = SnowLevels { cover: 0, drift: None, ridge: None };
    assert!(snow_cover_cells(none, 5, 4, 3, 10, 12).is_empty());
    let drifts = SnowLevels { cover: 0, drift: Some(97), ridge: Some(97) };
    let cells = snow_cover_cells(drifts, 5, 4, 3, 10, 12);
    assert_eq!(cells.len(), 13);
    assert_eq!(cells[0], cell(0, 6, '.', TermColor::White));
    assert_eq!(cells[10], cell(7, 5, '-', TermColor::White));
    assert_eq!(snowman_column(80, 30), 16);
    assert_eq!(snowman_column(20, 30), 1);
    let man = snowman_cells(5, 10, 3, false, 80, 24);
    assert_eq!(man.len(), 12);
    assert_eq!(chars(&man), "(:)-(:)-(.)>");
    assert_eq!(man[1], cell(8, 10, ':', TermColor::DarkGrey));
    assert_eq!(man[3], cell(5, 9, '-', TermColor::Rgb { r: 150, g: 100, b: 60 }));
    assert_eq!(man[11], cell(10, 8, '>', TermColor::Rgb { r: 255, g: 150, b: 60 }));
    assert_eq!(snowman_cells(5, 10, 1, false, 80, 24).len(), 3);
    let puddle = snowman_cells(5, 10, 3, true, 80, 24);
    assert_eq!(puddle, vec![
        cell(6, 10, '~', TermColor::White),
        cell(8, 10, '~', TermColor::White),
        cell(10, 10, '~', TermColor::White),
    ]);
}

#[test]
fn rainbow_colors_and_gaps() {
    assert_eq!(band_color(0), TermColor::Rgb { r: 255, g: 105, b: 100 });
    assert_eq!(band_color(4), TermColor::Rgb { r: 195, g: 130, b: 255 });
    assert!(fading_gap(2, 1, 0));
    assert!(!fading_gap(3, 1, 0));
    assert!(fading_gap(3, 1, 8));
}

#[test]
fn hunts_and_walks_end() {
    let stalk = HuntPhase::Stalk;
    let pounce = HuntPhase::Pounce;
    assert_eq!(hunt_step(stalk, 10, true, true, true), (CatState::Sit, 45));
    assert_eq!(hunt_step(stalk, 0, false, true, true), (CatState::Sit, 45));
    assert_eq!(hunt_step(stalk, 10, false, true, true), (CatState::Hunt(pounce), 12));
    assert_eq!(hunt_step(stalk, 10, false, false, true), (CatState::Hunt(stalk), 9));
    assert_eq!(hunt_step(pounce, 3, false, false, true), (CatState::Hunt(pounce), 2));
    assert_eq!(hunt_step(pounce, 0, false, false, true), (CatState::Groom, 45));
    assert_eq!(hunt_step(pounce, 0, false, false, false), (CatState::Sit, 30));
    assert_eq!(walk_step(false, true, 7, 0, false), (CatState::Walk, 7));
    assert_eq!(walk_step(true, true, 7, 0, false), (CatState::Dig(0), 90));
    assert_eq!(walk_step(true, false, 7, 10, false), (CatState::Sit, 100));
    assert_eq!(walk_step(true, false, 7, 10, true), (CatState::Sit, 25));
}

#[test]
fn salvos_wait_for_room_in_the_sky() {
    assert_eq!(firework_step(5, 0, false, 0), (4, false));
    assert_eq!(firework_step(1, 3, false, 100), (55, true));
    assert_eq!(firework_step(0, 0, true, 31), (31, true));
    assert_eq!(firework_step(1, 4, false, 100), (0, false));
    assert_eq!(firework_step(0, 4, false, 100), (0, false));
}

#[test]
fn random_airplanes_are_rare() {
    assert_eq!(plane_step(false, 0, 9, 5), (605, true));
    assert_eq!(plane_step(false, 1, 0, 299), (899, true));
    assert_eq!(plane_step(false, 0, 10, 5), (0, false));
    assert_eq!(plane_step(true, 0, 0, 5), (0, false));
    assert_eq!(plane_step(false, 600, 0, 5), (599, false));
}

#[test]
fn firefly_rests_only_on_a_sleeping_cat() {
    assert_eq!(firefly_step(CatState::Sit, 50, true, 0, 0, false), 0);
    assert_eq!(firefly_step(CatState::Sleep, 50, false, 9_999, 0, false), 49);
    assert_eq!(firefly_step(CatState::Sleep, 0, true, 19, 150, false), 120);
    assert_eq!(firefly_step(CatState::Sleep, 0, true, 20, 150, false), 0);
    assert_eq!(firefly_step(CatState::Sleep, 0, true, 199, 10, true), 130);
    assert_eq!(firefly_step(CatState::Sleep, 0, false, 0, 10, true), 0);
}
