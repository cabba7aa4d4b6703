use weathr::app_state::{
    condition_color, condition_glyph, condition_name_ru, first_line_text, fireflies_visible,
    format_age, hud_text, line_text, loading_line, location_label, offline_line,
    offline_status_at, rest_lines_text, rumb_ru, sun_visible, title_line, wind_arrow_for_sector,
    frame_due, HudSpan, HudState, LoadingState,
};
use weathr::clock::secs_or_zero;
use weathr::color::TermColor;
use weathr::text::{push_decimal, split_lines, str_eq, strip_prefix, strip_suffix, trim};
use weathr::weather::{LocationDisplay, WeatherCondition};

#[test]
fn trim_removes_unicode_whitespace() {
    assert_eq!(trim("  \t hello world \n"), "hello world");
    assert_eq!(trim("\u{a0}x\u{3000}"), "x");
    assert_eq!(trim("   "), "");
    assert_eq!(trim(""), "");
}

#[test]
fn prefix_suffix_and_equality() {
    assert_eq!(strip_prefix("```json{}", "```json"), Some("{}"));
    assert_eq!(strip_prefix("``", "```"), None);
    assert_eq!(strip_suffix("{}```", "```"), Some("{}"));
    assert_eq!(strip_suffix("{}``", "```"), None);
    assert!(str_eq("кот", "кот"));
    assert!(!str_eq("кот", "кит"));
}

#[test]
fn decimal_formatting() {
    let mut s = String::from("n=");
    push_decimal(&mut s, 0);
    assert_eq!(s, "n=0");
    let mut s = String::new();
    push_decimal(&mut s, 18_446_744_073_709_551_615);
    assert_eq!(s, "18446744073709551615");
}

#[test]
fn lines_follow_str_lines() {
    let cases = ["", "a", "a\n", "a\nb", "a\r\nb\r\n", "a\n\nb", "x\r", "\n\n"];
    for c in cases {
        let expected: Vec<String> = c.lines().map(|l| l.to_string()).collect();
        assert_eq!(split_lines(c), expected, "case {:?}", c);
    }
}

#[test]
fn glyphs_names_and_colors() {
    assert_eq!(condition_glyph(WeatherCondition::Clear, true), '☀');
    assert_eq!(condition_glyph(WeatherCondition::Clear, false), '☾');
    assert_eq!(condition_glyph(WeatherCondition::Overcast, false), '☁');
    assert_eq!(condition_glyph(WeatherCondition::Fog, true), '≡');
    assert_eq!(condition_glyph(WeatherCondition::FreezingRain, true), '☂');
    assert_eq!(condition_glyph(WeatherCondition::SnowGrains, true), '❄');
    assert_eq!(condition_glyph(WeatherCondition::ThunderstormHail, true), 'ϟ');
    assert_eq!(condition_name_ru(WeatherCondition::PartlyCloudy), "Переменная облачность");
    assert_eq!(condition_name_ru(WeatherCondition::ThunderstormHail), "Гроза с градом");
    assert_eq!(condition_color(WeatherCondition::Clear, true), TermColor::Yellow);
    assert_eq!(
        condition_color(WeatherCondition::Clear, false),
        TermColor::Rgb { r: 200, g: 205, b: 235 }
    );
    assert_eq!(condition_color(WeatherCondition::Thunderstorm, true), TermColor::Magenta);
}

#[test]
fn wind_sectors() {
    assert_eq!(rumb_ru(0), "С");
    assert_eq!(rumb_ru(3), "ЮВ");
    assert_eq!(rumb_ru(8), "С");
    assert_eq!(rumb_ru(15), "СЗ");
    assert_eq!(wind_arrow_for_sector(4), '↓');
    assert_eq!(wind_arrow_for_sector(10), '→');
}

#[test]
fn data_age_caption() {
    assert_eq!(format_age(0), "1 мин назад");
    assert_eq!(format_age(59), "1 мин назад");
    assert_eq!(format_age(600), "10 мин назад");
    assert_eq!(format_age(119 * 60), "119 мин назад");
    assert_eq!(format_age(120 * 60), "2 ч назад");
    assert_eq!(format_age(5 * 3600 + 1800), "5 ч назад");
}

#[test]
fn offline_caption() {
    assert_eq!(offline_status_at(10_000, Some(10_000 - 900)), "ОФФЛАЙН · данные 15 мин назад");
    assert_eq!(offline_status_at(10, Some(500)), "ОФФЛАЙН · данные 1 мин назад");
    assert_eq!(offline_status_at(10, None), "ОФФЛАЙН · симуляция");
    let line = offline_line(None);
    assert_eq!(line.len(), 1);
    assert_eq!(line[0].0, "ОФФЛАЙН · симуляция");
}

#[test]
fn location_labels() {
    let coords = "34.08°N, 84.29°W";
    let city = Some("Alpharetta".to_string());
    assert_eq!(location_label(false, LocationDisplay::Coordinates, &city, coords), coords);
    assert_eq!(location_label(false, LocationDisplay::City, &city, coords), "Alpharetta");
    assert_eq!(location_label(false, LocationDisplay::City, &None, coords), coords);
    assert_eq!(
        location_label(false, LocationDisplay::Mixed, &city, coords),
        "Alpharetta (34.08°N, 84.29°W)"
    );
    assert_eq!(location_label(false, LocationDisplay::Mixed, &None, coords), coords);
    assert_eq!(location_label(true, LocationDisplay::Mixed, &city, coords), "");
}

#[test]
fn sun_and_fireflies() {
    assert!(sun_visible(true, Some(WeatherCondition::Cloudy)));
    assert!(!sun_visible(true, Some(WeatherCondition::Overcast)));
    assert!(!sun_visible(false, Some(WeatherCondition::Clear)));
    assert!(!sun_visible(true, None));
    assert!(fireflies_visible(false, Some(WeatherCondition::Clear), true, false, false, false));
    assert!(!fireflies_visible(false, Some(WeatherCondition::Clear), false, false, false, false));
    assert!(!fireflies_visible(false, Some(WeatherCondition::Clear), true, true, false, false));
    assert!(!fireflies_visible(false, Some(WeatherCondition::Cloudy), true, false, false, false));
    assert!(!fireflies_visible(true, Some(WeatherCondition::Clear), true, false, false, false));
    assert!(!fireflies_visible(false, None, true, false, false, false));
}

#[test]
fn hud_block_texts() {
    let title = title_line("12:30", "Москва", WeatherCondition::Rain, true);
    assert_eq!(line_text(&title), "12:30 · Москва · ☂ Дождь");
    assert_eq!(title[0].1, TermColor::Cyan);
    assert_eq!(title[4].1, TermColor::Rgb { r: 110, g: 175, b: 255 });
    let bare = title_line("07:05", "", WeatherCondition::Clear, false);
    assert_eq!(line_text(&bare), "07:05 · ☾ Ясно");
    let second: Vec<HudSpan> = vec![("20.0°C".to_string(), TermColor::Cyan)];
    let third: Vec<HudSpan> = vec![("ветер".to_string(), TermColor::Grey)];
    let block = vec![title.clone(), second, third];
    assert_eq!(first_line_text(&block), "12:30 · Москва · ☂ Дождь");
    assert_eq!(rest_lines_text(&block), "20.0°C\nветер");
    assert_eq!(hud_text(&block), "12:30 · Москва · ☂ Дождь\n20.0°C\nветер");
    let one = vec![title];
    assert_eq!(rest_lines_text(&one), "");
    assert_eq!(hud_text(&one), first_line_text(&one));
    assert_eq!(hud_text(&Vec::new()), "");
    assert_eq!(first_line_text(&Vec::new()), "");
    let loading = loading_line("00:01", '/');
    assert_eq!(line_text(&loading), "00:01  загрузка погоды /");
}

#[test]
fn spinner_cycles() {
    let mut s = LoadingState::new();
    assert_eq!(s.current_char(), '|');
    s.next_frame();
    assert_eq!(s.current_char(), '/');
    s.next_frame();
    s.next_frame();
    assert_eq!(s.current_char(), '\\');
    s.next_frame();
    assert_eq!(s.frame, 0);
    assert_eq!(s.current_char(), '|');
    let start = std::time::Instant::now();
    while start.elapsed() < std::time::Duration::from_millis(120) {}
    assert!(s.should_update());
    s.next_frame();
    assert!(!s.should_update());
}

fn hud_state() -> HudState {
    HudState::new(
        Some("Москва".to_string()),
        LocationDisplay::Mixed,
        false,
        false,
        false,
    )
}

#[test]
fn hud_state_starts_loading_and_online() {
    let s = hud_state();
    assert!(!s.is_offline);
    assert!(s.weather_info_needs_update);
    assert_eq!(s.last_clock_minute, u32::MAX);
    assert_eq!(s.offline_data_cached_at, None);
    assert_eq!(s.last_success_at, None);
    assert_eq!(s.get_condition_text(None), "Загрузка");
    assert_eq!(s.get_condition_text(Some(WeatherCondition::Snow)), "Снег");
    assert_eq!(s.location_text("55.75°N, 37.62°E"), "Москва (55.75°N, 37.62°E)");
    assert!(s.offline_hud_line().is_none());
}

#[test]
fn hud_state_clock_minute_asks_for_redraw_once() {
    let mut s = hud_state();
    s.weather_info_needs_update = false;
    s.tick_clock_at(17);
    assert!(s.weather_info_needs_update);
    assert_eq!(s.last_clock_minute, 17);
    s.weather_info_needs_update = false;
    s.tick_clock_at(17);
    assert!(!s.weather_info_needs_update);
    s.tick_clock_at(18);
    assert!(s.weather_info_needs_update);
    s.tick_clock();
    assert!(s.last_clock_minute <= 59);
}

#[test]
fn hud_state_offline_then_fresh_weather() {
    let mut s = hud_state();
    s.weather_info_needs_update = false;
    s.set_offline_with_data_age(1_000);
    assert!(s.is_offline);
    assert!(s.weather_info_needs_update);
    assert_eq!(s.offline_data_cached_at, Some(1_000));
    let line = s.offline_hud_line().expect("offline line");
    assert_eq!(line.len(), 1);
    assert!(line[0].0.starts_with("ОФФЛАЙН · данные "));
    assert!(line[0].0.ends_with(" ч назад"));
    s.weather_updated();
    assert!(!s.is_offline);
    assert_eq!(s.offline_data_cached_at, None);
    assert!(s.last_success_at.is_some());
    assert!(s.offline_hud_line().is_none());
    s.set_offline_mode(true);
    assert!(s.is_offline);
    assert_eq!(s.offline_data_cached_at, None);
}

#[test]
fn hud_state_block_caches_summary_and_forecast() {
    let mut s = hud_state();
    let title = title_line("09:00", "Москва", WeatherCondition::Clear, true);
    let second: Vec<HudSpan> = vec![("-3.0°C".to_string(), TermColor::Cyan)];
    let third: Vec<HudSpan> = vec![("завтра".to_string(), TermColor::Grey)];
    s.set_hud_block(vec![title, second, third]);
    assert!(!s.weather_info_needs_update);
    assert_eq!(s.cached_weather_info, "09:00 · Москва · ☀ Ясно");
    assert_eq!(s.cached_forecast_info, "-3.0°C\nзавтра");
    assert_eq!(s.hud_text(), "09:00 · Москва · ☀ Ясно\n-3.0°C\nзавтра");
    s.set_hud_block(Vec::new());
    assert_eq!(s.cached_weather_info, "");
    assert_eq!(s.cached_forecast_info, "");
    assert_eq!(s.hud_text(), "");
}

#[test]
fn hud_state_spinner_advances_with_time() {
    let mut s = hud_state();
    s.weather_info_needs_update = false;
    s.update_loading_animation();
    assert_eq!(s.loading_state.frame, 0);
    assert!(!s.weather_info_needs_update);
    let start = std::time::Instant::now();
    while start.elapsed() < std::time::Duration::from_millis(120) {}
    s.update_loading_animation();
    assert_eq!(s.loading_state.frame, 1);
    assert!(s.weather_info_needs_update);
}

#[test]
fn spinner_frame_time_and_epoch_fallback() {
    assert!(!frame_due(99));
    assert!(frame_due(100));
    assert_eq!(secs_or_zero(Some(1_700_000_000)), 1_700_000_000);
    assert_eq!(secs_or_zero(None), 0);
    let mut s = hud_state();
    s.weather_info_needs_update = false;
    s.advance_spinner(false);
    assert_eq!(s.loading_state.frame, 0);
    assert!(!s.weather_info_needs_update);
    s.advance_spinner(true);
    assert_eq!(s.loading_state.frame, 1);
    assert!(s.weather_info_needs_update);
    assert_eq!(s.loading_state.current_char(), '/');
}

#[test]
fn trim_agrees_with_std_on_every_char() {
    for c in (0u32..=0x10FFFF).filter_map(char::from_u32) {
        let s = format!("{c}a{c}");
        assert_eq!(trim(&s), s.trim(), "char U+{:04X}", c as u32);
    }
}
