use weathr::app_state::{HudSpan, HudState};
use weathr::color::TermColor;
use weathr::hud::{weather_block, ForecastSpan, WeatherLines};
use weathr::weather::{LocationDisplay, WeatherCondition};

/// Alpharetta's coordinates (34.0754, -84.2941) as the front end formats
/// them.
const ALPHARETTA: &str = "34.08°N, 84.29°W";

fn clear_weather() -> WeatherLines {
    WeatherLines {
        condition: WeatherCondition::Clear,
        is_day: true,
        temperature: "20.0°C".to_string(),
        temperature_color: TermColor::Rgb { r: 255, g: 205, b: 95 },
        feels_like: None,
        wind: "10.0км/ч".to_string(),
        wind_sector: 0,
        arrow_sector: 4,
        precipitation: "0.0мм".to_string(),
        wet: false,
        forecast: Vec::new(),
        sun_event: None,
    }
}

fn hud_with_weather(city: Option<String>, display: LocationDisplay) -> HudState {
    let mut hud = HudState::new(city, display, false, false, false);
    hud.weather_updated();
    hud.update_cached_info_at(1_700_000_000, "12:00", ALPHARETTA, Some(&clear_weather()));
    hud
}

#[test]
fn test_display_coordinates_mode() {
    let hud = hud_with_weather(Some("Alpharetta".to_string()), LocationDisplay::Coordinates);
    assert!(hud.cached_weather_info.contains("34.08°N, 84.29°W"));
    assert!(!hud.cached_weather_info.contains("Alpharetta"));
}

#[test]
fn test_display_city_mode_with_city() {
    let hud = hud_with_weather(Some("Alpharetta".to_string()), LocationDisplay::City);
    assert!(hud.cached_weather_info.contains("Alpharetta"));
    assert!(!hud.cached_weather_info.contains("34.08°N"));
}

#[test]
fn test_display_city_mode_without_city_falls_back() {
    let hud = hud_with_weather(None, LocationDisplay::City);
    assert!(hud.cached_weather_info.contains("34.08°N, 84.29°W"));
}

#[test]
fn test_display_mixed_mode_with_city() {
    let hud = hud_with_weather(Some("Alpharetta".to_string()), LocationDisplay::Mixed);
    assert!(hud.cached_weather_info.contains("Alpharetta (34.08°N, 84.29°W)"));
}

#[test]
fn test_display_mixed_mode_without_city_falls_back() {
    let hud = hud_with_weather(None, LocationDisplay::Mixed);
    assert!(hud.cached_weather_info.contains("34.08°N, 84.29°W"));
    assert!(!hud.cached_weather_info.contains("("));
}

fn texts(line: &[HudSpan]) -> Vec<&str> {
    line.iter().map(|(s, _)| s.as_str()).collect()
}

#[test]
fn weather_block_lines() {
    let mut w = clear_weather();
    w.feels_like = Some("18.5°C".to_string());
    w.wet = true;
    w.precipitation = "1.2мм".to_string();
    w.wind_sector = 5;
    w.arrow_sector = 1;
    w.forecast = vec![
        ForecastSpan {
            hours_ahead: 3,
            temperature: "19".to_string(),
            temperature_color: TermColor::Rgb { r: 255, g: 205, b: 95 },
            condition: WeatherCondition::Rain,
        },
        ForecastSpan {
            hours_ahead: 12,
            temperature: "-2".to_string(),
            temperature_color: TermColor::Rgb { r: 150, g: 190, b: 255 },
            condition: WeatherCondition::Clear,
        },
    ];
    w.sun_event = Some("21:04".to_string());
    let block = weather_block("12:00", "Москва", &w, Some("ОФФЛАЙН · симуляция".to_string()));
    assert_eq!(block.len(), 5);
    assert_eq!(texts(&block[0]), vec!["12:00", " · ", "Москва", " · ", "☀ Ясно"]);
    assert_eq!(texts(&block[1]), vec!["20.0°C", "  ощущается 18.5°C"]);
    assert_eq!(block[1][1].1, TermColor::DarkGrey);
    assert_eq!(texts(&block[2]), vec!["ветер 10.0км/ч ЮЗ↗", " · ", "☂ 1.2мм"]);
    assert_eq!(block[2][2].1, TermColor::Rgb { r: 110, g: 175, b: 255 });
    assert_eq!(
        texts(&block[3]),
        vec!["+3ч", " 19°", "☂", " ", "+12ч", " -2°", "☀", " · ", "☾ 21:04"]
    );
    assert_eq!(block[3][8].1, TermColor::Rgb { r: 255, g: 150, b: 80 });
    assert_eq!(texts(&block[4]), vec!["ОФФЛАЙН · симуляция"]);
    assert_eq!(block[4][0].1, TermColor::Rgb { r: 255, g: 110, b: 110 });
}

#[test]
fn weather_block_without_forecast_or_offline() {
    let w = clear_weather();
    let block = weather_block("07:30", "", &w, None);
    assert_eq!(block.len(), 3);
    assert_eq!(texts(&block[0]), vec!["07:30", " · ", "☀ Ясно"]);
    assert_eq!(texts(&block[2]), vec!["ветер 10.0км/ч С↓", " · ", "☂ 0.0мм"]);
    assert_eq!(block[2][2].1, TermColor::DarkGrey);
    let mut night = clear_weather();
    night.is_day = false;
    night.sun_event = Some("05:12".to_string());
    let block = weather_block("23:30", "", &night, None);
    assert_eq!(block.len(), 4);
    assert_eq!(texts(&block[3]), vec!["☀ 05:12"]);
    assert_eq!(block[3][0].1, TermColor::Yellow);
}

#[test]
fn hud_update_only_when_needed() {
    let mut hud = HudState::new(None, LocationDisplay::Coordinates, false, false, false);
    hud.update_cached_info_at(0, "00:01", ALPHARETTA, None);
    assert!(!hud.weather_info_needs_update);
    assert_eq!(hud.cached_weather_info, "00:01  загрузка погоды |");
    assert_eq!(hud.cached_forecast_info, "");
    // Nothing pending: the block stays as it was
    hud.update_cached_info_at(0, "00:02", ALPHARETTA, Some(&clear_weather()));
    assert_eq!(hud.cached_weather_info, "00:01  загрузка погоды |");
    hud.set_offline_with_data_age(1_000);
    hud.update_cached_info_at(1_000 + 3 * 3600, "03:00", ALPHARETTA, Some(&clear_weather()));
    assert_eq!(
        hud.cached_weather_info,
        "03:00 · 34.08°N, 84.29°W · ☀ Ясно"
    );
    assert!(hud.cached_forecast_info.ends_with("\nОФФЛАЙН · данные 3 ч назад"));
    assert_eq!(hud.hud_block.len(), 4);
}

#[test]
fn hud_hidden_location() {
    let mut hud = HudState::new(Some("Москва".to_string()), LocationDisplay::City, true, false, false);
    hud.weather_updated();
    hud.update_cached_info(&"09:15".to_string(), ALPHARETTA, Some(&clear_weather()));
    assert_eq!(hud.cached_weather_info, "09:15 · ☀ Ясно");
}
