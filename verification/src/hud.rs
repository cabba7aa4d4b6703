//! The HUD block for a weather report: the title line, the temperature,
//! wind and precipitation, the forecast in glyphs with the next sunset or
//! sunrise, and the offline notice. Measurements come already formatted
//! in the chosen units.

use vstd::prelude::*;
use crate::app_state::{
    arrow_spec, condition_color, condition_color_spec, condition_glyph, dim_color, glyph_spec,
    rumb_ru, rumb_ru_spec, separator_spec, spans_view, title_line, title_line_spec,
    wind_arrow_for_sector, HudSpan,
};
use crate::color::TermColor;
use crate::text;
use crate::text::{push_char, push_decimal};
use crate::weather::WeatherCondition;

verus! {

/// One point of the forecast as the HUD shows it.
pub struct ForecastSpan {
    pub hours_ahead: u32,
    /// The temperature rounded to whole degrees, in the chosen unit.
    pub temperature: String,
    pub temperature_color: TermColor,
    pub condition: WeatherCondition,
}

/// A weather report as the HUD shows it.
pub struct WeatherLines {
    pub condition: WeatherCondition,
    pub is_day: bool,
    /// The temperature to a tenth, with its unit.
    pub temperature: String,
    pub temperature_color: TermColor,
    /// The apparent temperature to a tenth with its unit, when shown.
    pub feels_like: Option<String>,
    /// The wind speed to a tenth, with its unit.
    pub wind: String,
    /// Sector the wind blows from (0 = north, clockwise, 45 degrees each).
    pub wind_sector: usize,
    /// Sector the wind blows to.
    pub arrow_sector: usize,
    /// The precipitation to a tenth, with its unit.
    pub precipitation: String,
    /// More than 0.05 of precipitation: the umbrella turns blue.
    pub wet: bool,
    pub forecast: Vec<ForecastSpan>,
    /// Time ("HH:MM") of the next sunset by day, of the sunrise at night.
    pub sun_event: Option<String>,
}

/// Colour of precipitation that falls.
pub open spec fn wet_color() -> TermColor {
    TermColor::Rgb { r: 110, g: 175, b: 255 }
}

/// Colour of the offline notice.
pub open spec fn offline_color() -> TermColor {
    TermColor::Rgb { r: 255, g: 110, b: 110 }
}

/// Second line: the temperature in its colour and, when shown, the
/// apparent temperature dimmed.
pub open spec fn temperature_line_spec(w: WeatherLines) -> Seq<(Seq<char>, TermColor)> {
    let head = seq![(w.temperature@, w.temperature_color)];
    match w.feels_like {
        Some(f) => head + seq![("  ощущается "@ + f@, dim_color())],
        None => head,
    }
}

/// Third line: the wind with its compass point and arrow, and the
/// precipitation under an umbrella.
pub open spec fn wind_line_spec(w: WeatherLines) -> Seq<(Seq<char>, TermColor)> {
    seq![
        (
            "ветер "@ + w.wind@ + " "@ + rumb_ru_spec(w.wind_sector as nat) + seq![
                arrow_spec(w.arrow_sector as nat),
            ],
            TermColor::Grey,
        ),
        (separator_spec(), dim_color()),
        ("☂ "@ + w.precipitation@, if w.wet { wet_color() } else { dim_color() }),
    ]
}

/// A forecast point: "+Nч" dimmed, the temperature in its colour and the
/// condition's daytime glyph in its colour.
pub open spec fn forecast_point_spec(p: ForecastSpan) -> Seq<(Seq<char>, TermColor)> {
    seq![
        ("+"@ + text::decimal(p.hours_ahead as nat) + "ч"@, dim_color()),
        (" "@ + p.temperature@ + "°"@, p.temperature_color),
        (seq![glyph_spec(p.condition, true)], condition_color_spec(p.condition, true)),
    ]
}

/// The forecast points, a blank between two.
pub open spec fn forecast_spans_spec(points: Seq<ForecastSpan>) -> Seq<(Seq<char>, TermColor)>
    decreases points.len(),
{
    if points.len() == 0 {
        Seq::empty()
    } else {
        forecast_spans_spec(points.drop_last()) + (if points.len() > 1 {
            seq![(" "@, dim_color())]
        } else {
            Seq::empty()
        }) + forecast_point_spec(points.last())
    }
}

/// The next sun event: the sunset (a moon glyph, in sunset orange) by
/// day, the sunrise (a sun glyph, in yellow) at night.
pub open spec fn sun_event_spec(time: Seq<char>, is_day: bool) -> (Seq<char>, TermColor) {
    if is_day {
        ("☾ "@ + time, TermColor::Rgb { r: 255, g: 150, b: 80 })
    } else {
        ("☀ "@ + time, TermColor::Yellow)
    }
}

/// Fourth line: the forecast, then (after a separator when there is a
/// forecast) the next sun event.
pub open spec fn forecast_line_spec(w: WeatherLines) -> Seq<(Seq<char>, TermColor)> {
    let base = forecast_spans_spec(w.forecast@);
    match w.sun_event {
        Some(t) => (if base.len() > 0 {
            base + seq![(separator_spec(), dim_color())]
        } else {
            base
        }) + seq![sun_event_spec(t@, w.is_day)],
        None => base,
    }
}

/// Views of the lines of a HUD block.
pub open spec fn block_view(block: Seq<Vec<HudSpan>>) -> Seq<Seq<(Seq<char>, TermColor)>> {
    Seq::new(block.len(), |k: int| spans_view(block[k]@))
}

/// The HUD block for a weather report: the title, temperature and wind
/// lines, the forecast line when it has anything, and the offline notice
/// (in alarm red) when one is given.
pub open spec fn weather_block_spec(
    clock: Seq<char>,
    location: Seq<char>,
    w: WeatherLines,
    offline: Option<Seq<char>>,
) -> Seq<Seq<(Seq<char>, TermColor)>> {
    let lines = seq![
        title_line_spec(clock, location, w.condition, w.is_day),
        temperature_line_spec(w),
        wind_line_spec(w),
    ];
    let forecast = forecast_line_spec(w);
    let lines = if forecast.len() > 0 {
        lines.push(forecast)
    } else {
        lines
    };
    match offline {
        Some(text) => lines.push(seq![(text, offline_color())]),
        None => lines,
    }
}

fn span(text: String, color: TermColor) -> (r: HudSpan)
    ensures
        r.0@ == text@,
        r.1 == color,
{
    (text, color)
}

/// The temperature line.
pub fn temperature_line(w: &WeatherLines) -> (r: Vec<HudSpan>)
    ensures
        spans_view(r@) == temperature_line_spec(*w),
{
    let mut line: Vec<HudSpan> = Vec::new();
    line.push(span(w.temperature.clone(), w.temperature_color));
    if let Some(f) = &w.feels_like {
        let mut text = String::from_str("  ощущается ");
        text.append(f.as_str());
        line.push(span(text, TermColor::DarkGrey));
    }
    assert(spans_view(line@) =~= temperature_line_spec(*w));
    line
}

/// The wind and precipitation line.
pub fn wind_line(w: &WeatherLines) -> (r: Vec<HudSpan>)
    ensures
        spans_view(r@) == wind_line_spec(*w),
{
    let mut wind = String::from_str("ветер ");
    wind.append(w.wind.as_str());
    wind.append(" ");
    wind.append(rumb_ru(w.wind_sector));
    push_char(&mut wind, wind_arrow_for_sector(w.arrow_sector));
    let mut rain = String::from_str("☂ ");
    rain.append(w.precipitation.as_str());
    let rain_color = if w.wet {
        TermColor::Rgb { r: 110, g: 175, b: 255 }
    } else {
        TermColor::DarkGrey
    };
    assert(wind@ =~= "ветер "@ + w.wind@ + " "@ + rumb_ru_spec(w.wind_sector as nat) + seq![
        arrow_spec(w.arrow_sector as nat),
    ]);
    let mut line: Vec<HudSpan> = Vec::new();
    line.push(span(wind, TermColor::Grey));
    line.push(span(String::from_str(" · "), TermColor::DarkGrey));
    line.push(span(rain, rain_color));
    assert(spans_view(line@) =~= wind_line_spec(*w));
    line
}

/// The forecast line (empty when there is neither a forecast nor a sun
/// event).
pub fn forecast_line(w: &WeatherLines) -> (r: Vec<HudSpan>)
    ensures
        spans_view(r@) == forecast_line_spec(*w),
{
    let mut line: Vec<HudSpan> = Vec::new();
    let mut i: usize = 0;
    while i < w.forecast.len()
        invariant
            i <= w.forecast@.len(),
            spans_view(line@) == forecast_spans_spec(w.forecast@.take(i as int)),
        decreases w.forecast@.len() - i,
    {
        let p = &w.forecast[i];
        let ghost before = line@;
        if i > 0 {
            line.push(span(String::from_str(" "), TermColor::DarkGrey));
        }
        let mut hours = String::from_str("+");
        push_decimal(&mut hours, p.hours_ahead as u64);
        hours.append("ч");
        line.push(span(hours, TermColor::DarkGrey));
        let mut temp = String::from_str(" ");
        temp.append(p.temperature.as_str());
        temp.append("°");
        line.push(span(temp, p.temperature_color));
        let mut glyph = String::new();
        push_char(&mut glyph, condition_glyph(p.condition, true));
        line.push(span(glyph, condition_color(p.condition, true)));
        assert(w.forecast@.take(i + 1).drop_last() =~= w.forecast@.take(i as int));
        assert(w.forecast@.take(i + 1).last() == w.forecast@[i as int]);
        assert(spans_view(line@) =~= forecast_spans_spec(w.forecast@.take(i + 1)));
        i = i + 1;
    }
    assert(w.forecast@.take(w.forecast@.len() as int) =~= w.forecast@);
    let ghost base = spans_view(line@);
    if let Some(t) = &w.sun_event {
        if line.len() > 0 {
            line.push(span(String::from_str(" · "), TermColor::DarkGrey));
        }
        if w.is_day {
            let mut text = String::from_str("☾ ");
            text.append(t.as_str());
            line.push(span(text, TermColor::Rgb { r: 255, g: 150, b: 80 }));
        } else {
            let mut text = String::from_str("☀ ");
            text.append(t.as_str());
            line.push(span(text, TermColor::Yellow));
        }
    }
    assert(spans_view(line@) =~= forecast_line_spec(*w));
    line
}

/// The HUD block for a weather report.
pub fn weather_block(clock: &str, location: &str, w: &WeatherLines, offline: Option<String>) -> (r:
    Vec<Vec<HudSpan>>)
    ensures
        block_view(r@) == weather_block_spec(
            clock@,
            location@,
            *w,
            match offline {
                Some(t) => Some(t@),
                None => None,
            },
        ),
{
    let mut block: Vec<Vec<HudSpan>> = Vec::new();
    block.push(title_line(clock, location, w.condition, w.is_day));
    block.push(temperature_line(w));
    block.push(wind_line(w));
    let forecast = forecast_line(w);
    if forecast.len() > 0 {
        block.push(forecast);
    }
    if let Some(text) = offline {
        let mut line: Vec<HudSpan> = Vec::new();
        line.push(span(text, TermColor::Rgb { r: 255, g: 110, b: 110 }));
        block.push(line);
    }
    assert(block_view(block@) =~~= weather_block_spec(
        clock@,
        location@,
        *w,
        match offline {
            Some(t) => Some(t@),
            None => None,
        },
    ));
    block
}

} // verus!
