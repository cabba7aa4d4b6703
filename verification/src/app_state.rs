//! What the HUD shows: weather glyphs, Russian names and colours of the
//! conditions, wind compass points, the location label, data age in
//! offline mode, when the sun and fireflies belong in the scene, and the
//! loading spinner.

use vstd::prelude::*;
use std::time::Instant;
use crate::clock;
use crate::color::TermColor;
use crate::hud::{block_view, weather_block, weather_block_spec, WeatherLines};
use crate::text;
use crate::text::{push_char, push_decimal};
use crate::weather::{LocationDisplay, WeatherCondition};

verus! {

/// The narrow (single-cell) glyph of a condition.
pub open spec fn glyph_spec(condition: WeatherCondition, is_day: bool) -> char {
    match condition {
        WeatherCondition::Clear => if is_day { '☀' } else { '☾' },
        WeatherCondition::PartlyCloudy | WeatherCondition::Cloudy | WeatherCondition::Overcast => '☁',
        WeatherCondition::Fog => '≡',
        WeatherCondition::Drizzle
        | WeatherCondition::Rain
        | WeatherCondition::RainShowers
        | WeatherCondition::FreezingRain => '☂',
        WeatherCondition::Snow | WeatherCondition::SnowGrains | WeatherCondition::SnowShowers => '❄',
        WeatherCondition::Thunderstorm | WeatherCondition::ThunderstormHail => 'ϟ',
    }
}

/// Narrow glyph of a weather condition (single-cell characters only).
pub fn condition_glyph(condition: WeatherCondition, is_day: bool) -> (c: char)
    ensures
        c == glyph_spec(condition, is_day),
{
    match condition {
        WeatherCondition::Clear => {
            if is_day {
                '☀'
            } else {
                '☾'
            }
        },
        WeatherCondition::PartlyCloudy | WeatherCondition::Cloudy | WeatherCondition::Overcast => {
            '☁'
        },
        WeatherCondition::Fog => '≡',
        WeatherCondition::Drizzle
        | WeatherCondition::Rain
        | WeatherCondition::RainShowers
        | WeatherCondition::FreezingRain => '☂',
        WeatherCondition::Snow | WeatherCondition::SnowGrains | WeatherCondition::SnowShowers => {
            '❄'
        },
        WeatherCondition::Thunderstorm | WeatherCondition::ThunderstormHail => 'ϟ',
    }
}

/// Only a clear sky looks different by day and by night.
pub proof fn lemma_glyph_depends_on_daylight_only_when_clear(condition: WeatherCondition)
    ensures
        (glyph_spec(condition, true) != glyph_spec(condition, false)) <==> condition
            == WeatherCondition::Clear,
{
}

/// HUD colour of a condition.
pub open spec fn condition_color_spec(condition: WeatherCondition, is_day: bool) -> TermColor {
    match condition {
        WeatherCondition::Clear => if is_day {
            TermColor::Yellow
        } else {
            TermColor::Rgb { r: 200, g: 205, b: 235 }
        },
        WeatherCondition::PartlyCloudy => TermColor::Grey,
        WeatherCondition::Cloudy | WeatherCondition::Overcast => TermColor::DarkGrey,
        WeatherCondition::Fog => TermColor::Grey,
        WeatherCondition::Drizzle
        | WeatherCondition::Rain
        | WeatherCondition::RainShowers
        | WeatherCondition::FreezingRain => TermColor::Rgb { r: 110, g: 175, b: 255 },
        WeatherCondition::Snow
        | WeatherCondition::SnowGrains
        | WeatherCondition::SnowShowers => TermColor::White,
        WeatherCondition::Thunderstorm | WeatherCondition::ThunderstormHail => TermColor::Magenta,
    }
}

/// Colour of a condition in the HUD.
pub fn condition_color(condition: WeatherCondition, is_day: bool) -> (c: TermColor)
    ensures
        c == condition_color_spec(condition, is_day),
{
    match condition {
        WeatherCondition::Clear => {
            if is_day {
                TermColor::Yellow
            } else {
                TermColor::Rgb { r: 200, g: 205, b: 235 }
            }
        },
        WeatherCondition::PartlyCloudy => TermColor::Grey,
        WeatherCondition::Cloudy | WeatherCondition::Overcast => TermColor::DarkGrey,
        WeatherCondition::Fog => TermColor::Grey,
        WeatherCondition::Drizzle
        | WeatherCondition::Rain
        | WeatherCondition::RainShowers
        | WeatherCondition::FreezingRain => TermColor::Rgb { r: 110, g: 175, b: 255 },
        WeatherCondition::Snow | WeatherCondition::SnowGrains | WeatherCondition::SnowShowers => {
            TermColor::White
        },
        WeatherCondition::Thunderstorm | WeatherCondition::ThunderstormHail => TermColor::Magenta,
    }
}

/// Russian name of a condition.
pub open spec fn name_ru_spec(condition: WeatherCondition) -> Seq<char> {
    match condition {
        WeatherCondition::Clear => "Ясно"@,
        WeatherCondition::Cloudy => "Облачно"@,
        WeatherCondition::PartlyCloudy => "Переменная облачность"@,
        WeatherCondition::Overcast => "Пасмурно"@,
        WeatherCondition::Fog => "Туман"@,
        WeatherCondition::Drizzle => "Морось"@,
        WeatherCondition::FreezingRain => "Ледяной дождь"@,
        WeatherCondition::Rain => "Дождь"@,
        WeatherCondition::Snow => "Снег"@,
        WeatherCondition::SnowGrains => "Снежная крупа"@,
        WeatherCondition::RainShowers => "Ливень"@,
        WeatherCondition::SnowShowers => "Снегопад"@,
        WeatherCondition::Thunderstorm => "Гроза"@,
        WeatherCondition::ThunderstormHail => "Гроза с градом"@,
    }
}

/// Russian names of the weather for the HUD.
pub fn condition_name_ru(condition: WeatherCondition) -> (s: &'static str)
    ensures
        s@ == name_ru_spec(condition),
{
    match condition {
        WeatherCondition::Clear => "Ясно",
        WeatherCondition::Cloudy => "Облачно",
        WeatherCondition::PartlyCloudy => "Переменная облачность",
        WeatherCondition::Overcast => "Пасмурно",
        WeatherCondition::Fog => "Туман",
        WeatherCondition::Drizzle => "Морось",
        WeatherCondition::FreezingRain => "Ледяной дождь",
        WeatherCondition::Rain => "Дождь",
        WeatherCondition::Snow => "Снег",
        WeatherCondition::SnowGrains => "Снежная крупа",
        WeatherCondition::RainShowers => "Ливень",
        WeatherCondition::SnowShowers => "Снегопад",
        WeatherCondition::Thunderstorm => "Гроза",
        WeatherCondition::ThunderstormHail => "Гроза с градом",
    }
}

/// Every condition has a name of its own in the HUD.
pub proof fn lemma_condition_names_distinct(a: WeatherCondition, b: WeatherCondition)
    requires
        a != b,
    ensures
        name_ru_spec(a) != name_ru_spec(b),
{
    reveal_strlit("Ясно");
    reveal_strlit("Облачно");
    reveal_strlit("Переменная облачность");
    reveal_strlit("Пасмурно");
    reveal_strlit("Туман");
    reveal_strlit("Морось");
    reveal_strlit("Ледяной дождь");
    reveal_strlit("Дождь");
    reveal_strlit("Снег");
    reveal_strlit("Снежная крупа");
    reveal_strlit("Ливень");
    reveal_strlit("Снегопад");
    reveal_strlit("Гроза");
    reveal_strlit("Гроза с градом");
    if name_ru_spec(a) == name_ru_spec(b) {
        assert(name_ru_spec(a).len() == name_ru_spec(b).len());
        assert(name_ru_spec(a)[0] == name_ru_spec(b)[0]);
        assert(name_ru_spec(a)[2] == name_ru_spec(b)[2]);
    }
}

/// Russian compass point (where the wind blows from) of one of the eight
/// 45-degree sectors counted clockwise from north.
pub open spec fn rumb_ru_spec(sector: nat) -> Seq<char> {
    let s = sector % 8;
    if s == 0 {
        "С"@
    } else if s == 1 {
        "СВ"@
    } else if s == 2 {
        "В"@
    } else if s == 3 {
        "ЮВ"@
    } else if s == 4 {
        "Ю"@
    } else if s == 5 {
        "ЮЗ"@
    } else if s == 6 {
        "З"@
    } else {
        "СЗ"@
    }
}

/// Compass point of a wind sector; sectors wrap around every eight.
pub fn rumb_ru(sector: usize) -> (s: &'static str)
    ensures
        s@ == rumb_ru_spec(sector as nat),
        s@ == north_south_letter(sector as nat) + east_west_letter(sector as nat),
{
    proof {
        lemma_rumb_geography(sector as nat);
    }
    match sector % 8 {
        0 => "С",
        1 => "СВ",
        2 => "В",
        3 => "ЮВ",
        4 => "Ю",
        5 => "ЮЗ",
        6 => "З",
        _ => "СЗ",
    }
}

/// Arrow pointing into one of the eight 45-degree sectors counted clockwise
/// from north.
pub open spec fn arrow_spec(sector: nat) -> char {
    let s = sector % 8;
    if s == 0 {
        '↑'
    } else if s == 1 {
        '↗'
    } else if s == 2 {
        '→'
    } else if s == 3 {
        '↘'
    } else if s == 4 {
        '↓'
    } else if s == 5 {
        '↙'
    } else if s == 6 {
        '←'
    } else {
        '↖'
    }
}

/// Arrow for a sector of the direction the wind carries to; sectors wrap
/// around every eight.
pub fn wind_arrow_for_sector(sector: usize) -> (c: char)
    ensures
        c == arrow_spec(sector as nat),
        sector % 8 == 0 ==> c == '↑',
        sector % 8 == 2 ==> c == '→',
        sector % 8 == 4 ==> c == '↓',
        sector % 8 == 6 ==> c == '←',
{
    match sector % 8 {
        0 => '↑',
        1 => '↗',
        2 => '→',
        3 => '↘',
        4 => '↓',
        5 => '↙',
        6 => '←',
        _ => '↖',
    }
}

/// The north-south letter of the compass point of a sector: north (С)
/// for the sectors within one of due north, south (Ю) for those within
/// one of due south, none for due east and due west.
pub open spec fn north_south_letter(sector: nat) -> Seq<char> {
    let k = sector % 8;
    if k == 7 || k <= 1 {
        seq!['С']
    } else if 3 <= k <= 5 {
        seq!['Ю']
    } else {
        Seq::empty()
    }
}

/// The east-west letter of the compass point of a sector: east (В) for
/// the sectors within one of due east, west (З) for those within one of
/// due west, none for due north and due south.
pub open spec fn east_west_letter(sector: nat) -> Seq<char> {
    let k = sector % 8;
    if 1 <= k <= 3 {
        seq!['В']
    } else if 5 <= k <= 7 {
        seq!['З']
    } else {
        Seq::empty()
    }
}

/// The compass letter on the other side of the world.
pub open spec fn opposite_letter(c: char) -> char {
    if c == 'С' {
        'Ю'
    } else if c == 'Ю' {
        'С'
    } else if c == 'В' {
        'З'
    } else if c == 'З' {
        'В'
    } else {
        c
    }
}

/// Compass points follow geography: a sector's point names its
/// north-south side first and its east-west side second, so due north
/// (sector 0) is "С", due east (sector 2, the wind from 90°) is "В",
/// due south "Ю" and due west (sector 6, the wind from 270°) "З"; and the
/// point four sectors on is the opposite one, letter by letter.
pub proof fn lemma_rumb_geography(sector: nat)
    ensures
        rumb_ru_spec(sector) == north_south_letter(sector) + east_west_letter(sector),
        rumb_ru_spec(sector + 4).len() == rumb_ru_spec(sector).len(),
        forall|i: int|
            0 <= i < rumb_ru_spec(sector).len() ==> #[trigger] rumb_ru_spec(sector + 4)[i]
                == opposite_letter(rumb_ru_spec(sector)[i]),
        rumb_ru_spec(0) == seq!['С'],
        rumb_ru_spec(2) == seq!['В'],
        rumb_ru_spec(4) == seq!['Ю'],
        rumb_ru_spec(6) == seq!['З'],
{
    reveal_strlit("С");
    reveal_strlit("СВ");
    reveal_strlit("В");
    reveal_strlit("ЮВ");
    reveal_strlit("Ю");
    reveal_strlit("ЮЗ");
    reveal_strlit("З");
    reveal_strlit("СЗ");
    assert((sector + 4) % 8 == (sector % 8 + 4) % 8);
    assert(rumb_ru_spec(sector) =~= north_south_letter(sector) + east_west_letter(sector));
}

/// The clockwise quarter turn of an arrow.
pub open spec fn quarter_turn(c: char) -> char {
    if c == '↑' {
        '→'
    } else if c == '→' {
        '↓'
    } else if c == '↓' {
        '←'
    } else if c == '←' {
        '↑'
    } else if c == '↗' {
        '↘'
    } else if c == '↘' {
        '↙'
    } else if c == '↙' {
        '↖'
    } else if c == '↖' {
        '↗'
    } else {
        c
    }
}

/// Arrows follow the sectors clockwise from north: sector 0 points up,
/// sector 1 up and right, and two sectors on the arrow is turned a
/// quarter turn clockwise; so sector 2 (towards the east) points right
/// and sector 6 (towards the west) left.
pub proof fn lemma_arrow_turns_with_sector(sector: nat)
    ensures
        arrow_spec(sector + 2) == quarter_turn(arrow_spec(sector)),
        arrow_spec(0) == '↑',
        arrow_spec(1) == '↗',
        arrow_spec(2) == '→',
        arrow_spec(6) == '←',
{
    assert((sector + 2) % 8 == (sector % 8 + 2) % 8);
}

/// Age of the shown data in offline mode: minutes below two hours (at
/// least 1), whole hours from then on.
pub open spec fn age_text_spec(age_secs: nat) -> Seq<char> {
    let minutes = age_secs / 60;
    if minutes < 120 {
        text::decimal(if minutes < 1 { 1 } else { minutes }) + " мин назад"@
    } else {
        text::decimal(minutes / 60) + " ч назад"@
    }
}

/// Data age for the offline caption: "N мин назад" / "N ч назад".
pub fn format_age(age_secs: u64) -> (s: String)
    ensures
        s@ == age_text_spec(age_secs as nat),
{
    let minutes = age_secs / 60;
    let mut s = String::new();
    if minutes < 120 {
        push_decimal(&mut s, if minutes < 1 { 1 } else { minutes });
        s.append(" мин назад");
    } else {
        push_decimal(&mut s, minutes / 60);
        s.append(" ч назад");
    }
    s
}

/// The offline line of the HUD at Unix time `now`.
pub open spec fn offline_status_spec(now: nat, cached_at: Option<u64>) -> Seq<char> {
    match cached_at {
        Some(at) => "ОФФЛАЙН · данные "@ + age_text_spec(
            if now >= at { (now - at) as nat } else { 0 },
        ),
        None => "ОФФЛАЙН · симуляция"@,
    }
}

/// Offline line at a given Unix time: the age of the saved data, or the
/// simulation notice when no saved data is shown.
pub fn offline_status_at(now: u64, cached_at: Option<u64>) -> (s: String)
    ensures
        s@ == offline_status_spec(now as nat, cached_at),
{
    match cached_at {
        Some(at) => {
            let mut s = String::from_str("ОФФЛАЙН · данные ");
            let age = format_age(now.saturating_sub(at));
            s.append(age.as_str());
            s
        },
        None => String::from_str("ОФФЛАЙН · симуляция"),
    }
}

/// Offline line of the HUD now.
pub fn offline_status(cached_at: Option<u64>) -> (s: String)
    ensures
        exists|now: u64| s@ == offline_status_spec(now as nat, cached_at),
{
    let now = clock::unix_now();
    offline_status_at(now, cached_at)
}

/// The location label of the HUD, given the formatted coordinates.
pub open spec fn location_label_spec(
    hide: bool,
    display: LocationDisplay,
    city: Option<Seq<char>>,
    coords: Seq<char>,
) -> Seq<char> {
    if hide {
        Seq::empty()
    } else {
        match (display, city) {
            (LocationDisplay::City, Some(c)) => c,
            (LocationDisplay::Mixed, Some(c)) => c + " ("@ + coords + ")"@,
            _ => coords,
        }
    }
}

/// Location label of the HUD: empty when hidden, otherwise the coordinates,
/// the city, or "city (coordinates)" as configured; without a city the
/// coordinates stand alone.
pub fn location_label(
    hide: bool,
    display: LocationDisplay,
    city: &Option<String>,
    coords: &str,
) -> (s: String)
    ensures
        s@ == location_label_spec(
            hide,
            display,
            match city {
                Some(c) => Some(c@),
                None => None,
            },
            coords@,
        ),
{
    if hide {
        return String::new();
    }
    match (display, city) {
        (LocationDisplay::City, Some(c)) => c.clone(),
        (LocationDisplay::Mixed, Some(c)) => {
            let mut s = c.clone();
            s.append(" (");
            s.append(coords);
            s.append(")");
            s
        },
        _ => String::from_str(coords),
    }
}

/// The sun is drawn by day under a clear, partly cloudy or cloudy sky.
pub open spec fn sun_visible_spec(is_day: bool, condition: Option<WeatherCondition>) -> bool {
    is_day && match condition {
        Some(WeatherCondition::Clear)
        | Some(WeatherCondition::PartlyCloudy)
        | Some(WeatherCondition::Cloudy) => true,
        _ => false,
    }
}

/// Whether the scene shows the sun; no weather yet means no sun.
pub fn sun_visible(is_day: bool, condition: Option<WeatherCondition>) -> (r: bool)
    ensures
        r == sun_visible_spec(is_day, condition),
{
    if !is_day {
        return false;
    }
    match condition {
        Some(WeatherCondition::Clear)
        | Some(WeatherCondition::PartlyCloudy)
        | Some(WeatherCondition::Cloudy) => true,
        _ => false,
    }
}

/// Fireflies fly on warm, clear or partly cloudy nights without
/// precipitation.
pub open spec fn fireflies_visible_spec(
    is_day: bool,
    condition: Option<WeatherCondition>,
    warm: bool,
    raining: bool,
    thunderstorm: bool,
    snowing: bool,
) -> bool {
    !is_day && match condition {
        Some(c) => warm && (c == WeatherCondition::Clear || c == WeatherCondition::PartlyCloudy)
            && !raining && !thunderstorm && !snowing,
        None => false,
    }
}

/// Whether the scene shows fireflies. `warm` says the current temperature
/// is above 15 degrees; it is read only when a condition is known.
pub fn fireflies_visible(
    is_day: bool,
    condition: Option<WeatherCondition>,
    warm: bool,
    raining: bool,
    thunderstorm: bool,
    snowing: bool,
) -> (r: bool)
    ensures
        r == fireflies_visible_spec(is_day, condition, warm, raining, thunderstorm, snowing),
{
    if is_day {
        return false;
    }
    match condition {
        Some(c) => {
            let clear_night = match c {
                WeatherCondition::Clear | WeatherCondition::PartlyCloudy => true,
                _ => false,
            };
            warm && clear_night && !raining && !thunderstorm && !snowing
        },
        None => false,
    }
}

/// Sun and fireflies never share the sky.
pub proof fn lemma_sun_and_fireflies_exclusive(
    is_day: bool,
    condition: Option<WeatherCondition>,
    warm: bool,
    raining: bool,
    thunderstorm: bool,
    snowing: bool,
)
    ensures
        !(sun_visible_spec(is_day, condition) && fireflies_visible_spec(
            is_day,
            condition,
            warm,
            raining,
            thunderstorm,
            snowing,
        )),
{
}

/// Spinner frames of the loading animation.
pub open spec fn spinner_spec() -> Seq<char> {
    seq!['|', '/', '-', '\\']
}

/// Minimum time between two spinner frames.
pub const SPINNER_FRAME_MILLIS: u128 = 100;

/// Whether the spinner moves on after `elapsed_ms` milliseconds on its
/// current frame: once a frame has been shown for 100 ms.
pub fn frame_due(elapsed_ms: u128) -> (r: bool)
    ensures
        r == (elapsed_ms >= SPINNER_FRAME_MILLIS),
{
    elapsed_ms >= SPINNER_FRAME_MILLIS
}

/// The loading spinner shown until the first weather arrives.
pub struct LoadingState {
    pub frame: usize,
    pub last_update: Instant,
    pub loading_chars: [char; 4],
}

impl LoadingState {
    /// The current frame indexes the spinner.
    pub open spec fn wf(&self) -> bool {
        self.frame < 4
    }

    pub fn new() -> (s: Self)
        ensures
            s.wf(),
            s.frame == 0,
            s.loading_chars@ == spinner_spec(),
    {
        let s = LoadingState {
            frame: 0,
            last_update: clock::instant_now(),
            loading_chars: ['|', '/', '-', '\\'],
        };
        assert(s.loading_chars@ =~= spinner_spec());
        s
    }

    /// At least 100 ms have passed since the last frame; the answer depends
    /// on the clock alone (see `frame_due` for the rule).
    pub fn should_update(&self) -> bool {
        frame_due(clock::elapsed_millis(&self.last_update))
    }

    /// Advances to the next spinner frame, cyclically; the frame's time
    /// starts now.
    pub fn next_frame(&mut self)
        requires
            old(self).frame < usize::MAX,
        ensures
            final(self).frame == (old(self).frame + 1) % 4,
            final(self).loading_chars == old(self).loading_chars,
            final(self).wf(),
    {
        self.frame = (self.frame + 1) % self.loading_chars.len();
        self.last_update = clock::instant_now();
    }

    /// The spinner character of the current frame.
    pub fn current_char(&self) -> (c: char)
        requires
            self.wf(),
        ensures
            c == self.loading_chars@[self.frame as int],
    {
        self.loading_chars[self.frame]
    }
}

impl Default for LoadingState {
    fn default() -> (s: Self)
        ensures
            s.wf(),
            s.frame == 0,
            s.loading_chars@ == spinner_spec(),
    {
        Self::new()
    }
}

/// Four frames bring the spinner back to where it was.
pub proof fn lemma_spinner_cycles(frame: nat)
    requires
        frame < 4,
    ensures
        ((((frame + 1) % 4 + 1) % 4 + 1) % 4 + 1) % 4 == frame,
{
}

/// A coloured piece of a HUD line.
pub type HudSpan = (String, TermColor);

/// Separator between the pieces of a HUD line.
pub open spec fn separator_spec() -> Seq<char> {
    " · "@
}

/// Text of a HUD line: its pieces one after another.
pub open spec fn spans_text(spans: Seq<HudSpan>) -> Seq<char>
    decreases spans.len(),
{
    if spans.len() == 0 {
        Seq::empty()
    } else {
        spans_text(spans.drop_last()) + spans.last().0@
    }
}

/// Lines joined with line feeds.
pub open spec fn join_lines(lines: Seq<Seq<char>>) -> Seq<char>
    decreases lines.len(),
{
    if lines.len() == 0 {
        Seq::empty()
    } else if lines.len() == 1 {
        lines[0]
    } else {
        join_lines(lines.drop_last()) + "\n"@ + lines.last()
    }
}

/// Texts of the lines of a HUD block.
pub open spec fn block_lines(block: Seq<Vec<HudSpan>>) -> Seq<Seq<char>> {
    Seq::new(block.len(), |k: int| spans_text(block[k]@))
}

/// Text of one HUD line.
pub fn line_text(line: &Vec<HudSpan>) -> (s: String)
    ensures
        s@ == spans_text(line@),
{
    let mut s = String::new();
    let mut i: usize = 0;
    while i < line.len()
        invariant
            i <= line@.len(),
            s@ == spans_text(line@.take(i as int)),
        decreases line@.len() - i,
    {
        s.append(line[i].0.as_str());
        assert(line@.take(i + 1).drop_last() =~= line@.take(i as int));
        i = i + 1;
    }
    assert(line@.take(line@.len() as int) =~= line@);
    s
}

/// Text of the lines of a block from line `from` on, joined by line feeds.
fn lines_text_from(block: &Vec<Vec<HudSpan>>, from: usize) -> (s: String)
    requires
        from <= block@.len(),
    ensures
        s@ == join_lines(block_lines(block@).skip(from as int)),
{
    let mut s = String::new();
    let mut i: usize = from;
    let ghost lines = block_lines(block@);
    assert(lines.subrange(from as int, from as int) =~= Seq::<Seq<char>>::empty());
    while i < block.len()
        invariant
            from <= i <= block@.len(),
            lines == block_lines(block@),
            s@ == join_lines(lines.subrange(from as int, i as int)),
        decreases block@.len() - i,
    {
        if i > from {
            s.append("\n");
        }
        let t = line_text(&block[i]);
        s.append(t.as_str());
        assert(lines.subrange(from as int, i + 1).drop_last() =~= lines.subrange(
            from as int,
            i as int,
        ));
        assert(s@ =~= join_lines(lines.subrange(from as int, i + 1)));
        i = i + 1;
    }
    assert(lines.subrange(from as int, block@.len() as int) =~= lines.skip(from as int));
    s
}

/// All the text of a HUD block, lines joined by line feeds.
pub fn hud_text(block: &Vec<Vec<HudSpan>>) -> (s: String)
    ensures
        s@ == join_lines(block_lines(block@)),
{
    let s = lines_text_from(block, 0);
    assert(block_lines(block@).skip(0) =~= block_lines(block@));
    s
}

/// Text of the first line of a HUD block (empty for an empty block): the
/// flat weather summary.
pub fn first_line_text(block: &Vec<Vec<HudSpan>>) -> (s: String)
    ensures
        block@.len() == 0 ==> s@ == Seq::<char>::empty(),
        block@.len() > 0 ==> s@ == spans_text(block@[0]@),
{
    if block.len() == 0 {
        String::new()
    } else {
        line_text(&block[0])
    }
}

/// Text of the lines after the first, joined by line feeds: the flat
/// forecast summary.
pub fn rest_lines_text(block: &Vec<Vec<HudSpan>>) -> (s: String)
    ensures
        block@.len() <= 1 ==> s@ == Seq::<char>::empty(),
        block@.len() > 1 ==> s@ == join_lines(block_lines(block@).skip(1)),
{
    if block.len() <= 1 {
        String::new()
    } else {
        lines_text_from(block, 1)
    }
}

pub proof fn lemma_join_split(lines: Seq<Seq<char>>)
    requires
        lines.len() >= 2,
    ensures
        join_lines(lines) == lines[0] + "\n"@ + join_lines(lines.skip(1)),
    decreases lines.len(),
{
    if lines.len() == 2 {
        assert(lines.skip(1) =~= seq![lines[1]]);
        assert(lines.drop_last() =~= seq![lines[0]]);
        assert(join_lines(lines.drop_last()) == lines[0]);
        assert(join_lines(lines.skip(1)) == lines[1]);
        assert(join_lines(lines) == join_lines(lines.drop_last()) + "\n"@ + lines.last());
    } else {
        let init = lines.drop_last();
        let tail = lines.skip(1);
        lemma_join_split(init);
        assert(init.skip(1) =~= tail.drop_last());
        assert(tail.last() == lines.last());
        assert(init[0] == lines[0]);
        assert(join_lines(tail) == join_lines(tail.drop_last()) + "\n"@ + tail.last());
        assert(join_lines(lines) == join_lines(init) + "\n"@ + lines.last());
        assert(join_lines(lines) =~= lines[0] + "\n"@ + join_lines(tail));
    }
}

/// Splitting joined lines gives them back, when no line holds a line
/// feed or a carriage return and the last line is not empty.
pub proof fn lemma_lines_of_joined(lines: Seq<Seq<char>>)
    requires
        forall|k: int, i: int|
            0 <= k < lines.len() && 0 <= i < lines[k].len() ==> #[trigger] lines[k][i] != '\n'
                && lines[k][i] != '\r',
        lines.len() > 0 ==> lines.last().len() > 0,
    ensures
        text::lines_spec(join_lines(lines)) == lines,
    decreases lines.len(),
{
    if lines.len() == 1 {
        let l = lines[0];
        assert(join_lines(lines) == l);
        assert forall|i: int| 0 <= i < l.len() implies l[i] != '\n' by {
            assert(lines[0][i] != '\n');
        }
        text::lemma_next_index_of_absent(l, 0, '\n');
        assert(text::lines_spec(l) == seq![l]);
        assert(text::lines_spec(join_lines(lines)) =~= lines);
    } else if lines.len() >= 2 {
        lemma_join_split(lines);
        let head = lines[0];
        let tail = lines.skip(1);
        let s = head + "\n"@ + join_lines(tail);
        reveal_strlit("\n");
        assert("\n"@.len() == 1 && "\n"@[0] == '\n');
        assert forall|k: int, i: int|
            0 <= k < tail.len() && 0 <= i < tail[k].len() implies #[trigger] tail[k][i] != '\n'
                && tail[k][i] != '\r' by {
            assert(tail[k] == lines[k + 1]);
            assert(lines[k + 1][i] != '\n');
        }
        assert(tail.last() == lines.last());
        lemma_lines_of_joined(tail);
        let j = head.len() as int;
        assert(s[j] == '\n');
        assert forall|k: int| 0 <= k < j implies s[k] != '\n' by {
            assert(s[k] == head[k]);
            assert(lines[0][k] != '\n');
        }
        text::lemma_next_index_of_found(s, 0, j, '\n');
        assert(s.take(j) =~= head);
        assert(s.skip(j + 1) =~= join_lines(tail));
        if head.len() > 0 {
            assert(lines[0][head.len() - 1] != '\r');
        }
        assert(text::strip_cr(head) == head);
        assert(text::lines_spec(s) == seq![head] + tail);
        assert(seq![head] + tail =~= lines);
    }
}

/// The flat summary (first line) and the flat forecast (the other lines)
/// together give the whole HUD text back.
pub proof fn lemma_summary_and_forecast_rebuild_hud(block: Seq<Vec<HudSpan>>)
    requires
        block.len() >= 1,
    ensures
        block.len() == 1 ==> join_lines(block_lines(block)) == spans_text(block[0]@),
        block.len() > 1 ==> join_lines(block_lines(block)) == spans_text(block[0]@) + "\n"@
            + join_lines(block_lines(block).skip(1)),
{
    if block.len() > 1 {
        lemma_join_split(block_lines(block));
    }
}

/// Colour of the HUD's clock.
pub open spec fn clock_color() -> TermColor {
    TermColor::Cyan
}

/// Dim colour of separators and secondary text.
pub open spec fn dim_color() -> TermColor {
    TermColor::DarkGrey
}

/// First HUD line: clock · location (when shown) · glyph and name of the
/// condition in its colour.
pub open spec fn title_line_spec(
    clock: Seq<char>,
    location: Seq<char>,
    condition: WeatherCondition,
    is_day: bool,
) -> Seq<(Seq<char>, TermColor)> {
    let head = seq![(clock, clock_color())];
    let with_location = if location.len() > 0 {
        head + seq![(separator_spec(), dim_color()), (location, TermColor::White)]
    } else {
        head
    };
    with_location + seq![
        (separator_spec(), dim_color()),
        (
            seq![glyph_spec(condition, is_day), ' '] + name_ru_spec(condition),
            condition_color_spec(condition, is_day),
        ),
    ]
}

/// Views of the pieces of a HUD line.
pub open spec fn spans_view(line: Seq<HudSpan>) -> Seq<(Seq<char>, TermColor)> {
    Seq::new(line.len(), |k: int| (line[k].0@, line[k].1))
}

fn span(text: String, color: TermColor) -> (r: HudSpan)
    ensures
        r.0@ == text@,
        r.1 == color,
{
    (text, color)
}

/// The first HUD line for the current weather.
pub fn title_line(clock: &str, location: &str, condition: WeatherCondition, is_day: bool) -> (r:
    Vec<HudSpan>)
    ensures
        spans_view(r@) == title_line_spec(clock@, location@, condition, is_day),
{
    let mut line: Vec<HudSpan> = Vec::new();
    line.push(span(String::from_str(clock), TermColor::Cyan));
    if location.unicode_len() > 0 {
        line.push(span(String::from_str(" · "), TermColor::DarkGrey));
        line.push(span(String::from_str(location), TermColor::White));
    }
    line.push(span(String::from_str(" · "), TermColor::DarkGrey));
    let mut label = String::new();
    push_char(&mut label, condition_glyph(condition, is_day));
    push_char(&mut label, ' ');
    label.append(condition_name_ru(condition));
    assert(label@ =~= seq![glyph_spec(condition, is_day), ' '] + name_ru_spec(condition));
    line.push(span(label, condition_color(condition, is_day)));
    let ghost head = seq![(clock@, clock_color())];
    let ghost with_location = if location@.len() > 0 {
        head + seq![(separator_spec(), dim_color()), (location@, TermColor::White)]
    } else {
        head
    };
    assert(spans_view(line@) =~= with_location + seq![
        (separator_spec(), dim_color()),
        (
            seq![glyph_spec(condition, is_day), ' '] + name_ru_spec(condition),
            condition_color_spec(condition, is_day),
        ),
    ]);
    line
}

/// HUD line while the weather is still loading: the clock and the spinner.
pub fn loading_line(clock: &str, spinner: char) -> (r: Vec<HudSpan>)
    ensures
        spans_view(r@) == seq![
            (clock@, clock_color()),
            ("  загрузка погоды "@.push(spinner), dim_color()),
        ],
{
    let mut line: Vec<HudSpan> = Vec::new();
    line.push(span(String::from_str(clock), TermColor::Cyan));
    let mut text = String::from_str("  загрузка погоды ");
    push_char(&mut text, spinner);
    line.push(span(text, TermColor::DarkGrey));
    assert(spans_view(line@) =~= seq![
        (clock@, clock_color()),
        ("  загрузка погоды "@.push(spinner), dim_color()),
    ]);
    line
}

/// HUD line of the offline state, in alarm red.
pub fn offline_line(cached_at: Option<u64>) -> (r: Vec<HudSpan>)
    ensures
        r@.len() == 1,
        exists|now: u64| r@[0].0@ == offline_status_spec(now as nat, cached_at),
        r@[0].1 == (TermColor::Rgb { r: 255, g: 110, b: 110 }),
{
    let mut line: Vec<HudSpan> = Vec::new();
    line.push(span(offline_status(cached_at), TermColor::Rgb { r: 255, g: 110, b: 110 }));
    line
}

/// The HUD's own state: offline mode and data ages, the spinner, the
/// location settings, the clock minute last shown, and the text of the
/// last composed HUD block. The weather itself (with its measurements)
/// is kept by the front end, which composes the block's weather lines.
pub struct HudState {
    pub is_offline: bool,
    pub loading_state: LoadingState,
    pub cached_weather_info: String,
    pub cached_forecast_info: String,
    /// HUD block: lines of coloured pieces, drawn in a frame.
    pub hud_block: Vec<Vec<HudSpan>>,
    pub weather_info_needs_update: bool,
    pub city_name: Option<String>,
    pub location_display: LocationDisplay,
    pub hide_location: bool,
    pub use_feels_like_temperature: bool,
    pub hide_quit_hint: bool,
    /// Minute of the last HUD formatting: a new minute refreshes the clock.
    pub last_clock_minute: u32,
    /// Unix time of the data shown offline (for the age caption).
    pub offline_data_cached_at: Option<u64>,
    /// Unix time of the last successful weather update.
    pub last_success_at: Option<u64>,
}

/// The condition text of the HUD: the Russian name, or "Загрузка" before
/// the first weather.
pub open spec fn condition_text_spec(condition: Option<WeatherCondition>) -> Seq<char> {
    match condition {
        Some(c) => name_ru_spec(c),
        None => "Загрузка"@,
    }
}

impl HudState {
    /// The spinner is on one of its frames.
    pub open spec fn wf(&self) -> bool {
        self.loading_state.wf()
    }

    pub fn new(
        city_name: Option<String>,
        location_display: LocationDisplay,
        hide_location: bool,
        use_feels_like_temperature: bool,
        hide_quit_hint: bool,
    ) -> (s: Self)
        ensures
            s.wf(),
            !s.is_offline,
            s.loading_state.frame == 0,
            s.cached_weather_info@ == Seq::<char>::empty(),
            s.cached_forecast_info@ == Seq::<char>::empty(),
            s.hud_block@.len() == 0,
            s.weather_info_needs_update,
            s.city_name == city_name,
            s.location_display == location_display,
            s.hide_location == hide_location,
            s.use_feels_like_temperature == use_feels_like_temperature,
            s.hide_quit_hint == hide_quit_hint,
            s.last_clock_minute == u32::MAX,
            s.offline_data_cached_at is None,
            s.last_success_at is None,
    {
        HudState {
            is_offline: false,
            loading_state: LoadingState::new(),
            cached_weather_info: String::new(),
            cached_forecast_info: String::new(),
            hud_block: Vec::new(),
            weather_info_needs_update: true,
            city_name,
            location_display,
            hide_location,
            use_feels_like_temperature,
            hide_quit_hint,
            last_clock_minute: u32::MAX,
            offline_data_cached_at: None,
            last_success_at: None,
        }
    }

    /// Notes the minute shown by the clock; a new minute asks for a redraw
    /// so that the clock does not lag.
    pub fn tick_clock_at(&mut self, minute: u32)
        ensures
            final(self).last_clock_minute == minute,
            final(self).weather_info_needs_update == (old(self).weather_info_needs_update
                || minute != old(self).last_clock_minute),
            final(self).is_offline == old(self).is_offline,
            final(self).offline_data_cached_at == old(self).offline_data_cached_at,
            final(self).last_success_at == old(self).last_success_at,
            final(self).loading_state == old(self).loading_state,
            final(self).hud_block == old(self).hud_block,
            final(self).cached_weather_info == old(self).cached_weather_info,
            final(self).cached_forecast_info == old(self).cached_forecast_info,
            *final(self) == (HudState {
                last_clock_minute: minute,
                weather_info_needs_update: final(self).weather_info_needs_update,
                ..*old(self)
            }),
    {
        if minute != self.last_clock_minute {
            self.last_clock_minute = minute;
            self.weather_info_needs_update = true;
        }
    }

    /// Once a minute asks for a redraw of the HUD, so that the clock keeps up.
    /// When the local time cannot be read, nothing changes.
    pub fn tick_clock(&mut self)
        ensures
            *final(self) == *old(self) || {
                &&& final(self).last_clock_minute <= 59
                &&& final(self).weather_info_needs_update == (old(self).weather_info_needs_update
                    || final(self).last_clock_minute != old(self).last_clock_minute)
                &&& *final(self) == (HudState {
                    last_clock_minute: final(self).last_clock_minute,
                    weather_info_needs_update: final(self).weather_info_needs_update,
                    ..*old(self)
                })
            },
    {
        match clock::read_local_clock() {
            Some(now) => self.tick_clock_at(now.minute),
            None => {},
        }
    }

    /// Fresh weather arrived: online again, no offline data age, the
    /// success time is now, and the HUD is to be redrawn.
    pub fn weather_updated(&mut self)
        ensures
            !final(self).is_offline,
            final(self).offline_data_cached_at is None,
            final(self).last_success_at is Some,
            final(self).weather_info_needs_update,
            final(self).last_clock_minute == old(self).last_clock_minute,
            final(self).loading_state == old(self).loading_state,
    {
        self.is_offline = false;
        self.offline_data_cached_at = None;
        self.last_success_at = Some(clock::unix_now());
        self.weather_info_needs_update = true;
    }

    /// Offline with saved data: the HUD shows their age.
    pub fn set_offline_with_data_age(&mut self, cached_at: u64)
        ensures
            final(self).is_offline,
            final(self).offline_data_cached_at == Some(cached_at),
            final(self).weather_info_needs_update,
            final(self).last_success_at == old(self).last_success_at,
            final(self).loading_state == old(self).loading_state,
    {
        self.offline_data_cached_at = Some(cached_at);
        self.set_offline_mode(true);
    }

    pub fn set_offline_mode(&mut self, offline: bool)
        ensures
            final(self).is_offline == offline,
            final(self).weather_info_needs_update,
            final(self).offline_data_cached_at == old(self).offline_data_cached_at,
            final(self).last_success_at == old(self).last_success_at,
            final(self).loading_state == old(self).loading_state,
    {
        self.is_offline = offline;
        self.weather_info_needs_update = true;
    }

    /// Advances the spinner when `due` (its frame time has passed) and then
    /// asks for a redraw; when not due, nothing changes.
    pub fn advance_spinner(&mut self, due: bool)
        requires
            old(self).wf(),
        ensures
            final(self).wf(),
            !due ==> *final(self) == *old(self),
            due ==> final(self).loading_state.frame == (old(self).loading_state.frame + 1) % 4,
            due ==> final(self).loading_state.loading_chars == old(self).loading_state.loading_chars,
            due ==> *final(self) == (HudState {
                loading_state: final(self).loading_state,
                weather_info_needs_update: true,
                ..*old(self)
            }),
    {
        if due {
            self.loading_state.next_frame();
            self.weather_info_needs_update = true;
        }
    }

    /// Advances the spinner when its frame time has passed (by the clock)
    /// and then asks for a redraw. Either nothing changes, or the spinner is
    /// on its next frame and a redraw is pending, all else as it was.
    pub fn update_loading_animation(&mut self)
        requires
            old(self).wf(),
        ensures
            final(self).wf(),
            *final(self) == *old(self) || {
                &&& final(self).loading_state.frame == (old(self).loading_state.frame + 1) % 4
                &&& final(self).loading_state.loading_chars == old(self).loading_state.loading_chars
                &&& *final(self) == (HudState {
                    loading_state: final(self).loading_state,
                    weather_info_needs_update: true,
                    ..*old(self)
                })
            },
    {
        let due = self.loading_state.should_update();
        self.advance_spinner(due);
    }

    /// The condition text for the current weather (`None` before the first).
    pub fn get_condition_text(&self, condition: Option<WeatherCondition>) -> (s: &'static str)
        ensures
            s@ == condition_text_spec(condition),
    {
        match condition {
            Some(c) => condition_name_ru(c),
            None => "Загрузка",
        }
    }

    /// The location label for the given formatted coordinates.
    pub fn location_text(&self, coords: &str) -> (s: String)
        ensures
            s@ == location_label_spec(
                self.hide_location,
                self.location_display,
                match self.city_name {
                    Some(c) => Some(c@),
                    None => None,
                },
                coords@,
            ),
    {
        location_label(self.hide_location, self.location_display, &self.city_name, coords)
    }

    /// The offline line of the HUD, when offline.
    pub fn offline_hud_line(&self) -> (r: Option<Vec<HudSpan>>)
        ensures
            r is Some <==> self.is_offline,
            r matches Some(line) ==> line@.len() == 1 && exists|now: u64|
                line@[0].0@ == offline_status_spec(now as nat, self.offline_data_cached_at),
    {
        if self.is_offline {
            Some(offline_line(self.offline_data_cached_at))
        } else {
            None
        }
    }

    /// Installs a freshly composed HUD block: the flat weather summary is
    /// its first line, the flat forecast the other lines, and no redraw is
    /// pending any more.
    pub fn set_hud_block(&mut self, block: Vec<Vec<HudSpan>>)
        ensures
            final(self).hud_block@ == block@,
            block@.len() == 0 ==> final(self).cached_weather_info@ == Seq::<char>::empty(),
            block@.len() > 0 ==> final(self).cached_weather_info@ == spans_text(block@[0]@),
            block@.len() <= 1 ==> final(self).cached_forecast_info@ == Seq::<char>::empty(),
            block@.len() > 1 ==> final(self).cached_forecast_info@ == join_lines(
                block_lines(block@).skip(1),
            ),
            !final(self).weather_info_needs_update,
            final(self).is_offline == old(self).is_offline,
            final(self).loading_state == old(self).loading_state,
            final(self).offline_data_cached_at == old(self).offline_data_cached_at,
            final(self).last_success_at == old(self).last_success_at,
            final(self).last_clock_minute == old(self).last_clock_minute,
    {
        self.cached_weather_info = first_line_text(&block);
        self.cached_forecast_info = rest_lines_text(&block);
        self.hud_block = block;
        self.weather_info_needs_update = false;
    }

    /// Recomposes the HUD block when a redraw is pending, with the offline
    /// notice's data age taken at Unix time `now`: the weather's block, or
    /// the loading line until the first weather. `coords` are the
    /// formatted coordinates of the location.
    pub fn update_cached_info_at(
        &mut self,
        now: u64,
        clock: &str,
        coords: &str,
        weather: Option<&WeatherLines>,
    )
        requires
            old(self).wf(),
        ensures
            final(self).wf(),
            !old(self).weather_info_needs_update ==> *final(self) == *old(self),
            old(self).weather_info_needs_update ==> {
                &&& block_view(final(self).hud_block@) == hud_block_spec(
                    *old(self),
                    now as nat,
                    clock@,
                    coords@,
                    weather,
                )
                &&& !final(self).weather_info_needs_update
                &&& final(self).hud_block@.len() > 0
                &&& final(self).cached_weather_info@ == spans_text(final(self).hud_block@[0]@)
                &&& final(self).hud_block@.len() == 1 ==> final(self).cached_forecast_info@
                    == Seq::<char>::empty()
                &&& final(self).hud_block@.len() > 1 ==> final(self).cached_forecast_info@
                    == join_lines(block_lines(final(self).hud_block@).skip(1))
                &&& final(self).is_offline == old(self).is_offline
                &&& final(self).offline_data_cached_at == old(self).offline_data_cached_at
                &&& final(self).loading_state == old(self).loading_state
                &&& final(self).last_clock_minute == old(self).last_clock_minute
            },
    {
        if !self.weather_info_needs_update {
            return;
        }
        let location = self.location_text(coords);
        let block = match weather {
            Some(w) => {
                let offline = if self.is_offline {
                    Some(offline_status_at(now, self.offline_data_cached_at))
                } else {
                    None
                };
                weather_block(clock, location.as_str(), w, offline)
            },
            None => {
                let mut block: Vec<Vec<HudSpan>> = Vec::new();
                block.push(loading_line(clock, self.loading_state.current_char()));
                assert(block_view(block@) =~~= seq![
                    seq![
                        (clock@, clock_color()),
                        (
                            "  загрузка погоды "@.push(
                                self.loading_state.loading_chars@[self.loading_state.frame as int],
                            ),
                            dim_color(),
                        ),
                    ],
                ]);
                block
            },
        };
        let ghost b = block@;
        self.set_hud_block(block);
        assert(self.hud_block@ == b);
        assert(block_view(self.hud_block@) == hud_block_spec(
            *old(self),
            now as nat,
            clock@,
            coords@,
            weather,
        ));
        assert(self.hud_block@.len() > 0);
    }

    /// Recomposes the HUD block when a redraw is pending; the offline
    /// notice's data age is taken now (the clock is read only then).
    pub fn update_cached_info(&mut self, clock: &str, coords: &str, weather: Option<&WeatherLines>)
        requires
            old(self).wf(),
        ensures
            final(self).wf(),
            !old(self).weather_info_needs_update ==> *final(self) == *old(self),
            old(self).weather_info_needs_update ==> {
                &&& !final(self).weather_info_needs_update
                &&& exists|now: u64|
                    block_view(final(self).hud_block@) == hud_block_spec(
                        *old(self),
                        now as nat,
                        clock@,
                        coords@,
                        weather,
                    )
                &&& final(self).hud_block@.len() > 0
                &&& final(self).cached_weather_info@ == spans_text(final(self).hud_block@[0]@)
                &&& final(self).hud_block@.len() == 1 ==> final(self).cached_forecast_info@
                    == Seq::<char>::empty()
                &&& final(self).hud_block@.len() > 1 ==> final(self).cached_forecast_info@
                    == join_lines(block_lines(final(self).hud_block@).skip(1))
                &&& final(self).is_offline == old(self).is_offline
                &&& final(self).offline_data_cached_at == old(self).offline_data_cached_at
                &&& final(self).loading_state == old(self).loading_state
                &&& final(self).last_clock_minute == old(self).last_clock_minute
            },
    {
        if !self.weather_info_needs_update {
            return;
        }
        let now = clock::unix_now();
        self.update_cached_info_at(now, clock, coords, weather);
    }

    /// All the text of the HUD block in one string.
    pub fn hud_text(&self) -> (s: String)
        ensures
            s@ == join_lines(block_lines(self.hud_block@)),
    {
        hud_text(&self.hud_block)
    }
}

/// The HUD block for a state: with a weather report, its block with the
/// location label and, when offline, the offline notice at Unix time
/// `now`; before the first report, the clock and the spinner.
pub open spec fn hud_block_spec(
    s: HudState,
    now: nat,
    clock: Seq<char>,
    coords: Seq<char>,
    weather: Option<&WeatherLines>,
) -> Seq<Seq<(Seq<char>, TermColor)>> {
    match weather {
        Some(w) => weather_block_spec(
            clock,
            location_label_spec(
                s.hide_location,
                s.location_display,
                match s.city_name {
                    Some(c) => Some(c@),
                    None => None,
                },
                coords,
            ),
            *w,
            if s.is_offline {
                Some(offline_status_spec(now, s.offline_data_cached_at))
            } else {
                None
            },
        ),
        None => seq![
            seq![
                (clock, clock_color()),
                (
                    "  загрузка погоды "@.push(s.loading_state.loading_chars@[s.loading_state.frame as int]),
                    dim_color(),
                ),
            ],
        ],
    }
}

} // verus!
