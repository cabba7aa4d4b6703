//! Life in the house: on a dark evening the windows glow brightly, deep at
//! night they glow dimly, and in the daytime heat the casements open.

use vstd::prelude::*;
use crate::animation::airplanes::{lines_view, pad_char};
use crate::animation::{house_left, house_left_column};
use crate::canvas::{put_text, text_cells, Cell, Paint};
use crate::clock;
use crate::color::TermColor;
use crate::text;
use crate::text::{push_char, split_lines};

verus! {

/// A window in the house art: offset of its frame and the frame's width.
#[derive(Debug, Clone, Copy, PartialEq, Eq, Structural)]
pub struct Window {
    pub dx: i16,
    pub dy: i16,
    pub len: i16,
}

/// Windows of one art line from column `i` on: each `[` with a later `]`
/// opens a window that spans up to and including the first such `]`.
pub open spec fn windows_in_line(line: Seq<char>, dy: int, i: int) -> Seq<Window>
    decreases line.len() - i,
{
    if i < 0 || i >= line.len() {
        Seq::empty()
    } else if line[i] == '[' && text::next_index_of(line, i, ']') < line.len() {
        let j = text::next_index_of(line, i, ']');
        proof {
            text::lemma_next_index_of_bounds(line, i, ']');
        }
        seq![Window { dx: i as i16, dy: dy as i16, len: (j - i + 1) as i16 }] + windows_in_line(
            line,
            dy,
            j + 1,
        )
    } else {
        windows_in_line(line, dy, i + 1)
    }
}

/// Windows of the first `n` lines of the art, line by line.
pub open spec fn windows_of(lines: Seq<Seq<char>>, n: int) -> Seq<Window>
    decreases n,
{
    if n <= 0 {
        Seq::empty()
    } else {
        windows_of(lines, n - 1) + windows_in_line(lines[n - 1], n - 1, 0)
    }
}

/// Windows of the whole house art.
pub open spec fn find_windows_spec(art: Seq<char>) -> Seq<Window> {
    windows_of(text::lines_spec(art), text::lines_spec(art).len() as int)
}

/// Index of the first `]` at or after `from`, or the line's length.
fn find_close(line: &str, from: usize) -> (k: usize)
    requires
        from <= line@.len(),
    ensures
        k == text::next_index_of(line@, from as int, ']'),
        from <= k <= line@.len(),
{
    let n = line.unicode_len();
    let mut k = from;
    let mut searching = true;
    while searching && k < n
        invariant
            n == line@.len(),
            from <= k <= n,
            forall|m: int| from <= m < k ==> line@[m] != ']',
            !searching ==> k < n && line@[k as int] == ']',
        decreases n - k + (if searching { 1int } else { 0int }),
    {
        if line.get_char(k) == ']' {
            searching = false;
        } else {
            k = k + 1;
        }
    }
    proof {
        if k < n {
            text::lemma_next_index_of_found(line@, from as int, k as int, ']');
        } else {
            text::lemma_next_index_of_absent(line@, from as int, ']');
        }
    }
    k
}

/// Windows of one line of the art.
fn windows_of_line(line: &str, dy: usize, out: &mut Vec<Window>)
    ensures
        final(out)@ == old(out)@ + windows_in_line(line@, dy as int, 0),
{
    let n = line.unicode_len();
    let mut i: usize = 0;
    let ghost start = out@;
    while i < n
        invariant
            n == line@.len(),
            i <= n,
            start + windows_in_line(line@, dy as int, 0) == out@ + windows_in_line(
                line@,
                dy as int,
                i as int,
            ),
        decreases n - i,
    {
        if line.get_char(i) == '[' {
            let close = find_close(line, i);
            if close < n {
                out.push(Window { dx: i as i16, dy: dy as i16, len: (close - i + 1) as i16 });
                i = close + 1;
                continue;
            }
        }
        i = i + 1;
    }
    assert(out@ + windows_in_line(line@, dy as int, i as int) =~= out@);
}

/// Finds the windows (`[...]` frames) in the house art.
pub fn find_windows(house_art: &str) -> (r: Vec<Window>)
    ensures
        r@ == find_windows_spec(house_art@),
{
    let lines = split_lines(house_art);
    let ghost lv = text::lines_spec(house_art@);
    let mut out: Vec<Window> = Vec::new();
    let mut dy: usize = 0;
    while dy < lines.len()
        invariant
            lines@.len() == lv.len(),
            forall|k: int| 0 <= k < lines@.len() ==> #[trigger] lines@[k]@ == lv[k],
            dy <= lines@.len(),
            out@ == windows_of(lv, dy as int),
        decreases lines@.len() - dy,
    {
        windows_of_line(lines[dy].as_str(), dy, &mut out);
        assert(lines@[dy as int]@ == lv[dy as int]);
        dy = dy + 1;
    }
    out
}

/// What the house looks like now.
#[derive(Debug, Clone, Copy, PartialEq, Eq, Structural)]
pub enum HouseMood {
    /// Daytime, nothing highlighted.
    Plain,
    /// Daytime heat: casements open.
    WindowsOpen,
    /// Dark evening: windows glow brightly.
    EveningLight,
    /// Deep night: dim light.
    NightLight,
}

/// The house's mood by daylight, heat (above 24 degrees) and local hour:
/// bright windows until 23:00, dim ones until 6:00.
pub open spec fn mood_spec(is_day: bool, hot: bool, hour: u32) -> HouseMood {
    if is_day {
        if hot {
            HouseMood::WindowsOpen
        } else {
            HouseMood::Plain
        }
    } else if 6 <= hour < 23 {
        HouseMood::EveningLight
    } else {
        HouseMood::NightLight
    }
}

/// The house's mood at a given local hour.
pub fn mood_at(is_day: bool, hot: bool, hour: u32) -> (m: HouseMood)
    ensures
        m == mood_spec(is_day, hot, hour),
        is_day ==> (m == HouseMood::WindowsOpen <==> hot) && m != HouseMood::EveningLight
            && m != HouseMood::NightLight,
        !is_day ==> (m == HouseMood::EveningLight <==> (6 <= hour && hour <= 22)),
        !is_day ==> (m == HouseMood::NightLight <==> (hour <= 5 || hour >= 23)),
{
    if is_day {
        if hot {
            HouseMood::WindowsOpen
        } else {
            HouseMood::Plain
        }
    } else if 6 <= hour && hour < 23 {
        HouseMood::EveningLight
    } else {
        HouseMood::NightLight
    }
}

/// The windows of the house, the lines of its art and the terminal it is
/// drawn on.
pub struct HouseLifeSystem {
    pub windows: Vec<Window>,
    pub art_lines: Vec<String>,
    pub terminal_width: u16,
    pub terminal_height: u16,
}

impl HouseLifeSystem {
    /// Finds the windows in the house art that the scene draws.
    pub fn new(terminal_width: u16, terminal_height: u16, house_art: &str) -> (s: Self)
        ensures
            s.windows@ == find_windows_spec(house_art@),
            lines_view(s.art_lines@) == text::lines_spec(house_art@),
            s.terminal_width == terminal_width,
            s.terminal_height == terminal_height,
    {
        let art_lines = split_lines(house_art);
        HouseLifeSystem { windows: find_windows(house_art), art_lines, terminal_width, terminal_height }
    }

    /// The house's mood now; the local hour is read only at night (a night
    /// whose hour cannot be read counts as deep night).
    /// `hot` says the temperature is above 24 degrees.
    pub fn mood(is_day: bool, hot: bool) -> (m: HouseMood)
        ensures
            is_day ==> m == mood_spec(is_day, hot, 0),
            !is_day ==> exists|hour: u32| hour <= 23 && m == mood_spec(is_day, hot, hour),
    {
        if is_day {
            mood_at(is_day, hot, 0)
        } else {
            match clock::read_local_clock() {
                Some(now) => mood_at(is_day, hot, now.hour),
                None => mood_at(is_day, hot, 0),
            }
        }
    }

    /// The cells of the windows for the house's mood, the house being drawn
    /// in the middle of the screen on the ground row `horizon_y`.
    pub fn render_cells(&self, mood: HouseMood, horizon_y: u16, house_width: u16, house_height: u16) -> (cells:
        Vec<Cell>)
        ensures
            cells@ == house_cells_spec(
                self.windows@,
                lines_view(self.art_lines@),
                mood,
                house_left(self.terminal_width, house_width),
                horizon_y - house_height,
                self.terminal_width as int,
                self.terminal_height as int,
            ),
    {
        let ghost lines = lines_view(self.art_lines@);
        let mut cells: Vec<Cell> = Vec::new();
        let color = match mood {
            HouseMood::Plain => {
                return cells;
            },
            HouseMood::WindowsOpen => TermColor::Yellow,
            HouseMood::EveningLight => TermColor::Rgb { r: 255, g: 205, b: 95 },
            HouseMood::NightLight => TermColor::Rgb { r: 140, g: 100, b: 45 },
        };
        let open = mood == HouseMood::WindowsOpen;
        let house_x = house_left_column(self.terminal_width, house_width) as i64;
        let house_y: i64 = horizon_y as i64 - house_height as i64;
        let mut k: usize = 0;
        while k < self.windows.len()
            invariant
                lines == lines_view(self.art_lines@),
                k <= self.windows@.len(),
                color == window_color(mood),
                open == (mood == HouseMood::WindowsOpen),
                mood != HouseMood::Plain,
                house_x == house_left(self.terminal_width, house_width),
                house_y == horizon_y - house_height,
                cells@ == house_cells_spec(
                    self.windows@.take(k as int),
                    lines,
                    mood,
                    house_x as int,
                    house_y as int,
                    self.terminal_width as int,
                    self.terminal_height as int,
                ),
            decreases self.windows@.len() - k,
        {
            let w = self.windows[k];
            assert(self.windows@.take(k + 1).drop_last() =~= self.windows@.take(k as int));
            if 0 <= w.dy && (w.dy as usize) < self.art_lines.len() {
                let line = self.art_lines[w.dy as usize].as_str();
                let row = window_row_text(line, w, open);
                put_text(
                    &mut cells,
                    house_x + w.dx as i64,
                    house_y + w.dy as i64,
                    row.as_str(),
                    false,
                    Paint::Solid(color),
                    self.terminal_width,
                    self.terminal_height,
                );
            }
            k = k + 1;
        }
        assert(self.windows@.take(self.windows@.len() as int) =~= self.windows@);
        cells
    }

    pub fn on_resize(&mut self, width: u16, height: u16)
        ensures
            final(self).terminal_width == width,
            final(self).terminal_height == height,
            final(self).windows == old(self).windows,
            final(self).art_lines == old(self).art_lines,
    {
        self.terminal_width = width;
        self.terminal_height = height;
    }
}

/// The colour the windows get in a mood: warm yellow open casements,
/// bright evening light, dim night light.
pub open spec fn window_color(mood: HouseMood) -> TermColor {
    match mood {
        HouseMood::EveningLight => TermColor::Rgb { r: 255, g: 205, b: 95 },
        HouseMood::NightLight => TermColor::Rgb { r: 140, g: 100, b: 45 },
        _ => TermColor::Yellow,
    }
}

/// A window as drawn: its frame from the art line (blanks past the line's
/// end), with the right casement thrown open (`/`) in the heat.
pub open spec fn window_row(line: Seq<char>, w: Window, open: bool) -> Seq<char> {
    let n: nat = if w.len > 0 {
        w.len as nat
    } else {
        0
    };
    Seq::new(n, |i: int| if open && i == w.len - 1 { '/' } else { pad_char(line, w.dx + i) })
}

/// The cells of the house's windows in a mood, the house's top left at
/// (house_x, house_y): nothing in a plain mood; otherwise each window's
/// row, in the window colour, in the windows' order.
pub open spec fn house_cells_spec(
    windows: Seq<Window>,
    lines: Seq<Seq<char>>,
    mood: HouseMood,
    house_x: int,
    house_y: int,
    width: int,
    height: int,
) -> Seq<Cell>
    decreases windows.len(),
{
    if mood == HouseMood::Plain || windows.len() == 0 {
        Seq::empty()
    } else {
        let w = windows.last();
        let prev = house_cells_spec(windows.drop_last(), lines, mood, house_x, house_y, width, height);
        if 0 <= w.dy < lines.len() {
            prev + text_cells(
                house_x + w.dx,
                house_y + w.dy,
                window_row(lines[w.dy as int], w, mood == HouseMood::WindowsOpen),
                false,
                Paint::Solid(window_color(mood)),
                width,
                height,
            )
        } else {
            prev
        }
    }
}

/// A window's row of characters.
fn window_row_text(line: &str, w: Window, open: bool) -> (r: String)
    ensures
        r@ == window_row(line@, w, open),
{
    let n = line.unicode_len();
    let mut r = String::new();
    let mut i: i16 = 0;
    while i < w.len
        invariant
            n == line@.len(),
            0 <= i,
            w.len > 0 ==> i <= w.len,
            w.len <= 0 ==> i == 0,
            r@ == window_row(line@, w, open).take(i as int),
        decreases w.len - i,
    {
        let src: i64 = w.dx as i64 + i as i64;
        let c = if open && i == w.len - 1 {
            '/'
        } else if 0 <= src && (src as u64) < n as u64 {
            line.get_char(src as usize)
        } else {
            ' '
        };
        push_char(&mut r, c);
        assert(r@ =~= window_row(line@, w, open).take(i + 1));
        i = i + 1;
    }
    assert(window_row(line@, w, open).take(i as int) =~= window_row(line@, w, open));
    r
}

} // verus!
