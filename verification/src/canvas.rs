//! Character cells of the terminal. Every drawing of the scene comes down
//! to a list of cells, in drawing order, that the front end prints; a
//! later cell at the same place covers an earlier one.

use vstd::prelude::*;
use crate::animation::airplanes;
use crate::animation::cat;
use crate::animation::snow;
use crate::color::TermColor;

verus! {

/// One character drawn at a column and row of the terminal.
#[derive(Debug, Clone, Copy, PartialEq, Eq, Structural)]
pub struct Cell {
    pub x: u16,
    pub y: u16,
    pub ch: char,
    pub color: TermColor,
}

/// How the characters of a text are coloured.
#[derive(Debug, Clone, Copy, PartialEq, Eq, Structural)]
pub enum Paint {
    /// Every character in one colour.
    Solid(TermColor),
    Airplane,
    Iss,
    Snowman,
    Cat { hunting: bool, is_day: bool },
    /// The UFO, whose light blinks through three colours.
    Ufo { light: TermColor },
    Sleigh,
    Yaga,
    /// The rocket's exhaust: big flames red, small ones yellow.
    Flame,
}

/// Colour of the UFO's characters: the light, its grey dome and rim.
pub open spec fn ufo_color_spec(light: TermColor, c: char) -> TermColor {
    if c == 'o' {
        light
    } else if c == '_' || c == '.' {
        TermColor::Grey
    } else {
        TermColor::DarkGrey
    }
}

/// Colour of the sleigh's characters: golden reindeer eyes, a red sleigh
/// and reins, grey antlers.
pub open spec fn sleigh_color_spec(c: char) -> TermColor {
    if c == 'o' {
        TermColor::DarkYellow
    } else if c == '[' || c == ']' || c == '_' || c == '/' {
        TermColor::Red
    } else {
        TermColor::Grey
    }
}

/// Colour of Baba Yaga's characters: grey hair, a wooden mortar and broom.
pub open spec fn yaga_color_spec(c: char) -> TermColor {
    if c == '}' || c == '{' || c == ':' {
        TermColor::Grey
    } else {
        TermColor::DarkYellow
    }
}

/// The colour a paint gives a character.
pub open spec fn paint_spec(paint: Paint, c: char) -> TermColor {
    match paint {
        Paint::Solid(color) => color,
        Paint::Airplane => airplanes::airplane_char_color_spec(c),
        Paint::Iss => airplanes::iss_char_color_spec(c),
        Paint::Snowman => snow::snowman_char_color_spec(c),
        Paint::Cat { hunting, is_day } => cat::cat_char_color_spec(c, hunting, is_day),
        Paint::Ufo { light } => ufo_color_spec(light, c),
        Paint::Sleigh => sleigh_color_spec(c),
        Paint::Yaga => yaga_color_spec(c),
        Paint::Flame => if c == 'V' {
            TermColor::Red
        } else {
            TermColor::Yellow
        },
    }
}

/// The colour a paint gives a character.
pub fn color_of(paint: Paint, c: char) -> (r: TermColor)
    ensures
        r == paint_spec(paint, c),
{
    match paint {
        Paint::Solid(color) => color,
        Paint::Airplane => airplanes::airplane_char_color(c),
        Paint::Iss => airplanes::iss_char_color(c),
        Paint::Snowman => snow::snowman_char_color(c),
        Paint::Cat { hunting, is_day } => cat::cat_char_color(c, hunting, is_day),
        Paint::Ufo { light } => {
            if c == 'o' {
                light
            } else if c == '_' || c == '.' {
                TermColor::Grey
            } else {
                TermColor::DarkGrey
            }
        },
        Paint::Sleigh => {
            if c == 'o' {
                TermColor::DarkYellow
            } else if c == '[' || c == ']' || c == '_' || c == '/' {
                TermColor::Red
            } else {
                TermColor::Grey
            }
        },
        Paint::Yaga => {
            if c == '}' || c == '{' || c == ':' {
                TermColor::Grey
            } else {
                TermColor::DarkYellow
            }
        },
        Paint::Flame => {
            if c == 'V' {
                TermColor::Red
            } else {
                TermColor::Yellow
            }
        },
    }
}

/// Whether a position lies on a screen of the given size.
pub open spec fn on_screen(x: int, y: int, width: int, height: int) -> bool {
    0 <= x < width && 0 <= y < height
}

/// Whether character `c` at (x, y) is drawn: it is on the screen, and it
/// is no blank that lets the scene show through.
pub open spec fn drawn(x: int, y: int, c: char, transparent: bool, width: int, height: int) -> bool {
    !(transparent && c == ' ') && on_screen(x, y, width, height)
}

/// The cell of character `c` at (x, y).
pub open spec fn cell_at(x: int, y: int, c: char, paint: Paint) -> Cell {
    Cell { x: x as u16, y: y as u16, ch: c, color: paint_spec(paint, c) }
}

/// The cells of a text written rightwards from (x, y): its characters in
/// order, each on its own column, without those off the screen (and
/// without blanks when blanks are transparent).
pub open spec fn text_cells(
    x: int,
    y: int,
    text: Seq<char>,
    transparent: bool,
    paint: Paint,
    width: int,
    height: int,
) -> Seq<Cell>
    decreases text.len(),
{
    if text.len() == 0 {
        Seq::empty()
    } else {
        let prev = text_cells(x, y, text.drop_last(), transparent, paint, width, height);
        let cx = x + text.len() - 1;
        if drawn(cx, y, text.last(), transparent, width, height) {
            prev.push(cell_at(cx, y, text.last(), paint))
        } else {
            prev
        }
    }
}

/// Every cell of a text lies on the screen, on the text's row, and a text
/// gives at most one cell per character.
pub proof fn lemma_text_cells_on_screen(
    x: int,
    y: int,
    text: Seq<char>,
    transparent: bool,
    paint: Paint,
    width: u16,
    height: u16,
)
    ensures
        forall|k: int|
            0 <= k < text_cells(x, y, text, transparent, paint, width as int, height as int).len()
                ==> {
                let cell = #[trigger] text_cells(
                    x,
                    y,
                    text,
                    transparent,
                    paint,
                    width as int,
                    height as int,
                )[k];
                &&& on_screen(cell.x as int, cell.y as int, width as int, height as int)
                &&& cell.y == y
            },
        text_cells(x, y, text, transparent, paint, width as int, height as int).len()
            <= text.len(),
    decreases text.len(),
{
    if text.len() > 0 {
        lemma_text_cells_on_screen(x, y, text.drop_last(), transparent, paint, width, height);
    }
}

/// A text on a row off the screen adds no cells.
pub proof fn lemma_text_cells_off_row(
    x: int,
    y: int,
    text: Seq<char>,
    transparent: bool,
    paint: Paint,
    width: int,
    height: int,
)
    requires
        !(0 <= y < height),
    ensures
        text_cells(x, y, text, transparent, paint, width, height) == Seq::<Cell>::empty(),
    decreases text.len(),
{
    if text.len() > 0 {
        lemma_text_cells_off_row(x, y, text.drop_last(), transparent, paint, width, height);
    }
}

/// Characters that start at or right of the screen's right edge add no
/// cells.
proof fn lemma_text_cells_past_edge(
    x: int,
    y: int,
    text: Seq<char>,
    i: int,
    j: int,
    transparent: bool,
    paint: Paint,
    width: int,
    height: int,
)
    requires
        0 <= i <= j <= text.len(),
        x + i >= width,
    ensures
        text_cells(x, y, text.take(j), transparent, paint, width, height) == text_cells(
            x,
            y,
            text.take(i),
            transparent,
            paint,
            width,
            height,
        ),
    decreases j - i,
{
    if j > i {
        assert(text.take(j).drop_last() =~= text.take(j - 1));
        lemma_text_cells_past_edge(x, y, text, i, j - 1, transparent, paint, width, height);
    }
}

/// Appends the cells of `text` written rightwards from (x, y).
pub fn put_text(
    cells: &mut Vec<Cell>,
    x: i64,
    y: i64,
    text: &str,
    transparent: bool,
    paint: Paint,
    width: u16,
    height: u16,
)
    ensures
        final(cells)@ == old(cells)@ + text_cells(
            x as int,
            y as int,
            text@,
            transparent,
            paint,
            width as int,
            height as int,
        ),
{
    let n = text.unicode_len();
    let ghost start = cells@;
    let mut i: usize = 0;
    while i < n && (x as i128 + i as i128) < width as i128
        invariant
            n == text@.len(),
            i <= n,
            i == 0 || x + i <= width,
            cells@ == start + text_cells(
                x as int,
                y as int,
                text@.take(i as int),
                transparent,
                paint,
                width as int,
                height as int,
            ),
        decreases n - i,
    {
        let c = text.get_char(i);
        let cx: i128 = x as i128 + i as i128;
        assert(text@.take(i + 1).drop_last() =~= text@.take(i as int));
        if !(transparent && c == ' ') && 0 <= cx && 0 <= y && y < height as i64 {
            cells.push(Cell { x: cx as u16, y: y as u16, ch: c, color: color_of(paint, c) });
        }
        i = i + 1;
    }
    proof {
        if i < n {
            lemma_text_cells_past_edge(
                x as int,
                y as int,
                text@,
                i as int,
                n as int,
                transparent,
                paint,
                width as int,
                height as int,
            );
        }
    }
    assert(text@.take(n as int) =~= text@);
}

/// Appends the cell of character `c` at (x, y), when it is on the screen.
pub fn put_char(cells: &mut Vec<Cell>, x: i64, y: i64, c: char, paint: Paint, width: u16, height: u16)
    ensures
        final(cells)@ == old(cells)@ + text_cells(
            x as int,
            y as int,
            seq![c],
            false,
            paint,
            width as int,
            height as int,
        ),
{
    proof {
        reveal_with_fuel(text_cells, 2);
        assert(seq![c].drop_last() =~= Seq::<char>::empty());
    }
    if 0 <= x && x < width as i64 && 0 <= y && y < height as i64 {
        cells.push(Cell { x: x as u16, y: y as u16, ch: c, color: color_of(paint, c) });
    }
}

} // verus!
