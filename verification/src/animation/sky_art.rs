//! How the night sky's guests are drawn: the aurora's curtains, the
//! trails of shooting stars and the bolide, the comet's tail, the Starlink
//! train with its caption, and the two-row sprites of the UFO, Ded Moroz's
//! sleigh and Baba Yaga with their captions. Positions of moving guests
//! come from the front end, which moves them.

use vstd::prelude::*;
use crate::animation::airplanes::pad_char;
use crate::animation::night_sky::MAX_TRAIN_LIGHTS;
use crate::canvas::{put_char, put_text, text_cells, Cell, Paint};
use crate::color::TermColor;
use crate::text;
use crate::text::{push_char, push_decimal};

verus! {

/// Mirror image of a sprite character: paired brackets and slashes swap.
pub open spec fn sky_mirror_char_spec(c: char) -> char {
    if c == '(' {
        ')'
    } else if c == ')' {
        '('
    } else if c == '/' {
        '\\'
    } else if c == '\\' {
        '/'
    } else if c == '<' {
        '>'
    } else if c == '>' {
        '<'
    } else if c == '[' {
        ']'
    } else if c == ']' {
        '['
    } else if c == '{' {
        '}'
    } else if c == '}' {
        '{'
    } else {
        c
    }
}

fn sky_mirror_char(c: char) -> (r: char)
    ensures
        r == sky_mirror_char_spec(c),
{
    match c {
        '(' => ')',
        ')' => '(',
        '/' => '\\',
        '\\' => '/',
        '<' => '>',
        '>' => '<',
        '[' => ']',
        ']' => '[',
        '{' => '}',
        '}' => '{',
        c => c,
    }
}

/// A sprite row as drawn: as is, or (flipped) padded to the sprite's
/// width, reversed and mirrored.
pub open spec fn sprite_row_spec(row: Seq<char>, width: nat, flip: bool) -> Seq<char> {
    if flip {
        Seq::new(width, |k: int| sky_mirror_char_spec(pad_char(row, width - 1 - k)))
    } else {
        row
    }
}

/// A sprite row in the flyer's direction.
fn sprite_row(row: &str, width: usize, flip: bool) -> (r: String)
    ensures
        r@ == sprite_row_spec(row@, width as nat, flip),
{
    if !flip {
        return String::from_str(row);
    }
    let n = row.unicode_len();
    let mut r = String::new();
    let mut k: usize = 0;
    while k < width
        invariant
            n == row@.len(),
            k <= width,
            r@ == sprite_row_spec(row@, width as nat, true).take(k as int),
        decreases width - k,
    {
        let src = width - 1 - k;
        let c = if src < n {
            row.get_char(src)
        } else {
            ' '
        };
        push_char(&mut r, sky_mirror_char(c));
        assert(r@ =~= sprite_row_spec(row@, width as nat, true).take(k + 1));
        k = k + 1;
    }
    assert(sprite_row_spec(row@, width as nat, true).take(width as int) =~= sprite_row_spec(
        row@,
        width as nat,
        true,
    ));
    r
}

/// The night flyers drawn as two-row sprites.
#[derive(Debug, Clone, Copy, PartialEq, Eq, Structural)]
pub enum Flyer {
    Ufo,
    /// Ded Moroz: three reindeer pull the sleigh.
    Sleigh,
    /// Baba Yaga in her mortar with a broom.
    Yaga,
}

/// The two rows of a flyer's sprite (facing right).
pub open spec fn flyer_rows_spec(flyer: Flyer) -> (Seq<char>, Seq<char>) {
    match flyer {
        Flyer::Ufo => ("  _._"@, "<(_o_)>"@),
        Flyer::Sleigh => ("  \\,    \\,    \\,   o/"@, " (o>===(o>===(o>==[__]"@),
        Flyer::Yaga => ("  }:{"@, " \\(_)/--*"@),
    }
}

fn flyer_rows(flyer: Flyer) -> (r: (&'static str, &'static str))
    ensures
        (r.0@, r.1@) == flyer_rows_spec(flyer),
{
    match flyer {
        Flyer::Ufo => ("  _._", "<(_o_)>"),
        Flyer::Sleigh => ("  \\,    \\,    \\,   o/", " (o>===(o>===(o>==[__]"),
        Flyer::Yaga => ("  }:{", " \\(_)/--*"),
    }
}

/// The UFO's light blinks red, green and cyan in turn.
pub open spec fn ufo_light_spec(frame: u32) -> TermColor {
    if (frame / 5) % 3 == 0 {
        TermColor::Red
    } else if (frame / 5) % 3 == 1 {
        TermColor::Green
    } else {
        TermColor::Cyan
    }
}

/// How a flyer's sprite is coloured this frame.
pub open spec fn flyer_paint_spec(flyer: Flyer, frame: u32) -> Paint {
    match flyer {
        Flyer::Ufo => Paint::Ufo { light: ufo_light_spec(frame) },
        Flyer::Sleigh => Paint::Sleigh,
        Flyer::Yaga => Paint::Yaga,
    }
}

/// A flyer's caption and where it goes relative to the sprite: the sleigh
/// wishes a happy New Year under the sleigh, Baba Yaga is named under her
/// mortar, the UFO stays unnamed.
pub open spec fn flyer_label_spec(flyer: Flyer) -> Option<(Seq<char>, int)> {
    match flyer {
        Flyer::Ufo => None,
        Flyer::Sleigh => Some(("С Новым годом!"@, 4)),
        Flyer::Yaga => Some(("Баба Яга"@, 0)),
    }
}

/// Width of a flyer's sprite: its wider row.
pub open spec fn flyer_width_spec(flyer: Flyer) -> nat {
    let (r0, r1) = flyer_rows_spec(flyer);
    if r0.len() >= r1.len() {
        r0.len()
    } else {
        r1.len()
    }
}

/// The cells of a flyer whose sprite's top left is at (x, y): the two
/// rows in its direction (blanks let the sky show through), then its
/// caption two rows below the top, in dark grey.
pub open spec fn flyer_cells_spec(
    flyer: Flyer,
    x: int,
    y: int,
    flip: bool,
    frame: u32,
    width: int,
    height: int,
) -> Seq<Cell> {
    let (r0, r1) = flyer_rows_spec(flyer);
    let w = flyer_width_spec(flyer);
    let paint = flyer_paint_spec(flyer, frame);
    let sprite = text_cells(x, y, sprite_row_spec(r0, w, flip), true, paint, width, height)
        + text_cells(x, y + 1, sprite_row_spec(r1, w, flip), true, paint, width, height);
    match flyer_label_spec(flyer) {
        Some((label, dx)) => sprite + text_cells(
            x + dx,
            y + 2,
            label,
            false,
            Paint::Solid(TermColor::DarkGrey),
            width,
            height,
        ),
        None => sprite,
    }
}

/// The cells of a flyer at (x, y), facing left when `flip`.
pub fn flyer_cells(flyer: Flyer, x: i16, y: i16, flip: bool, frame: u32, width: u16, height: u16) -> (cells:
    Vec<Cell>)
    ensures
        cells@ == flyer_cells_spec(flyer, x as int, y as int, flip, frame, width as int, height as int),
{
    let (r0, r1) = flyer_rows(flyer);
    let n0 = r0.unicode_len();
    let n1 = r1.unicode_len();
    let w = if n0 >= n1 {
        n0
    } else {
        n1
    };
    let paint = match flyer {
        Flyer::Ufo => {
            let light = if (frame / 5) % 3 == 0 {
                TermColor::Red
            } else if (frame / 5) % 3 == 1 {
                TermColor::Green
            } else {
                TermColor::Cyan
            };
            Paint::Ufo { light }
        },
        Flyer::Sleigh => Paint::Sleigh,
        Flyer::Yaga => Paint::Yaga,
    };
    let row0 = sprite_row(r0, w, flip);
    let row1 = sprite_row(r1, w, flip);
    let mut cells: Vec<Cell> = Vec::new();
    put_text(&mut cells, x as i64, y as i64, row0.as_str(), true, paint, width, height);
    put_text(&mut cells, x as i64, y as i64 + 1, row1.as_str(), true, paint, width, height);
    match flyer {
        Flyer::Ufo => {},
        Flyer::Sleigh => {
            put_text(
                &mut cells,
                x as i64 + 4,
                y as i64 + 2,
                "С Новым годом!",
                false,
                Paint::Solid(TermColor::DarkGrey),
                width,
                height,
            );
        },
        Flyer::Yaga => {
            put_text(
                &mut cells,
                x as i64,
                y as i64 + 2,
                "Баба Яга",
                false,
                Paint::Solid(TermColor::DarkGrey),
                width,
                height,
            );
        },
    }
    cells
}

/// Character and colour of the aurora at a height above the top row: a
/// violet fringe above, green curtains below.
pub open spec fn aurora_look(y: int) -> (char, TermColor) {
    if y == 1 {
        ('.', TermColor::Rgb { r: 205, g: 120, b: 255 })
    } else if y == 2 {
        (':', TermColor::Rgb { r: 150, g: 140, b: 255 })
    } else if y == 3 {
        (':', TermColor::Rgb { r: 95, g: 215, b: 205 })
    } else {
        ('|', TermColor::Rgb { r: 110, g: 240, b: 145 })
    }
}

/// The cells of one aurora column at `x`, rows 1 to `top` from the top
/// down: flickering gaps where `x + 3y + phase` is a multiple of 4, and
/// nothing below the screen.
pub open spec fn aurora_column_spec(x: int, top: int, phase: int, height: int) -> Seq<Cell>
    decreases top,
{
    if top < 1 {
        Seq::empty()
    } else {
        let above = aurora_column_spec(x, top - 1, phase, height);
        if (x + 3 * top + phase) % 4 == 0 || top >= height {
            above
        } else {
            above.push(
                Cell {
                    x: x as u16,
                    y: top as u16,
                    ch: aurora_look(top).0,
                    color: aurora_look(top).1,
                },
            )
        }
    }
}

/// The aurora across the screen: column `x` reaches down to row
/// `tops[x]` (from the curtains' waves), columns left to right.
pub open spec fn aurora_cells_spec(tops: Seq<i16>, phase: int, height: int) -> Seq<Cell>
    decreases tops.len(),
{
    if tops.len() == 0 {
        Seq::empty()
    } else {
        aurora_cells_spec(tops.drop_last(), phase, height) + aurora_column_spec(
            tops.len() - 1,
            tops.last() as int,
            phase,
            height,
        )
    }
}

fn put_aurora_column(cells: &mut Vec<Cell>, x: u16, top: i16, phase: u16, height: u16)
    ensures
        final(cells)@ == old(cells)@ + aurora_column_spec(
            x as int,
            top as int,
            phase as int,
            height as int,
        ),
{
    let ghost start = cells@;
    let mut y: i32 = 1;
    while y <= top as i32
        invariant
            1 <= y,
            top < 1 ==> y == 1,
            top >= 1 ==> y <= top + 1,
            cells@ == start + aurora_column_spec(x as int, (y - 1) as int, phase as int, height as int),
        decreases top + 1 - y,
    {
        let gap = (x as i64 + 3 * y as i64 + phase as i64) % 4 == 0;
        if !gap && y < height as i32 {
            let (ch, color) = if y == 1 {
                ('.', TermColor::Rgb { r: 205, g: 120, b: 255 })
            } else if y == 2 {
                (':', TermColor::Rgb { r: 150, g: 140, b: 255 })
            } else if y == 3 {
                (':', TermColor::Rgb { r: 95, g: 215, b: 205 })
            } else {
                ('|', TermColor::Rgb { r: 110, g: 240, b: 145 })
            };
            cells.push(Cell { x, y: y as u16, ch, color });
        }
        y = y + 1;
    }
}

/// The aurora's cells for the columns' lowest rows `tops` (one per
/// column from the left) and the flicker phase.
pub fn aurora_cells(tops: &Vec<i16>, phase: u16, height: u16) -> (cells: Vec<Cell>)
    requires
        tops@.len() <= u16::MAX + 1,
    ensures
        cells@ == aurora_cells_spec(tops@, phase as int, height as int),
{
    let mut cells: Vec<Cell> = Vec::new();
    let mut x: usize = 0;
    while x < tops.len()
        invariant
            x <= tops@.len() <= u16::MAX + 1,
            cells@ == aurora_cells_spec(tops@.take(x as int), phase as int, height as int),
        decreases tops@.len() - x,
    {
        assert(tops@.take(x + 1).drop_last() =~= tops@.take(x as int));
        put_aurora_column(&mut cells, x as u16, tops[x], phase, height);
        x = x + 1;
    }
    assert(tops@.take(tops@.len() as int) =~= tops@);
    cells
}

/// Characters of the comet's tail, from the head outwards.
pub open spec fn comet_tail_char(i: int) -> char {
    if i == 0 {
        'o'
    } else if i <= 2 {
        '*'
    } else if i <= 4 {
        '+'
    } else {
        '.'
    }
}

/// How far each tail character lies above the head: the tail rises by
/// three tenths of a row per column, rounded.
pub open spec fn comet_tail_rise(i: int) -> int {
    if i == 0 {
        0
    } else if i <= 3 {
        1
    } else {
        2
    }
}

/// The tail after `n` of its 8 characters: each one column further back
/// (against the direction of flight) and a little higher; the three
/// nearest the head cyan, the rest dark grey.
pub open spec fn comet_tail_spec(
    head_x: int,
    head_y: int,
    back: int,
    n: int,
    width: int,
    height: int,
) -> Seq<Cell>
    decreases n,
{
    if n <= 0 {
        Seq::empty()
    } else {
        let i = n - 1;
        comet_tail_spec(head_x, head_y, back, n - 1, width, height) + text_cells(
            head_x + back * (i + 1),
            head_y - comet_tail_rise(i),
            seq![comet_tail_char(i)],
            false,
            Paint::Solid(
                if i < 3 {
                    TermColor::Cyan
                } else {
                    TermColor::DarkGrey
                },
            ),
            width,
            height,
        )
    }
}

/// The comet: a bright cyan head at (x, y) and its tail of 8 characters
/// trailing behind (rightwards when the comet flies left).
pub open spec fn comet_cells_spec(x: int, y: int, leftward: bool, width: int, height: int) -> Seq<
    Cell,
> {
    text_cells(x, y, seq!['O'], false, Paint::Solid(TermColor::Cyan), width, height)
        + comet_tail_spec(x, y, if leftward { 1 } else { -1 }, 8, width, height)
}

/// The comet's cells with its head at (x, y).
pub fn comet_cells(x: i16, y: i16, leftward: bool, width: u16, height: u16) -> (cells: Vec<Cell>)
    ensures
        cells@ == comet_cells_spec(x as int, y as int, leftward, width as int, height as int),
{
    let mut cells: Vec<Cell> = Vec::new();
    put_char(&mut cells, x as i64, y as i64, 'O', Paint::Solid(TermColor::Cyan), width, height);
    let back: i64 = if leftward {
        1
    } else {
        -1
    };
    let ghost head = cells@;
    let mut i: i32 = 0;
    while i < 8
        invariant
            0 <= i <= 8,
            back == 1 || back == -1,
            back == (if leftward { 1int } else { -1int }),
            cells@ == head + comet_tail_spec(
                x as int,
                y as int,
                back as int,
                i as int,
                width as int,
                height as int,
            ),
        decreases 8 - i,
    {
        let c = if i == 0 {
            'o'
        } else if i <= 2 {
            '*'
        } else if i <= 4 {
            '+'
        } else {
            '.'
        };
        let rise: i64 = if i == 0 {
            0
        } else if i <= 3 {
            1
        } else {
            2
        };
        let color = if i < 3 {
            TermColor::Cyan
        } else {
            TermColor::DarkGrey
        };
        put_char(
            &mut cells,
            x as i64 + back * (i as i64 + 1),
            y as i64 - rise,
            c,
            Paint::Solid(color),
            width,
            height,
        );
        i = i + 1;
    }
    cells
}

/// The trail of a shooting star, head first: a white streak fading to
/// dark grey.
pub open spec fn meteor_trail_look(i: int) -> (char, TermColor) {
    if i == 0 {
        ('*', TermColor::White)
    } else if i == 1 {
        ('+', TermColor::White)
    } else if i == 2 {
        ('.', TermColor::Grey)
    } else {
        ('.', TermColor::DarkGrey)
    }
}

/// The trail of the bolide, head first: a large pale head and a
/// lilac-pink trail.
pub open spec fn bolide_trail_look(i: int) -> (char, TermColor) {
    if i == 0 {
        ('@', TermColor::Rgb { r: 255, g: 245, b: 190 })
    } else if i == 1 {
        ('O', TermColor::Rgb { r: 215, g: 150, b: 255 })
    } else if i == 2 {
        ('o', TermColor::Rgb { r: 190, g: 120, b: 255 })
    } else if i == 3 {
        ('*', TermColor::Rgb { r: 255, g: 140, b: 225 })
    } else if i == 4 {
        ('+', TermColor::Rgb { r: 225, g: 120, b: 200 })
    } else {
        ('.', TermColor::DarkGrey)
    }
}

/// Points in a trail: 6 for the bolide, 4 for a shooting star.
pub open spec fn trail_len(bolide: bool) -> int {
    if bolide {
        6
    } else {
        4
    }
}

/// The cells of a trail whose points (head first, computed from the
/// guest's flight) are `points`; points beyond the trail's length are not
/// drawn.
pub open spec fn trail_cells_spec(points: Seq<(i16, i16)>, bolide: bool, width: int, height: int) -> Seq<
    Cell,
>
    decreases points.len(),
{
    if points.len() == 0 {
        Seq::empty()
    } else {
        let i = points.len() - 1;
        let look = if bolide {
            bolide_trail_look(i)
        } else {
            meteor_trail_look(i)
        };
        trail_cells_spec(points.drop_last(), bolide, width, height) + if i < trail_len(bolide) {
            text_cells(
                points.last().0 as int,
                points.last().1 as int,
                seq![look.0],
                false,
                Paint::Solid(look.1),
                width,
                height,
            )
        } else {
            Seq::empty()
        }
    }
}

/// The cells of a shooting star's or the bolide's trail.
pub fn trail_cells(points: &Vec<(i16, i16)>, bolide: bool, width: u16, height: u16) -> (cells: Vec<
    Cell,
>)
    ensures
        cells@ == trail_cells_spec(points@, bolide, width as int, height as int),
{
    let mut cells: Vec<Cell> = Vec::new();
    let mut i: usize = 0;
    while i < points.len()
        invariant
            i <= points@.len(),
            cells@ == trail_cells_spec(points@.take(i as int), bolide, width as int, height as int),
        decreases points@.len() - i,
    {
        assert(points@.take(i + 1).drop_last() =~= points@.take(i as int));
        let limit: usize = if bolide {
            6
        } else {
            4
        };
        if i < limit {
            let (c, color) = if bolide {
                if i == 0 {
                    ('@', TermColor::Rgb { r: 255, g: 245, b: 190 })
                } else if i == 1 {
                    ('O', TermColor::Rgb { r: 215, g: 150, b: 255 })
                } else if i == 2 {
                    ('o', TermColor::Rgb { r: 190, g: 120, b: 255 })
                } else if i == 3 {
                    ('*', TermColor::Rgb { r: 255, g: 140, b: 225 })
                } else if i == 4 {
                    ('+', TermColor::Rgb { r: 225, g: 120, b: 200 })
                } else {
                    ('.', TermColor::DarkGrey)
                }
            } else {
                if i == 0 {
                    ('*', TermColor::White)
                } else if i == 1 {
                    ('+', TermColor::White)
                } else if i == 2 {
                    ('.', TermColor::Grey)
                } else {
                    ('.', TermColor::DarkGrey)
                }
            };
            let (px, py) = points[i];
            put_char(&mut cells, px as i64, py as i64, c, Paint::Solid(color), width, height);
        }
        i = i + 1;
    }
    assert(points@.take(points@.len() as int) =~= points@);
    cells
}

/// Row of the Starlink train.
pub const TRAIN_ROW: i16 = 6;

/// A light of the train twinkles: one in five is dim, the dim one moving
/// along the train.
pub open spec fn train_light_look(frame: u32, k: int) -> (char, TermColor) {
    if ((frame / 4) as int + k) % 5 != 0 {
        ('•', TermColor::Rgb { r: 220, g: 230, b: 255 })
    } else {
        ('·', TermColor::Grey)
    }
}

/// The first `n` lights of a train whose head is at column `head_x`, one
/// every three columns behind it.
pub open spec fn train_lights_spec(head_x: int, n: int, frame: u32, width: int, height: int) -> Seq<
    Cell,
>
    decreases n,
{
    if n <= 0 {
        Seq::empty()
    } else {
        let k = n - 1;
        train_lights_spec(head_x, n - 1, frame, width, height) + text_cells(
            head_x - 3 * k,
            TRAIN_ROW as int,
            seq![train_light_look(frame, k).0],
            false,
            Paint::Solid(train_light_look(frame, k).1),
            width,
            height,
        )
    }
}

/// The train's caption: "Starlink x" and the number of lights.
pub open spec fn train_label_spec(count: nat) -> Seq<char> {
    "Starlink x"@ + text::decimal(count)
}

/// The Starlink train when its row is on the screen: `count` lights from
/// the head at `head_x` backwards, then the caption one row below,
/// starting at `label_x`.
pub open spec fn train_cells_spec(
    head_x: int,
    label_x: int,
    count: nat,
    frame: u32,
    width: int,
    height: int,
) -> Seq<Cell> {
    if TRAIN_ROW < height {
        train_lights_spec(head_x, count as int, frame, width, height) + text_cells(
            label_x,
            TRAIN_ROW + 1,
            train_label_spec(count),
            false,
            Paint::Solid(TermColor::DarkGrey),
            width,
            height,
        )
    } else {
        Seq::empty()
    }
}

/// The cells of the Starlink train; `count` is the number of lights drawn,
/// which the night sky clamps to at most ten (`MAX_TRAIN_LIGHTS`).
pub fn train_cells(head_x: i16, label_x: i16, count: usize, frame: u32, width: u16, height: u16) -> (cells:
    Vec<Cell>)
    requires
        count <= MAX_TRAIN_LIGHTS,
    ensures
        cells@ == train_cells_spec(
            head_x as int,
            label_x as int,
            count as nat,
            frame,
            width as int,
            height as int,
        ),
{
    let mut cells: Vec<Cell> = Vec::new();
    if !((TRAIN_ROW as i32) < height as i32) {
        return cells;
    }
    let mut k: usize = 0;
    while k < count
        invariant
            k <= count <= MAX_TRAIN_LIGHTS,
            TRAIN_ROW < height,
            cells@ == train_lights_spec(head_x as int, k as int, frame, width as int, height as int),
        decreases count - k,
    {
        let bright = ((frame / 4) as u64 + k as u64) % 5 != 0;
        let (c, color) = if bright {
            ('•', TermColor::Rgb { r: 220, g: 230, b: 255 })
        } else {
            ('·', TermColor::Grey)
        };
        put_char(
            &mut cells,
            head_x as i64 - 3 * (k as i64),
            TRAIN_ROW as i64,
            c,
            Paint::Solid(color),
            width,
            height,
        );
        k = k + 1;
    }
    let mut label = String::from_str("Starlink x");
    push_decimal(&mut label, count as u64);
    put_text(
        &mut cells,
        label_x as i64,
        TRAIN_ROW as i64 + 1,
        label.as_str(),
        false,
        Paint::Solid(TermColor::DarkGrey),
        width,
        height,
    );
    cells
}

} // verus!
