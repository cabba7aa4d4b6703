//! Snow cover and the snowman: during snowfall the ground and the roof
//! gradually whiten; the snowman builds itself ball by ball.

use vstd::prelude::*;
use crate::animation::{house_left, house_left_column};
use crate::canvas::{put_char, put_text, text_cells, Cell, Paint};
use crate::color::TermColor;

verus! {

/// Pseudo-random rank (0..97) of a cell for the snow-cover mask: a cell is
/// covered once the coverage fraction exceeds rank / 97, so cover grows
/// unevenly but deterministically.
pub fn cover_rank(x: i16, salt: i16) -> (r: i16)
    requires
        i16::MIN <= x * 37 <= i16::MAX,
        i16::MIN <= salt * 71 <= i16::MAX,
        i16::MIN <= x * 37 + salt * 71 <= i16::MAX,
    ensures
        r == (x * 37 + salt * 71) % 97,
        0 <= r < 97,
{
    let v = x * 37 + salt * 71;
    let m = v % 97;
    if m < 0 {
        m + 97
    } else {
        m
    }
}

/// Snow on the grass line: a star on every third cell, dots elsewhere.
pub fn ground_snow_char(x: i16) -> (c: char)
    requires
        0 <= x,
        x * 13 + 5 <= i16::MAX,
    ensures
        c == (if (x * 13 + 5) % 3 == 0 {
            '*'
        } else {
            '.'
        }),
{
    if (x * 13 + 5) % 3 == 0 {
        '*'
    } else {
        '.'
    }
}

/// The snowman's balls from the bottom up: bottom, middle with buttons,
/// head with a carrot nose.
pub open spec fn snowman_ball_spec(ball: nat) -> Seq<char> {
    if ball == 0 {
        "(  :  )"@
    } else if ball == 1 {
        "-( : )-"@
    } else {
        "  (.)>"@
    }
}

/// Art of one ball of the snowman (0 = bottom).
pub fn snowman_ball(ball: usize) -> (s: &'static str)
    ensures
        s@ == snowman_ball_spec(ball as nat),
{
    match ball {
        0 => "(  :  )",
        1 => "-( : )-",
        _ => "  (.)>",
    }
}

/// The puddle left after the snowman melted.
pub fn puddle() -> (s: &'static str)
    ensures
        s@ == " ~ ~ ~"@,
{
    " ~ ~ ~"
}

/// Colour of a character of the snowman: carrot, coal, twig arms, snow.
pub open spec fn snowman_char_color_spec(c: char) -> TermColor {
    if c == '>' {
        TermColor::Rgb { r: 255, g: 150, b: 60 }
    } else if c == ':' || c == '.' {
        TermColor::DarkGrey
    } else if c == '-' {
        TermColor::Rgb { r: 150, g: 100, b: 60 }
    } else {
        TermColor::White
    }
}

/// Colour of a character of the snowman.
pub fn snowman_char_color(c: char) -> (r: TermColor)
    ensures
        r == snowman_char_color_spec(c),
{
    match c {
        '>' => TermColor::Rgb { r: 255, g: 150, b: 60 },
        ':' | '.' => TermColor::DarkGrey,
        '-' => TermColor::Rgb { r: 150, g: 100, b: 60 },
        _ => TermColor::White,
    }
}

/// Rank of a cell in the snow mask (0..97), for any column.
pub open spec fn rank_spec(x: int, salt: int) -> int {
    (x * 37 + salt * 71) % 97
}

/// The four places snow settles.
#[derive(Debug, Clone, Copy, PartialEq, Eq, Structural)]
pub enum SnowPlace {
    /// The grass line.
    Ground,
    /// Drifts on the row below the grass line.
    Drift,
    /// The eaves of the roof.
    Eaves,
    /// The upper slope of the roof.
    Ridge,
}

/// Salt of each place's mask, so that the places whiten unevenly.
pub open spec fn place_salt(place: SnowPlace) -> int {
    match place {
        SnowPlace::Ground => 1,
        SnowPlace::Drift => 2,
        SnowPlace::Eaves => 3,
        SnowPlace::Ridge => 4,
    }
}

/// The character of settled snow at column `x` of a place.
pub open spec fn snow_char(place: SnowPlace, x: int) -> char {
    match place {
        SnowPlace::Ground => if (x * 13 + 5) % 3 == 0 {
            '*'
        } else {
            '.'
        },
        SnowPlace::Drift => '.',
        SnowPlace::Eaves => '~',
        SnowPlace::Ridge => '-',
    }
}

/// Snow on `n` columns from `x0` of row `y`: a column is white when its
/// rank is below the place's level (the number of ranks out of 97 that
/// the cover reaches).
pub open spec fn snow_row_spec(
    place: SnowPlace,
    x0: int,
    n: int,
    y: int,
    level: int,
    width: int,
    height: int,
) -> Seq<Cell>
    decreases n,
{
    if n <= 0 {
        Seq::empty()
    } else {
        let x = x0 + n - 1;
        let prev = snow_row_spec(place, x0, n - 1, y, level, width, height);
        if rank_spec(x, place_salt(place)) < level {
            prev + text_cells(
                x,
                y,
                seq![snow_char(place, x)],
                false,
                Paint::Solid(TermColor::White),
                width,
                height,
            )
        } else {
            prev
        }
    }
}

/// Rank of a cell in the snow mask.
fn mask_rank(x: i64, salt: i64) -> (r: i64)
    requires
        -0x1_0001_0000 <= x <= 0x1_0001_0000,
        1 <= salt <= 4,
    ensures
        r == rank_spec(x as int, salt as int),
{
    let v = x * 37 + salt * 71;
    ((v % 97) + 97) % 97
}

/// The character of settled snow at column `x` of a place.
fn settled_char(place: SnowPlace, x: i64) -> (c: char)
    requires
        -0x1_0001_0000 <= x <= 0x1_0001_0000,
    ensures
        c == snow_char(place, x as int),
{
    match place {
        SnowPlace::Ground => {
            if ((x * 13 + 5) % 3 + 3) % 3 == 0 {
                '*'
            } else {
                '.'
            }
        },
        SnowPlace::Drift => '.',
        SnowPlace::Eaves => '~',
        SnowPlace::Ridge => '-',
    }
}

fn put_snow_row(
    cells: &mut Vec<Cell>,
    place: SnowPlace,
    x0: i64,
    n: u16,
    y: i64,
    level: u8,
    width: u16,
    height: u16,
)
    requires
        -0x1_0000_0000 <= x0 <= 0x1_0000_0000,
    ensures
        final(cells)@ == old(cells)@ + snow_row_spec(
            place,
            x0 as int,
            n as int,
            y as int,
            level as int,
            width as int,
            height as int,
        ),
{
    let salt: i64 = match place {
        SnowPlace::Ground => 1,
        SnowPlace::Drift => 2,
        SnowPlace::Eaves => 3,
        SnowPlace::Ridge => 4,
    };
    let ghost start = cells@;
    let mut k: u16 = 0;
    while k < n
        invariant
            k <= n,
            -0x1_0000_0000 <= x0 <= 0x1_0000_0000,
            salt == place_salt(place),
            cells@ == start + snow_row_spec(
                place,
                x0 as int,
                k as int,
                y as int,
                level as int,
                width as int,
                height as int,
            ),
        decreases n - k,
    {
        let x: i64 = x0 + k as i64;
        if mask_rank(x, salt) < level as i64 {
            put_char(cells, x, y, settled_char(place, x), Paint::Solid(TermColor::White), width, height);
        }
        k = k + 1;
    }
}

/// How far the snow cover has got, as levels out of 97: `cover` for the
/// grass line and the eaves, `drift` (once the cover is dense) for the
/// row below the grass, `ridge` (once the cover is marked) for the upper
/// slope of the roof.
#[derive(Debug, Clone, Copy, PartialEq, Eq, Structural)]
pub struct SnowLevels {
    pub cover: u8,
    pub drift: Option<u8>,
    pub ridge: Option<u8>,
}

/// The snow cover: the grass line across the screen, drifts below it, the
/// eaves (29 columns from the house's fifth) on the house's fifth row and
/// the slope (27 columns) on its fourth.
pub open spec fn snow_cover_cells_spec(
    levels: SnowLevels,
    horizon: int,
    house_x: int,
    house_y: int,
    width: int,
    height: int,
) -> Seq<Cell> {
    let ground = snow_row_spec(SnowPlace::Ground, 0, width, horizon, levels.cover as int, width, height);
    let drift = match levels.drift {
        Some(level) => snow_row_spec(SnowPlace::Drift, 0, width, horizon + 1, level as int, width, height),
        None => Seq::empty(),
    };
    let eaves = snow_row_spec(
        SnowPlace::Eaves,
        house_x + 4,
        29,
        house_y + 4,
        levels.cover as int,
        width,
        height,
    );
    let ridge = match levels.ridge {
        Some(level) => snow_row_spec(SnowPlace::Ridge, house_x + 4, 27, house_y + 3, level as int, width, height),
        None => Seq::empty(),
    };
    ground + drift + eaves + ridge
}

/// The snow cover's cells, the house (`house_width` by `house_height`)
/// standing in the middle of the screen on the ground row `horizon_y`.
pub fn snow_cover_cells(
    levels: SnowLevels,
    horizon_y: u16,
    house_width: u16,
    house_height: u16,
    width: u16,
    height: u16,
) -> (cells: Vec<Cell>)
    ensures
        cells@ == snow_cover_cells_spec(
            levels,
            horizon_y as int,
            house_left(width, house_width),
            horizon_y - house_height,
            width as int,
            height as int,
        ),
{
    let mut cells: Vec<Cell> = Vec::new();
    let horizon = horizon_y as i64;
    put_snow_row(&mut cells, SnowPlace::Ground, 0, width, horizon, levels.cover, width, height);
    if let Some(level) = levels.drift {
        put_snow_row(&mut cells, SnowPlace::Drift, 0, width, horizon + 1, level, width, height);
    }
    let house_x = house_left_column(width, house_width) as i64;
    let house_y: i64 = horizon - house_height as i64;
    put_snow_row(&mut cells, SnowPlace::Eaves, house_x + 4, 29, house_y + 4, levels.cover, width, height);
    if let Some(level) = levels.ridge {
        put_snow_row(&mut cells, SnowPlace::Ridge, house_x + 4, 27, house_y + 3, level, width, height);
    }
    cells
}

/// Column of the snowman: in the yard 9 columns left of the house, at
/// least at column 1.
pub open spec fn snowman_column_spec(width: u16, house_width: u16) -> int {
    let x = house_left(width, house_width) - 9;
    if x < 1 {
        1
    } else {
        x
    }
}

/// Column of the snowman.
pub fn snowman_column(width: u16, house_width: u16) -> (r: i16)
    ensures
        r == snowman_column_spec(width, house_width),
{
    let house_x = house_left_column(width, house_width) as i16;
    if house_x - 9 < 1 {
        1
    } else {
        house_x - 9
    }
}

/// The snowman at column `x` standing on row `ground`: the puddle when it
/// has melted, otherwise its built balls from the bottom up, each a row
/// higher (blanks let the yard show through).
pub open spec fn snowman_cells_spec(x: int, ground: int, balls: int, puddle: bool, width: int, height: int) -> Seq<
    Cell,
> {
    if puddle {
        text_cells(x, ground, " ~ ~ ~"@, true, Paint::Snowman, width, height)
    } else {
        (if balls >= 1 {
            text_cells(x, ground, snowman_ball_spec(0), true, Paint::Snowman, width, height)
        } else {
            Seq::empty()
        }) + (if balls >= 2 {
            text_cells(x, ground - 1, snowman_ball_spec(1), true, Paint::Snowman, width, height)
        } else {
            Seq::empty()
        }) + (if balls >= 3 {
            text_cells(x, ground - 2, snowman_ball_spec(2), true, Paint::Snowman, width, height)
        } else {
            Seq::empty()
        })
    }
}

/// The snowman's cells.
pub fn snowman_cells(x: i16, ground: i16, balls: i16, puddle_shown: bool, width: u16, height: u16) -> (cells:
    Vec<Cell>)
    ensures
        cells@ == snowman_cells_spec(x as int, ground as int, balls as int, puddle_shown, width as int, height as int),
{
    let mut cells: Vec<Cell> = Vec::new();
    if puddle_shown {
        put_text(&mut cells, x as i64, ground as i64, puddle(), true, Paint::Snowman, width, height);
        return cells;
    }
    if balls >= 1 {
        put_text(&mut cells, x as i64, ground as i64, snowman_ball(0), true, Paint::Snowman, width, height);
    }
    if balls >= 2 {
        put_text(&mut cells, x as i64, ground as i64 - 1, snowman_ball(1), true, Paint::Snowman, width, height);
    }
    if balls >= 3 {
        put_text(&mut cells, x as i64, ground as i64 - 2, snowman_ball(2), true, Paint::Snowman, width, height);
    }
    cells
}

} // verus!
