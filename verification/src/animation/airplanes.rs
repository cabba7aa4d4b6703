//! Airplane sprites: the asset's nose points right (flying eastbound); the
//! westbound sprite is its horizontal mirror image.

use vstd::prelude::*;
use crate::app_state::{join_lines, lemma_lines_of_joined};
use crate::canvas;
use crate::canvas::{put_text, text_cells, Cell, Paint};
use crate::color::TermColor;
use crate::text;
use crate::text::{push_char, split_lines};

verus! {

/// Mirror image of one character: paired brackets, slashes and quotes swap.
pub open spec fn mirror_char_spec(c: char) -> char {
    if c == '(' {
        ')'
    } else if c == ')' {
        '('
    } else if c == '/' {
        '\\'
    } else if c == '\\' {
        '/'
    } else if c == '<' {
        '>'
    } else if c == '>' {
        '<'
    } else if c == '[' {
        ']'
    } else if c == ']' {
        '['
    } else if c == '`' {
        '\''
    } else if c == '\'' {
        '`'
    } else {
        c
    }
}

/// Mirror image of one character.
pub fn mirror_char(c: char) -> (r: char)
    ensures
        r == mirror_char_spec(c),
{
    match c {
        '(' => ')',
        ')' => '(',
        '/' => '\\',
        '\\' => '/',
        '<' => '>',
        '>' => '<',
        '[' => ']',
        ']' => '[',
        '`' => '\'',
        '\'' => '`',
        c => c,
    }
}

/// Character `i` of `line` padded with spaces.
pub open spec fn pad_char(line: Seq<char>, i: int) -> char {
    if 0 <= i < line.len() {
        line[i]
    } else {
        ' '
    }
}

/// `line` padded with spaces to `width` characters.
pub open spec fn pad_line(line: Seq<char>, width: nat) -> Seq<char> {
    Seq::new(width, |k: int| pad_char(line, k))
}

/// `line` padded to `width`, reversed, each character mirrored.
pub open spec fn mirror_line_spec(line: Seq<char>, width: nat) -> Seq<char> {
    Seq::new(width, |k: int| mirror_char_spec(pad_char(line, width - 1 - k)))
}

/// Largest number of characters among the first `n` lines.
pub open spec fn max_width(lines: Seq<Seq<char>>, n: int) -> nat
    decreases n,
{
    if n <= 0 {
        0
    } else {
        let prev = max_width(lines, n - 1);
        if lines[n - 1].len() > prev {
            lines[n - 1].len()
        } else {
            prev
        }
    }
}

/// Width of an art: its longest line.
pub open spec fn art_width_spec(lines: Seq<Seq<char>>) -> nat {
    max_width(lines, lines.len() as int)
}

/// Views of a list of owned lines.
pub open spec fn lines_view(lines: Seq<String>) -> Seq<Seq<char>> {
    Seq::new(lines.len(), |k: int| lines[k]@)
}

proof fn lemma_max_width_bound(lines: Seq<Seq<char>>, n: int, k: int)
    requires
        0 <= k < n <= lines.len(),
    ensures
        lines[k].len() <= max_width(lines, n),
    decreases n,
{
    if k < n - 1 {
        lemma_max_width_bound(lines, n - 1, k);
    }
}

/// Mirroring twice gives back the line padded to the art's width: the
/// westbound sprite is exactly the eastbound one turned around.
pub proof fn lemma_mirror_involution(line: Seq<char>, width: nat)
    requires
        line.len() <= width,
    ensures
        mirror_line_spec(mirror_line_spec(line, width), width) == pad_line(line, width),
{
    let once = mirror_line_spec(line, width);
    assert forall|k: int| 0 <= k < width implies #[trigger] mirror_line_spec(once, width)[k]
        == pad_line(line, width)[k] by {
        assert(pad_char(once, width - 1 - k) == once[width - 1 - k]);
        let c = pad_char(line, k);
        assert(mirror_char_spec(mirror_char_spec(c)) == c);
    }
    assert(mirror_line_spec(mirror_line_spec(line, width), width) =~= pad_line(line, width));
}

/// Every line of a mirrored art lies within the art's width.
pub proof fn lemma_lines_fit_width(lines: Seq<Seq<char>>, k: int)
    requires
        0 <= k < lines.len(),
    ensures
        lines[k].len() <= art_width_spec(lines),
{
    lemma_max_width_bound(lines, lines.len() as int, k);
}

/// An art mirrored: its lines padded to the art's width, reversed, paired
/// characters swapped (what `mirror_art` gives).
pub open spec fn mirror_art_spec(art: Seq<char>) -> Seq<Seq<char>> {
    Seq::new(
        text::lines_spec(art).len(),
        |k: int| mirror_line_spec(text::lines_spec(art)[k], art_width_spec(text::lines_spec(art))),
    )
}

proof fn lemma_max_width_uniform(lines: Seq<Seq<char>>, n: int, w: nat)
    requires
        1 <= n <= lines.len(),
        forall|k: int| 0 <= k < lines.len() ==> #[trigger] lines[k].len() == w,
    ensures
        max_width(lines, n) == w,
    decreases n,
{
    if n > 1 {
        lemma_max_width_uniform(lines, n - 1, w);
    } else {
        assert(max_width(lines, 0) == 0);
    }
    assert(lines[n - 1].len() == w);
}

/// Mirroring twice restores the art: for an art whose lines all have the
/// same (non-zero) width and hold no carriage return, the mirrored lines,
/// joined with line feeds and mirrored again, give the art's lines back;
/// the mirrored art keeps the width and its joined text splits into
/// exactly its lines.
pub proof fn lemma_mirror_art_twice(art: Seq<char>)
    requires
        art_width_spec(text::lines_spec(art)) >= 1,
        forall|k: int|
            0 <= k < text::lines_spec(art).len() ==> #[trigger] text::lines_spec(art)[k].len()
                == art_width_spec(text::lines_spec(art)),
        forall|k: int, i: int|
            0 <= k < text::lines_spec(art).len() && 0 <= i < text::lines_spec(art)[k].len()
                ==> #[trigger] text::lines_spec(art)[k][i] != '\r',
    ensures
        text::lines_spec(join_lines(mirror_art_spec(art))) == mirror_art_spec(art),
        art_width_spec(mirror_art_spec(art)) == art_width_spec(text::lines_spec(art)),
        mirror_art_spec(join_lines(mirror_art_spec(art))) == text::lines_spec(art),
{
    let l = text::lines_spec(art);
    let w = art_width_spec(l);
    let m = mirror_art_spec(art);
    text::lemma_lines_have_no_newline(art);
    if l.len() == 0 {
        assert(w == 0);
    }
    assert forall|k: int, i: int| 0 <= k < m.len() && 0 <= i < m[k].len() implies #[trigger] m[k][i]
        != '\n' && m[k][i] != '\r' by {
        let c = pad_char(l[k], w - 1 - i);
        if 0 <= w - 1 - i < l[k].len() {
            assert(l[k][w - 1 - i] != '\n');
            assert(l[k][w - 1 - i] != '\r');
        }
        assert(m[k][i] == mirror_char_spec(c));
    }
    assert(m.last().len() == w);
    lemma_lines_of_joined(m);
    assert forall|k: int| 0 <= k < m.len() implies #[trigger] m[k].len() == w by {}
    lemma_max_width_uniform(m, m.len() as int, w);
    assert forall|k: int| 0 <= k < l.len() implies #[trigger] mirror_line_spec(m[k], w) == l[k] by {
        lemma_mirror_involution(l[k], w);
        assert(pad_line(l[k], w) =~= l[k]);
    }
    assert(mirror_art_spec(join_lines(m)) =~= l);
}

/// Width of an art in characters (its longest line).
pub fn art_width(art: &Vec<String>) -> (w: usize)
    ensures
        w == art_width_spec(lines_view(art@)),
{
    let ghost lines = lines_view(art@);
    let mut w: usize = 0;
    let mut i: usize = 0;
    while i < art.len()
        invariant
            lines == lines_view(art@),
            i <= art@.len(),
            w == max_width(lines, i as int),
        decreases art@.len() - i,
    {
        let n = art[i].as_str().unicode_len();
        assert(lines[i as int] == art@[i as int]@);
        if n > w {
            w = n;
        }
        i = i + 1;
    }
    w
}

/// The sprite as drawn in the asset: its lines, nose to the right.
pub fn art_eastbound(art: &str) -> (r: Vec<String>)
    ensures
        lines_view(r@) == text::lines_spec(art@),
{
    let r = split_lines(art);
    assert(lines_view(r@) =~= text::lines_spec(art@));
    r
}

/// One line mirrored within `width` columns.
fn mirror_line(line: &str, width: usize) -> (r: String)
    ensures
        r@ == mirror_line_spec(line@, width as nat),
{
    let n = line.unicode_len();
    let mut r = String::new();
    let mut k: usize = 0;
    while k < width
        invariant
            n == line@.len(),
            k <= width,
            r@ == mirror_line_spec(line@, width as nat).take(k as int),
        decreases width - k,
    {
        let src = width - 1 - k;
        let c = if src < n {
            line.get_char(src)
        } else {
            ' '
        };
        push_char(&mut r, mirror_char(c));
        assert(r@ =~= mirror_line_spec(line@, width as nat).take(k + 1));
        k = k + 1;
    }
    assert(mirror_line_spec(line@, width as nat).take(width as int) =~= mirror_line_spec(
        line@,
        width as nat,
    ));
    r
}

/// Mirrors an ASCII art horizontally for flying the other way: lines are
/// padded to a common width and reversed, paired characters swapped.
pub fn mirror_art(art: &str) -> (r: Vec<String>)
    ensures
        lines_view(r@) == mirror_art_spec(art@),
{
    let lines = split_lines(art);
    let ghost lv = text::lines_spec(art@);
    assert(lines_view(lines@) =~= lv);
    let width = art_width(&lines);
    let mut out: Vec<String> = Vec::new();
    let mut i: usize = 0;
    while i < lines.len()
        invariant
            lines_view(lines@) == lv,
            width == art_width_spec(lv),
            i <= lines@.len(),
            out@.len() == i,
            forall|k: int| 0 <= k < i ==> #[trigger] out@[k]@ == mirror_line_spec(lv[k], width as nat),
        decreases lines@.len() - i,
    {
        let m = mirror_line(lines[i].as_str(), width);
        assert(lv[i as int] == lines@[i as int]@);
        out.push(m);
        i = i + 1;
    }
    assert(lines_view(out@) =~= Seq::new(lv.len(), |k: int| mirror_line_spec(lv[k], art_width_spec(lv))));
    out
}

/// The westbound sprite: the asset mirrored.
pub fn art_westbound(art: &str) -> (r: Vec<String>)
    ensures
        lines_view(r@) == mirror_art_spec(art@),
{
    mirror_art(art)
}

/// Colour of a character of the airplane sprite: windows, wings, hull
/// shade, contrail, body.
pub open spec fn airplane_char_color_spec(c: char) -> TermColor {
    if c == '"' {
        TermColor::Cyan
    } else if c == '\\' || c == '/' {
        TermColor::Blue
    } else if c == '_' {
        TermColor::DarkGrey
    } else if c == '~' {
        TermColor::Grey
    } else {
        TermColor::White
    }
}

/// Colour of a character of the airplane sprite.
pub fn airplane_char_color(c: char) -> (r: TermColor)
    ensures
        r == airplane_char_color_spec(c),
{
    match c {
        '"' => TermColor::Cyan,
        '\\' | '/' => TermColor::Blue,
        '_' => TermColor::DarkGrey,
        '~' => TermColor::Grey,
        _ => TermColor::White,
    }
}

/// Colour of a character of the ISS sprite: golden panels and truss, grey
/// struts, cyan portholes, white modules.
pub open spec fn iss_char_color_spec(c: char) -> TermColor {
    if c == '=' {
        TermColor::DarkYellow
    } else if c == '|' {
        TermColor::Grey
    } else if c == 'o' {
        TermColor::Cyan
    } else {
        TermColor::White
    }
}

/// Colour of a character of the ISS sprite.
pub fn iss_char_color(c: char) -> (r: TermColor)
    ensures
        r == iss_char_color_spec(c),
{
    match c {
        '=' => TermColor::DarkYellow,
        '|' => TermColor::Grey,
        'o' => TermColor::Cyan,
        _ => TermColor::White,
    }
}

/// Row of a random airplane: the flight level lies below the ISS (whose
/// rows end at 11), within a band of a seventh of the screen (at least 2).
pub fn flight_level(terminal_height: u16, roll: u16) -> (r: u16)
    ensures
        r == 12 + roll % (if terminal_height / 7 < 2 { 2 } else { terminal_height / 7 }),
        12 <= r,
{
    let band = if terminal_height / 7 < 2 {
        2
    } else {
        terminal_height / 7
    };
    12 + roll % band
}

/// Row of a real (labelled) aircraft.
pub fn labeled_level(terminal_height: u16) -> (r: u16)
    ensures
        r == 12 + terminal_height / 14,
{
    12 + terminal_height / 14
}

/// Frames before the next random airplane may appear, given a random
/// number.
pub fn plane_spawn_cooldown(roll: u16) -> (r: u16)
    ensures
        r == 600 + roll % 300,
{
    600 + roll % 300
}

/// One frame of the random airplanes' timer: it counts down, and once it
/// has run out a random airplane appears with a chance of 1 in 1000 (the
/// roll out of 10_000 below 10) unless only real aircraft are shown; the
/// timer is then set anew from `next_roll`. Gives the new timer and
/// whether an airplane appears.
pub fn plane_step(real_only: bool, cooldown: u16, roll: u32, next_roll: u16) -> (r: (u16, bool))
    ensures
        ({
            let left = if cooldown == 0 { 0 } else { cooldown - 1 };
            if !real_only && left == 0 && roll < 10 {
                r == ((600 + next_roll % 300) as u16, true)
            } else {
                r == (left as u16, false)
            }
        }),
{
    let left = if cooldown == 0 {
        0
    } else {
        cooldown - 1
    };
    if !real_only && left == 0 && roll < 10 {
        (plane_spawn_cooldown(next_roll), true)
    } else {
        (left, false)
    }
}

/// The cells of a multi-line sprite whose top left is at (x, y): line k
/// on row y + k, blanks letting the sky show through.
pub open spec fn art_cells_spec(
    lines: Seq<Seq<char>>,
    x: int,
    y: int,
    paint: Paint,
    width: int,
    height: int,
) -> Seq<Cell>
    decreases lines.len(),
{
    if lines.len() == 0 {
        Seq::empty()
    } else {
        art_cells_spec(lines.drop_last(), x, y, paint, width, height) + text_cells(
            x,
            y + lines.len() - 1,
            lines.last(),
            true,
            paint,
            width,
            height,
        )
    }
}

/// A sprite and its caption: the art, then the caption (dark grey, blanks
/// drawn) on the row under the art's last line.
pub open spec fn sprite_cells_spec(
    lines: Seq<Seq<char>>,
    label: Seq<char>,
    x: int,
    y: int,
    paint: Paint,
    width: int,
    height: int,
) -> Seq<Cell> {
    art_cells_spec(lines, x, y, paint, width, height) + text_cells(
        x,
        y + lines.len(),
        label,
        false,
        Paint::Solid(TermColor::DarkGrey),
        width,
        height,
    )
}

/// Lines of a sprite below the screen's bottom add no cells.
proof fn lemma_art_cells_below(
    lines: Seq<Seq<char>>,
    x: int,
    y: int,
    i: int,
    j: int,
    paint: Paint,
    width: int,
    height: int,
)
    requires
        0 <= i <= j <= lines.len(),
        y + i >= height,
    ensures
        art_cells_spec(lines.take(j), x, y, paint, width, height) == art_cells_spec(
            lines.take(i),
            x,
            y,
            paint,
            width,
            height,
        ),
    decreases j - i,
{
    if j > i {
        assert(lines.take(j).drop_last() =~= lines.take(j - 1));
        canvas::lemma_text_cells_off_row(x, y + j - 1, lines.take(j).last(), true, paint, width, height);
        lemma_art_cells_below(lines, x, y, i, j - 1, paint, width, height);
    }
}

/// The cells of an airplane (`Paint::Airplane`) or the ISS (`Paint::Iss`)
/// at (x, y) with its caption (empty for an airplane without one).
pub fn sprite_cells(
    art: &Vec<String>,
    label: &str,
    x: i16,
    y: i16,
    paint: Paint,
    width: u16,
    height: u16,
) -> (cells: Vec<Cell>)
    ensures
        cells@ == sprite_cells_spec(
            lines_view(art@),
            label@,
            x as int,
            y as int,
            paint,
            width as int,
            height as int,
        ),
{
    let ghost lines = lines_view(art@);
    let mut cells: Vec<Cell> = Vec::new();
    let n = art.len();
    let mut k: usize = 0;
    while k < n && (y as i64) < height as i64 - k as i64
        invariant
            lines == lines_view(art@),
            n == art@.len(),
            k <= n,
            k == 0 || y + k <= height,
            cells@ == art_cells_spec(lines.take(k as int), x as int, y as int, paint, width as int, height as int),
        decreases n - k,
    {
        assert(lines.take(k + 1).drop_last() =~= lines.take(k as int));
        assert(lines.take(k + 1).last() == art@[k as int]@);
        put_text(
            &mut cells,
            x as i64,
            y as i64 + k as i64,
            art[k].as_str(),
            true,
            paint,
            width,
            height,
        );
        k = k + 1;
    }
    proof {
        if k < n {
            lemma_art_cells_below(lines, x as int, y as int, k as int, n as int, paint, width as int, height as int);
        }
    }
    assert(lines.take(n as int) =~= lines);
    if k == n && (y as i64) + (k as i64) < height as i64 {
        put_text(
            &mut cells,
            x as i64,
            y as i64 + k as i64,
            label,
            false,
            Paint::Solid(TermColor::DarkGrey),
            width,
            height,
        );
    } else {
        proof {
            canvas::lemma_text_cells_off_row(
                x as int,
                y + n,
                label@,
                false,
                Paint::Solid(TermColor::DarkGrey),
                width as int,
                height as int,
            );
        }
    }
    cells
}

/// Top row of the ISS: above the airplanes' flight levels.
pub const ISS_ALTITUDE_ROW: i16 = 4;

/// How many of the aircraft on the screen carry a caption (are real
/// flights); `labeled[k]` tells it of aircraft k.
pub open spec fn labeled_count(labeled: Seq<bool>) -> nat
    decreases labeled.len(),
{
    if labeled.len() == 0 {
        0
    } else {
        labeled_count(labeled.drop_last()) + if labeled.last() {
            1nat
        } else {
            0nat
        }
    }
}

/// A real aircraft may appear only while no other real one is on the
/// screen: no air show.
pub fn real_aircraft_may_appear(labeled: &Vec<bool>) -> (r: bool)
    ensures
        r == (labeled_count(labeled@) == 0),
{
    let mut i: usize = 0;
    while i < labeled.len()
        invariant
            i <= labeled@.len(),
            labeled_count(labeled@.take(i as int)) == 0,
        decreases labeled@.len() - i,
    {
        assert(labeled@.take(i + 1).drop_last() =~= labeled@.take(i as int));
        if labeled[i] {
            proof {
                lemma_labeled_count_prefix(labeled@, i as int + 1);
            }
            return false;
        }
        i = i + 1;
    }
    assert(labeled@.take(labeled@.len() as int) =~= labeled@);
    true
}

/// The real aircraft of a prefix are no more than those of the whole.
proof fn lemma_labeled_count_prefix(labeled: Seq<bool>, n: int)
    requires
        0 <= n <= labeled.len(),
    ensures
        labeled_count(labeled.take(n)) <= labeled_count(labeled),
    decreases labeled.len() - n,
{
    if n < labeled.len() {
        lemma_labeled_count_prefix(labeled, n + 1);
        assert(labeled.take(n + 1).drop_last() =~= labeled.take(n));
    } else {
        assert(labeled.take(n) =~= labeled);
    }
}

/// One real aircraft at a time: with a real aircraft joining only when
/// `real_aircraft_may_appear` allows it, and random ones joining without a
/// caption, there is never more than one real aircraft on the screen.
pub proof fn lemma_one_real_aircraft_at_a_time(labeled: Seq<bool>)
    requires
        labeled_count(labeled) <= 1,
    ensures
        labeled_count(
            if labeled_count(labeled) == 0 {
                labeled.push(true)
            } else {
                labeled
            },
        ) <= 1,
        labeled_count(labeled.push(false)) == labeled_count(labeled),
{
    assert(labeled.push(true).drop_last() =~= labeled);
    assert(labeled.push(false).drop_last() =~= labeled);
}

} // verus!
