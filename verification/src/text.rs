//! Character-level string tools shared by the parsers and formatters:
//! trimming, prefix/suffix stripping, comparison and decimal formatting.

use vstd::prelude::*;

verus! {

/// The Unicode `White_Space` property (`char::is_whitespace`): tab, line
/// feed, vertical tab, form feed, carriage return, space, next line,
/// no-break space, the Ogham space mark, the spaces from en quad to hair
/// space, the line and paragraph separators, the narrow no-break space,
/// the medium mathematical space and the ideographic space.
pub open spec fn spec_is_whitespace(c: char) -> bool {
    ('\u{9}' <= c && c <= '\u{d}') || c == ' ' || c == '\u{85}' || c == '\u{a0}' || c
        == '\u{1680}' || ('\u{2000}' <= c && c <= '\u{200a}') || c == '\u{2028}' || c
        == '\u{2029}' || c == '\u{202f}' || c == '\u{205f}' || c == '\u{3000}'
}

/// Whether `c` is Unicode white space, as `char::is_whitespace` answers.
fn is_whitespace(c: char) -> (r: bool)
    ensures
        r == spec_is_whitespace(c),
{
    ('\u{9}' <= c && c <= '\u{d}') || c == ' ' || c == '\u{85}' || c == '\u{a0}' || c
        == '\u{1680}' || ('\u{2000}' <= c && c <= '\u{200a}') || c == '\u{2028}' || c
        == '\u{2029}' || c == '\u{202f}' || c == '\u{205f}' || c == '\u{3000}'
}

/// Calls `String::push`: the character is appended at the end.
#[verifier::external_body]
pub(crate) fn push_char(s: &mut String, c: char)
    ensures
        final(s)@ == old(s)@.push(c),
{
    s.push(c);
}

/// Lower-case form of a string, as `str::to_lowercase` computes it under the
/// Unicode `Lowercase` mapping.
pub uninterp spec fn spec_to_lowercase(s: Seq<char>) -> Seq<char>;

/// Calls `str::to_lowercase`. The contract claims only that the result is a
/// function of the input characters, named `spec_to_lowercase`.
#[verifier::external_body]
pub(crate) fn to_lowercase(s: &str) -> (r: String)
    ensures
        r@ == spec_to_lowercase(s@),
{
    s.to_lowercase()
}

/// `s` without its leading whitespace.
pub open spec fn trim_start_seq(s: Seq<char>) -> Seq<char>
    decreases s.len(),
{
    if s.len() > 0 && spec_is_whitespace(s[0]) {
        trim_start_seq(s.drop_first())
    } else {
        s
    }
}

/// `s` without its trailing whitespace.
pub open spec fn trim_end_seq(s: Seq<char>) -> Seq<char>
    decreases s.len(),
{
    if s.len() > 0 && spec_is_whitespace(s.last()) {
        trim_end_seq(s.drop_last())
    } else {
        s
    }
}

/// `s` without leading and trailing whitespace, as `str::trim` gives it.
pub open spec fn trim_seq(s: Seq<char>) -> Seq<char> {
    trim_end_seq(trim_start_seq(s))
}

/// `s` with the prefix `p` removed, if `s` starts with `p`.
pub open spec fn strip_prefix_seq(s: Seq<char>, p: Seq<char>) -> Option<Seq<char>> {
    if p.len() <= s.len() && s.take(p.len() as int) == p {
        Some(s.skip(p.len() as int))
    } else {
        None
    }
}

/// `s` with the suffix `p` removed, if `s` ends with `p`.
pub open spec fn strip_suffix_seq(s: Seq<char>, p: Seq<char>) -> Option<Seq<char>> {
    if p.len() <= s.len() && s.skip(s.len() - p.len()) == p {
        Some(s.take(s.len() - p.len()))
    } else {
        None
    }
}

/// The decimal digit character for `d`.
pub open spec fn digit_char(d: nat) -> char {
    if d == 0 {
        '0'
    } else if d == 1 {
        '1'
    } else if d == 2 {
        '2'
    } else if d == 3 {
        '3'
    } else if d == 4 {
        '4'
    } else if d == 5 {
        '5'
    } else if d == 6 {
        '6'
    } else if d == 7 {
        '7'
    } else if d == 8 {
        '8'
    } else {
        '9'
    }
}

/// Decimal notation of `n` without leading zeros.
pub open spec fn decimal(n: nat) -> Seq<char>
    decreases n,
{
    if n < 10 {
        seq![digit_char(n)]
    } else {
        decimal(n / 10).push(digit_char(n % 10))
    }
}

proof fn lemma_trim_start_step(s: Seq<char>, i: int)
    requires
        0 <= i < s.len(),
        spec_is_whitespace(s[i]),
    ensures
        trim_start_seq(s.skip(i)) == trim_start_seq(s.skip(i + 1)),
{
    assert(s.skip(i).drop_first() =~= s.skip(i + 1));
}

proof fn lemma_trim_end_step(s: Seq<char>, j: int)
    requires
        0 < j <= s.len(),
        spec_is_whitespace(s[j - 1]),
    ensures
        trim_end_seq(s.take(j)) == trim_end_seq(s.take(j - 1)),
{
    assert(s.take(j).drop_last() =~= s.take(j - 1));
}

/// Removes leading and trailing whitespace (`str::trim`).
pub fn trim(s: &str) -> (r: &str)
    ensures
        r@ == trim_seq(s@),
{
    let n = s.unicode_len();
    let mut start: usize = 0;
    let mut scanning = true;
    assert(s@.skip(0) =~= s@);
    while scanning && start < n
        invariant
            n == s@.len(),
            start <= n,
            trim_start_seq(s@) == trim_start_seq(s@.skip(start as int)),
            !scanning ==> start < n && !spec_is_whitespace(s@[start as int]),
        decreases n - start + (if scanning { 1int } else { 0int }),
    {
        if is_whitespace(s.get_char(start)) {
            proof {
                lemma_trim_start_step(s@, start as int);
            }
            start = start + 1;
        } else {
            scanning = false;
        }
    }
    assert(s@.skip(0) =~= s@);
    let rest = s.substring_char(start, n);
    assert(rest@ =~= s@.skip(start as int));
    assert(trim_start_seq(s@) == rest@) by {
        if start == n {
            assert(rest@.len() == 0);
        }
    }
    let m = n - start;
    let mut end: usize = m;
    let mut scanning_back = true;
    assert(rest@.take(m as int) =~= rest@);
    while scanning_back && end > 0
        invariant
            m == rest@.len(),
            end <= m,
            trim_end_seq(rest@) == trim_end_seq(rest@.take(end as int)),
            !scanning_back ==> end > 0 && !spec_is_whitespace(rest@[end - 1]),
        decreases end + (if scanning_back { 1int } else { 0int }),
    {
        if is_whitespace(rest.get_char(end - 1)) {
            proof {
                lemma_trim_end_step(rest@, end as int);
            }
            end = end - 1;
        } else {
            scanning_back = false;
        }
    }
    assert(rest@.take(m as int) =~= rest@);
    let r = rest.substring_char(0, end);
    assert(r@ =~= rest@.take(end as int));
    assert(trim_end_seq(rest@) == r@) by {
        if end == 0 {
            assert(r@.len() == 0);
        } else {
            assert(r@.last() == rest@[end - 1]);
        }
    }
    r
}

/// Compares two strings character by character.
pub fn str_eq(a: &str, b: &str) -> (r: bool)
    ensures
        r == (a@ == b@),
{
    let n = a.unicode_len();
    let m = b.unicode_len();
    if n != m {
        return false;
    }
    let mut i: usize = 0;
    while i < n
        invariant
            n == a@.len(),
            n == b@.len(),
            i <= n,
            forall|j: int| 0 <= j < i ==> a@[j] == b@[j],
        decreases n - i,
    {
        if a.get_char(i) != b.get_char(i) {
            return false;
        }
        i = i + 1;
    }
    assert(a@ =~= b@);
    true
}

/// `s` without the prefix `p` (`str::strip_prefix`).
pub fn strip_prefix<'a>(s: &'a str, p: &str) -> (r: Option<&'a str>)
    ensures
        r matches Some(x) ==> strip_prefix_seq(s@, p@) == Some(x@),
        r is None ==> strip_prefix_seq(s@, p@) is None,
{
    let n = s.unicode_len();
    let k = p.unicode_len();
    if k > n {
        return None;
    }
    let head = s.substring_char(0, k);
    if str_eq(head, p) {
        assert(head@ =~= s@.take(k as int));
        let tail = s.substring_char(k, n);
        assert(tail@ =~= s@.skip(k as int));
        Some(tail)
    } else {
        assert(head@ =~= s@.take(k as int));
        None
    }
}

/// `s` without the suffix `p` (`str::strip_suffix`).
pub fn strip_suffix<'a>(s: &'a str, p: &str) -> (r: Option<&'a str>)
    ensures
        r matches Some(x) ==> strip_suffix_seq(s@, p@) == Some(x@),
        r is None ==> strip_suffix_seq(s@, p@) is None,
{
    let n = s.unicode_len();
    let k = p.unicode_len();
    if k > n {
        return None;
    }
    let tail = s.substring_char(n - k, n);
    assert(tail@ =~= s@.skip(n - k));
    if str_eq(tail, p) {
        let head = s.substring_char(0, n - k);
        assert(head@ =~= s@.take(n - k));
        Some(head)
    } else {
        None
    }
}

/// The decimal digit character for `d < 10`.
fn digit(d: u64) -> (c: char)
    requires
        d < 10,
    ensures
        c == digit_char(d as nat),
{
    match d {
        0 => '0',
        1 => '1',
        2 => '2',
        3 => '3',
        4 => '4',
        5 => '5',
        6 => '6',
        7 => '7',
        8 => '8',
        _ => '9',
    }
}

/// Appends the decimal notation of `n` to `s`.
pub fn push_decimal(s: &mut String, n: u64)
    ensures
        final(s)@ == old(s)@ + decimal(n as nat),
    decreases n,
{
    if n >= 10 {
        push_decimal(s, n / 10);
    }
    push_char(s, digit(n % 10));
    assert(s@ =~= old(s)@ + decimal(n as nat));
}

/// Position of the first `c` in `s` at or after `from`, or `s.len()` when
/// there is none.
pub open spec fn next_index_of(s: Seq<char>, from: int, c: char) -> int
    decreases s.len() - from,
{
    if from >= s.len() {
        s.len() as int
    } else if s[from] == c {
        from
    } else {
        next_index_of(s, from + 1, c)
    }
}

pub proof fn lemma_next_index_of_bounds(s: Seq<char>, from: int, c: char)
    requires
        0 <= from,
    ensures
        from <= next_index_of(s, from, c) || from > s.len(),
        next_index_of(s, from, c) <= s.len(),
        next_index_of(s, from, c) < s.len() ==> s[next_index_of(s, from, c)] == c,
        forall|k: int| from <= k < next_index_of(s, from, c) ==> s[k] != c,
    decreases s.len() - from,
{
    if from < s.len() && s[from] != c {
        lemma_next_index_of_bounds(s, from + 1, c);
    }
}

pub proof fn lemma_next_index_of_found(s: Seq<char>, from: int, at: int, c: char)
    requires
        0 <= from <= at < s.len(),
        s[at] == c,
        forall|k: int| from <= k < at ==> s[k] != c,
    ensures
        next_index_of(s, from, c) == at,
    decreases at - from,
{
    if from < at {
        lemma_next_index_of_found(s, from + 1, at, c);
    }
}

pub proof fn lemma_next_index_of_absent(s: Seq<char>, from: int, c: char)
    requires
        0 <= from <= s.len(),
        forall|k: int| from <= k < s.len() ==> s[k] != c,
    ensures
        next_index_of(s, from, c) == s.len(),
    decreases s.len() - from,
{
    if from < s.len() {
        lemma_next_index_of_absent(s, from + 1, c);
    }
}

/// A line without the carriage return that ended it before the line feed.
pub open spec fn strip_cr(line: Seq<char>) -> Seq<char> {
    if line.len() > 0 && line.last() == '\r' {
        line.drop_last()
    } else {
        line
    }
}

/// The lines of `s` as `str::lines` yields them: split at `\n` or `\r\n`,
/// terminators removed, no empty line after a final terminator.
pub open spec fn lines_spec(s: Seq<char>) -> Seq<Seq<char>>
    decreases s.len(),
{
    if s.len() == 0 {
        Seq::empty()
    } else {
        let j = next_index_of(s, 0, '\n');
        if j >= s.len() {
            seq![s]
        } else {
            proof {
                lemma_next_index_of_bounds(s, 0, '\n');
            }
            seq![strip_cr(s.take(j))] + lines_spec(s.skip(j + 1))
        }
    }
}

proof fn lemma_lines_step(s: Seq<char>, start: int, i: int)
    requires
        0 <= start <= i < s.len(),
        s[i] == '\n',
        forall|k: int| start <= k < i ==> s[k] != '\n',
    ensures
        lines_spec(s.skip(start)) == seq![strip_cr(s.subrange(start, i))] + lines_spec(
            s.skip(i + 1),
        ),
{
    let t = s.skip(start);
    lemma_next_index_of_found(t, 0, i - start, '\n');
    assert(t.take(i - start) =~= s.subrange(start, i));
    assert(t.skip(i - start + 1) =~= s.skip(i + 1));
}

proof fn lemma_lines_last(s: Seq<char>, start: int)
    requires
        0 <= start < s.len(),
        forall|k: int| start <= k < s.len() ==> s[k] != '\n',
    ensures
        lines_spec(s.skip(start)) == seq![s.subrange(start, s.len() as int)],
{
    let t = s.skip(start);
    lemma_next_index_of_absent(t, 0, '\n');
    assert(t =~= s.subrange(start, s.len() as int));
}

/// No line of a text holds a line feed.
pub proof fn lemma_lines_have_no_newline(s: Seq<char>)
    ensures
        forall|k: int, i: int|
            0 <= k < lines_spec(s).len() && 0 <= i < lines_spec(s)[k].len() ==> #[trigger] lines_spec(
                s,
            )[k][i] != '\n',
    decreases s.len(),
{
    if s.len() > 0 {
        lemma_next_index_of_bounds(s, 0, '\n');
        let j = next_index_of(s, 0, '\n');
        if j < s.len() {
            lemma_lines_have_no_newline(s.skip(j + 1));
            let first = strip_cr(s.take(j));
            let rest = lines_spec(s.skip(j + 1));
            assert(lines_spec(s) == seq![first] + rest);
            assert forall|k: int, i: int|
                0 <= k < lines_spec(s).len() && 0 <= i < lines_spec(s)[k].len() implies #[trigger] lines_spec(
                s,
            )[k][i] != '\n' by {
                if k == 0 {
                    assert(lines_spec(s)[0] == first);
                    assert(first[i] == s[i]);
                } else {
                    assert(lines_spec(s)[k] == rest[k - 1]);
                }
            }
        } else {
            assert(lines_spec(s) == seq![s]);
        }
    }
}

/// `line` without a final carriage return.
fn without_cr(line: &str) -> (r: &str)
    ensures
        r@ == strip_cr(line@),
{
    let n = line.unicode_len();
    if n > 0 && line.get_char(n - 1) == '\r' {
        let r = line.substring_char(0, n - 1);
        assert(r@ =~= line@.drop_last());
        r
    } else {
        line
    }
}

/// The lines of `s` (`str::lines`), each as an owned string.
pub fn split_lines(s: &str) -> (r: Vec<String>)
    ensures
        r@.len() == lines_spec(s@).len(),
        forall|k: int| 0 <= k < r@.len() ==> #[trigger] r@[k]@ == lines_spec(s@)[k],
{
    let n = s.unicode_len();
    let mut out: Vec<String> = Vec::new();
    let ghost mut out_view: Seq<Seq<char>> = Seq::empty();
    let mut start: usize = 0;
    let mut i: usize = 0;
    assert(s@.skip(0) =~= s@);
    while i < n
        invariant
            n == s@.len(),
            start <= i <= n,
            forall|k: int| start <= k < i ==> s@[k] != '\n',
            out@.len() == out_view.len(),
            forall|k: int| 0 <= k < out@.len() ==> #[trigger] out@[k]@ == out_view[k],
            lines_spec(s@) == out_view + lines_spec(s@.skip(start as int)),
        decreases n - i,
    {
        if s.get_char(i) == '\n' {
            proof {
                lemma_lines_step(s@, start as int, i as int);
            }
            let raw = s.substring_char(start, i);
            let line = without_cr(raw);
            out.push(String::from_str(line));
            proof {
                out_view = out_view.push(line@);
                assert(lines_spec(s@) =~= out_view + lines_spec(s@.skip(i + 1)));
            }
            start = i + 1;
        }
        i = i + 1;
    }
    if start < n {
        proof {
            lemma_lines_last(s@, start as int);
        }
        let line = s.substring_char(start, n);
        out.push(String::from_str(line));
        proof {
            out_view = out_view.push(line@);
            assert(lines_spec(s@) =~= out_view);
        }
    } else {
        assert(s@.skip(start as int).len() == 0);
        assert(lines_spec(s@) =~= out_view);
    }
    out
}

} // verus!
