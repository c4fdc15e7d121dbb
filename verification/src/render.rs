//! Render projection: turning the editor state into one frame, a sequence
//! of visible rows (gutter, separator, then the visible window of each
//! line) plus the screen position of the cursor.

use vstd::prelude::*;
use crate::editor::{Tori, NavState, nav_gutter, min_i, sat_sub};

verus! {

/// The decimal digit `d` as a character.
pub open spec fn digit_char(d: int) -> char {
    if d == 0 {
        '0'
    } else if d == 1 {
        '1'
    } else if d == 2 {
        '2'
    } else if d == 3 {
        '3'
    } else if d == 4 {
        '4'
    } else if d == 5 {
        '5'
    } else if d == 6 {
        '6'
    } else if d == 7 {
        '7'
    } else if d == 8 {
        '8'
    } else {
        '9'
    }
}

/// The decimal rendering of a non-negative integer, most significant digit
/// first.
pub open spec fn dec_of(n: int) -> Seq<char>
    decreases n,
{
    if n < 10 {
        seq![digit_char(n)]
    } else {
        dec_of(n / 10).push(digit_char(n % 10))
    }
}

/// `k` spaces (none for a non-positive `k`).
pub open spec fn spaces(k: int) -> Seq<char> {
    if k <= 0 {
        Seq::empty()
    } else {
        Seq::new(k as nat, |i: int| ' ')
    }
}

/// `s` right-aligned in a field of `w` characters: space-padded on the
/// left when shorter, and left as it is when already at least that wide.
pub open spec fn pad_left(s: Seq<char>, w: int) -> Seq<char> {
    if s.len() >= w {
        s
    } else {
        spaces(w - s.len()) + s
    }
}

/// The first `n` characters of `s` (all of them when `s` is shorter).
pub open spec fn truncated(s: Seq<char>, n: int) -> Seq<char> {
    if n < 0 {
        Seq::empty()
    } else if s.len() <= n {
        s
    } else {
        s.take(n)
    }
}

/// Screen row `r` of the frame: for a content line, the 1-based line
/// number right-aligned in the gutter, a separator space, and the window
/// of the line from `scroll_x` over `screen_columns` characters (clamped
/// to the line); past the end of the content, a `~` placeholder. Either
/// way the row is finally truncated to the full terminal width.
pub open spec fn rendered_row(s: NavState, r: int) -> Seq<char> {
    let idx = s.scroll_y + r;
    if 0 <= idx < s.lines.len() {
        let line = s.lines[idx];
        let from = min_i(s.scroll_x, line.len() as int);
        let to = min_i(from + s.screen_columns, line.len() as int);
        truncated(
            pad_left(dec_of(idx + 1), nav_gutter(s)) + seq![' '] + line.subrange(from, to),
            s.columns,
        )
    } else {
        truncated(seq!['~'], s.columns)
    }
}

/// The screen column of the cursor: its buffer column shifted right by the
/// gutter and separator and left by the horizontal scroll, clamped to the
/// representable range.
pub open spec fn cursor_col_s(s: NavState) -> int {
    let v = s.cursor_x + nav_gutter(s) + 1 - s.scroll_x;
    if v < 0 {
        0
    } else if v > u16::MAX {
        u16::MAX as int
    } else {
        v
    }
}

/// The screen row of the cursor: its buffer line shifted up by the
/// vertical scroll, saturating at 0.
pub open spec fn cursor_row_s(s: NavState) -> int {
    sat_sub(s.cursor_y, s.scroll_y)
}

/// One rendered frame: the visible rows and the cursor's screen position.
pub struct Frame {
    /// The rows to draw, top to bottom, one per screen row.
    pub rows: Vec<Vec<char>>,
    /// Screen column to place the cursor at.
    pub cursor_col: u16,
    /// Screen row to place the cursor at.
    pub cursor_row: u16,
}

/// The decimal digit `d` as a character.
fn digit_to_char(d: u32) -> (c: char)
    requires
        d < 10,
    ensures
        c == digit_char(d as int),
{
    if d == 0 {
        '0'
    } else if d == 1 {
        '1'
    } else if d == 2 {
        '2'
    } else if d == 3 {
        '3'
    } else if d == 4 {
        '4'
    } else if d == 5 {
        '5'
    } else if d == 6 {
        '6'
    } else if d == 7 {
        '7'
    } else if d == 8 {
        '8'
    } else {
        '9'
    }
}

/// Renders `n` in decimal.
fn dec_chars(n: u32) -> (r: Vec<char>)
    ensures
        r@ == dec_of(n as int),
{
    let mut rev: Vec<char> = Vec::new();
    let mut m: u32 = n;
    proof {
        assert(dec_of(n as int) =~= dec_of(m as int) + rev@.reverse());
    }
    loop
        invariant_except_break
            dec_of(n as int) == dec_of(m as int) + rev@.reverse(),
        ensures
            dec_of(n as int) == rev@.reverse(),
        decreases m,
    {
        let ghost m0 = m as int;
        let ghost rev0 = rev@;
        let d = m % 10;
        let c = digit_to_char(d);
        rev.push(c);
        m = m / 10;
        proof {
            assert(rev@.reverse() =~= seq![c] + rev0.reverse());
            if m == 0 {
                assert(dec_of(m0) == seq![c]);
                assert(dec_of(n as int) =~= rev@.reverse());
            } else {
                assert(dec_of(m0) == dec_of(m0 / 10).push(c));
                assert(dec_of(m0 / 10).push(c) =~= dec_of(m0 / 10) + seq![c]);
                assert(dec_of(n as int) =~= dec_of(m as int) + rev@.reverse());
            }
        }
        if m == 0 {
            break;
        }
    }
    let mut r: Vec<char> = Vec::new();
    let mut i: usize = rev.len();
    while i > 0
        invariant
            0 <= i <= rev@.len(),
            r@.len() == rev@.len() - i,
            forall|j: int| 0 <= j < r@.len() ==> r@[j] == rev@[rev@.len() - 1 - j],
        decreases i,
    {
        i = i - 1;
        let c = rev[i];
        r.push(c);
    }
    proof {
        assert(r@ =~= rev@.reverse());
    }
    r
}

/// Renders `n` in decimal, right-aligned in a field of `width` characters.
fn padded_decimal(n: u32, width: u16) -> (r: Vec<char>)
    ensures
        r@ == pad_left(dec_of(n as int), width as int),
{
    let mut digits = dec_chars(n);
    let mut r: Vec<char> = Vec::new();
    if digits.len() < width as usize {
        let pad = width as usize - digits.len();
        let mut k: usize = 0;
        while k < pad
            invariant
                0 <= k <= pad,
                r@.len() == k,
                forall|j: int| 0 <= j < r@.len() ==> r@[j] == ' ',
            decreases pad - k,
        {
            r.push(' ');
            k = k + 1;
        }
        proof {
            assert(r@ =~= spaces(width as int - digits@.len()));
        }
    }
    r.append(&mut digits);
    proof {
        assert(r@ =~= pad_left(dec_of(n as int), width as int));
    }
    r
}

/// Copies the characters of `line` from `from` (inclusive) to `to`
/// (exclusive).
fn char_range(line: &Vec<char>, from: usize, to: usize) -> (r: Vec<char>)
    requires
        from <= to <= line@.len(),
    ensures
        r@ == line@.subrange(from as int, to as int),
{
    let mut r: Vec<char> = Vec::new();
    let mut j: usize = from;
    while j < to
        invariant
            from <= j <= to <= line@.len(),
            r@.len() == j - from,
            forall|k: int| 0 <= k < r@.len() ==> r@[k] == line@[from + k],
        decreases to - j,
    {
        let c = line[j];
        r.push(c);
        j = j + 1;
    }
    proof {
        assert(r@ =~= line@.subrange(from as int, to as int));
    }
    r
}

impl Tori {
    /// Projects the current editor state onto one frame: `screen_rows`
    /// rows of visible content and the cursor's screen position.
    pub fn render(&self) -> (f: Frame)
        ensures
            f.rows@.len() == self.screen_rows as int,
            forall|r: int|
                0 <= r < f.rows@.len() ==> f.rows@[r]@ == rendered_row(self.nav(), r),
            f.cursor_col as int == cursor_col_s(self.nav()),
            f.cursor_row as int == cursor_row_s(self.nav()),
    {
        let gutter = self.buffer.max_line_length();
        let mut rows: Vec<Vec<char>> = Vec::new();
        let mut r: u16 = 0;
        while r < self.screen_rows
            invariant
                0 <= r <= self.screen_rows,
                rows@.len() == r as int,
                forall|q: int| 0 <= q < rows@.len() ==> rows@[q]@ == rendered_row(self.nav(), q),
                gutter as int == nav_gutter(self.nav()),
            decreases self.screen_rows - r,
        {
            let idx = self.buffer.scroll_y as usize + r as usize;
            let row: Vec<char>;
            if idx < self.buffer.content.len() {
                let line = &self.buffer.content[idx];
                let from = if self.buffer.scroll_x as usize <= line.len() {
                    self.buffer.scroll_x as usize
                } else {
                    line.len()
                };
                let to = if self.screen_columns as usize <= line.len() - from {
                    from + self.screen_columns as usize
                } else {
                    line.len()
                };
                let mut row0 = padded_decimal((idx + 1) as u32, gutter);
                row0.push(' ');
                let mut window = char_range(line, from, to);
                row0.append(&mut window);
                proof {
                    assert(row0@ =~= pad_left(dec_of(idx + 1), gutter as int) + seq![' ']
                        + line@.subrange(from as int, to as int));
                }
                row0.truncate(self.columns as usize);
                proof {
                    assert(self.nav().lines[idx as int] == line@);
                    assert(row0@ =~= rendered_row(self.nav(), r as int));
                }
                row = row0;
            } else {
                let mut row0: Vec<char> = Vec::new();
                row0.push('~');
                row0.truncate(self.columns as usize);
                proof {
                    assert(row0@ =~= rendered_row(self.nav(), r as int));
                }
                row = row0;
            }
            rows.push(row);
            r = r + 1;
        }
        // Place the cursor: offset horizontally by the width of the line
        // numbers and the separator, and subtract the scroll offsets.
        let col_raw: u32 = self.buffer.cursor_x as u32 + gutter as u32 + 1;
        let cursor_col: u16 = if self.buffer.scroll_x as u32 <= col_raw {
            let v = col_raw - self.buffer.scroll_x as u32;
            if v > u16::MAX as u32 {
                u16::MAX
            } else {
                v as u16
            }
        } else {
            0
        };
        let cursor_row: u16 = if self.buffer.cursor_y >= self.buffer.scroll_y {
            self.buffer.cursor_y - self.buffer.scroll_y
        } else {
            0
        };
        Frame { rows, cursor_col, cursor_row }
    }
}

} // verus!
