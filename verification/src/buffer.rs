//! The line buffer: per-session textual content as an ordered sequence of
//! lines, plus the cursor and scroll offsets scoped to that content.

use vstd::prelude::*;

verus! {

/// Mathematical view of a buffer's content: one character sequence per line.
pub open spec fn lines_of(content: Seq<Vec<char>>) -> Seq<Seq<char>> {
    Seq::new(content.len(), |i: int| content[i]@)
}

/// Number of lines as reported to callers: the length of the content,
/// saturating to the largest representable value rather than overflowing.
pub open spec fn seq_line_count(lines: Seq<Seq<char>>) -> int {
    if lines.len() > u16::MAX { u16::MAX as int } else { lines.len() as int }
}

/// Width of line `y`: its character count when `y` is in range and the count
/// is representable, and 0 otherwise (an out-of-range index is treated as an
/// empty trailing line, never an error).
pub open spec fn seq_line_width(lines: Seq<Seq<char>>, y: int) -> int {
    if 0 <= y < lines.len() && lines[y].len() <= u16::MAX {
        lines[y].len() as int
    } else {
        0
    }
}

/// Number of decimal digits of a non-negative integer.
pub open spec fn digit_count(n: int) -> int
    decreases n,
{
    if n < 10 {
        1
    } else {
        1 + digit_count(n / 10)
    }
}

/// A buffer holding textual content together with the cursor and scroll
/// state that navigation mutates. The content itself is immutable for the
/// session: no mutation operation exists beyond cursor and scroll state.
pub struct FileBuffer {
    /// Textual content of this buffer, one entry per line.
    pub content: Vec<Vec<char>>,
    /// Horizontal position of the cursor within the content. Zero is left.
    pub cursor_x: u16,
    /// The desired horizontal cursor offset. Used to retain the x offset
    /// while moving vertically.
    pub desired_cursor_x: u16,
    /// Vertical position of the cursor within the content. Zero is top.
    pub cursor_y: u16,
    /// Horizontal scroll offset of this buffer.
    pub scroll_x: u16,
    /// Vertical scroll offset of this buffer.
    pub scroll_y: u16,
}

impl FileBuffer {
    /// The content as a sequence of character sequences.
    pub open spec fn lines(&self) -> Seq<Seq<char>> {
        lines_of(self.content@)
    }

    pub open spec fn spec_line_count(&self) -> int {
        seq_line_count(self.lines())
    }

    pub open spec fn spec_line_width(&self, y: int) -> int {
        seq_line_width(self.lines(), y)
    }

    /// Creates a buffer over the given content, with the cursor and scroll
    /// at the top-left corner.
    pub fn new(content: Vec<Vec<char>>) -> (r: FileBuffer)
        ensures
            r.content@ == content@,
            r.cursor_x == 0,
            r.desired_cursor_x == 0,
            r.cursor_y == 0,
            r.scroll_x == 0,
            r.scroll_y == 0,
    {
        FileBuffer {
            content,
            cursor_y: 0,
            cursor_x: 0,
            desired_cursor_x: 0,
            scroll_y: 0,
            scroll_x: 0,
        }
    }

    /// Returns the amount of lines in this file buffer, saturating.
    pub fn line_count(&self) -> (r: u16)
        ensures
            r as int == self.spec_line_count(),
    {
        let len = self.content.len();
        if len > u16::MAX as usize {
            u16::MAX
        } else {
            len as u16
        }
    }

    /// Returns the number of digits in the line count of this file buffer.
    pub fn max_line_length(&self) -> (r: u16)
        ensures
            r as int == digit_count(self.spec_line_count()),
            1 <= r <= 5,
    {
        let n = self.line_count();
        proof {
            reveal_with_fuel(digit_count, 6);
        }
        if n < 10 {
            1
        } else if n < 100 {
            2
        } else if n < 1000 {
            3
        } else if n < 10000 {
            4
        } else {
            5
        }
    }

    /// Gets the length of a line; 0 for an out-of-range index or for a line
    /// whose length is not representable.
    pub fn line_width(&self, line_idx: usize) -> (r: u16)
        ensures
            r as int == self.spec_line_width(line_idx as int),
    {
        if line_idx < self.content.len() {
            let l = self.content[line_idx].len();
            if l <= u16::MAX as usize {
                l as u16
            } else {
                0
            }
        } else {
            0
        }
    }
}

} // verus!
