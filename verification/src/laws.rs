//! Properties of the navigation rules, proved once over the abstract
//! navigation state. The editor's exec methods tie their results to the
//! same transition functions, so these laws hold of every editor value.

use vstd::prelude::*;
use crate::editor::{
    NavState, nav_wf, nav_line_count, nav_width, last_line, scroll_fix, geometry_ok,
    move_up_s, move_down_s, move_left_s, move_right_s, move_dir_s,
};
use crate::input::Direction;

verus! {

/// A sequence of `n` moves to the right.
pub open spec fn rights_s(s: NavState, n: nat) -> NavState
    decreases n,
{
    if n == 0 {
        s
    } else {
        move_right_s(rights_s(s, (n - 1) as nat))
    }
}

/// Clamping: a single move in any direction keeps the cursor on a line and
/// keeps its column between 0 and the width of that line (inclusive, the
/// cursor may sit just after the last character). In particular, whenever
/// the buffer has any lines at all, `0 <= cursor_y < line_count` holds
/// afterwards. Moves never change the content or the viewport geometry.
pub proof fn lemma_move_preserves_wf(s: NavState, d: Direction)
    requires
        nav_wf(s),
    ensures
        nav_wf(move_dir_s(s, d)),
        0 <= move_dir_s(s, d).cursor_y <= last_line(s),
        nav_line_count(s) > 0 ==> move_dir_s(s, d).cursor_y < nav_line_count(s),
        0 <= move_dir_s(s, d).cursor_x
            <= nav_width(s, move_dir_s(s, d).cursor_y),
        move_dir_s(s, d).lines == s.lines,
        move_dir_s(s, d).columns == s.columns,
        move_dir_s(s, d).rows == s.rows,
        move_dir_s(s, d).screen_rows == s.screen_rows,
        move_dir_s(s, d).screen_columns == s.screen_columns,
        move_dir_s(s, d).lookahead == s.lookahead,
        geometry_ok(s) ==> geometry_ok(move_dir_s(s, d)),
{
}

/// Desired-column restoration: moving down to another line and then up
/// again restores the cursor to its original line and column, provided the
/// desired column had been set from the original column (as every explicit
/// horizontal move does), even when the line in between is shorter.
pub proof fn lemma_desired_column_restored(s: NavState)
    requires
        nav_wf(s),
        s.desired_cursor_x == s.cursor_x,
        s.cursor_y < last_line(s),
    ensures
        move_up_s(move_down_s(s)).cursor_y == s.cursor_y,
        move_up_s(move_down_s(s)).cursor_x == s.cursor_x,
        move_up_s(move_down_s(s)).desired_cursor_x == s.desired_cursor_x,
{
}

/// Wrap behaviour at the top-left corner: a left move at `(0, 0)` saturates
/// upward, leaving the cursor on line 0 with its column set to the width of
/// line 0. When line 0 is empty and the state is already settled (desired
/// column 0, no scroll, a screen taller than the lookahead and at least one
/// column wide), the state is left entirely unchanged.
pub proof fn lemma_left_at_origin(s: NavState)
    requires
        nav_wf(s),
        s.cursor_x == 0,
        s.cursor_y == 0,
    ensures
        move_left_s(s).cursor_y == 0,
        move_left_s(s).cursor_x == nav_width(s, 0),
        move_left_s(s).desired_cursor_x == nav_width(s, 0),
        (s.desired_cursor_x == 0 && s.scroll_x == 0 && s.scroll_y == 0 && nav_width(s, 0) == 0
            && s.lookahead < s.screen_rows && s.screen_columns >= 1) ==> move_left_s(s) == s,
{
}

/// Wrap behaviour at the end of the last line: a right move there saturates
/// downward, so the cursor line is unchanged, while the wrap rule still
/// resets the column and the desired column to 0.
pub proof fn lemma_right_at_end_of_last_line(s: NavState)
    requires
        nav_wf(s),
        s.cursor_y == last_line(s),
        s.cursor_x >= nav_width(s, s.cursor_y),
    ensures
        move_right_s(s).cursor_y == s.cursor_y,
        move_right_s(s).cursor_x == 0,
        move_right_s(s).desired_cursor_x == 0,
        move_right_s(s).lines == s.lines,
{
}

/// Scroll containment: scroll maintenance places the viewport so that the
/// cursor is inside it on both axes, whenever the screen is at least one
/// column wide, taller than the lookahead margin (which must be positive),
/// and the cursor is at least the lookahead margin above the last line.
pub proof fn lemma_scroll_containment(s: NavState)
    requires
        nav_wf(s),
        1 <= s.lookahead < s.screen_rows,
        1 <= s.screen_columns,
        s.cursor_y + s.lookahead <= last_line(s),
    ensures
        scroll_fix(s).scroll_y <= s.cursor_y <= scroll_fix(s).scroll_y + s.screen_rows - 1,
        scroll_fix(s).scroll_x <= s.cursor_x <= scroll_fix(s).scroll_x + s.screen_columns - 1,
{
}

/// The viewport never scrolls past the cursor: after scroll maintenance
/// the cursor is never above the top visible line (whenever the screen is
/// at least as tall as the lookahead margin) nor left of the first visible
/// column (whenever the screen is at least one column wide). Unlike full
/// containment this needs no bound on the cursor's distance to the last
/// line.
pub proof fn lemma_scroll_not_past_cursor(s: NavState)
    requires
        nav_wf(s),
    ensures
        s.lookahead <= s.screen_rows ==> scroll_fix(s).scroll_y <= s.cursor_y,
        s.screen_columns >= 1 ==> scroll_fix(s).scroll_x <= s.cursor_x,
{
}

/// Within one line, each right move advances the column by exactly one:
/// `n` right moves starting at most `n` columns before the line's width
/// stay on the line and land `n` columns further, setting the desired
/// column along the way.
pub proof fn lemma_rights_stay_on_line(s: NavState, n: nat)
    requires
        nav_wf(s),
        s.cursor_x + n <= nav_width(s, s.cursor_y),
    ensures
        nav_wf(rights_s(s, n)),
        rights_s(s, n).cursor_y == s.cursor_y,
        rights_s(s, n).cursor_x == s.cursor_x + n,
        rights_s(s, n).desired_cursor_x == (if n == 0 {
            s.desired_cursor_x
        } else {
            s.cursor_x + n
        }),
        rights_s(s, n).lines == s.lines,
    decreases n,
{
    if n > 0 {
        lemma_rights_stay_on_line(s, (n - 1) as nat);
    }
}

/// Round-trip navigation: from column 0, as many right moves as the line
/// is wide followed by one more land exactly at the start of the next
/// line.
pub proof fn lemma_round_trip_right(s: NavState)
    requires
        nav_wf(s),
        s.cursor_x == 0,
        s.cursor_y < last_line(s),
    ensures
        move_right_s(rights_s(s, nav_width(s, s.cursor_y) as nat)).cursor_y == s.cursor_y + 1,
        move_right_s(rights_s(s, nav_width(s, s.cursor_y) as nat)).cursor_x == 0,
{
    lemma_rights_stay_on_line(s, nav_width(s, s.cursor_y) as nat);
}

} // verus!
