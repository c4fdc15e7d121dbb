//! The navigator: editor state, cursor movement, scroll maintenance, and
//! event dispatch, all specified against an abstract navigation state.

use vstd::prelude::*;
use crate::buffer::{FileBuffer, seq_line_count, seq_line_width, digit_count};
use crate::input::{Direction, ToriEvent, KeyInput, KeyEventKind, InputEvent};
use crate::input::{default_keymap, default_keymap_spec, lookup_spec, keymap_lookup};

verus! {

/// Editor configuration.
pub struct Config {
    /// Vertical scroll lookahead.
    pub lookahead: u16,
}

impl Config {
    /// The default configuration: a lookahead margin of 6 lines.
    pub fn default() -> (r: Self)
        ensures
            r.lookahead == 6,
    {
        Self { lookahead: 6 }
    }
}

/// The smaller of two integers.
pub open spec fn min_i(a: int, b: int) -> int {
    if a <= b {
        a
    } else {
        b
    }
}

/// `a - b`, saturating at zero.
pub open spec fn sat_sub(a: int, b: int) -> int {
    if a >= b {
        a - b
    } else {
        0
    }
}

/// Abstract navigation state: everything the cursor/viewport coordinate
/// rules read or write, as mathematical integers over the line contents.
pub ghost struct NavState {
    /// The buffer content, one character sequence per line.
    pub lines: Seq<Seq<char>>,
    pub cursor_x: int,
    pub desired_cursor_x: int,
    pub cursor_y: int,
    pub scroll_x: int,
    pub scroll_y: int,
    /// Full terminal width.
    pub columns: int,
    /// Full terminal height.
    pub rows: int,
    /// Height of the area the buffer is rendered to.
    pub screen_rows: int,
    /// Width of the area the buffer is rendered to.
    pub screen_columns: int,
    /// Scroll lookahead margin.
    pub lookahead: int,
}

/// Number of lines, saturating.
pub open spec fn nav_line_count(s: NavState) -> int {
    seq_line_count(s.lines)
}

/// Index of the last line; 0 when there are no lines.
pub open spec fn last_line(s: NavState) -> int {
    if nav_line_count(s) == 0 {
        0
    } else {
        nav_line_count(s) - 1
    }
}

/// Width of line `y`, or 0 out of range.
pub open spec fn nav_width(s: NavState, y: int) -> int {
    seq_line_width(s.lines, y)
}

/// Width of the line-number gutter: the digit count of the line count.
pub open spec fn nav_gutter(s: NavState) -> int {
    digit_count(nav_line_count(s))
}

/// Well-formedness: every field is a representable coordinate, the cursor
/// is on a line, and the cursor column is at most the line width (it may
/// equal it: the cursor can sit just after the last character).
pub open spec fn nav_wf(s: NavState) -> bool {
    &&& 0 <= s.cursor_x <= u16::MAX
    &&& 0 <= s.desired_cursor_x <= u16::MAX
    &&& 0 <= s.cursor_y <= u16::MAX
    &&& 0 <= s.scroll_x <= u16::MAX
    &&& 0 <= s.scroll_y <= u16::MAX
    &&& 0 <= s.columns <= u16::MAX
    &&& 0 <= s.rows <= u16::MAX
    &&& 0 <= s.screen_rows <= u16::MAX
    &&& 0 <= s.screen_columns <= u16::MAX
    &&& 0 <= s.lookahead <= u16::MAX
    &&& s.cursor_y <= last_line(s)
    &&& s.cursor_x <= nav_width(s, s.cursor_y)
}

/// The screen dimensions are correctly derived from the terminal
/// dimensions: one row reserved for the status line, and one gutter plus
/// one separator column reserved on the left, saturating at zero.
pub open spec fn geometry_ok(s: NavState) -> bool {
    &&& s.screen_rows == sat_sub(s.rows, 1)
    &&& s.screen_columns == sat_sub(s.columns, nav_gutter(s) + 1)
}

/// Recomputes the screen dimensions from the terminal dimensions.
pub open spec fn recompute_screen_s(s: NavState) -> NavState {
    NavState {
        screen_rows: sat_sub(s.rows, 1),
        screen_columns: sat_sub(s.columns, nav_gutter(s) + 1),
        ..s
    }
}

/// A terminal resize: record the new dimensions, then recompute the screen
/// dimensions.
pub open spec fn resized_s(s: NavState, columns: int, rows: int) -> NavState {
    recompute_screen_s(NavState { columns: columns, rows: rows, ..s })
}

/// Reprojects the cursor column from the desired column: the intended
/// column when it fits the current line, clamped to the line width when
/// the line is shorter.
pub open spec fn with_clamped_x(s: NavState) -> NavState {
    NavState { cursor_x: min_i(s.desired_cursor_x, nav_width(s, s.cursor_y)), ..s }
}

/// Scroll maintenance. Each condition is evaluated against the scroll
/// offsets held on entry; up is checked before down and left before right,
/// so a state satisfying neither is left untouched on that axis.
/// Subtractions saturate at zero (never scroll above line 0), and the
/// rightward scroll target saturates at the largest representable column.
pub open spec fn scroll_fix(s: NavState) -> NavState {
    let cy = s.cursor_y;
    let cx = s.cursor_x;
    let sy = s.scroll_y;
    let sx = s.scroll_x;
    let up_target = sat_sub(cy, s.lookahead);
    let sy1 = if up_target < sy {
        up_target
    } else {
        sy
    };
    let sy2 = if cy + s.lookahead >= sy + s.screen_rows {
        sat_sub(min_i(cy + s.lookahead, last_line(s)), s.screen_rows)
    } else {
        sy1
    };
    let sx1 = if cx < sx {
        cx
    } else {
        sx
    };
    let sx2 = if cx >= sx + s.screen_columns {
        min_i(cx - s.screen_columns + 1, u16::MAX as int)
    } else {
        sx1
    };
    NavState { scroll_y: sy2, scroll_x: sx2, ..s }
}

/// Move up: the cursor line saturates at 0, the column is reprojected from
/// the desired column, and scroll is re-maintained.
pub open spec fn move_up_s(s: NavState) -> NavState {
    scroll_fix(with_clamped_x(NavState { cursor_y: sat_sub(s.cursor_y, 1), ..s }))
}

/// Move down: the cursor line saturates at the last line, the column is
/// reprojected from the desired column, and scroll is re-maintained.
pub open spec fn move_down_s(s: NavState) -> NavState {
    scroll_fix(with_clamped_x(NavState { cursor_y: min_i(s.cursor_y + 1, last_line(s)), ..s }))
}

/// Move left: at column 0 the cursor wraps by moving up and then to the
/// end of the now-current line; otherwise the column decreases by one. An
/// explicit horizontal move resets the desired column.
pub open spec fn move_left_s(s: NavState) -> NavState {
    if s.cursor_x == 0 {
        let s1 = move_up_s(s);
        let s2 = NavState { cursor_x: nav_width(s1, s1.cursor_y), ..s1 };
        scroll_fix(NavState { desired_cursor_x: s2.cursor_x, ..s2 })
    } else {
        let s1 = NavState { cursor_x: sat_sub(s.cursor_x, 1), ..s };
        scroll_fix(NavState { desired_cursor_x: s1.cursor_x, ..s1 })
    }
}

/// Move right: at or past the end of the line the cursor wraps by moving
/// to column 0 (also resetting the horizontal scroll and the desired
/// column) and then down; otherwise the column increases by one, capped at
/// the line width. An explicit horizontal move resets the desired column.
pub open spec fn move_right_s(s: NavState) -> NavState {
    let w = nav_width(s, s.cursor_y);
    if w <= s.cursor_x {
        let s1 = NavState { scroll_x: 0, cursor_x: 0, desired_cursor_x: 0, ..s };
        scroll_fix(move_down_s(s1))
    } else {
        let nx = min_i(s.cursor_x + 1, w);
        scroll_fix(NavState { cursor_x: nx, desired_cursor_x: nx, ..s })
    }
}

/// One cursor move in the given direction.
pub open spec fn move_dir_s(s: NavState, d: Direction) -> NavState {
    match d {
        Direction::Up => move_up_s(s),
        Direction::Down => move_down_s(s),
        Direction::Left => move_left_s(s),
        Direction::Right => move_right_s(s),
    }
}

/// What dispatching an action does to the navigation state.
pub open spec fn dispatch_nav_s(s: NavState, event: ToriEvent) -> NavState {
    match event {
        ToriEvent::Quit => s,
        ToriEvent::Move(d) => move_dir_s(s, d),
    }
}

/// What handling one terminal event does to the navigation state and the
/// quit flag, given the active keymap. Release events are ignored, as are
/// unmapped keys and unrecognized events.
pub open spec fn handle_event_s(
    s: NavState,
    quit: bool,
    keymap: Seq<(KeyInput, ToriEvent)>,
    ev: InputEvent,
) -> (NavState, bool) {
    match ev {
        InputEvent::Resize(columns, rows) => (resized_s(s, columns as int, rows as int), quit),
        InputEvent::Key(k) => {
            if k.kind == KeyEventKind::Release {
                (s, quit)
            } else {
                match lookup_spec(keymap, k) {
                    Some(ToriEvent::Quit) => (s, true),
                    Some(ToriEvent::Move(d)) => (move_dir_s(s, d), quit),
                    None => (s, quit),
                }
            }
        },
        InputEvent::Other => (s, quit),
    }
}

/// Editor state of Tori.
pub struct Tori {
    /// Flag indicating that Tori should quit on the next update.
    pub should_quit: bool,
    /// Bindings between key inputs and editor actions.
    pub keymap: Vec<(KeyInput, ToriEvent)>,
    /// Editor configuration.
    pub config: Config,
    /// Active buffer.
    pub buffer: FileBuffer,
    /// Width of the attached terminal.
    pub columns: u16,
    /// Height of the attached terminal.
    pub rows: u16,
    /// Height of the screen the buffer gets rendered to.
    pub screen_rows: u16,
    /// Width of the screen the buffer gets rendered to.
    pub screen_columns: u16,
}

impl Tori {
    /// The abstract navigation state this editor is in.
    pub open spec fn nav(&self) -> NavState {
        NavState {
            lines: self.buffer.lines(),
            cursor_x: self.buffer.cursor_x as int,
            desired_cursor_x: self.buffer.desired_cursor_x as int,
            cursor_y: self.buffer.cursor_y as int,
            scroll_x: self.buffer.scroll_x as int,
            scroll_y: self.buffer.scroll_y as int,
            columns: self.columns as int,
            rows: self.rows as int,
            screen_rows: self.screen_rows as int,
            screen_columns: self.screen_columns as int,
            lookahead: self.config.lookahead as int,
        }
    }

    /// The editor's coordinate invariant.
    pub open spec fn wf(&self) -> bool {
        nav_wf(self.nav())
    }

    /// Creates an editor over the given buffer and terminal dimensions,
    /// with the default configuration and keymap.
    pub fn new(buffer: FileBuffer, columns: u16, rows: u16) -> (r: Tori)
        ensures
            r.should_quit == false,
            r.keymap@ == default_keymap_spec(),
            r.config.lookahead == 6,
            r.buffer == buffer,
            r.columns == columns,
            r.rows == rows,
            geometry_ok(r.nav()),
            buffer.cursor_x == 0 && buffer.cursor_y == 0 ==> r.wf(),
    {
        let mut instance = Self {
            should_quit: false,
            columns,
            rows,
            config: Config::default(),
            keymap: default_keymap(),
            buffer,
            screen_rows: 0,
            screen_columns: 0,
        };
        instance.update_screen_size();
        instance
    }

    /// Recomputes the screen dimensions from the terminal dimensions,
    /// reserving one status row and the line-number gutter plus one
    /// separator column, saturating at zero.
    pub fn update_screen_size(&mut self)
        ensures
            final(self).nav() == recompute_screen_s(old(self).nav()),
            final(self).buffer == old(self).buffer,
            final(self).should_quit == old(self).should_quit,
            final(self).keymap == old(self).keymap,
            final(self).config == old(self).config,
            final(self).columns == old(self).columns,
            final(self).rows == old(self).rows,
            geometry_ok(final(self).nav()),
    {
        let gutter = self.buffer.max_line_length();
        let reserved = gutter + 1;
        self.screen_columns = if self.columns >= reserved {
            self.columns - reserved
        } else {
            0
        };
        self.screen_rows = if self.rows >= 1 {
            self.rows - 1
        } else {
            0
        };
    }

    /// Moves the cursor column to the desired spot or the end of the line,
    /// whichever is smaller.
    pub fn move_cursor_x_to_desired(&mut self)
        ensures
            final(self).nav() == with_clamped_x(old(self).nav()),
            final(self).buffer.content == old(self).buffer.content,
            final(self).should_quit == old(self).should_quit,
            final(self).keymap == old(self).keymap,
            final(self).config == old(self).config,
    {
        let w = self.buffer.line_width(self.buffer.cursor_y as usize);
        self.buffer.cursor_x = if self.buffer.desired_cursor_x <= w {
            self.buffer.desired_cursor_x
        } else {
            w
        };
    }

    /// Maintains the horizontal and vertical scroll of the current buffer
    /// so the viewport follows the cursor with the lookahead margin.
    pub fn maintain_scroll(&mut self)
        ensures
            final(self).nav() == scroll_fix(old(self).nav()),
            final(self).buffer.content == old(self).buffer.content,
            final(self).buffer.cursor_x == old(self).buffer.cursor_x,
            final(self).buffer.cursor_y == old(self).buffer.cursor_y,
            final(self).buffer.desired_cursor_x == old(self).buffer.desired_cursor_x,
            final(self).should_quit == old(self).should_quit,
            final(self).keymap == old(self).keymap,
            final(self).config == old(self).config,
    {
        let cy = self.buffer.cursor_y;
        let cx = self.buffer.cursor_x;
        let sy = self.buffer.scroll_y;
        let sx = self.buffer.scroll_x;
        let lookahead = self.config.lookahead;

        // Scroll up if needed.
        let up_target = if cy >= lookahead {
            cy - lookahead
        } else {
            0
        };
        if up_target < sy {
            self.buffer.scroll_y = up_target;
        }
        // Scroll down if needed.
        if cy as u32 + lookahead as u32 >= sy as u32 + self.screen_rows as u32 {
            let lc = self.buffer.line_count();
            let last = if lc == 0 {
                0
            } else {
                lc - 1
            };
            let target = if cy as u32 + lookahead as u32 <= last as u32 {
                cy + lookahead
            } else {
                last
            };
            self.buffer.scroll_y = if target >= self.screen_rows {
                target - self.screen_rows
            } else {
                0
            };
        }
        // Scroll left if needed.
        if cx < sx {
            self.buffer.scroll_x = cx;
        }
        // Scroll right if needed.
        if cx as u32 >= sx as u32 + self.screen_columns as u32 {
            let over = cx as u32 - self.screen_columns as u32 + 1;
            self.buffer.scroll_x = if over > u16::MAX as u32 {
                u16::MAX
            } else {
                over as u16
            };
        }
    }

    /// Moves the cursor one line up, saturating at the top.
    pub fn move_up(&mut self)
        ensures
            old(self).wf() ==> final(self).wf(),
            final(self).nav() == move_up_s(old(self).nav()),
            final(self).buffer.content == old(self).buffer.content,
            final(self).should_quit == old(self).should_quit,
            final(self).keymap == old(self).keymap,
            final(self).config == old(self).config,
    {
        self.buffer.cursor_y = if self.buffer.cursor_y >= 1 {
            self.buffer.cursor_y - 1
        } else {
            0
        };
        self.move_cursor_x_to_desired();
        self.maintain_scroll();
    }

    /// Moves the cursor one line down, saturating at the last line.
    pub fn move_down(&mut self)
        ensures
            old(self).wf() ==> final(self).wf(),
            final(self).nav() == move_down_s(old(self).nav()),
            final(self).buffer.content == old(self).buffer.content,
            final(self).should_quit == old(self).should_quit,
            final(self).keymap == old(self).keymap,
            final(self).config == old(self).config,
    {
        let lc = self.buffer.line_count();
        let last = if lc == 0 {
            0
        } else {
            lc - 1
        };
        self.buffer.cursor_y = if self.buffer.cursor_y < last {
            self.buffer.cursor_y + 1
        } else {
            last
        };
        self.move_cursor_x_to_desired();
        self.maintain_scroll();
    }

    /// Moves the cursor one column left, wrapping to the end of the
    /// previous line from column 0.
    pub fn move_left(&mut self)
        ensures
            old(self).wf() ==> final(self).wf(),
            final(self).nav() == move_left_s(old(self).nav()),
            final(self).buffer.content == old(self).buffer.content,
            final(self).should_quit == old(self).should_quit,
            final(self).keymap == old(self).keymap,
            final(self).config == old(self).config,
    {
        let should_wrap = self.buffer.cursor_x == 0;
        if should_wrap {
            // Do the wrap by moving up and then to the end of line.
            self.move_up();
            self.buffer.cursor_x = self.buffer.line_width(self.buffer.cursor_y as usize);
        } else {
            self.buffer.cursor_x = self.buffer.cursor_x - 1;
        }
        self.buffer.desired_cursor_x = self.buffer.cursor_x;
        self.maintain_scroll();
    }

    /// Moves the cursor one column right, wrapping to the start of the
    /// next line from the end of the line.
    pub fn move_right(&mut self)
        ensures
            old(self).wf() ==> final(self).wf(),
            final(self).nav() == move_right_s(old(self).nav()),
            final(self).buffer.content == old(self).buffer.content,
            final(self).should_quit == old(self).should_quit,
            final(self).keymap == old(self).keymap,
            final(self).config == old(self).config,
    {
        let cx = self.buffer.cursor_x;
        let line_width = self.buffer.line_width(self.buffer.cursor_y as usize);
        let should_wrap = line_width <= cx;
        if should_wrap {
            // Do the wrap by moving to start of line and down.
            self.buffer.scroll_x = 0;
            self.buffer.cursor_x = 0;
            self.buffer.desired_cursor_x = 0;
            self.move_down();
        } else {
            self.buffer.cursor_x = cx + 1;
            self.buffer.desired_cursor_x = self.buffer.cursor_x;
        }
        self.maintain_scroll();
    }

    /// Performs the given action: quit sets the quit flag, a move mutates
    /// the navigation state.
    pub fn dispatch(&mut self, event: ToriEvent)
        ensures
            old(self).wf() ==> final(self).wf(),
            final(self).nav() == dispatch_nav_s(old(self).nav(), event),
            final(self).should_quit == (if event == ToriEvent::Quit {
                true
            } else {
                old(self).should_quit
            }),
            final(self).buffer.content == old(self).buffer.content,
            final(self).keymap == old(self).keymap,
            final(self).config == old(self).config,
    {
        match event {
            ToriEvent::Quit => {
                self.should_quit = true;
            },
            ToriEvent::Move(Direction::Up) => {
                self.move_up();
            },
            ToriEvent::Move(Direction::Down) => {
                self.move_down();
            },
            ToriEvent::Move(Direction::Left) => {
                self.move_left();
            },
            ToriEvent::Move(Direction::Right) => {
                self.move_right();
            },
        }
    }

    /// Handles one terminal event: a resize updates the geometry, a key
    /// press dispatches the bound action, and everything else is ignored.
    pub fn handle_event(&mut self, ev: InputEvent)
        ensures
            old(self).wf() ==> final(self).wf(),
            final(self).nav() == handle_event_s(
                old(self).nav(),
                old(self).should_quit,
                old(self).keymap@,
                ev,
            ).0,
            final(self).should_quit == handle_event_s(
                old(self).nav(),
                old(self).should_quit,
                old(self).keymap@,
                ev,
            ).1,
            final(self).buffer.content == old(self).buffer.content,
            final(self).keymap == old(self).keymap,
            final(self).config == old(self).config,
    {
        match ev {
            InputEvent::Resize(columns, rows) => {
                self.columns = columns;
                self.rows = rows;
                self.update_screen_size();
            },
            InputEvent::Key(k) => {
                // Ignore release events.
                if k.kind == KeyEventKind::Release {
                    return;
                }
                // Look the keyboard event up in the keymap and dispatch it.
                match keymap_lookup(&self.keymap, k) {
                    Some(action) => {
                        self.dispatch(action);
                    },
                    None => {},
                }
            },
            InputEvent::Other => {},
        }
    }
}

} // verus!
