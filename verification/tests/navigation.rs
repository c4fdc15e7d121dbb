use tori::FileBuffer;
use tori::editor::Tori;
use tori::input::{Direction, ToriEvent};

fn buf(lines: &[&str]) -> FileBuffer {
    let content: Vec<Vec<char>> = lines.iter().map(|l| l.chars().collect()).collect();
    FileBuffer::new(content)
}

fn editor(lines: &[&str], columns: u16, rows: u16) -> Tori {
    Tori::new(buf(lines), columns, rows)
}

fn go(t: &mut Tori, d: Direction, n: usize) {
    for _ in 0..n {
        t.dispatch(ToriEvent::Move(d));
    }
}

#[test]
fn three_lines_scenario() {
    // Lines of lengths [10, 0, 5], cursor starting at (0, 0).
    let mut t = editor(&["abcdefghij", "", "hello"], 80, 24);
    go(&mut t, Direction::Right, 10);
    // End of line 0: the cursor may equal the width, no wrap yet.
    assert_eq!(t.buffer.cursor_y, 0);
    assert_eq!(t.buffer.cursor_x, 10);
    // One more right wraps to the start of line 1 and resets scroll_x.
    go(&mut t, Direction::Right, 1);
    assert_eq!(t.buffer.cursor_y, 1);
    assert_eq!(t.buffer.cursor_x, 0);
    assert_eq!(t.buffer.scroll_x, 0);
    // Down lands on line 2 at min(desired_cursor_x, 5).
    go(&mut t, Direction::Down, 1);
    assert_eq!(t.buffer.cursor_y, 2);
    assert_eq!(t.buffer.cursor_x, 0);
    assert_eq!(t.buffer.desired_cursor_x, 0);
}

#[test]
fn resize_shrink_recontains() {
    // Terminal resized from 80x24 to 40x10 mid-session: the screen
    // dimensions shrink and the next scroll maintenance re-satisfies
    // containment without an explicit cursor move.
    let lines: Vec<String> = (0..40).map(|_| "x".repeat(60)).collect();
    let refs: Vec<&str> = lines.iter().map(|s| s.as_str()).collect();
    let mut t = editor(&refs, 80, 24);
    go(&mut t, Direction::Down, 30);
    go(&mut t, Direction::Right, 50);
    let (cy, cx) = (t.buffer.cursor_y, t.buffer.cursor_x);
    assert_eq!((cy, cx), (30, 50));
    t.handle_event(tori::input::InputEvent::Resize(40, 10));
    assert_eq!(t.screen_rows, 9);
    assert_eq!(t.screen_columns, 40 - 2 - 1);
    assert_eq!(t.buffer.cursor_y, cy);
    assert_eq!(t.buffer.cursor_x, cx);
    t.maintain_scroll();
    assert!(t.buffer.scroll_y <= cy && cy <= t.buffer.scroll_y + t.screen_rows - 1);
    assert!(t.buffer.scroll_x <= cx && cx <= t.buffer.scroll_x + t.screen_columns - 1);
}

#[test]
fn up_saturates_at_top() {
    let mut t = editor(&["abc", "def"], 80, 24);
    go(&mut t, Direction::Up, 3);
    assert_eq!(t.buffer.cursor_y, 0);
    assert_eq!(t.buffer.cursor_x, 0);
}

#[test]
fn down_saturates_at_bottom() {
    let mut t = editor(&["abc", "def"], 80, 24);
    go(&mut t, Direction::Down, 5);
    assert_eq!(t.buffer.cursor_y, 1);
}

#[test]
fn cursor_stays_clamped_after_any_move() {
    let mut t = editor(&["abcdefgh", "x", "", "abcd"], 80, 24);
    let moves = [
        Direction::Right,
        Direction::Right,
        Direction::Right,
        Direction::Down,
        Direction::Down,
        Direction::Left,
        Direction::Up,
        Direction::Right,
        Direction::Down,
        Direction::Down,
        Direction::Down,
        Direction::Left,
    ];
    for d in moves {
        t.dispatch(ToriEvent::Move(d));
        let lc = t.buffer.line_count();
        let cy = t.buffer.cursor_y;
        assert!(cy < lc);
        assert!(t.buffer.cursor_x <= t.buffer.line_width(cy as usize));
    }
}

#[test]
fn desired_column_restored() {
    let mut t = editor(&["abcdefgh", "ab", "abcdefgh"], 80, 24);
    go(&mut t, Direction::Right, 5);
    assert_eq!(t.buffer.cursor_x, 5);
    // Down onto the short line clamps the column but keeps the desire.
    go(&mut t, Direction::Down, 1);
    assert_eq!(t.buffer.cursor_y, 1);
    assert_eq!(t.buffer.cursor_x, 2);
    assert_eq!(t.buffer.desired_cursor_x, 5);
    // Up back to the long line restores the original column.
    go(&mut t, Direction::Up, 1);
    assert_eq!(t.buffer.cursor_y, 0);
    assert_eq!(t.buffer.cursor_x, 5);
}

#[test]
fn left_wraps_to_previous_line_end() {
    let mut t = editor(&["abc", "xy"], 80, 24);
    go(&mut t, Direction::Down, 1);
    assert_eq!((t.buffer.cursor_y, t.buffer.cursor_x), (1, 0));
    go(&mut t, Direction::Left, 1);
    assert_eq!(t.buffer.cursor_y, 0);
    assert_eq!(t.buffer.cursor_x, 3);
    assert_eq!(t.buffer.desired_cursor_x, 3);
}

#[test]
fn left_at_origin_with_empty_first_line_unchanged() {
    let mut t = editor(&["", "abc"], 80, 24);
    go(&mut t, Direction::Left, 1);
    assert_eq!(t.buffer.cursor_y, 0);
    assert_eq!(t.buffer.cursor_x, 0);
    assert_eq!(t.buffer.desired_cursor_x, 0);
    assert_eq!(t.buffer.scroll_x, 0);
    assert_eq!(t.buffer.scroll_y, 0);
}

#[test]
fn left_at_origin_moves_to_end_of_first_line() {
    // With a non-empty first line the wrap rule still applies at the
    // top-left corner: up saturates, then the column is set to the line
    // end.
    let mut t = editor(&["abc"], 80, 24);
    go(&mut t, Direction::Left, 1);
    assert_eq!(t.buffer.cursor_y, 0);
    assert_eq!(t.buffer.cursor_x, 3);
}

#[test]
fn right_at_end_of_last_line_keeps_line() {
    let mut t = editor(&["abc"], 80, 24);
    go(&mut t, Direction::Right, 3);
    assert_eq!((t.buffer.cursor_y, t.buffer.cursor_x), (0, 3));
    go(&mut t, Direction::Right, 1);
    // Down saturates, so the line is unchanged, but the wrap still
    // resets the column and the desired column.
    assert_eq!(t.buffer.cursor_y, 0);
    assert_eq!(t.buffer.cursor_x, 0);
    assert_eq!(t.buffer.desired_cursor_x, 0);
}

#[test]
fn round_trip_right_lands_on_next_line_start() {
    let mut t = editor(&["abcd", "xyz"], 80, 24);
    go(&mut t, Direction::Right, 4);
    go(&mut t, Direction::Right, 1);
    assert_eq!(t.buffer.cursor_y, 1);
    assert_eq!(t.buffer.cursor_x, 0);
}

#[test]
fn round_trip_right_empty_line() {
    let mut t = editor(&["", "xyz"], 80, 24);
    go(&mut t, Direction::Right, 1);
    assert_eq!(t.buffer.cursor_y, 1);
    assert_eq!(t.buffer.cursor_x, 0);
}

#[test]
fn scroll_down_with_lookahead() {
    let lines: Vec<String> = (0..100).map(|i| format!("line {}", i)).collect();
    let refs: Vec<&str> = lines.iter().map(|s| s.as_str()).collect();
    // 100 lines: gutter 3, screen_rows 23.
    let mut t = editor(&refs, 80, 24);
    assert_eq!(t.screen_rows, 23);
    go(&mut t, Direction::Down, 16);
    assert_eq!(t.buffer.scroll_y, 0);
    // cursor_y 17: 17 + 6 >= 0 + 23 triggers the first downward scroll.
    go(&mut t, Direction::Down, 1);
    assert_eq!(t.buffer.scroll_y, 0);
    go(&mut t, Direction::Down, 1);
    assert_eq!(t.buffer.scroll_y, 1);
    go(&mut t, Direction::Down, 2);
    assert_eq!(t.buffer.cursor_y, 20);
    assert_eq!(t.buffer.scroll_y, 3);
}

#[test]
fn scroll_up_with_lookahead() {
    let lines: Vec<String> = (0..100).map(|i| format!("line {}", i)).collect();
    let refs: Vec<&str> = lines.iter().map(|s| s.as_str()).collect();
    let mut t = editor(&refs, 80, 24);
    go(&mut t, Direction::Down, 20);
    assert_eq!(t.buffer.scroll_y, 3);
    // Moving back up only scrolls once the cursor comes within the
    // lookahead margin of the top of the window.
    go(&mut t, Direction::Up, 11);
    assert_eq!(t.buffer.cursor_y, 9);
    assert_eq!(t.buffer.scroll_y, 3);
    go(&mut t, Direction::Up, 1);
    assert_eq!(t.buffer.cursor_y, 8);
    assert_eq!(t.buffer.scroll_y, 2);
}

#[test]
fn scroll_right_and_left() {
    let long: String = "x".repeat(200);
    // 1 line: gutter 1, screen_columns 80 - 2 = 78.
    let mut t = editor(&[long.as_str()], 80, 24);
    assert_eq!(t.screen_columns, 78);
    go(&mut t, Direction::Right, 100);
    assert_eq!(t.buffer.cursor_x, 100);
    assert_eq!(t.buffer.scroll_x, 100 - 78 + 1);
    go(&mut t, Direction::Left, 100);
    assert_eq!(t.buffer.cursor_x, 0);
    assert_eq!(t.buffer.scroll_x, 0);
}

#[test]
fn empty_content_moves_are_safe() {
    let mut t = editor(&[], 80, 24);
    for d in [Direction::Up, Direction::Down, Direction::Left, Direction::Right] {
        t.dispatch(ToriEvent::Move(d));
        assert_eq!(t.buffer.cursor_y, 0);
        assert_eq!(t.buffer.cursor_x, 0);
    }
}

#[test]
fn quit_sets_flag_and_leaves_cursor() {
    let mut t = editor(&["abc"], 80, 24);
    go(&mut t, Direction::Right, 2);
    assert!(!t.should_quit);
    t.dispatch(ToriEvent::Quit);
    assert!(t.should_quit);
    assert_eq!(t.buffer.cursor_x, 2);
}

#[test]
fn line_count_and_width() {
    let b = buf(&["abc", "", "hello"]);
    assert_eq!(b.line_count(), 3);
    assert_eq!(b.line_width(0), 3);
    assert_eq!(b.line_width(1), 0);
    assert_eq!(b.line_width(2), 5);
    // An out-of-range index is an empty trailing line, never an error.
    assert_eq!(b.line_width(3), 0);
    assert_eq!(b.line_width(1000), 0);
}

#[test]
fn line_count_saturates() {
    let content: Vec<Vec<char>> = (0..70_000).map(|_| Vec::new()).collect();
    let b = FileBuffer::new(content);
    assert_eq!(b.line_count(), u16::MAX);
    assert_eq!(b.max_line_length(), 5);
}

#[test]
fn gutter_width_is_digit_count() {
    let one: Vec<Vec<char>> = vec![Vec::new()];
    assert_eq!(FileBuffer::new(one).max_line_length(), 1);
    let ten: Vec<Vec<char>> = (0..10).map(|_| Vec::new()).collect();
    assert_eq!(FileBuffer::new(ten).max_line_length(), 2);
    let many: Vec<Vec<char>> = (0..9999).map(|_| Vec::new()).collect();
    assert_eq!(FileBuffer::new(many).max_line_length(), 4);
    // An empty buffer still has a one-column gutter.
    assert_eq!(FileBuffer::new(Vec::new()).max_line_length(), 1);
}

#[test]
fn overlong_line_width_is_zero() {
    // A line whose length does not fit the width type reports width 0.
    let long: Vec<char> = (0..70_000).map(|_| 'x').collect();
    let b = FileBuffer::new(vec![long]);
    assert_eq!(b.line_width(0), 0);
}
