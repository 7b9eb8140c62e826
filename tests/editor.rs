use snarky_ed::buffer::Buffer;
use snarky_ed::cursor::Cursor;
use snarky_ed::editor::{EditorView, Intent, PAGE_STEP};

fn view(text: &str, rows: usize) -> EditorView {
    let mut v = EditorView::new(Buffer::new(text));
    v.set_viewport_rows(rows);
    v
}

fn line(v: &EditorView) -> usize {
    v.offset_y + v.cursor.row
}

#[test]
fn new_view_starts_at_origin() {
    let v = EditorView::new(Buffer::new("abc"));
    assert_eq!(v.cursor, Cursor { row: 0, col: 0, sticky_col: None });
    assert_eq!(v.offset_y, 0);
    assert_eq!(v.viewport_rows, 0);
    assert_eq!(v.line_count(), 1);
    assert_eq!(Cursor::new(), Cursor { row: 0, col: 0, sticky_col: None });
}

#[test]
fn sticky_column_scenario_scrolls_and_restores() {
    let mut v = view("abcdef\nxy\nhello world", 2);
    v.move_to_eol();
    assert_eq!(v.cursor, Cursor { row: 0, col: 5, sticky_col: None });
    v.move_cursor_down();
    assert_eq!(v.cursor, Cursor { row: 1, col: 1, sticky_col: Some(5) });
    assert_eq!(v.offset_y, 0);
    v.move_cursor_down();
    assert_eq!(v.cursor, Cursor { row: 1, col: 5, sticky_col: None });
    assert_eq!(v.offset_y, 1);
}

#[test]
fn line_end_clears_sticky_then_down_clamps() {
    let mut v = view("abcdef\nxy\nhello world", 2);
    v.cursor.sticky_col = Some(9);
    v.move_to_eol();
    assert_eq!(v.cursor.col, 5);
    assert_eq!(v.cursor.sticky_col, None);
    v.move_cursor_down();
    assert_eq!(v.cursor.col, 1);
    assert_eq!(v.cursor.sticky_col, Some(5));
}

#[test]
fn up_then_down_restores_line_and_column() {
    let mut v = view("hello world\nxy\nabcdefgh", 3);
    v.move_cursor_down();
    v.move_cursor_down();
    for _ in 0..6 {
        v.move_cursor_right();
    }
    assert_eq!((line(&v), v.cursor.col, v.cursor.sticky_col), (2, 6, None));
    v.move_cursor_up();
    assert_eq!((line(&v), v.cursor.col, v.cursor.sticky_col), (1, 1, Some(6)));
    v.move_cursor_down();
    assert_eq!((line(&v), v.cursor.col, v.cursor.sticky_col), (2, 6, None));
    v.move_cursor_up();
    v.move_cursor_up();
    assert_eq!((line(&v), v.cursor.col, v.cursor.sticky_col), (0, 6, None));
}

#[test]
fn down_then_up_restores_line_and_column() {
    let mut v = view("abcdefgh\nxy\nhello", 1);
    v.move_to_eol();
    v.move_cursor_down();
    v.move_cursor_up();
    assert_eq!((line(&v), v.cursor.col, v.cursor.sticky_col), (0, 7, None));
    v.move_cursor_down();
    v.move_cursor_down();
    assert_eq!((line(&v), v.cursor.col, v.cursor.sticky_col), (2, 4, Some(7)));
    v.move_cursor_up();
    v.move_cursor_down();
    assert_eq!((line(&v), v.cursor.col, v.cursor.sticky_col), (2, 4, Some(7)));
}

#[test]
fn vertical_moves_stop_at_document_ends() {
    let mut v = view("a\nb", 5);
    v.move_cursor_up();
    assert_eq!((v.offset_y, v.cursor.row), (0, 0));
    v.move_cursor_down();
    v.move_cursor_down();
    v.move_cursor_down();
    assert_eq!((v.offset_y, v.cursor.row), (0, 1));
}

#[test]
fn moves_keep_caret_inside_document() {
    let text = "one\n\nthree three\nf\nfive five five\nsix\n\neight\nnine\nten\neleven\ntwelve";
    let intents = [
        Intent::Down, Intent::Down, Intent::PageDown, Intent::LineEnd, Intent::Down,
        Intent::Right, Intent::PageDown, Intent::Down, Intent::Down, Intent::Left,
        Intent::PageUp, Intent::Up, Intent::Up, Intent::LineStart, Intent::PageUp,
        Intent::Up, Intent::Down, Intent::PageDown, Intent::PageDown, Intent::Down,
    ];
    for rows in 0..5 {
        let mut v = view(text, rows);
        for (k, intent) in intents.iter().enumerate() {
            v.handle_intent(*intent);
            if k % 7 == 3 {
                v.set_viewport_rows((rows + k) % 4);
            }
            assert!(v.offset_y + v.cursor.row < v.line_count());
            assert!(v.cursor.row == 0 || v.cursor.row < v.viewport_rows);
        }
    }
}

#[test]
fn scroll_at_boundaries_changes_nothing() {
    let mut v = view("a\nb\nc\nd", 2);
    v.scroll_up(1);
    v.scroll_up(PAGE_STEP);
    assert_eq!((v.offset_y, v.cursor), (0, Cursor::new()));
    v.move_cursor_down();
    v.scroll_down(1);
    v.scroll_down(1);
    assert_eq!(v.offset_y, 2);
    assert_eq!(v.offset_y + v.viewport_rows, v.line_count());
    let before = (v.offset_y, v.cursor, v.viewport_rows);
    v.scroll_down(1);
    v.scroll_down(PAGE_STEP);
    assert_eq!((v.offset_y, v.cursor, v.viewport_rows), before);
}

#[test]
fn scroll_never_moves_partly() {
    let mut v = view("0\n1\n2\n3\n4\n5\n6\n7\n8\n9\n10\n11", 3);
    v.scroll_down(PAGE_STEP);
    assert_eq!(v.offset_y, 10);
    v.scroll_down(2);
    assert_eq!(v.offset_y, 10);
    v.scroll_down(1);
    assert_eq!(v.offset_y, 11);
    v.scroll_up(12);
    assert_eq!(v.offset_y, 11);
    v.scroll_up(PAGE_STEP);
    assert_eq!(v.offset_y, 1);
    v.handle_intent(Intent::PageUp);
    assert_eq!(v.offset_y, 1);
}

#[test]
fn horizontal_moves_clamp_and_clear_sticky() {
    let mut v = view("abc\n\nxyz", 3);
    v.move_cursor_left();
    assert_eq!(v.cursor.col, 0);
    v.move_cursor_right();
    v.move_cursor_right();
    v.move_cursor_right();
    assert_eq!(v.cursor.col, 2);
    v.move_cursor_down();
    assert_eq!((v.cursor.col, v.cursor.sticky_col), (0, Some(2)));
    v.move_cursor_right();
    assert_eq!((v.cursor.col, v.cursor.sticky_col), (0, None));
    v.move_cursor_down();
    assert_eq!(v.cursor.col, 0);
    v.cursor.col = 9;
    v.move_cursor_left();
    assert_eq!(v.cursor.col, 2);
    v.move_to_bol();
    assert_eq!((v.cursor.col, v.cursor.sticky_col), (0, None));
}

#[test]
fn shrinking_viewport_keeps_caret_line() {
    let mut v = view("a\nb\nc\nd\ne", 5);
    for _ in 0..4 {
        v.move_cursor_down();
    }
    assert_eq!((v.offset_y, v.cursor.row), (0, 4));
    v.set_viewport_rows(2);
    assert_eq!((v.offset_y, v.cursor.row), (3, 1));
    v.set_viewport_rows(0);
    assert_eq!((v.offset_y, v.cursor.row), (4, 0));
    v.move_cursor_up();
    assert_eq!((v.offset_y, v.cursor.row), (3, 0));
}

#[test]
fn visible_text_is_the_viewport_lines() {
    let mut v = view("abcdef\nxy\nhello world", 2);
    assert_eq!(v.visible_text(), "abcdef\nxy\n");
    v.scroll_down(1);
    assert_eq!(v.visible_text(), "xy\nhello world");
    v.set_viewport_rows(usize::MAX);
    assert_eq!(v.visible_text(), "xy\nhello world");
    assert_eq!(v.cursor_position(), (0, 0));
}
