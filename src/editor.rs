//! The editor view: a document, a caret and a scrolling viewport, moved by
//! navigation intents. Every operation is total: at the document's
//! boundaries it clamps or does nothing.
use vstd::prelude::*;

use crate::buffer::Buffer;
use crate::cursor::{last_col, Cursor};
use crate::lines::{line_count, line_len, min_nat, range_text};

verus! {

/// Lines moved by one page scroll.
pub const PAGE_STEP: usize = 10;

/// A navigation request decoded from user input.
#[derive(Debug, Clone, Copy, PartialEq, Eq)]
pub enum Intent {
    Up,
    Down,
    Left,
    Right,
    LineStart,
    LineEnd,
    PageUp,
    PageDown,
}

/// The document with its caret and viewport. The fields are open to read;
/// the operations below keep `wf` only when every change goes through them.
pub struct EditorView {
    pub buffer: Buffer,
    pub cursor: Cursor,
    /// Document line shown on the first row.
    pub offset_y: usize,
    /// Number of rows that fit on screen.
    pub viewport_rows: usize,
}

impl EditorView {
    /// Number of lines of the document.
    pub open spec fn lines(&self) -> nat {
        line_count(self.buffer@)
    }

    /// The document line under the caret.
    pub open spec fn current_line(&self) -> nat {
        (self.offset_y + self.cursor.row) as nat
    }

    /// Length of document line `i`.
    pub open spec fn len_of(&self, i: nat) -> nat {
        line_len(self.buffer@, i)
    }

    /// The caret is on a document line, and on a row of the viewport (row
    /// zero when the viewport has no rows).
    pub open spec fn wf(&self) -> bool {
        &&& self.lines() <= usize::MAX
        &&& self.current_line() < self.lines()
        &&& (self.cursor.row == 0 || self.cursor.row < self.viewport_rows)
    }

    /// The caret's column is where the last vertical move left it: on its
    /// line if nothing is remembered, else clamped to the line's end with a
    /// remembered column past it.
    pub open spec fn column_settled(&self) -> bool {
        let last = last_col(self.len_of(self.current_line()));
        match self.cursor.sticky_col {
            None => self.cursor.col <= last,
            Some(s) => self.cursor.col == last && s > last,
        }
    }

    /// The same view with another caret and first line.
    pub open spec fn with(self, cursor: Cursor, offset_y: nat) -> EditorView {
        EditorView {
            buffer: self.buffer,
            cursor,
            offset_y: offset_y as usize,
            viewport_rows: self.viewport_rows,
        }
    }

    /// After `scroll_down(step)`: the first line moves down by `step` only if
    /// the caret's line stays inside the document.
    pub open spec fn scrolled_down(self, step: nat) -> EditorView {
        if self.current_line() + step < self.lines() {
            self.with(self.cursor, (self.offset_y + step) as nat)
        } else {
            self
        }
    }

    /// After `scroll_up(step)`: the first line moves up by `step` only if it stays at or after line zero.
    pub open spec fn scrolled_up(self, step: nat) -> EditorView {
        if self.offset_y >= step {
            self.with(self.cursor, (self.offset_y - step) as nat)
        } else {
            self
        }
    }

    /// After `move_cursor_down`: on the bottom row the view scrolls by one,
    /// elsewhere the row advances, in both cases only while a next line
    /// exists; then the vertical column rule is applied on the caret's line.
    pub open spec fn moved_down(self) -> EditorView {
        let moved = self.current_line() + 1 < self.lines();
        let bottom = self.cursor.row + 1 >= self.viewport_rows;
        let offset = if moved && bottom {
            (self.offset_y + 1) as nat
        } else {
            self.offset_y as nat
        };
        let row = if moved && !bottom {
            (self.cursor.row + 1) as nat
        } else {
            self.cursor.row as nat
        };
        self.with(self.cursor.settled(row as usize, self.len_of(offset + row)), offset)
    }

    /// After `move_cursor_up`: on the top row the view scrolls up by one
    /// (if not at line zero), elsewhere the row goes back by one; then the
    /// vertical column rule is applied on the caret's line.
    pub open spec fn moved_up(self) -> EditorView {
        let top = self.cursor.row == 0;
        let offset = if top && self.offset_y > 0 {
            (self.offset_y - 1) as nat
        } else {
            self.offset_y as nat
        };
        let row = if top {
            0
        } else {
            (self.cursor.row - 1) as nat
        };
        self.with(self.cursor.settled(row as usize, self.len_of(offset + row)), offset)
    }

    /// After `set_viewport_rows(rows)`: a caret below the new last row is
    /// brought onto it, and the view scrolls so the caret keeps its line.
    pub open spec fn resized(self, rows: usize) -> EditorView {
        let bottom: nat = if rows == 0 {
            0
        } else {
            (rows - 1) as nat
        };
        let row: nat = if self.cursor.row <= bottom {
            self.cursor.row as nat
        } else {
            bottom
        };
        EditorView {
            buffer: self.buffer,
            cursor: Cursor { row: row as usize, col: self.cursor.col, sticky_col: self.cursor.sticky_col },
            offset_y: (self.current_line() - row) as usize,
            viewport_rows: rows,
        }
    }

    /// The view after handling `intent`.
    pub open spec fn after_intent(self, intent: Intent) -> EditorView {
        let len = self.len_of(self.current_line());
        match intent {
            Intent::Up => self.moved_up(),
            Intent::Down => self.moved_down(),
            Intent::Left => self.with(self.cursor.moved_left(len), self.offset_y as nat),
            Intent::Right => self.with(self.cursor.moved_right(len), self.offset_y as nat),
            Intent::LineStart => self.with(self.cursor.at_line_start(), self.offset_y as nat),
            Intent::LineEnd => self.with(self.cursor.at_line_end(len), self.offset_y as nat),
            Intent::PageUp => self.scrolled_up(PAGE_STEP as nat),
            Intent::PageDown => self.scrolled_down(PAGE_STEP as nat),
        }
    }

    /// The view after handling each of `intents` in turn.
    pub open spec fn after_intents(self, intents: Seq<Intent>) -> EditorView
        decreases intents.len(),
    {
        if intents.len() == 0 {
            self
        } else {
            self.after_intents(intents.drop_last()).after_intent(intents.last())
        }
    }

    /// A view of `buffer` with the caret at the origin and no rows yet.
    pub fn new(buffer: Buffer) -> (v: EditorView)
        ensures
            v.wf(),
            v.buffer == buffer,
            v.cursor == (Cursor { row: 0, col: 0, sticky_col: None }),
            v.offset_y == 0,
            v.viewport_rows == 0,
    {
        // The count is a usize and never zero: the caret's line exists.
        let _line_count = buffer.get_lines_count();
        EditorView { buffer, cursor: Cursor::new(), offset_y: 0, viewport_rows: 0 }
    }

    /// Number of lines of the document.
    pub fn line_count(&self) -> (n: usize)
        ensures
            n == self.lines(),
    {
        self.buffer.get_lines_count()
    }

    /// Length of the caret's line.
    fn current_len(&self) -> (len: usize)
        requires
            self.wf(),
        ensures
            len == self.len_of(self.current_line()),
    {
        self.buffer.get_line_len(self.offset_y + self.cursor.row)
    }

    /// Sets the number of rows that fit on screen, keeping the caret on its line.
    pub fn set_viewport_rows(&mut self, rows: usize)
        requires
            old(self).wf(),
        ensures
            final(self).wf(),
            *final(self) == old(self).resized(rows),
            final(self).current_line() == old(self).current_line(),
    {
        let bottom = if rows == 0 {
            0
        } else {
            rows - 1
        };
        if self.cursor.row > bottom {
            self.offset_y = self.offset_y + (self.cursor.row - bottom);
            self.cursor.row = bottom;
        }
        self.viewport_rows = rows;
    }

    /// Scrolls down by `step` lines, or does nothing if the caret's line would leave the document.
    pub fn scroll_down(&mut self, step: usize)
        requires
            old(self).wf(),
        ensures
            final(self).wf(),
            *final(self) == old(self).scrolled_down(step as nat),
    {
        let n = self.buffer.get_lines_count();
        if step < n - (self.offset_y + self.cursor.row) {
            self.offset_y = self.offset_y + step;
        }
    }

    /// Scrolls up by `step` lines, or does nothing if the first line would go before line zero.
    pub fn scroll_up(&mut self, step: usize)
        requires
            old(self).wf(),
        ensures
            final(self).wf(),
            *final(self) == old(self).scrolled_up(step as nat),
    {
        if self.offset_y >= step {
            self.offset_y = self.offset_y - step;
        }
    }

    /// Moves the caret one line down.
    pub fn move_cursor_down(&mut self)
        requires
            old(self).wf(),
        ensures
            final(self).wf(),
            *final(self) == old(self).moved_down(),
            final(self).current_line() == if old(self).current_line() + 1 < old(self).lines() {
                old(self).current_line() + 1
            } else {
                old(self).current_line()
            },
    {
        let n = self.buffer.get_lines_count();
        if self.offset_y + self.cursor.row + 1 < n {
            if self.cursor.row + 1 >= self.viewport_rows {
                self.offset_y = self.offset_y + 1;
            } else {
                self.cursor.row = self.cursor.row + 1;
            }
        }
        let len = self.current_len();
        let row = self.cursor.row;
        self.cursor.settle(row, len);
    }

    /// Moves the caret one line up.
    pub fn move_cursor_up(&mut self)
        requires
            old(self).wf(),
        ensures
            final(self).wf(),
            *final(self) == old(self).moved_up(),
            final(self).current_line() == if old(self).current_line() > 0 {
                old(self).current_line() - 1
            } else {
                old(self).current_line() as int
            },
    {
        if self.cursor.row > 0 {
            self.cursor.row = self.cursor.row - 1;
        } else if self.offset_y > 0 {
            self.offset_y = self.offset_y - 1;
        }
        let len = self.current_len();
        let row = self.cursor.row;
        self.cursor.settle(row, len);
    }

    /// Moves the caret one column left, clamped to its line.
    pub fn move_cursor_left(&mut self)
        requires
            old(self).wf(),
        ensures
            final(self).wf(),
            *final(self) == old(self).after_intent(Intent::Left),
    {
        let len = self.current_len();
        self.cursor.move_left(len);
    }

    /// Moves the caret one column right, clamped to its line.
    pub fn move_cursor_right(&mut self)
        requires
            old(self).wf(),
        ensures
            final(self).wf(),
            *final(self) == old(self).after_intent(Intent::Right),
    {
        let len = self.current_len();
        self.cursor.move_right(len);
    }

    /// Moves the caret to the first column of its line.
    pub fn move_to_bol(&mut self)
        requires
            old(self).wf(),
        ensures
            final(self).wf(),
            *final(self) == old(self).after_intent(Intent::LineStart),
    {
        self.cursor.move_to_start();
    }

    /// Moves the caret to the last column of its line.
    pub fn move_to_eol(&mut self)
        requires
            old(self).wf(),
        ensures
            final(self).wf(),
            *final(self) == old(self).after_intent(Intent::LineEnd),
    {
        let len = self.current_len();
        self.cursor.move_to_end(len);
    }

    /// Handles one navigation intent.
    pub fn handle_intent(&mut self, intent: Intent)
        requires
            old(self).wf(),
        ensures
            final(self).wf(),
            *final(self) == old(self).after_intent(intent),
    {
        match intent {
            Intent::Up => self.move_cursor_up(),
            Intent::Down => self.move_cursor_down(),
            Intent::Left => self.move_cursor_left(),
            Intent::Right => self.move_cursor_right(),
            Intent::LineStart => self.move_to_bol(),
            Intent::LineEnd => self.move_to_eol(),
            Intent::PageUp => self.scroll_up(PAGE_STEP),
            Intent::PageDown => self.scroll_down(PAGE_STEP),
        }
    }

    /// The text of the lines in the viewport, line feeds included.
    pub fn visible_text(&self) -> (r: String)
        ensures
            r@ == range_text(self.buffer@, self.offset_y as nat, (self.offset_y + self.viewport_rows) as nat),
    {
        let _line_count = self.buffer.get_lines_count();
        let to = if self.viewport_rows <= usize::MAX - self.offset_y {
            self.offset_y + self.viewport_rows
        } else {
            usize::MAX
        };
        let r = self.buffer.get_lines(self.offset_y, to);
        proof {
            assert(min_nat(to as nat, self.lines()) == min_nat(
                (self.offset_y + self.viewport_rows) as nat,
                self.lines(),
            ));
        }
        r
    }

    /// The caret's row and column, for drawing it.
    pub fn cursor_position(&self) -> (p: (usize, usize))
        ensures
            p == (self.cursor.row, self.cursor.col),
    {
        (self.cursor.row, self.cursor.col)
    }
}

/// Moving up then down returns the caret to its line, and to its column and
/// remembered column when it was not moved sideways since its last vertical move.
pub proof fn lemma_up_then_down(s: EditorView)
    requires
        s.wf(),
        s.current_line() > 0,
    ensures
        s.moved_up().moved_down().current_line() == s.current_line(),
        s.column_settled() ==> s.moved_up().moved_down().cursor.col == s.cursor.col
            && s.moved_up().moved_down().cursor.sticky_col == s.cursor.sticky_col,
{
    lemma_intent_keeps_wf(s, Intent::Up);
}

/// Moving down then up returns the caret to its line, and to its column and
/// remembered column when it was not moved sideways since its last vertical move.
pub proof fn lemma_down_then_up(s: EditorView)
    requires
        s.wf(),
        s.current_line() + 1 < s.lines(),
    ensures
        s.moved_down().moved_up().current_line() == s.current_line(),
        s.column_settled() ==> s.moved_down().moved_up().cursor.col == s.cursor.col
            && s.moved_down().moved_up().cursor.sticky_col == s.cursor.sticky_col,
{
    lemma_intent_keeps_wf(s, Intent::Down);
}

/// After any vertical move the caret's column is settled, so a round trip
/// with no sideways move in between restores it.
pub proof fn lemma_vertical_move_settles(s: EditorView)
    requires
        s.wf(),
    ensures
        s.moved_up().column_settled(),
        s.moved_down().column_settled(),
{
}

/// Handling one intent keeps the caret on a document line and a viewport row.
pub proof fn lemma_intent_keeps_wf(s: EditorView, intent: Intent)
    requires
        s.wf(),
    ensures
        s.after_intent(intent).wf(),
{
}

/// However many intents are handled, the first line stays at or after line
/// zero and the caret's line stays inside the document.
pub proof fn lemma_intents_keep_wf(s: EditorView, intents: Seq<Intent>)
    requires
        s.wf(),
    ensures
        s.after_intents(intents).wf(),
        s.after_intents(intents).offset_y >= 0,
        s.after_intents(intents).current_line() < s.after_intents(intents).lines(),
    decreases intents.len(),
{
    if intents.len() > 0 {
        lemma_intents_keep_wf(s, intents.drop_last());
        lemma_intent_keeps_wf(s.after_intents(intents.drop_last()), intents.last());
    }
}

/// Scrolling up from line zero changes nothing.
pub proof fn lemma_scroll_up_at_top(s: EditorView, step: usize)
    requires
        s.wf(),
        s.offset_y == 0,
    ensures
        s.scrolled_up(step as nat) == s,
{
}

/// Scrolling down when the viewport reaches the end of the document changes
/// nothing, provided the step is zero or would carry the caret below the
/// bottom row; a shorter step from a higher row still scrolls.
pub proof fn lemma_scroll_down_at_bottom(s: EditorView, step: usize)
    requires
        s.wf(),
        s.offset_y + s.viewport_rows == s.lines(),
        step == 0 || s.cursor.row + step >= s.viewport_rows,
    ensures
        s.scrolled_down(step as nat) == s,
{
}

} // verus!
