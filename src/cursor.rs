//! The caret: a row inside the viewport, a column inside that row's line,
//! and the column to come back to after crossing shorter lines.
use vstd::prelude::*;

verus! {

/// Greatest column the caret may take on a line of `len` chars: the last
/// char, or zero on an empty line.
pub open spec fn last_col(len: nat) -> nat {
    if len == 0 {
        0
    } else {
        (len - 1) as nat
    }
}

/// The caret.
#[derive(Debug, Clone, Copy, PartialEq, Eq)]
pub struct Cursor {
    /// Row inside the viewport.
    pub row: usize,
    /// Column inside the line at that row.
    pub col: usize,
    /// Column remembered across vertical moves, if the last one had to clamp.
    pub sticky_col: Option<usize>,
}

impl Cursor {
    /// The column a vertical move aims at: the remembered one, else the current one.
    pub open spec fn target_col(self) -> nat {
        match self.sticky_col {
            Some(s) => s as nat,
            None => self.col as nat,
        }
    }

    /// The caret after a vertical move to `row`, whose line has `len` chars:
    /// the target column clamped to that line, remembered only if clamped.
    pub open spec fn settled(self, row: usize, len: nat) -> Cursor {
        let target = self.target_col();
        let col = if target <= last_col(len) {
            target
        } else {
            last_col(len)
        };
        Cursor {
            row,
            col: col as usize,
            sticky_col: if col < target {
                Some(target as usize)
            } else {
                None
            },
        }
    }

    /// One column left on a line of `len` chars, clamped to the line; forgets the remembered column.
    pub open spec fn moved_left(self, len: nat) -> Cursor {
        let col = if self.col == 0 {
            0
        } else if self.col - 1 <= last_col(len) {
            (self.col - 1) as nat
        } else {
            last_col(len)
        };
        Cursor { row: self.row, col: col as usize, sticky_col: None }
    }

    /// One column right on a line of `len` chars, clamped to the line; forgets the remembered column.
    pub open spec fn moved_right(self, len: nat) -> Cursor {
        let col = if self.col + 1 <= last_col(len) {
            (self.col + 1) as nat
        } else {
            last_col(len)
        };
        Cursor { row: self.row, col: col as usize, sticky_col: None }
    }

    /// First column; forgets the remembered column.
    pub open spec fn at_line_start(self) -> Cursor {
        Cursor { row: self.row, col: 0, sticky_col: None }
    }

    /// Last column of a line of `len` chars; forgets the remembered column.
    pub open spec fn at_line_end(self, len: nat) -> Cursor {
        Cursor { row: self.row, col: last_col(len) as usize, sticky_col: None }
    }

    /// The caret at the origin, with no remembered column.
    pub fn new() -> (c: Cursor)
        ensures
            c.row == 0,
            c.col == 0,
            c.sticky_col is None,
    {
        Cursor { row: 0, col: 0, sticky_col: None }
    }

    /// Applies the vertical-move column rule after moving to `row`, whose line has `len` chars.
    pub fn settle(&mut self, row: usize, len: usize)
        ensures
            *final(self) == old(self).settled(row, len as nat),
    {
        let target = match self.sticky_col {
            Some(s) => s,
            None => self.col,
        };
        let last = if len == 0 {
            0
        } else {
            len - 1
        };
        let col = if target <= last {
            target
        } else {
            last
        };
        self.row = row;
        self.col = col;
        self.sticky_col = if col < target {
            Some(target)
        } else {
            None
        };
    }

    /// Moves one column left on a line of `len` chars.
    pub fn move_left(&mut self, len: usize)
        ensures
            *final(self) == old(self).moved_left(len as nat),
    {
        let last = if len == 0 {
            0
        } else {
            len - 1
        };
        if self.col > 0 {
            self.col = if self.col - 1 <= last {
                self.col - 1
            } else {
                last
            };
        }
        self.sticky_col = None;
    }

    /// Moves one column right on a line of `len` chars.
    pub fn move_right(&mut self, len: usize)
        ensures
            *final(self) == old(self).moved_right(len as nat),
    {
        let last = if len == 0 {
            0
        } else {
            len - 1
        };
        self.col = if self.col < last {
            self.col + 1
        } else {
            last
        };
        self.sticky_col = None;
    }

    /// Moves to the first column.
    pub fn move_to_start(&mut self)
        ensures
            *final(self) == old(self).at_line_start(),
    {
        self.col = 0;
        self.sticky_col = None;
    }

    /// Moves to the last column of a line of `len` chars.
    pub fn move_to_end(&mut self, len: usize)
        ensures
            *final(self) == old(self).at_line_end(len as nat),
    {
        self.col = if len == 0 {
            0
        } else {
            len - 1
        };
        self.sticky_col = None;
    }
}

} // verus!
