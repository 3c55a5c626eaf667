//! The row at which the next colour bar is drawn on the terminal.

use vstd::prelude::*;

verus! {

/// A cursor that walks down the rows of a terminal and starts again at the
/// top once it has passed the last one.
pub struct TerminalState {
    current_row: u16,
    max_rows: u16,
    max_cols: u16,
}

/// The row that follows `row` on a terminal of `max_rows` rows.
pub open spec fn next_row(row: u16, max_rows: u16) -> u16 {
    if row + 1 >= max_rows {
        0
    } else {
        (row + 1) as u16
    }
}

impl TerminalState {
    /// The row at which the cursor stands.
    pub closed spec fn row(&self) -> u16 {
        self.current_row
    }

    /// The number of rows of the terminal.
    pub closed spec fn rows(&self) -> u16 {
        self.max_rows
    }

    /// The number of columns of the terminal.
    pub closed spec fn cols(&self) -> u16 {
        self.max_cols
    }

    /// The cursor stands on a row of the terminal; on a terminal without
    /// rows it stays at row zero.
    #[verifier::type_invariant]
    spec fn on_screen(self) -> bool {
        self.current_row == 0 || self.current_row < self.max_rows
    }

    /// A cursor at the top of a terminal of the given size.
    pub fn new(max_rows: u16, max_cols: u16) -> (state: TerminalState)
        ensures
            state.row() == 0,
            state.rows() == max_rows,
            state.cols() == max_cols,
    {
        TerminalState { current_row: 0, max_rows, max_cols }
    }

    /// Moves the cursor one row down, and back to the top where that would
    /// leave the terminal.
    pub fn next_position(&mut self)
        ensures
            final(self).row() == next_row(old(self).row(), old(self).rows()),
            final(self).rows() == old(self).rows(),
            final(self).cols() == old(self).cols(),
            final(self).row() == 0 || final(self).row() < final(self).rows(),
    {
        proof {
            use_type_invariant(&*self);
        }
        let next: u16 = self.current_row + 1;
        self.current_row = if next >= self.max_rows {
            0
        } else {
            next
        };
    }

    /// The row at which the cursor stands.
    pub fn current_row(&self) -> (row: u16)
        ensures
            row == self.row(),
            row == 0 || row < self.rows(),
    {
        proof {
            use_type_invariant(self);
        }
        self.current_row
    }

    /// The number of rows of the terminal.
    pub fn max_rows(&self) -> (rows: u16)
        ensures
            rows == self.rows(),
    {
        self.max_rows
    }

    /// The number of columns of the terminal.
    pub fn max_cols(&self) -> (cols: u16)
        ensures
            cols == self.cols(),
    {
        self.max_cols
    }
}

} // verus!
