//! Platform-independent terminal state.
use vstd::prelude::*;

verus! {

/// The abstract state of a terminal: its grid dimensions in character cells.
pub struct TerminalView {
    pub columns: nat,
    pub rows: nat,
}

/// A deliberately small terminal model: a grid of `columns` by `rows` cells.
#[derive(Debug, Clone, Copy, PartialEq, Eq, Structural)]
pub struct Terminal {
    columns: u16,
    rows: u16,
}

impl View for Terminal {
    type V = TerminalView;

    closed spec fn view(&self) -> TerminalView {
        TerminalView { columns: self.columns as nat, rows: self.rows as nat }
    }
}

impl Terminal {
    /// Creates an empty terminal grid.
    pub fn new(columns: u16, rows: u16) -> (t: Self)
        ensures
            t@ == (TerminalView { columns: columns as nat, rows: rows as nat }),
    {
        Terminal { columns, rows }
    }

    /// Returns the terminal width in character cells.
    pub fn columns(&self) -> (c: u16)
        ensures
            c == self@.columns,
    {
        self.columns
    }

    /// Returns the terminal height in character cells.
    pub fn rows(&self) -> (r: u16)
        ensures
            r == self@.rows,
    {
        self.rows
    }

    /// Changes the terminal grid dimensions.
    pub fn resize(&mut self, columns: u16, rows: u16)
        ensures
            final(self)@ == (TerminalView { columns: columns as nat, rows: rows as nat }),
    {
        self.columns = columns;
        self.rows = rows;
    }
}

} // verus!
