//! Renderer-facing data: an immutable description of the terminal grid.
use vstd::prelude::*;

use crate::terminal::Terminal;
use crate::theme::{Rgb, Theme};

verus! {

/// An immutable description of the terminal grid needed by a renderer.
#[derive(Debug, Clone, Copy, PartialEq, Eq, Structural)]
pub struct RenderSnapshot {
    columns: u16,
    rows: u16,
}

impl RenderSnapshot {
    /// The width recorded in the snapshot, in character cells.
    pub closed spec fn spec_columns(self) -> nat {
        self.columns as nat
    }

    /// The height recorded in the snapshot, in character cells.
    pub closed spec fn spec_rows(self) -> nat {
        self.rows as nat
    }

    /// Captures renderer-visible dimensions from terminal state.
    pub fn from_terminal(terminal: &Terminal) -> (s: Self)
        ensures
            s.spec_columns() == terminal@.columns,
            s.spec_rows() == terminal@.rows,
    {
        RenderSnapshot { columns: terminal.columns(), rows: terminal.rows() }
    }

    /// Returns the grid width in character cells.
    pub fn columns(&self) -> (c: u16)
        ensures
            c == self.spec_columns(),
    {
        self.columns
    }

    /// Returns the grid height in character cells.
    pub fn rows(&self) -> (r: u16)
        ensures
            r == self.spec_rows(),
    {
        self.rows
    }
}


/// The colours one grid cell is drawn with.
#[derive(Debug, Clone, Copy, PartialEq, Eq, Structural)]
pub struct CellColors {
    pub foreground: Rgb,
    pub background: Rgb,
}

/// Whether the cell at (`row`, `column`) shows the cursor.
pub open spec fn shows_cursor(cursor_hidden: bool, cursor: (u16, u16), row: u16, column: u16) -> bool {
    !cursor_hidden && cursor.0 == row && cursor.1 == column
}

/// How a cell is painted: an inverse cell, and the cursor cell, swap foreground and
/// background; an empty cursor cell is filled with the cursor colour.
pub open spec fn painted(
    foreground: Rgb,
    background: Rgb,
    inverse: bool,
    at_cursor: bool,
    empty: bool,
    cursor_color: Rgb,
) -> CellColors {
    let swapped = inverse || at_cursor;
    CellColors {
        foreground: if swapped { background } else { foreground },
        background: if at_cursor && empty {
            cursor_color
        } else if swapped {
            foreground
        } else {
            background
        },
    }
}

/// Decides whether the cell at (`row`, `column`) shows the cursor.
pub fn cursor_at(cursor_hidden: bool, cursor: (u16, u16), row: u16, column: u16) -> (b: bool)
    ensures
        b == shows_cursor(cursor_hidden, cursor, row, column),
{
    !cursor_hidden && cursor.0 == row && cursor.1 == column
}

/// Decides the colours of a cell from its resolved colours, its inverse attribute,
/// whether it shows the cursor and whether it is empty.
pub fn cell_colors(
    foreground: Rgb,
    background: Rgb,
    inverse: bool,
    at_cursor: bool,
    empty: bool,
    cursor_color: Rgb,
) -> (c: CellColors)
    ensures
        c == painted(foreground, background, inverse, at_cursor, empty, cursor_color),
{
    let mut fg = foreground;
    let mut bg = background;
    if inverse || at_cursor {
        let t = fg;
        fg = bg;
        bg = t;
    }
    if at_cursor && empty {
        bg = cursor_color;
    }
    CellColors { foreground: fg, background: bg }
}


/// What one section of a laid-out grid shows.
#[derive(Debug, Clone, Copy, PartialEq, Eq, Structural)]
pub enum SectionText {
    /// An empty cell, drawn as one space.
    Blank,
    /// The break between two rows.
    LineBreak,
}

/// One section of a laid-out grid: its text and the colours it is drawn with
/// (`None` for no background of its own).
#[derive(Debug, Clone, Copy, PartialEq, Eq)]
pub struct LayoutSection {
    pub text: SectionText,
    pub foreground: Rgb,
    pub background: Option<Rgb>,
}

/// The section of an empty cell away from the cursor.
pub open spec fn blank_cell(theme: Theme) -> LayoutSection {
    let colors = painted(theme.foreground, theme.background, false, false, true, theme.cursor);
    LayoutSection { text: SectionText::Blank, foreground: colors.foreground, background: Some(colors.background) }
}

/// The section between two rows: drawn in the foreground colour, with no background.
pub open spec fn line_break(theme: Theme) -> LayoutSection {
    LayoutSection { text: SectionText::LineBreak, foreground: theme.foreground, background: None }
}

/// One row of `columns` empty cells.
pub open spec fn row_sections(columns: nat, theme: Theme) -> Seq<LayoutSection> {
    Seq::new(columns, |i: int| blank_cell(theme))
}

/// A grid of `rows` rows of `columns` empty cells, in row order, with a line break
/// between consecutive rows and none after the last.
pub open spec fn grid_sections(rows: nat, columns: nat, theme: Theme) -> Seq<LayoutSection>
    decreases rows,
{
    if rows == 0 {
        Seq::empty()
    } else if rows == 1 {
        row_sections(columns, theme)
    } else {
        grid_sections((rows - 1) as nat, columns, theme) + seq![line_break(theme)] + row_sections(columns, theme)
    }
}

/// Lays out the grid of a snapshot as the sections a renderer draws, row by row:
/// each cell of a row, then a line break unless the row is the last. The terminal
/// holds no cell contents, so every cell is empty and away from the cursor.
pub fn layout_sections(snapshot: &RenderSnapshot, theme: Theme) -> (out: Vec<LayoutSection>)
    ensures
        out@ == grid_sections(snapshot.spec_rows(), snapshot.spec_columns(), theme),
{
    let rows = snapshot.rows();
    let columns = snapshot.columns();
    let mut out: Vec<LayoutSection> = Vec::new();
    let mut row: u16 = 0;
    while row < rows
        invariant
            row <= rows,
            rows == snapshot.spec_rows(),
            columns == snapshot.spec_columns(),
            out@ == grid_sections(row as nat, columns as nat, theme) + if 0 < row < rows {
                seq![line_break(theme)]
            } else {
                Seq::empty()
            },
        decreases rows - row,
    {
        let ghost base = out@;
        let mut column: u16 = 0;
        while column < columns
            invariant
                column <= columns,
                out@ == base + row_sections(column as nat, theme),
            decreases columns - column,
        {
            let colors = cell_colors(theme.foreground, theme.background, false, false, true, theme.cursor);
            out.push(LayoutSection { text: SectionText::Blank, foreground: colors.foreground, background: Some(colors.background) });
            assert(row_sections((column + 1) as nat, theme) =~= row_sections(column as nat, theme).push(blank_cell(theme)));
            column = column + 1;
        }
        if row == 0 {
            assert(out@ =~= grid_sections(1, columns as nat, theme));
        } else {
            assert(out@ =~= grid_sections((row + 1) as nat, columns as nat, theme));
        }
        if row + 1 < rows {
            out.push(LayoutSection { text: SectionText::LineBreak, foreground: theme.foreground, background: None });
        }
        row = row + 1;
        assert(out@ =~= grid_sections(row as nat, columns as nat, theme) + if 0 < row < rows {
            seq![line_break(theme)]
        } else {
            Seq::empty()
        });
    }
    out
}

} // verus!
