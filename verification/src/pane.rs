//! One terminal pane: its grid, its size, and the status line shown for it.
use vstd::prelude::*;

use crate::terminal::{Terminal, TerminalView};

verus! {

/// The width, in cells, of a pane when it is first created.
pub const INITIAL_COLUMNS: u16 = 100;

/// The height, in cells, of a pane when it is first created.
pub const INITIAL_ROWS: u16 = 30;

/// Pixels per cell column that the pseudoconsole is told about.
pub const CELL_PIXEL_WIDTH: u16 = 9;

/// Pixels per cell row that the pseudoconsole is told about.
pub const CELL_PIXEL_HEIGHT: u16 = 19;

/// The abstract state of a pane.
pub struct PaneView {
    pub columns: nat,
    pub rows: nat,
    pub scrollback_lines: nat,
    pub status: Seq<char>,
}

/// The new size that a pane's pseudoconsole has to be told about after a resize.
#[derive(Debug, Clone, Copy, PartialEq, Eq, Structural)]
pub struct ResizeRequest {
    pub columns: u16,
    pub rows: u16,
    pub pixel_width: u16,
    pub pixel_height: u16,
}

/// `cells * per_cell`, saturating at `u16::MAX`.
pub open spec fn saturating_pixels(cells: nat, per_cell: nat) -> nat {
    if cells * per_cell > u16::MAX { u16::MAX as nat } else { cells * per_cell }
}

/// The pseudoconsole size request that resizing a pane to `columns` by `rows` cells
/// produces: none when that is already the pane's size.
pub open spec fn resize_request(v: PaneView, columns: u16, rows: u16) -> Option<ResizeRequest> {
    if v.columns == columns && v.rows == rows {
        None
    } else {
        Some(ResizeRequest {
            columns,
            rows,
            pixel_width: saturating_pixels(columns as nat, CELL_PIXEL_WIDTH as nat) as u16,
            pixel_height: saturating_pixels(rows as nat, CELL_PIXEL_HEIGHT as nat) as u16,
        })
    }
}

/// A pane after being resized to `columns` by `rows` cells.
pub open spec fn resized(v: PaneView, columns: u16, rows: u16) -> PaneView {
    PaneView { columns: columns as nat, rows: rows as nat, ..v }
}

/// Resizing is idempotent: once a pane has a size, resizing it to that size again
/// changes nothing and asks the pseudoconsole for nothing.
pub proof fn lemma_resize_idempotent(v: PaneView, columns: u16, rows: u16)
    ensures
        resized(resized(v, columns, rows), columns, rows) == resized(v, columns, rows),
        resize_request(resized(v, columns, rows), columns, rows) is None,
{
}

/// After a resize a pane has exactly the requested size, and a pseudoconsole request
/// comes exactly when that size differs from the old one in either dimension. The
/// request carries the new size, and pixel sizes of 9 and 19 pixels per cell, capped
/// at `u16::MAX`. Nothing but the size changes.
pub proof fn lemma_resize_sets_size_and_requests_on_change(v: PaneView, columns: u16, rows: u16)
    ensures
        resized(v, columns, rows).columns == columns,
        resized(v, columns, rows).rows == rows,
        resized(v, columns, rows).scrollback_lines == v.scrollback_lines,
        resized(v, columns, rows).status == v.status,
        resize_request(v, columns, rows) is None <==> (v.columns == columns && v.rows == rows),
        resize_request(v, columns, rows) matches Some(request) ==> {
            &&& request.columns == columns
            &&& request.rows == rows
            &&& request.pixel_width <= columns * 9
            &&& request.pixel_height <= rows * 19
            &&& (columns * 9 <= u16::MAX ==> request.pixel_width == columns * 9)
            &&& (columns * 9 > u16::MAX ==> request.pixel_width == u16::MAX)
            &&& (rows * 19 <= u16::MAX ==> request.pixel_height == rows * 19)
            &&& (rows * 19 > u16::MAX ==> request.pixel_height == u16::MAX)
        },
{
}

/// The status line after a shell start: the profile's name, or why the start failed.
pub open spec fn start_status(profile_name: Seq<char>, spawn_error: Option<Seq<char>>) -> Seq<char> {
    match spawn_error {
        None => profile_name,
        Some(error) => "Could not start "@ + profile_name + ": "@ + error,
    }
}

/// A terminal pane: the terminal grid, the size it was last given, the scrollback
/// setting it was created with and the status line shown for it.
pub struct Pane {
    terminal: Terminal,
    size: (u16, u16),
    scrollback_lines: usize,
    status: String,
}

impl View for Pane {
    type V = PaneView;

    closed spec fn view(&self) -> PaneView {
        PaneView {
            columns: self.size.0 as nat,
            rows: self.size.1 as nat,
            scrollback_lines: self.scrollback_lines as nat,
            status: self.status@,
        }
    }
}

impl Pane {
    /// The terminal grid always has the pane's size.
    pub closed spec fn wf(&self) -> bool {
        self.terminal@ == (TerminalView { columns: self.size.0 as nat, rows: self.size.1 as nat })
    }

    /// Multiplies a cell count by a per-cell pixel size, saturating at `u16::MAX`.
    fn pixels(cells: u16, per_cell: u16) -> (p: u16)
        ensures
            p == saturating_pixels(cells as nat, per_cell as nat),
    {
        assert((cells as u32) * (per_cell as u32) <= 0xffff * 0xffff) by (nonlinear_arith)
            requires
                cells <= 0xffff,
                per_cell <= 0xffff,
        ;
        let wide: u32 = (cells as u32) * (per_cell as u32);
        if wide > 0xffff {
            0xffff
        } else {
            wide as u16
        }
    }

    /// A pane of the initial size whose shell has not been started yet.
    pub fn new(scrollback_lines: usize) -> (p: Self)
        ensures
            p.wf(),
            p@ == (PaneView {
                columns: INITIAL_COLUMNS as nat,
                rows: INITIAL_ROWS as nat,
                scrollback_lines: scrollback_lines as nat,
                status: Seq::empty(),
            }),
    {
        Pane {
            terminal: Terminal::new(INITIAL_COLUMNS, INITIAL_ROWS),
            size: (INITIAL_COLUMNS, INITIAL_ROWS),
            scrollback_lines,
            status: String::new(),
        }
    }

    /// Starts the pane over after its shell was (re)started: a fresh terminal of the
    /// pane's size, and a status line naming the profile, or saying why it did not start.
    pub fn restart(&mut self, profile_name: &str, spawn_error: Option<&str>)
        requires
            old(self).wf(),
        ensures
            final(self).wf(),
            final(self)@ == (PaneView {
                status: start_status(profile_name@, match spawn_error {
                    Some(e) => Some(e@),
                    None => None,
                }),
                ..old(self)@
            }),
    {
        self.terminal = Terminal::new(self.size.0, self.size.1);
        match spawn_error {
            None => {
                self.status = String::from_str(profile_name);
            },
            Some(error) => {
                let mut status = String::from_str("Could not start ");
                status.append(profile_name);
                status.append(": ");
                status.append(error);
                self.status = status;
            },
        }
    }

    /// Gives the pane a new size in cells. Nothing changes when the size is the
    /// current one; otherwise the terminal is resized and the size (with pixel
    /// dimensions) that the pseudoconsole has to be told about comes back.
    pub fn resize(&mut self, columns: u16, rows: u16) -> (request: Option<ResizeRequest>)
        requires
            old(self).wf(),
        ensures
            final(self).wf(),
            request == resize_request(old(self)@, columns, rows),
            final(self)@ == resized(old(self)@, columns, rows),
    {
        if self.size.0 == columns && self.size.1 == rows {
            return None;
        }
        self.size = (columns, rows);
        self.terminal.resize(columns, rows);
        Some(ResizeRequest {
            columns,
            rows,
            pixel_width: Self::pixels(columns, CELL_PIXEL_WIDTH),
            pixel_height: Self::pixels(rows, CELL_PIXEL_HEIGHT),
        })
    }

    /// Shows `message` (a failure of the pane's shell) in the status line.
    pub fn report_error(&mut self, message: String)
        requires
            old(self).wf(),
        ensures
            final(self).wf(),
            final(self)@ == (PaneView { status: message@, ..old(self)@ }),
    {
        self.status = message;
    }

    /// The pane's terminal grid, which has the pane's size.
    pub fn terminal(&self) -> (t: &Terminal)
        requires
            self.wf(),
        ensures
            t@ == (TerminalView { columns: self@.columns, rows: self@.rows }),
    {
        &self.terminal
    }

    /// The pane's size as (columns, rows).
    pub fn size(&self) -> (s: (u16, u16))
        ensures
            s.0 == self@.columns,
            s.1 == self@.rows,
    {
        self.size
    }

    /// The scrollback setting the pane was created with.
    pub fn scrollback_lines(&self) -> (n: usize)
        ensures
            n == self@.scrollback_lines,
    {
        self.scrollback_lines
    }

    /// The status line shown for the pane.
    pub fn status(&self) -> (s: &str)
        ensures
            s@ == self@.status,
    {
        self.status.as_str()
    }
}

} // verus!
