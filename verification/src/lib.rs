//! Terminal state, renderer snapshots, keyboard input and the tab/pane
//! workspace of the WinGhost terminal, verified with Verus.

pub mod keys;
pub mod pane;
pub mod platform;
pub mod snapshot;
pub mod terminal;
pub mod theme;
pub mod workspace;
