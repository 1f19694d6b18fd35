use winghost::snapshot::{cell_colors, cursor_at, layout_sections, CellColors, LayoutSection, RenderSnapshot, SectionText};
use winghost::terminal::Terminal;
use winghost::theme::{Rgb, ThemeChoice};

#[test]
fn resize_updates_dimensions() {
    let mut terminal = Terminal::new(80, 24);
    terminal.resize(120, 40);

    assert_eq!(terminal.columns(), 120);
    assert_eq!(terminal.rows(), 40);
}

#[test]
fn new_terminal_has_requested_dimensions() {
    let terminal = Terminal::new(100, 30);
    assert_eq!(terminal.columns(), 100);
    assert_eq!(terminal.rows(), 30);
}

#[test]
fn last_resize_wins() {
    let mut terminal = Terminal::new(80, 24);
    terminal.resize(10, 5);
    terminal.resize(0, 65535);
    assert_eq!(terminal.columns(), 0);
    assert_eq!(terminal.rows(), 65535);
}

#[test]
fn snapshot_reports_terminal_dimensions() {
    let terminal = Terminal::new(132, 43);
    let snapshot = RenderSnapshot::from_terminal(&terminal);
    assert_eq!(snapshot.columns(), 132);
    assert_eq!(snapshot.rows(), 43);
}

#[test]
fn snapshot_after_resize_reports_new_dimensions() {
    let mut terminal = Terminal::new(80, 24);
    let before = RenderSnapshot::from_terminal(&terminal);
    terminal.resize(120, 40);
    let after = RenderSnapshot::from_terminal(&terminal);
    assert_eq!((before.columns(), before.rows()), (80, 24));
    assert_eq!((after.columns(), after.rows()), (120, 40));
}

#[test]
fn cursor_shows_only_at_its_cell_when_visible() {
    assert!(cursor_at(false, (3, 7), 3, 7));
    assert!(!cursor_at(false, (3, 7), 7, 3));
    assert!(!cursor_at(true, (3, 7), 3, 7));
}

#[test]
fn plain_cell_keeps_its_colors() {
    let fg = Rgb(1, 2, 3);
    let bg = Rgb(4, 5, 6);
    let cursor = Rgb(7, 8, 9);
    assert_eq!(cell_colors(fg, bg, false, false, false, cursor), CellColors { foreground: fg, background: bg });
    assert_eq!(cell_colors(fg, bg, false, false, true, cursor), CellColors { foreground: fg, background: bg });
}

#[test]
fn inverse_cell_swaps_colors() {
    let fg = Rgb(1, 2, 3);
    let bg = Rgb(4, 5, 6);
    let cursor = Rgb(7, 8, 9);
    assert_eq!(cell_colors(fg, bg, true, false, true, cursor), CellColors { foreground: bg, background: fg });
}

#[test]
fn cursor_cell_swaps_colors_and_empty_cursor_cell_takes_cursor_color() {
    let fg = Rgb(1, 2, 3);
    let bg = Rgb(4, 5, 6);
    let cursor = Rgb(7, 8, 9);
    assert_eq!(cell_colors(fg, bg, false, true, false, cursor), CellColors { foreground: bg, background: fg });
    assert_eq!(cell_colors(fg, bg, false, true, true, cursor), CellColors { foreground: bg, background: cursor });
    assert_eq!(cell_colors(fg, bg, true, true, false, cursor), CellColors { foreground: bg, background: fg });
}

#[test]
fn layout_lists_cells_row_by_row_with_breaks_between_rows() {
    let theme = ThemeChoice::Midnight.theme();
    let snapshot = RenderSnapshot::from_terminal(&Terminal::new(3, 2));
    let cell = LayoutSection { text: SectionText::Blank, foreground: theme.foreground, background: Some(theme.background) };
    let line_break = LayoutSection { text: SectionText::LineBreak, foreground: theme.foreground, background: None };
    assert_eq!(
        layout_sections(&snapshot, theme),
        vec![cell, cell, cell, line_break, cell, cell, cell]
    );
}

#[test]
fn layout_of_one_row_has_no_break_and_empty_grid_has_no_sections() {
    let theme = ThemeChoice::Light.theme();
    let one_row = layout_sections(&RenderSnapshot::from_terminal(&Terminal::new(4, 1)), theme);
    assert_eq!(one_row.len(), 4);
    assert!(one_row.iter().all(|s| s.text == SectionText::Blank));
    assert!(layout_sections(&RenderSnapshot::from_terminal(&Terminal::new(0, 0)), theme).is_empty());
    let no_columns = layout_sections(&RenderSnapshot::from_terminal(&Terminal::new(0, 3)), theme);
    assert_eq!(no_columns.iter().filter(|s| s.text == SectionText::LineBreak).count(), 2);
    assert_eq!(no_columns.len(), 2);
}
