use winghost::pane::{Pane, ResizeRequest, INITIAL_COLUMNS, INITIAL_ROWS};
use winghost::workspace::{SplitDirection, TerminalTab, Workspace, MAX_PANES};

fn panes_of(workspace: &Workspace<u32>, tab: usize) -> Vec<u32> {
    let tab = workspace.tab(tab);
    (0..tab.pane_count()).map(|i| *tab.pane(i)).collect()
}

#[test]
fn new_tab_holds_one_vertical_pane() {
    let tab = TerminalTab::new(3, 7u32);
    assert_eq!(tab.number(), 3);
    assert_eq!(tab.pane_count(), 1);
    assert_eq!(tab.active_pane_index(), 0);
    assert_eq!(tab.split(), SplitDirection::Vertical);
    assert_eq!(*tab.pane(0), 7);
}

#[test]
fn workspace_starts_with_tab_one() {
    let workspace = Workspace::new(1u32);
    assert_eq!(workspace.tab_count(), 1);
    assert_eq!(workspace.active_tab_index(), 0);
    assert_eq!(workspace.active_tab().number(), 1);
    assert_eq!(*workspace.active_pane(), 1);
}

#[test]
fn opening_tabs_numbers_them_and_activates_the_new_one() {
    let mut workspace = Workspace::new(1u32);
    workspace.new_tab(2);
    workspace.new_tab(3);
    assert_eq!(workspace.tab_count(), 3);
    assert_eq!(workspace.active_tab_index(), 2);
    assert_eq!(workspace.tab(1).number(), 2);
    assert_eq!(workspace.tab(2).number(), 3);
    assert_eq!(*workspace.active_pane(), 3);
}

#[test]
fn last_tab_is_not_closed() {
    let mut workspace = Workspace::new(1u32);
    assert!(workspace.close_tab().is_none());
    assert_eq!(workspace.tab_count(), 1);
    assert_eq!(*workspace.active_pane(), 1);
}

#[test]
fn closing_a_tab_keeps_the_index_in_range() {
    let mut workspace = Workspace::new(1u32);
    workspace.new_tab(2);
    workspace.new_tab(3);
    workspace.select_tab(1);
    let closed = workspace.close_tab().expect("a tab is closed");
    assert_eq!(*closed.pane(0), 2);
    assert_eq!(workspace.tab_count(), 2);
    assert_eq!(workspace.active_tab_index(), 1);
    assert_eq!(*workspace.active_pane(), 3);
    let closed = workspace.close_tab().expect("a tab is closed");
    assert_eq!(*closed.pane(0), 3);
    assert_eq!(workspace.active_tab_index(), 0);
    assert_eq!(*workspace.active_pane(), 1);
}

#[test]
fn closing_a_new_tab_restores_the_tabs() {
    let mut workspace = Workspace::new(1u32);
    workspace.new_tab(2);
    workspace.select_tab(0);
    workspace.new_tab(9);
    let closed = workspace.close_tab().expect("a tab is closed");
    assert_eq!(closed.number(), 3);
    assert_eq!(*closed.pane(0), 9);
    assert_eq!(workspace.tab_count(), 2);
    assert_eq!(panes_of(&workspace, 0), vec![1]);
    assert_eq!(panes_of(&workspace, 1), vec![2]);
    assert_eq!(workspace.active_tab_index(), 1);
}

#[test]
fn splitting_adds_an_active_pane_up_to_the_limit() {
    let mut workspace = Workspace::new(1u32);
    assert!(workspace.can_split());
    assert_eq!(workspace.split_active(SplitDirection::Horizontal, 2), Ok(()));
    assert_eq!(workspace.active_tab().split(), SplitDirection::Horizontal);
    assert_eq!(workspace.active_tab().active_pane_index(), 1);
    assert_eq!(workspace.split_active(SplitDirection::Vertical, 3), Ok(()));
    assert_eq!(workspace.split_active(SplitDirection::Vertical, 4), Ok(()));
    assert_eq!(workspace.active_tab().pane_count(), MAX_PANES);
    assert!(!workspace.can_split());
    assert_eq!(workspace.split_active(SplitDirection::Horizontal, 5), Err(5));
    assert_eq!(workspace.active_tab().split(), SplitDirection::Vertical);
    assert_eq!(panes_of(&workspace, 0), vec![1, 2, 3, 4]);
    assert_eq!(*workspace.active_pane(), 4);
}

#[test]
fn last_pane_is_not_closed() {
    let mut workspace = Workspace::new(1u32);
    assert_eq!(workspace.close_active_pane(), None);
    assert_eq!(panes_of(&workspace, 0), vec![1]);
}

#[test]
fn closing_a_pane_keeps_the_index_in_range() {
    let mut workspace = Workspace::new(1u32);
    workspace.split_active(SplitDirection::Vertical, 2).unwrap();
    workspace.split_active(SplitDirection::Vertical, 3).unwrap();
    workspace.select_pane(1);
    assert_eq!(workspace.close_active_pane(), Some(2));
    assert_eq!(panes_of(&workspace, 0), vec![1, 3]);
    assert_eq!(workspace.active_tab().active_pane_index(), 1);
    assert_eq!(workspace.close_active_pane(), Some(3));
    assert_eq!(workspace.active_tab().active_pane_index(), 0);
    assert_eq!(*workspace.active_pane(), 1);
}

#[test]
fn closing_the_pane_a_split_added_restores_the_panes() {
    let mut workspace = Workspace::new(1u32);
    workspace.split_active(SplitDirection::Vertical, 2).unwrap();
    workspace.select_pane(0);
    workspace.split_active(SplitDirection::Horizontal, 8).unwrap();
    assert_eq!(workspace.close_active_pane(), Some(8));
    assert_eq!(panes_of(&workspace, 0), vec![1, 2]);
}

#[test]
fn panes_can_be_changed_in_place() {
    let mut workspace = Workspace::new(1u32);
    workspace.new_tab(2);
    *workspace.active_pane_mut() += 40;
    *workspace.pane_mut(0, 0) += 10;
    assert_eq!(panes_of(&workspace, 0), vec![11]);
    assert_eq!(panes_of(&workspace, 1), vec![42]);
}

#[test]
fn new_pane_has_initial_size() {
    let pane = Pane::new(10_000);
    assert_eq!(pane.size(), (INITIAL_COLUMNS, INITIAL_ROWS));
    assert_eq!(pane.size(), (100, 30));
    assert_eq!(pane.terminal().columns(), 100);
    assert_eq!(pane.terminal().rows(), 30);
    assert_eq!(pane.scrollback_lines(), 10_000);
    assert_eq!(pane.status(), "");
}

#[test]
fn restart_reports_the_profile_or_the_failure() {
    let mut pane = Pane::new(1_000);
    pane.restart("PowerShell 7", None);
    assert_eq!(pane.status(), "PowerShell 7");
    pane.restart("Command Prompt", Some("file not found"));
    assert_eq!(pane.status(), "Could not start Command Prompt: file not found");
}

#[test]
fn resize_asks_for_pseudoconsole_resize_only_on_change() {
    let mut pane = Pane::new(1_000);
    assert_eq!(pane.resize(100, 30), None);
    assert_eq!(
        pane.resize(120, 40),
        Some(ResizeRequest { columns: 120, rows: 40, pixel_width: 1080, pixel_height: 760 })
    );
    assert_eq!(pane.size(), (120, 40));
    assert_eq!(pane.terminal().columns(), 120);
    assert_eq!(pane.terminal().rows(), 40);
    assert_eq!(pane.resize(120, 40), None);
}

#[test]
fn resize_pixel_sizes_saturate() {
    let mut pane = Pane::new(1_000);
    assert_eq!(
        pane.resize(60_000, 4_000),
        Some(ResizeRequest { columns: 60_000, rows: 4_000, pixel_width: u16::MAX, pixel_height: u16::MAX })
    );
}

#[test]
fn restart_keeps_the_size() {
    let mut pane = Pane::new(1_000);
    pane.resize(80, 24);
    pane.restart("WSL", None);
    assert_eq!(pane.size(), (80, 24));
    assert_eq!(pane.terminal().columns(), 80);
}

#[test]
fn errors_show_in_the_status_line() {
    let mut pane = Pane::new(1_000);
    pane.report_error(String::from("pipe closed"));
    assert_eq!(pane.status(), "pipe closed");
}
