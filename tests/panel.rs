use search_todos::panel::{
    count_todos, handle_toggle_todos, navigation_request_for, OutOfRange, TodoPanel, TodosPanel,
    ToggleResponse,
};
use search_todos::scanner::{TodoEntry, TodoScanner};

fn sample() -> Vec<TodoEntry> {
    let text = "// TODO: a\n// FIXME: b\n// TODO: c\n/* FIXME: d */\n// todo e";
    TodoScanner::new().scan_file(&"src/lib.rs".to_string(), text)
}

#[test]
fn counts_by_kind() {
    let entries = sample();
    assert_eq!(entries.len(), 5);
    assert_eq!(count_todos(&entries), (3, 2));
    let panel = TodosPanel::with_todos(entries);
    assert_eq!(panel.todo_count(), (3, 2));
    assert_eq!(TodosPanel::new().todo_count(), (0, 0));
}

#[test]
fn scan_file_tags_entries() {
    let entries = sample();
    assert!(entries.iter().all(|e| e.file_path == "src/lib.rs"));
    assert_eq!(entries[3].todo.message, "d");
    assert_eq!(entries[3].todo.line, 4);
}

#[test]
fn set_todos_resets_scroll_and_selection() {
    let mut panel = TodosPanel::with_todos(sample());
    panel.scroll_to(3);
    assert!(panel.select_entry(2).is_ok());
    assert_eq!(panel.selected_index(), Some(2));
    assert_eq!(panel.scroll_top(), 3);
    panel.set_todos(sample()[..1].to_vec());
    assert_eq!(panel.selected_index(), None);
    assert_eq!(panel.scroll_top(), 0);
    assert_eq!(panel.todos().len(), 1);
}

#[test]
fn select_entry_in_and_out_of_range() {
    let entries = sample();
    let mut panel = TodosPanel::with_todos(entries.clone());
    assert_eq!(panel.select_entry(1), Ok(&entries[1]));
    assert_eq!(panel.selected_index(), Some(1));
    assert_eq!(panel.select_entry(5), Err(OutOfRange { index: 5, len: 5 }));
    assert_eq!(panel.selected_index(), Some(1));
    let mut empty: TodoPanel = TodosPanel::new();
    assert_eq!(empty.select_entry(0), Err(OutOfRange { index: 0, len: 0 }));
    assert_eq!(empty.selected_index(), None);
}

#[test]
fn navigation_points_at_message() {
    let entries = sample();
    let req = navigation_request_for(&entries[1]);
    assert_eq!(req.file_path, "src/lib.rs");
    assert_eq!(req.line, 2);
    assert_eq!(req.column, 10);
}

#[test]
fn navigation_column_counts_bytes() {
    let entries = TodoScanner::new().scan_file(&"a.rs".to_string(), "x\nlet s = \"ß\"; // TODO: y");
    assert_eq!(entries.len(), 1);
    let req = navigation_request_for(&entries[0]);
    assert_eq!(req.line, 2);
    assert_eq!(req.column, 23);
}

#[test]
fn toggle_focuses_or_scans() {
    assert_eq!(handle_toggle_todos(true), ToggleResponse::FocusPanel);
    assert_eq!(handle_toggle_todos(false), ToggleResponse::ScanAndShow);
}

#[test]
fn stale_scan_is_dropped() {
    let mut panel = TodosPanel::new();
    let first = panel.begin_refresh();
    let second = panel.begin_refresh();
    assert_ne!(first, second);
    assert!(!panel.finish_refresh(first, sample()));
    assert_eq!(panel.todos().len(), 0);
    panel.scroll_to(2);
    assert!(panel.finish_refresh(second, sample()));
    assert_eq!(panel.todos().len(), 5);
    assert_eq!(panel.scroll_top(), 0);
}
