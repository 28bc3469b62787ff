use clawcode_tui::expansion::{click_tool_rows, ExpandedRows, RowClick};
use clawcode_tui::layout::Area;
use clawcode_tui::tool_table::{ToolRowTable, ToolRowUpdate};
use clawcode_tui::tools::ToolRowState;

fn check_tool_row_expandable_and_click() {
    let mut table = ToolRowTable::new();
    table.upsert_tool_row(
        ToolRowUpdate {
            call_id: "bash-short",
            name: "bash",
            state: ToolRowState::Running,
            desc: "echo 1".to_string(),
            arguments: String::new(),
            metadata: None,
        },
        None,
    );
    table.complete_tool_row("bash-short", "bash", true, "line 1\nline 2", None);
    assert!(!table.tool_rows()[0].expandable);

    table.upsert_tool_row(
        ToolRowUpdate {
            call_id: "bash-long",
            name: "bash",
            state: ToolRowState::Running,
            desc: "echo many".to_string(),
            arguments: String::new(),
            metadata: None,
        },
        None,
    );
    let long_output = (1..=12).map(|i| format!("line {i}")).collect::<Vec<_>>().join("\n");
    table.complete_tool_row("bash-long", "bash", true, &long_output, None);
    assert!(table.tool_rows()[1].expandable);

    let clicks = vec![
        ("bash-short".to_string(), Area { x: 0, y: 10, width: 50, height: 1 }),
        ("bash-long".to_string(), Area { x: 0, y: 15, width: 50, height: 1 }),
    ];
    let mut expanded = ExpandedRows::new();
    let mut thought = false;

    assert_eq!(click_tool_rows(&clicks, &table, &mut expanded, &mut thought, 5, 10), RowClick::Fixed);
    assert!(!expanded.is_tool_expanded("bash-short"));

    let click = click_tool_rows(&clicks, &table, &mut expanded, &mut thought, 5, 15);
    assert!(expanded.is_tool_expanded("bash-long"));
    assert_eq!(click.diagnostic(), Some("tool output expanded"));

    let click = click_tool_rows(&clicks, &table, &mut expanded, &mut thought, 5, 15);
    assert!(!expanded.is_tool_expanded("bash-long"));
    assert_eq!(click.diagnostic(), Some("tool output collapsed"));
}

#[test]
fn app_test_tool_row_expandable_and_click() {
    check_tool_row_expandable_and_click();
}

#[test]
fn tests_test_tool_row_expandable_and_click() {
    check_tool_row_expandable_and_click();
}

#[test]
fn thought_note_and_misses() {
    let table = ToolRowTable::new();
    let clicks = vec![("__thought__".to_string(), Area { x: 0, y: 2, width: 80, height: 1 })];
    let mut expanded = ExpandedRows::new();
    let mut thought = false;
    assert_eq!(click_tool_rows(&clicks, &table, &mut expanded, &mut thought, 3, 2), RowClick::Thought);
    assert!(thought);
    assert_eq!(click_tool_rows(&clicks, &table, &mut expanded, &mut thought, 3, 3), RowClick::Missed);
    assert!(thought);
    assert_eq!(RowClick::Missed.diagnostic(), None);
}

#[test]
fn expanded_rows_toggle_independently() {
    let mut expanded = ExpandedRows::new();
    expanded.toggle_tool_expanded("a");
    expanded.toggle_tool_expanded("b");
    assert!(expanded.is_tool_expanded("a") && expanded.is_tool_expanded("b"));
    expanded.toggle_tool_expanded("a");
    assert!(!expanded.is_tool_expanded("a"));
    assert!(expanded.is_tool_expanded("b"));
    expanded.clear();
    assert!(!expanded.is_tool_expanded("b"));
}
