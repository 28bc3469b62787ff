use clawcode_tui::json::JsonValue;
use clawcode_tui::tool_table::{ToolRowTable, ToolRowUpdate};
use clawcode_tui::tools::ToolRowState;

fn update<'a>(call_id: &'a str, name: &'a str, state: ToolRowState, desc: &str, arguments: &str) -> ToolRowUpdate<'a> {
    ToolRowUpdate {
        call_id,
        name,
        state,
        desc: desc.to_string(),
        arguments: arguments.to_string(),
        metadata: None,
    }
}

#[test]
fn upsert_adds_then_updates_rows() {
    let mut table = ToolRowTable::new();
    assert!(table.active_tool().is_none());
    table.upsert_tool_row(update("c1", "read_file", ToolRowState::Pending, "", ""), None);
    assert_eq!(table.tool_rows().len(), 1);
    let active = table.active_tool().unwrap();
    assert_eq!(active.name, "read_file");
    assert_eq!(active.desc, "preparing arguments...");

    table.upsert_tool_row(
        update("c1", "read", ToolRowState::Running, "src/lib.rs", "{\"path\":\"src/lib.rs\"}"),
        None,
    );
    assert_eq!(table.tool_rows().len(), 1);
    let row = &table.tool_rows()[0];
    assert_eq!(row.name, "read");
    assert_eq!(row.desc, "src/lib.rs");
    assert_eq!(row.state, ToolRowState::Running);
    assert_eq!(table.active_tool().unwrap().desc, "src/lib.rs");

    // empty texts and missing metadata keep what the row had
    let mut keep = update("c1", "read", ToolRowState::Running, "", "");
    keep.metadata = None;
    table.upsert_tool_row(keep, None);
    assert_eq!(table.tool_rows()[0].desc, "src/lib.rs");
    assert_eq!(table.tool_rows()[0].arguments, "{\"path\":\"src/lib.rs\"}");

    let mut with_meta = update("c1", "read", ToolRowState::Running, "", "");
    with_meta.metadata = Some(JsonValue::Bool(true));
    table.upsert_tool_row(with_meta, None);
    assert_eq!(table.tool_rows()[0].metadata, Some(JsonValue::Bool(true)));
}

#[test]
fn long_texts_are_bounded() {
    let mut table = ToolRowTable::new();
    let long_id = "x".repeat(300);
    let long_desc = "é".repeat(3000);
    table.upsert_tool_row(update(&long_id, "bash", ToolRowState::Running, &long_desc, ""), None);
    let row = &table.tool_rows()[0];
    assert_eq!(row.call_id.len(), 256);
    assert_eq!(row.desc.len(), 4096);
    assert_eq!(ToolRowTable::normalized_tool_call_id(&long_id), row.call_id);
}

#[test]
fn table_keeps_the_latest_rows() {
    let mut table = ToolRowTable::new();
    for i in 0..70 {
        let id = format!("call-{i}");
        table.upsert_tool_row(update(&id, "grep", ToolRowState::Completed, "", ""), None);
    }
    assert_eq!(table.tool_rows().len(), 64);
    assert_eq!(table.tool_rows()[0].call_id, "call-6");
    assert_eq!(table.tool_rows()[63].call_id, "call-69");
    assert!(table.active_tool().is_none());
}

#[test]
fn completion_by_id_name_or_latest() {
    let mut table = ToolRowTable::new();
    table.upsert_tool_row(update("a", "grep_search", ToolRowState::Running, "one", ""), None);
    table.upsert_tool_row(update("b", "bash", ToolRowState::Running, "two", ""), None);
    table.upsert_tool_row(update("c", "read", ToolRowState::Pending, "three", ""), None);
    assert_eq!(table.active_tool().unwrap().name, "read");

    assert!(table.complete_tool_row("a", "grep", true, "x.rs\ny.rs", None));
    assert_eq!(table.tool_rows()[0].state, ToolRowState::Completed);
    assert_eq!(table.tool_rows()[0].output, "x.rs\ny.rs");

    // an unknown id falls back to the latest unfinished call of the same tool
    assert!(table.complete_tool_row("zzz", "sh", false, "boom", None));
    assert_eq!(table.tool_rows()[1].state, ToolRowState::Failed);

    // no id: the latest unfinished call of that tool, else the latest unfinished call
    assert!(table.complete_tool_row("", "write", true, "", None));
    assert_eq!(table.tool_rows()[2].state, ToolRowState::Completed);
    assert!(table.active_tool().is_none());

    assert!(!table.complete_tool_row("", "write", true, "", None));
    assert!(!table.complete_tool_row("nope", "glob", true, "", None));
}

#[test]
fn completion_recomputes_expandable() {
    let mut table = ToolRowTable::new();
    table.upsert_tool_row(update("s", "bash", ToolRowState::Running, "$ seq 20", ""), None);
    assert!(!table.tool_rows()[0].expandable);
    let output: Vec<String> = (1..=20).map(|i| i.to_string()).collect();
    assert!(table.complete_tool_row("s", "bash", true, &output.join("\n"), None));
    assert!(table.tool_rows()[0].expandable);
}

#[test]
fn cut_off_turn_fails_unfinished_rows() {
    let mut table = ToolRowTable::new();
    table.upsert_tool_row(update("c1", "read", ToolRowState::Completed, "a", ""), None);
    table.upsert_tool_row(update("c2", "bash", ToolRowState::Running, "ls", ""), None);
    table.upsert_tool_row(update("c3", "grep", ToolRowState::Pending, "", ""), None);
    assert!(table.has_unfinished_rows());
    assert!(table.active_tool().is_some());
    table.fail_unfinished_rows();
    let states: Vec<ToolRowState> = table.tool_rows().iter().map(|r| r.state).collect();
    assert_eq!(states, vec![ToolRowState::Completed, ToolRowState::Failed, ToolRowState::Failed]);
    assert!(!table.has_unfinished_rows());
    assert!(table.active_tool().is_none());
    table.clear();
    assert!(table.tool_rows().is_empty());
}
