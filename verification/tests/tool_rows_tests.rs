use clawcode_tui::cells::{truncate_tool_text, truncate_with_ellipsis};
use clawcode_tui::json::JsonValue;
use clawcode_tui::tool_rows::{
    compact_tool_line, edit_strings, shell_command, specialized_detail, tool_row_detail,
    CallStatus, DetailKind, StepStatus, ToolRow,
};
use clawcode_tui::tools::ToolRowState;

fn s(text: &str) -> JsonValue {
    JsonValue::String(text.to_string())
}

fn obj(members: Vec<(&str, JsonValue)>) -> JsonValue {
    JsonValue::Object(members.into_iter().map(|(k, v)| (k.to_string(), v)).collect())
}

fn row(name: &str, desc: &str, arguments: &str, state: ToolRowState) -> ToolRow {
    ToolRow {
        call_id: "call-1".to_string(),
        name: name.to_string(),
        desc: desc.to_string(),
        arguments: arguments.to_string(),
        output: String::new(),
        state,
        arguments_complete: true,
        metadata: None,
        started_at: std::time::Instant::now(),
        expandable: false,
    }
}

fn cells(text: &str) -> usize {
    ratatui::text::Span::raw(text).width()
}

#[test]
fn truncate_tool_text_respects_terminal_cells() {
    let value = truncate_tool_text("界界界abc", 5);
    assert!(cells(&value) <= 5);
    assert!(value.ends_with('…'));
}

#[test]
fn truncate_keeps_text_that_fits() {
    assert_eq!(truncate_tool_text("abc", 3), "abc");
    assert_eq!(truncate_tool_text("abcdef", 4), "abc…");
    assert_eq!(truncate_tool_text("界界界", 4), "界…");
}

#[test]
fn shell_command_prefers_description_then_arguments() {
    assert_eq!(shell_command(&row("bash", "$ ls -la ", "", ToolRowState::Running)), "ls -la");
    assert_eq!(
        shell_command(&row("bash", "", "{\"command\":\"$ cargo test\"}", ToolRowState::Running)),
        "cargo test"
    );
    assert_eq!(shell_command(&row("sh", "", "echo hi", ToolRowState::Running)), "echo hi");
    assert_eq!(shell_command(&row("bash", "  ", "", ToolRowState::Running)), "bash");
    assert_eq!(
        shell_command(&row("bash", "preparing arguments...", "", ToolRowState::Pending)),
        "Preparing bash..."
    );
}

#[test]
fn row_detail_labels_and_counts() {
    assert_eq!(
        tool_row_detail(&row("read_file", "src/main.rs", "", ToolRowState::Completed), None),
        "Read src/main.rs"
    );
    assert_eq!(
        tool_row_detail(&row("mystery", "", "", ToolRowState::Completed), None),
        "Run mystery"
    );
    assert_eq!(
        tool_row_detail(&row("write", "preparing arguments...", "", ToolRowState::Pending), None),
        "Preparing write..."
    );
    let patch = row(
        "apply_patch",
        "Patch f.rs",
        "{\"patch\":\"+++ b/f.rs\\n--- a/f.rs\\n+new\\n+more\\n-old\\n same\"}",
        ToolRowState::Completed,
    );
    assert_eq!(tool_row_detail(&patch, None), "Patch f.rs (+2 -1)");

    let edit = row(
        "edit_file",
        "Edit lib.rs",
        "{\"old_string\":\"a\",\"new_string\":\"b\"}",
        ToolRowState::Completed,
    );
    assert_eq!(
        edit_strings(&edit),
        Some(("a".to_string(), "b".to_string()))
    );
    assert_eq!(tool_row_detail(&edit, Some((2, 1))), "Edit lib.rs (+2 -1)");
    assert_eq!(tool_row_detail(&edit, None), "Edit Edit lib.rs");
}

#[test]
fn row_detail_counts_search_matches() {
    let mut grep = row("grep", "Grep needle", "", ToolRowState::Completed);
    grep.metadata = Some(obj(vec![("count", JsonValue::Number("3".to_string()))]));
    assert_eq!(tool_row_detail(&grep, None), "Grep needle (3 matches)");
    grep.metadata = Some(obj(vec![("matches", JsonValue::Number("1".to_string()))]));
    assert_eq!(tool_row_detail(&grep, None), "Grep needle (1 match)");
    // a count that is not an unsigned integer falls back to the output
    grep.metadata = Some(obj(vec![("count", JsonValue::Number("-2".to_string()))]));
    grep.output = "a.rs\n\n  \nb.rs\n".to_string();
    assert_eq!(tool_row_detail(&grep, None), "Grep needle (2 matches)");
    let running = row("glob", "Glob *.rs", "", ToolRowState::Running);
    assert_eq!(tool_row_detail(&running, None), "Glob Glob *.rs");
}

#[test]
fn compact_line_parts() {
    let line = compact_tool_line(&row("bash", "$ make", "", ToolRowState::Running), 80, None);
    assert_eq!(line.verb, "");
    assert_eq!(line.target, "make");
    assert_eq!(line.detail, None);
    assert_eq!(line.error, "");

    let mut failed = row("bash", "cargo build", "", ToolRowState::Failed);
    failed.output = "  Error executing bash: linker not found  \nsecond line".to_string();
    let line = compact_tool_line(&failed, 80, None);
    assert_eq!(line.error, "linker not found");

    let mut glob = row("glob_search", "Glob src/**", "", ToolRowState::Completed);
    glob.output = "a\nb\nc".to_string();
    let line = compact_tool_line(&glob, 80, None);
    assert_eq!(line.verb, "Glob");
    assert_eq!(line.target, "src/**");
    assert_eq!(line.detail, Some("3 matches".to_string()));

    let line = compact_tool_line(&row("update_plan", "x", "", ToolRowState::Completed), 80, None);
    assert_eq!((line.verb.as_str(), line.target.as_str()), ("Updated Plan", ""));

    let line = compact_tool_line(&row("skill", "Loaded skill review", "", ToolRowState::Completed), 80, None);
    assert_eq!((line.verb.as_str(), line.target.as_str()), ("Load skill", "review"));
}

#[test]
fn compact_line_shortens_long_targets() {
    let long = "src/a/very/long/path/that/does/not/fit/in/the/line.rs";
    let line = compact_tool_line(&row("read", long, "", ToolRowState::Completed), 30, None);
    // 30 cells, less 5 for indent and marker, 5 for "Read ", 2 spare
    assert!(line.target.ends_with('…'));
    assert!(cells(&line.target) <= 18);
    let line = compact_tool_line(&row("read", long, "", ToolRowState::Completed), 0, None);
    assert_eq!(line.target, long);
    let line = compact_tool_line(&row("read", long, "", ToolRowState::Completed), 17, None);
    assert_eq!(line.target, long);
}

#[test]
fn detail_lines_of_task_execute_and_plan() {
    let mut task = row(
        "task",
        "",
        "{\"subagent_type\":\"explorer\",\"description\":\"scan\"}",
        ToolRowState::Completed,
    );
    task.metadata = Some(obj(vec![("sessionId", s("s-1"))]));
    let lines = specialized_detail(&task);
    assert_eq!(lines.len(), 2);
    assert_eq!((lines[0].kind, lines[0].text.as_str()), (DetailKind::Note, "explorer: scan"));
    assert_eq!((lines[1].kind, lines[1].text.as_str()), (DetailKind::ChildSession, "s-1"));

    let exec = row(
        "execute",
        "",
        "{\"toolCalls\":[{\"tool\":\"read\",\"status\":\"complete\"},{\"tool\":\"grep\"},{\"status\":\"error\"},{\"tool\":\"bash\",\"status\":\"error\"},{\"tool\":\"ls\",\"status\":\"odd\"}]}",
        ToolRowState::Running,
    );
    let lines = specialized_detail(&exec);
    let got: Vec<(DetailKind, &str)> = lines.iter().map(|l| (l.kind, l.text.as_str())).collect();
    assert_eq!(
        got,
        vec![
            (DetailKind::Call(CallStatus::Done), "read"),
            (DetailKind::Note, "grep"),
            (DetailKind::Call(CallStatus::Failed), "bash"),
            (DetailKind::Call(CallStatus::Other), "ls"),
        ]
    );

    let plan = row(
        "update_plan",
        "",
        "{\"plan\":[{\"step\":\"a\",\"status\":\"done\"},{\"content\":\"b\",\"status\":\"running\"},{\"title\":\"c\"},{\"status\":\"done\"}]}",
        ToolRowState::Pending,
    );
    let lines = specialized_detail(&plan);
    let got: Vec<(DetailKind, &str)> = lines.iter().map(|l| (l.kind, l.text.as_str())).collect();
    assert_eq!(
        got,
        vec![
            (DetailKind::Step(StepStatus::Done), "a"),
            (DetailKind::Step(StepStatus::Active), "b"),
            (DetailKind::Step(StepStatus::Pending), "c"),
        ]
    );

    // a running row of another tool has no detail, nor one whose arguments do not parse
    assert!(specialized_detail(&row("read", "", "{}", ToolRowState::Running)).is_empty());
    assert!(specialized_detail(&row("task", "", "not json", ToolRowState::Completed)).is_empty());
}

#[test]
fn execute_lists_at_most_sixteen_calls() {
    let calls: Vec<String> = (0..20).map(|i| format!("{{\"tool\":\"t{i}\"}}")).collect();
    let args = format!("{{\"toolCalls\":[{}]}}", calls.join(","));
    let lines = specialized_detail(&row("execute", "", &args, ToolRowState::Completed));
    assert_eq!(lines.len(), 16);
    assert_eq!(lines[15].text, "t15");
}

#[test]
fn expandable_rows() {
    let mut bash = row("bash", "", "", ToolRowState::Completed);
    bash.output = (0..11).map(|i| i.to_string()).collect::<Vec<_>>().join("\n");
    assert!(bash.compute_expandable(None));
    bash.output = (0..10).map(|i| i.to_string()).collect::<Vec<_>>().join("\n");
    assert!(!bash.compute_expandable(None));

    let body: Vec<String> = (0..11).map(|i| format!("+line {i}")).collect();
    let patch_args = format!("{{\"patch\":\"{}\"}}", body.join("\\n"));
    let patch = row("patch", "", &patch_args, ToolRowState::Completed);
    assert!(patch.compute_expandable(None));

    let edit = row("edit", "", "{\"old_str\":\"a\",\"new_str\":\"b\"}", ToolRowState::Completed);
    assert!(edit.compute_expandable(Some(11)));
    assert!(!edit.compute_expandable(Some(10)));
    assert!(!edit.compute_expandable(None));
    assert!(!row("read", "", "", ToolRowState::Completed).compute_expandable(Some(50)));
}

#[test]
fn truncate_with_ellipsis_keeps_titles_within_width() {
    let title = "界".repeat(20);
    let value = truncate_with_ellipsis(&title, 10);
    assert_eq!(value, "界界界界…");
    assert!(ratatui::text::Span::raw(value.as_str()).width() <= 10);
    assert_eq!(truncate_with_ellipsis("hello", 10), "hello");
    assert_eq!(truncate_with_ellipsis("hello world", 5), "hell…");
    assert_eq!(truncate_with_ellipsis("hello world", 1), "…");
    assert_eq!(truncate_with_ellipsis("hello world", 0), "");
}
