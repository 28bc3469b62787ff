use clawcode_tui::stream::{
    ensure_stream_parts, push_stream_part, push_tool_part, stream_part_lines, PartLine, StreamPart,
    MAX_STREAM_PARTS,
};
use clawcode_tui::transcript_lines::{Segment, SegmentKind, TranscriptLine};
use clawcode_tui::tool_table::{ToolRowTable, ToolRowUpdate};
use clawcode_tui::tools::ToolRowState;
use clawcode_tui::transcript::MAX_TRANSCRIPT_BYTES;

fn push(parts: &mut Vec<StreamPart>, base: &mut Option<usize>, table: &mut ToolRowTable, part: StreamPart) {
    push_stream_part(parts, base, "hello", table, part, None);
}

#[test]
fn stream_base_is_recorded_once() {
    let mut base = None;
    ensure_stream_parts(&mut base, "héllo");
    assert_eq!(base, Some(6));
    ensure_stream_parts(&mut base, "a much longer transcript");
    assert_eq!(base, Some(6));
}

#[test]
fn text_and_reasoning_merge_into_their_parts() {
    let mut parts = Vec::new();
    let mut base = None;
    let mut table = ToolRowTable::new();
    push(&mut parts, &mut base, &mut table, StreamPart::User("first".into()));
    push(&mut parts, &mut base, &mut table, StreamPart::Reasoning("think".into()));
    push(&mut parts, &mut base, &mut table, StreamPart::Text("Hel".into()));
    push(&mut parts, &mut base, &mut table, StreamPart::Text("lo".into()));
    push(&mut parts, &mut base, &mut table, StreamPart::Reasoning("ing".into()));
    assert_eq!(base, Some(5));
    assert_eq!(
        parts,
        vec![
            StreamPart::User("first".into()),
            StreamPart::Reasoning("thinking".into()),
            StreamPart::Text("Hello".into()),
        ]
    );

    // text after another kind of part starts a new part
    push(&mut parts, &mut base, &mut table, StreamPart::Tool("c1".into()));
    push(&mut parts, &mut base, &mut table, StreamPart::Text("again".into()));
    assert_eq!(parts.len(), 5);
    assert_eq!(parts[4], StreamPart::Text("again".into()));

    // reasoning after a new user turn starts a new reasoning part
    push(&mut parts, &mut base, &mut table, StreamPart::User("second".into()));
    push(&mut parts, &mut base, &mut table, StreamPart::Reasoning("new".into()));
    assert_eq!(parts.len(), 7);
    assert_eq!(parts[6], StreamPart::Reasoning("new".into()));
    assert_eq!(parts[1], StreamPart::Reasoning("thinking".into()));
}

#[test]
fn merged_text_stays_within_transcript_limit() {
    let mut parts = Vec::new();
    let mut base = Some(0);
    let mut table = ToolRowTable::new();
    push(&mut parts, &mut base, &mut table, StreamPart::Text("a".repeat(MAX_TRANSCRIPT_BYTES - 1)));
    push(&mut parts, &mut base, &mut table, StreamPart::Text("界".into()));
    match &parts[0] {
        StreamPart::Text(t) => {
            assert_eq!(t.len(), MAX_TRANSCRIPT_BYTES - 1);
            assert!(!t.contains('界'));
        }
        other => panic!("unexpected part {other:?}"),
    }
    assert_eq!(base, Some(0));
}

#[test]
fn tool_parts_are_not_repeated() {
    let mut parts = Vec::new();
    let mut base = None;
    let mut table = ToolRowTable::new();
    push_tool_part(&mut parts, &mut base, "", &mut table, "c1".into(), None);
    push_tool_part(&mut parts, &mut base, "", &mut table, "c1".into(), None);
    push(&mut parts, &mut base, &mut table, StreamPart::Tool("c1".into()));
    push(&mut parts, &mut base, &mut table, StreamPart::Tool("c2".into()));
    assert_eq!(parts, vec![StreamPart::Tool("c1".into()), StreamPart::Tool("c2".into())]);
    assert_eq!(base, Some(0));
}

#[test]
fn tool_part_refreshes_row_expandable() {
    let mut parts = Vec::new();
    let mut base = None;
    let mut table = ToolRowTable::new();
    table.upsert_tool_row(
        ToolRowUpdate {
            call_id: "c1",
            name: "edit",
            state: ToolRowState::Running,
            desc: "src/lib.rs".to_string(),
            arguments: "{\"old_string\":\"a\",\"new_string\":\"b\"}".to_string(),
            metadata: None,
        },
        None,
    );
    assert!(!table.tool_rows()[0].expandable);
    push_tool_part(&mut parts, &mut base, "", &mut table, "c1".into(), Some(20));
    assert!(table.tool_rows()[0].expandable);
    push_stream_part(&mut parts, &mut base, "", &mut table, StreamPart::Tool("c1".into()), Some(3));
    assert!(!table.tool_rows()[0].expandable);
    assert_eq!(parts, vec![StreamPart::Tool("c1".into())]);
}

#[test]
fn oldest_parts_are_dropped_past_the_limit() {
    let mut parts = Vec::new();
    let mut base = None;
    let mut table = ToolRowTable::new();
    for i in 0..MAX_STREAM_PARTS + 5 {
        push(&mut parts, &mut base, &mut table, StreamPart::User(format!("u{i}")));
    }
    assert_eq!(parts.len(), MAX_STREAM_PARTS);
    assert_eq!(parts[0], StreamPart::User("u5".into()));
    assert_eq!(parts[MAX_STREAM_PARTS - 1], StreamPart::User(format!("u{}", MAX_STREAM_PARTS + 4)));
}

#[test]
fn test_append_stream_parts_user_and_tools() {
    let parts = vec![
        StreamPart::User("Check directory".to_string()),
        StreamPart::Tool("tool-1".to_string()),
        StreamPart::Text("Directory checked.".to_string()),
    ];
    let lines = stream_part_lines(&parts, false, false);
    assert_eq!(
        lines,
        vec![
            PartLine::Prompt { first: true, text: "Check directory".into() },
            PartLine::Blank,
            PartLine::Tool("tool-1".into()),
            PartLine::Reply(TranscriptLine::Text(vec![Segment {
                kind: SegmentKind::Plain,
                text: "Directory checked.".into(),
            }])),
        ]
    );
}

#[test]
fn test_append_stream_parts_thought_expanded_and_collapsed() {
    let parts = vec![StreamPart::Reasoning("Line one\nLine two".to_string())];
    let collapsed = stream_part_lines(&parts, false, false);
    assert_eq!(collapsed, vec![PartLine::Thought { expanded: false }, PartLine::Blank]);

    let expanded = stream_part_lines(&parts, false, true);
    assert_eq!(
        expanded,
        vec![
            PartLine::Thought { expanded: true },
            PartLine::ReasoningLine("Line one".into()),
            PartLine::ReasoningLine("Line two".into()),
            PartLine::Blank,
        ]
    );

    assert_eq!(stream_part_lines(&parts, true, true), vec![PartLine::Thinking]);
}

#[test]
fn multi_line_and_empty_prompts_show_on_cards() {
    let parts = vec![StreamPart::User("one\ntwo".into()), StreamPart::User(String::new())];
    assert_eq!(
        stream_part_lines(&parts, false, false),
        vec![
            PartLine::Prompt { first: true, text: "one".into() },
            PartLine::Prompt { first: false, text: "two".into() },
            PartLine::Blank,
            PartLine::Prompt { first: true, text: String::new() },
            PartLine::Blank,
        ]
    );
}
