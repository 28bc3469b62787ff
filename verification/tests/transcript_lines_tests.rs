use clawcode_tui::transcript_lines::{
    card_width, format_inline_code, format_transcript_lines, needs_reply_indent, typing_cursor_on_own_line,
    visual_line_count,
    Segment, SegmentKind, TranscriptLine,
};
use ratatui::text::Line;

fn widths(lines: &[Line]) -> Vec<usize> {
    lines.iter().map(|l| l.width()).collect()
}

fn plain(t: &str) -> Segment {
    Segment { kind: SegmentKind::Plain, text: t.to_string() }
}

fn code(t: &str) -> Segment {
    Segment { kind: SegmentKind::Code, text: t.to_string() }
}

fn link(t: &str) -> Segment {
    Segment { kind: SegmentKind::Link, text: t.to_string() }
}

#[test]
fn test_format_transcript_user_prompt() {
    let lines = format_transcript_lines("> Hello Clawcode");
    assert_eq!(lines.len(), 2);
    assert_eq!(lines[0], TranscriptLine::Prompt("Hello Clawcode".into()));
    assert_eq!(lines[1], TranscriptLine::Blank);
}

#[test]
fn test_format_transcript_plain_text() {
    let lines = format_transcript_lines("Plain response text from assistant");
    assert_eq!(lines.len(), 1);
    assert_eq!(lines[0], TranscriptLine::Text(vec![plain("Plain response text from assistant")]));
}

#[test]
fn test_format_transcript_markdown_code_block() {
    let lines = format_transcript_lines("```rust\nfn main() {}\n```");
    assert_eq!(lines.len(), 3);
    assert_eq!(lines[0], TranscriptLine::CodeHeader("rust".into()));
    assert_eq!(lines[1], TranscriptLine::Code("fn main() {}".into()));
    assert_eq!(lines[2], TranscriptLine::Blank);
}

#[test]
fn test_format_transcript_markdown_headings() {
    let lines = format_transcript_lines("# Heading 1\n## Heading 2\n### Heading 3");
    assert_eq!(lines.len(), 3);
    assert_eq!(lines[0], TranscriptLine::Heading(1, "# Heading 1".into()));
    assert_eq!(lines[1], TranscriptLine::Heading(2, "## Heading 2".into()));
    assert_eq!(lines[2], TranscriptLine::Heading(3, "### Heading 3".into()));
}

#[test]
fn test_format_transcript_inline_code() {
    let lines = format_transcript_lines("Run `hello_world` now");
    assert_eq!(lines.len(), 1);
    assert_eq!(
        lines[0],
        TranscriptLine::Text(vec![plain("Run "), code("hello_world"), plain(" now")])
    );
}

#[test]
fn test_format_transcript_bullet_list() {
    let lines = format_transcript_lines("- First item\n* Second item with `code`");
    assert_eq!(lines.len(), 2);
    assert_eq!(lines[0], TranscriptLine::Bullet(String::new(), vec![plain("First item")]));
    assert_eq!(
        lines[1],
        TranscriptLine::Bullet(String::new(), vec![plain("Second item with "), code("code")])
    );
}

#[test]
fn test_format_transcript_lines_thought_variants() {
    let collapsed = format_transcript_lines("+ Thought for 1.2s");
    assert_eq!(collapsed, vec![TranscriptLine::Thought("+ Thought for 1.2s".into())]);
    let expanded = format_transcript_lines("- Thought for 1.2s");
    assert_eq!(expanded, vec![TranscriptLine::Thought("- Thought for 1.2s".into())]);
}

#[test]
fn test_compact_visual_bug_reproduction() {
    let tail = "git status\n```\n> cioba shell lain nya\n\n$ git status -s\n  M README.md\n\n> tes lagi shell lain";
    let compacted = format!("[earlier transcript compacted]\n{tail}");
    let lines = format_transcript_lines(&compacted);
    assert_eq!(lines[0], TranscriptLine::Marker("[earlier transcript compacted]".into()));
    assert!(lines.contains(&TranscriptLine::Prompt("cioba shell lain nya".into())));
    assert!(!lines.iter().any(|l| matches!(l, TranscriptLine::Code(t) if t.contains("> cioba shell lain nya"))));
}

#[test]
fn test_code_block_prompt_like_line_stays_code() {
    let lines = format_transcript_lines("```rust\n> literal\n```");
    assert!(lines.contains(&TranscriptLine::Code("> literal".into())));
    assert!(!lines.iter().any(|l| matches!(l, TranscriptLine::Prompt(_))));
}

#[test]
fn transcript_lines_collapse_blank_runs_and_indent_bullets() {
    let lines = format_transcript_lines("\n\nfirst\n\n\n  * nested `x`\n💭 pondering\n💭 Thought for 2s\n  Thought for 3s");
    assert_eq!(
        lines,
        vec![
            TranscriptLine::Text(vec![plain("first")]),
            TranscriptLine::Blank,
            TranscriptLine::Bullet("  ".into(), vec![plain("nested "), code("x")]),
            TranscriptLine::Reasoning("pondering".into()),
            TranscriptLine::Thought("Thought for 2s".into()),
            TranscriptLine::Thought("Thought for 3s".into()),
        ]
    );
}

#[test]
fn inline_code_finds_links_and_unmatched_backticks() {
    assert_eq!(
        format_inline_code("see [docs](https://x.y) and `a`"),
        vec![plain("see "), link("docs"), plain(" and "), code("a")]
    );
    assert_eq!(format_inline_code("half `open"), vec![plain("half `open")]);
    assert_eq!(format_inline_code(""), vec![plain("")]);
    assert_eq!(format_inline_code("``"), vec![code("")]);
    assert_eq!(format_inline_code("[no link"), vec![plain("[no link")]);
}

#[test]
fn test_visual_line_count_zero_width() {
    let lines = vec![Line::raw("hello"), Line::raw("world")];
    assert_eq!(visual_line_count(&widths(&lines), 0), 2);
}

#[test]
fn test_visual_line_count_empty_line() {
    let lines = vec![Line::raw("")];
    assert_eq!(visual_line_count(&widths(&lines), 80), 1);
    let multi_empty = vec![Line::raw(""), Line::raw("")];
    assert_eq!(visual_line_count(&widths(&multi_empty), 80), 2);
}

#[test]
fn test_visual_line_count_short_line() {
    let lines = vec![Line::raw("short text")];
    assert_eq!(visual_line_count(&widths(&lines), 80), 1);
}

#[test]
fn test_visual_line_count_wrapped_lines() {
    let lines = vec![Line::raw("0123456789")];
    assert_eq!(visual_line_count(&widths(&lines), 4), 3);

    let lines = vec![Line::raw("0123456789"), Line::raw("abc")];
    assert_eq!(visual_line_count(&widths(&lines), 5), 3);
}

#[test]
fn visual_line_count_saturates() {
    assert_eq!(visual_line_count(&[usize::MAX, usize::MAX], 1), usize::MAX);
}

#[test]
fn card_width_follows_area_or_transcript() {
    assert_eq!(card_width(Some(80), 5), 78);
    assert_eq!(card_width(Some(10), 50), 20);
    assert_eq!(card_width(Some(1), 50), 20);
    assert_eq!(card_width(None, 42), 42);
    assert_eq!(card_width(None, 3), 20);
}

#[test]
fn reply_lines_indent_unless_marked() {
    assert!(needs_reply_indent(Some("text"), false));
    assert!(!needs_reply_indent(None, false));
    assert!(!needs_reply_indent(Some("▌ "), false));
    assert!(!needs_reply_indent(Some("▌"), false));
    assert!(!needs_reply_indent(Some("text"), true));
    assert!(!needs_reply_indent(Some("    already"), false));
}

#[test]
fn typing_cursor_placement() {
    assert!(typing_cursor_on_own_line(None));
    assert!(typing_cursor_on_own_line(Some(&[])));
    assert!(typing_cursor_on_own_line(Some(&["  ".to_string(), "".to_string()])));
    assert!(typing_cursor_on_own_line(Some(&["▌ ".to_string(), "question".to_string()])));
    assert!(typing_cursor_on_own_line(Some(&["┃ ".to_string(), "card".to_string()])));
    assert!(!typing_cursor_on_own_line(Some(&["   ".to_string(), "partial reply".to_string()])));
}
