use clawcode_tui::transcript::{
    append_user_prompt, compact_transcript, reasoning_note, truncate_transcript, MAX_TRANSCRIPT_BYTES,
    TRUNCATION_MARKER,
};

fn check_truncate_transcript_multibyte() {
    let chunk = "こんにちは世界！🦀\n";
    let mut s = String::new();
    while s.len() < MAX_TRANSCRIPT_BYTES + 20 * 1024 {
        s.push_str(chunk);
    }
    let mut base = None;
    truncate_transcript(&mut s, &mut base);
    assert!(s.len() <= MAX_TRANSCRIPT_BYTES);
    assert!(s.starts_with(TRUNCATION_MARKER));
    assert_eq!(base, None);
}

#[test]
fn app_test_truncate_transcript_multibyte() {
    check_truncate_transcript_multibyte();
}

#[test]
fn tests_test_truncate_transcript_multibyte() {
    check_truncate_transcript_multibyte();
}

#[test]
fn test_truncate_transcript_user_turn_boundary_and_stream_base() {
    let turn1 = format!("> user turn 1\n{}\n", "a".repeat(100 * 1024));
    let turn2 = format!("> user turn 2\n{}\n", "b".repeat(100 * 1024));
    let turn3 = format!("> user turn 3\n{}\n", "c".repeat(100 * 1024));
    let mut transcript = format!("{turn1}{turn2}{turn3}");
    let base = transcript.len() - 1000;
    let mut stream_base_len = Some(base);
    truncate_transcript(&mut transcript, &mut stream_base_len);
    assert!(transcript.starts_with(TRUNCATION_MARKER));
    assert!(transcript[TRUNCATION_MARKER.len()..].starts_with("> user turn"));
    assert!(stream_base_len.is_some());
    assert!(stream_base_len.unwrap() < base);
}

#[test]
fn short_transcripts_are_left_alone() {
    let mut transcript = "x".repeat(MAX_TRANSCRIPT_BYTES + 16 * 1024);
    let mut base = Some(5);
    truncate_transcript(&mut transcript, &mut base);
    assert_eq!(transcript.len(), MAX_TRANSCRIPT_BYTES + 16 * 1024);
    assert_eq!(base, Some(5));
}

#[test]
fn the_cut_keeps_the_newest_user_turn_that_fits() {
    let old = "o".repeat(200 * 1024);
    let recent = format!("> recent\n{}", "r".repeat(100 * 1024));
    let mut transcript = format!("{old}\n{recent}");
    let mut base = Some(10);
    truncate_transcript(&mut transcript, &mut base);
    assert_eq!(transcript, format!("{TRUNCATION_MARKER}{recent}"));
    assert_eq!(base, Some(0));
}

fn check_compact_keeps_complete_utf8_user_turn() {
    let mut transcript = format!(
        "old\n{}\n```rust\n> literal\n```\n> recent prompt\nassistant",
        "x".repeat(1300)
    );
    assert!(compact_transcript(&mut transcript));
    assert!(transcript.starts_with("[earlier transcript compacted]\n> recent prompt\n"));
    assert!(transcript.is_char_boundary(transcript.len()));
}

#[test]
fn app_test_compact_keeps_complete_utf8_user_turn() {
    check_compact_keeps_complete_utf8_user_turn();
}

#[test]
fn tests_test_compact_keeps_complete_utf8_user_turn() {
    check_compact_keeps_complete_utf8_user_turn();
}

#[test]
fn compact_leaves_short_transcripts_alone() {
    let mut transcript = "> hi\n\nhello".to_string();
    assert!(!compact_transcript(&mut transcript));
    assert_eq!(transcript, "> hi\n\nhello");
}

#[test]
fn compact_without_user_turn_cuts_at_char_boundary() {
    let mut transcript = "é".repeat(1000);
    assert!(compact_transcript(&mut transcript));
    assert_eq!(transcript, format!("[earlier transcript compacted]\n{}", "é".repeat(512)));
}

#[test]
fn user_prompts_are_set_off_as_paragraphs() {
    let mut transcript = String::new();
    append_user_prompt(&mut transcript, "first");
    assert_eq!(transcript, "> first\n\n");
    transcript.push_str("answer");
    append_user_prompt(&mut transcript, "second");
    assert_eq!(transcript, "> first\n\nanswer\n\n> second\n\n");
}

#[test]
fn reasoning_note_starts_a_paragraph() {
    assert_eq!(reasoning_note("", "1.2s"), "Thought for 1.2s\n\n");
    assert_eq!(reasoning_note("text", "0.1s"), "\n\nThought for 0.1s\n\n");
    assert_eq!(reasoning_note("text\n", "0.1s"), "\nThought for 0.1s\n\n");
    assert_eq!(reasoning_note("text\n\n", "0.1s"), "Thought for 0.1s\n\n");
}
