use clawcode_tui::commands::ConversationStatus;
use clawcode_tui::prompt::PromptEditor;
use clawcode_tui::runtime::ConversationView;
use clawcode_tui::session_stash::{ClientSessionState, SessionStash};
use clawcode_tui::stream::StreamPart;
use clawcode_tui::turn_view::TurnView;

fn view(transcript: &str, draft: &str, scroll: u16) -> ClientSessionState {
    let mut s = ClientSessionState::new();
    s.transcript = transcript.to_string();
    s.input_draft = draft.to_string();
    s.scroll = scroll;
    s
}

#[test]
fn a_new_session_view_is_empty() {
    let s = ClientSessionState::new();
    assert!(s.transcript.is_empty() && s.input_draft.is_empty());
    assert_eq!(s.loaded_until_seq, -1);
    assert_eq!(s.status, ConversationStatus::Idle);
    assert!(s.tool_rows.is_empty() && s.stream_parts.is_empty() && s.expanded_tool_rows.is_empty());
}

#[test]
fn switching_sessions_keeps_both_sides() {
    let mut stash: SessionStash<ClientSessionState> = SessionStash::new();
    // Session 1 is shown; switch to session 2, never shown before.
    let shown = stash.switch(1, view("> one\n\n", "draft one", 4), 2);
    assert!(shown.is_none());
    // Session 2's view, then back to session 1.
    let back = stash.switch(2, view("> two\n\n", "draft two", 9), 1).expect("session 1 was stashed");
    assert_eq!(back.transcript, "> one\n\n");
    assert_eq!(back.input_draft, "draft one");
    assert_eq!(back.scroll, 4);
    let again = stash.switch(1, back, 2).expect("session 2 was stashed");
    assert_eq!(again.input_draft, "draft two");
    assert_eq!(again.scroll, 9);
}

#[test]
fn stash_and_take_by_id() {
    let mut stash: SessionStash<u32> = SessionStash::new();
    stash.stash(5, 50);
    stash.stash(6, 60);
    stash.stash(5, 55);
    assert_eq!(stash.take(5), Some(55));
    assert_eq!(stash.take(5), None);
    assert_eq!(stash.take(6), Some(60));
    assert_eq!(stash.take(7), None);
    assert_eq!(stash.switch(3, 30, 3), Some(30));
}

#[test]
fn a_turn_stashed_and_restored_comes_back_whole() {
    let mut conv = ConversationView::new(Some(1));
    conv.loaded_until_seq = 12;
    conv.status = ConversationStatus::Active;
    conv.active_generation_id = Some(3);
    let mut turn = TurnView::new();
    turn.add_prompt("hello");
    turn.reasoning_buffer = "pondering".to_string();
    turn.current_plan = vec![("Read".to_string(), "done".to_string())];
    let mut editor = PromptEditor::new();
    editor.insert_str_at_cursor("half typed");

    let mut state = ClientSessionState::new();
    state.loading = true;
    turn.stash_session(&conv, &mut editor, 7, vec!["c1".to_string()], "1.5s", "Hi", &mut state);
    // The reasoning and then the text left to type out are written first.
    assert_eq!(state.transcript, "> hello\n\nThought for 1.5s\n\nHi");
    assert_eq!(state.input_draft, "half typed");
    assert_eq!(state.scroll, 7);
    assert_eq!((state.loaded_until_seq, state.status, state.active_generation_id), (12, ConversationStatus::Active, Some(3)));
    assert!(state.loading);
    assert_eq!(state.stream_parts, vec![StreamPart::User("hello".to_string())]);
    assert_eq!(state.expanded_tool_rows, vec!["c1".to_string()]);
    assert_eq!(state.current_plan, vec![("Read".to_string(), "done".to_string())]);
    assert!(turn.transcript.is_empty() && turn.stream_parts.is_empty() && turn.reasoning_buffer.is_empty());
    assert!(editor.prompt.is_empty());

    let mut other = ConversationView::new(Some(2));
    other.diagnostic = "old note".to_string();
    let mut fresh = TurnView::new();
    let mut editor2 = PromptEditor::new();
    let (scroll, expanded) = fresh.restore_session(&mut other, &mut editor2, &mut state);
    assert_eq!(scroll, 7);
    assert_eq!(expanded, vec!["c1".to_string()]);
    assert_eq!(fresh.transcript, "> hello\n\nThought for 1.5s\n\nHi");
    assert_eq!(fresh.stream_parts, vec![StreamPart::User("hello".to_string())]);
    assert_eq!(fresh.current_plan, vec![("Read".to_string(), "done".to_string())]);
    assert_eq!((editor2.prompt.as_str(), editor2.cursor_position), ("half typed", 10));
    assert_eq!((other.loaded_until_seq, other.status, other.active_generation_id), (12, ConversationStatus::Active, Some(3)));
    assert!(other.diagnostic.is_empty());
    assert!(state.transcript.is_empty() && state.input_draft.is_empty());
}
