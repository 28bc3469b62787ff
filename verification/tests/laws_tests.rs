use clawcode_tui::dialogs::agents::AgentsDialogState;
use clawcode_tui::dialogs::git::{GitDialogState, GitFileChange};
use clawcode_tui::dialogs::themes::{ThemeInfo, ThemesDialogState};
use clawcode_tui::events::{Input, UiEvent, UiEventQueue};
use clawcode_tui::prompt::PromptEditor;
use clawcode_tui::text::{ceil_char_boundary, floor_char_boundary};
use clawcode_tui::tool_table::{ToolRowTable, ToolRowUpdate};
use clawcode_tui::tools::ToolRowState;

fn themes() -> Vec<ThemeInfo> {
    ["a", "b", "c", "d"]
        .iter()
        .map(|id| ThemeInfo { id: id.to_string(), name: id.to_uppercase(), description: String::new() })
        .collect()
}

#[test]
fn selection_round_trips_and_stays_in_list() {
    for start in 0..4 {
        let mut state = ThemesDialogState::new(themes(), "a");
        state.selected = start;
        state.next();
        assert!(state.selected < 4);
        state.previous();
        assert_eq!(state.selected, start);
        state.previous();
        assert!(state.selected < 4);
        state.next();
        assert_eq!(state.selected, start);
    }
    let mut agents = AgentsDialogState::new("build");
    let count = agents.filtered_items().len();
    for start in 0..count {
        agents.selected = start;
        agents.next();
        agents.previous();
        assert_eq!(agents.selected, start);
    }
    // moving up from past the end lands on the last entry
    let mut state = ThemesDialogState::new(themes(), "a");
    state.selected = 10;
    state.previous();
    assert_eq!(state.selected, 3);
}

#[test]
fn filter_edit_round_trip() {
    let mut state = ThemesDialogState::new(themes(), "a");
    state.filter = "ab".to_string();
    state.push_char('z');
    state.pop_char();
    assert_eq!(state.filter, "ab");
}

#[test]
fn boundaries_bracket_every_index() {
    let text = "a🦀b日";
    for i in 0..=text.len() {
        let lo = floor_char_boundary(text, i);
        let hi = ceil_char_boundary(text, i);
        assert!(lo <= i && i <= hi);
        assert!(text.is_char_boundary(lo) && text.is_char_boundary(hi));
        if text.is_char_boundary(i) {
            assert_eq!((lo, hi), (i, i));
        }
    }
}

#[test]
fn newest_event_is_never_dropped() {
    let mut queue = UiEventQueue::new(5);
    for c in "abcdefg".chars() {
        queue.push(UiEvent::Input(Input::Character(c)));
        assert!(queue.len() <= queue.capacity());
    }
    let drained = queue.drain();
    assert_eq!(
        drained,
        vec![UiEvent::Input(Input::Character('f')), UiEvent::Input(Input::Character('g'))]
    );
}

#[test]
fn backspace_undoes_typing() {
    let mut editor = PromptEditor::new();
    editor.insert_str_at_cursor("héllo");
    editor.cursor_position = 2;
    editor.type_char('X');
    editor.backspace();
    assert_eq!(editor.prompt(), "héllo");
    assert_eq!(editor.cursor_position(), 2);
}

#[test]
fn history_returns_to_draft() {
    let mut editor = PromptEditor::new();
    editor.push_history("one");
    editor.push_history("two");
    editor.prompt = "typing".to_string();
    editor.navigate_history_up();
    editor.navigate_history_down();
    assert_eq!(editor.prompt(), "typing");
    assert_eq!(editor.history_index, None);
}

#[test]
fn active_call_is_latest_unfinished() {
    let mut table = ToolRowTable::new();
    let update = |id: &'static str, name: &'static str, state| ToolRowUpdate {
        call_id: id,
        name,
        state,
        desc: String::new(),
        arguments: String::new(),
        metadata: None,
    };
    table.upsert_tool_row(update("1", "read", ToolRowState::Running), None);
    table.upsert_tool_row(update("2", "grep", ToolRowState::Pending), None);
    table.upsert_tool_row(update("3", "bash", ToolRowState::Completed), None);
    assert_eq!(table.active_tool().unwrap().name, "grep");
    table.complete_tool_row("2", "grep", true, "", None);
    assert_eq!(table.active_tool().unwrap().name, "read");
    table.complete_tool_row("1", "read", false, "", None);
    assert!(table.active_tool().is_none());
}

#[test]
fn submitted_prompt_is_recalled_first() {
    let mut editor = clawcode_tui::prompt::PromptEditor::new();
    editor.prompt = "earlier".to_string();
    editor.take_submission(&[], &[]);
    editor.prompt = "  latest  ".to_string();
    editor.take_submission(&[], &[]);
    editor.navigate_history_up();
    assert_eq!(editor.prompt(), "latest");
}

#[test]
fn expanding_twice_restores_rows() {
    let mut expanded = clawcode_tui::expansion::ExpandedRows::new();
    expanded.toggle_tool_expanded("other");
    expanded.toggle_tool_expanded("call");
    expanded.toggle_tool_expanded("call");
    assert!(!expanded.is_tool_expanded("call"));
    assert!(expanded.is_tool_expanded("other"));
}

#[test]
fn every_window_shows_the_selection() {
    let items: Vec<ThemeInfo> = (0..10)
        .map(|i| ThemeInfo { id: format!("t{i}"), name: format!("T{i}"), description: String::new() })
        .collect();
    let mut state = ThemesDialogState::new(items, "t0");
    for height in 1..5 {
        for selected in 0..10 {
            state.selected = selected;
            let listed = state.filtered_items();
            let view = state.theme_list_view(&listed, "t0", height, 40);
            assert!(view.rows.len() <= height);
            assert_eq!(view.rows.iter().filter(|r| r.selected).count(), 1);
        }
    }
}

#[test]
fn git_window_moves_only_as_needed() {
    let changes: Vec<GitFileChange> = (0..8)
        .map(|i| GitFileChange { path: format!("f{i}.rs"), staged: false, status_code: "M".to_string() })
        .collect();
    let mut state = GitDialogState::with_changes(std::path::PathBuf::from("/repo"), changes);
    for scroll in 0..8 {
        for selected in 0..8 {
            state.file_scroll = scroll;
            state.selected = selected;
            let view = state.panel_view(3, 40);
            assert!(view.file_scroll <= selected && selected < view.file_scroll + 3);
            if scroll <= selected && selected < scroll + 3 {
                assert_eq!(view.file_scroll, scroll);
            }
            assert_eq!(view.rows.iter().filter(|r| r.selected).count(), 1);
        }
    }
}
