use clawcode_tui::commands::ConversationMode;
use clawcode_tui::dialogs::agents::{AgentItem, AgentRow, AgentsDialogState};

#[test]
fn test_agents_dialog_default_items() {
    let items = AgentsDialogState::default_items();
    assert_eq!(items.len(), 4);
    assert_eq!(items[0].id, "plan");
    assert_eq!(items[0].mode, ConversationMode::Plan);
    assert_eq!(items[1].id, "build");
    assert_eq!(items[1].mode, ConversationMode::Build);
    assert_eq!(items[2].id, "review");
    assert_eq!(items[2].mode, ConversationMode::Plan);
    assert_eq!(items[3].id, "compact");
    assert_eq!(items[3].mode, ConversationMode::Build);
}

#[test]
fn test_agents_dialog_state_new() {
    let state = AgentsDialogState::new("build");
    assert_eq!(state.selected, 1);
    assert!(state.filter.is_empty());
    assert_eq!(state.scroll_offset, 0);

    let fallback = AgentsDialogState::new("unknown_agent");
    assert_eq!(fallback.selected, 0);
}

#[test]
fn test_agents_dialog_state_push_pop_char() {
    let mut state = AgentsDialogState::new("plan");
    state.selected = 2;
    state.scroll_offset = 1;

    state.push_char('b');
    state.push_char('u');
    assert_eq!(state.filter, "bu");
    assert_eq!(state.selected, 0);
    assert_eq!(state.scroll_offset, 0);

    state.pop_char();
    assert_eq!(state.filter, "b");
    assert_eq!(state.selected, 0);
    assert_eq!(state.scroll_offset, 0);

    state.pop_char();
    assert_eq!(state.filter, "");
    assert_eq!(state.selected, 0);
    assert_eq!(state.scroll_offset, 0);
}

#[test]
fn test_agents_dialog_state_navigation() {
    let mut state = AgentsDialogState::new("plan");
    assert_eq!(state.selected, 0);

    state.next();
    assert_eq!(state.selected, 1);

    state.previous();
    assert_eq!(state.selected, 0);

    state.previous();
    assert_eq!(state.selected, 3);

    state.next();
    assert_eq!(state.selected, 0);
}

#[test]
fn test_agents_dialog_state_filtered_items() {
    let mut state = AgentsDialogState::new("plan");
    assert_eq!(state.filtered_items().len(), 4);

    state.push_char('b');
    state.push_char('u');
    state.push_char('i');
    state.push_char('l');
    state.push_char('d');
    let filtered = state.filtered_items();
    assert_eq!(filtered.len(), 1);
    assert_eq!(filtered[0].id, "build");

    state.filter = "non_existent_agent_xyz".to_string();
    assert!(state.filtered_items().is_empty());
}

#[test]
fn test_agents_dialog_state_selected_agent() {
    let mut state = AgentsDialogState::new("build");
    let selected = state.selected_agent();
    assert!(selected.is_some());
    assert_eq!(selected.unwrap().id, "build");

    state.filter = "non_existent_agent_xyz".to_string();
    assert_eq!(state.selected_agent(), None);
}

#[test]
fn agents_filter_ignores_case_and_matches_descriptions() {
    let mut state = AgentsDialogState::new("plan");
    state.filter = "SECURITY".to_string();
    let filtered = state.filtered_items();
    assert_eq!(filtered.len(), 1);
    assert_eq!(filtered[0].id, "review");
}

#[test]
fn agents_previous_keeps_out_of_range_selection_moving_down_by_one() {
    let mut state = AgentsDialogState::new("plan");
    state.selected = 7;
    state.previous();
    assert_eq!(state.selected, 6);
    state.next();
    assert_eq!(state.selected, 3);
}

#[test]
fn agent_list_view_rows_and_descriptions() {
    let state = AgentsDialogState::new("build");
    let listed = state.filtered_items();
    let view = state.agent_list_view(&listed, ConversationMode::Build, 60);
    assert_eq!(view.title, " Select Agent Mode (4) ");
    assert_eq!(view.empty_note, None);
    assert_eq!(view.rows.len(), 4);
    let desc = "Read-only exploration, architecture analysis, and safe plans";
    assert_eq!(
        view.rows[0],
        AgentRow {
            selected: false,
            active: false,
            name: "Plan Agent".to_string(),
            pad: 34,
            badge: "[Tab /plan]".to_string(),
            description: format!("{}…", &desc[..53]),
        }
    );
    assert!(view.rows[1].selected && view.rows[1].active);
    assert_eq!(view.rows[1].pad, 28);
    assert!(!view.rows[3].selected && view.rows[3].active);
    assert_eq!(view.rows[3].pad, 30);
    assert_eq!(view.rows[3].description, "Terse output, minimal tokens, low-latency execution");
}

#[test]
fn agent_list_view_filtered_and_empty() {
    let mut state = AgentsDialogState::new("plan");
    for c in "zzz".chars() {
        state.push_char(c);
    }
    let listed = state.filtered_items();
    let view = state.agent_list_view(&listed, ConversationMode::Plan, 60);
    assert_eq!(view.title, " Select Agent Mode (0/4) ");
    assert!(view.rows.is_empty());
    assert_eq!(view.empty_note, Some("  No agents matching \"zzz\"".to_string()));
}

fn agent(name: &str, description: &str) -> AgentItem {
    AgentItem {
        id: "x".to_string(),
        name: name.to_string(),
        description: description.to_string(),
        mode: ConversationMode::Plan,
        shortcut: None,
    }
}

#[test]
fn agent_list_fits_only_where_both_cuts_are_on_character_boundaries() {
    let state = AgentsDialogState::new("build");
    let listed = state.filtered_items();
    assert!(state.agent_list_fits(&listed, ConversationMode::Build, 60));
    let name_cut = agent("ééééé", "x");
    assert!(!state.agent_list_fits(&[&name_cut], ConversationMode::Build, 13));
    assert!(state.agent_list_fits(&[&name_cut], ConversationMode::Build, 14));
    assert_eq!(state.agent_list_view(&[&name_cut], ConversationMode::Build, 14).rows[0].name, "ééé…");
    let description_cut = agent("ab", "ééééé");
    assert!(!state.agent_list_fits(&[&description_cut], ConversationMode::Build, 12));
    assert!(state.agent_list_fits(&[&description_cut], ConversationMode::Build, 13));
}
