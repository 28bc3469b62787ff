use clawcode_tui::dialogs::models::{format_context_window, ModelInfo, ModelRow, ModelsDialogState};

fn sample_models() -> Vec<ModelInfo> {
    vec![
        ModelInfo {
            id: "anthropic/sonnet-3-5".to_string(),
            context_window: 200_000,
        },
        ModelInfo {
            id: "openai/gpt-4o".to_string(),
            context_window: 128_000,
        },
        ModelInfo {
            id: "google/gemini-pro".to_string(),
            context_window: 1_000_000,
        },
    ]
}

#[test]
fn test_models_dialog_state_new() {
    let models = sample_models();
    let state = ModelsDialogState::new(models.clone(), "openai/gpt-4o");
    assert_eq!(state.selected, 1);
    assert!(state.filter.is_empty());
    assert_eq!(state.scroll_offset, 0);
    assert_eq!(state.items.len(), 3);

    let fallback = ModelsDialogState::new(models, "nonexistent");
    assert_eq!(fallback.selected, 0);

    let empty = ModelsDialogState::new(Vec::new(), "any");
    assert_eq!(empty.selected, 0);
    assert!(empty.items.is_empty());
}

#[test]
fn test_models_dialog_state_push_pop_char() {
    let mut state = ModelsDialogState::new(sample_models(), "openai/gpt-4o");
    state.selected = 1;
    state.scroll_offset = 2;

    state.push_char('g');
    state.push_char('p');
    assert_eq!(state.filter, "gp");
    assert_eq!(state.selected, 0);
    assert_eq!(state.scroll_offset, 0);

    state.pop_char();
    assert_eq!(state.filter, "g");
    assert_eq!(state.selected, 0);
    assert_eq!(state.scroll_offset, 0);

    state.pop_char();
    assert_eq!(state.filter, "");
    assert_eq!(state.selected, 0);
    assert_eq!(state.scroll_offset, 0);

    state.pop_char();
    assert_eq!(state.filter, "");
}

#[test]
fn test_models_dialog_state_navigation() {
    let mut state = ModelsDialogState::new(sample_models(), "anthropic/sonnet-3-5");
    assert_eq!(state.selected, 0);

    state.next();
    assert_eq!(state.selected, 1);

    state.next();
    assert_eq!(state.selected, 2);

    state.next();
    assert_eq!(state.selected, 0);

    state.previous();
    assert_eq!(state.selected, 2);

    state.previous();
    assert_eq!(state.selected, 1);

    let mut empty = ModelsDialogState::new(Vec::new(), "none");
    empty.next();
    assert_eq!(empty.selected, 0);
    empty.previous();
    assert_eq!(empty.selected, 0);
}

#[test]
fn test_models_dialog_state_filtered_items() {
    let mut state = ModelsDialogState::new(sample_models(), "anthropic/sonnet-3-5");
    assert_eq!(state.filtered_items().len(), 3);

    state.push_char('S');
    state.push_char('O');
    state.push_char('N');
    state.push_char('N');
    state.push_char('E');
    state.push_char('T');
    let filtered = state.filtered_items();
    assert_eq!(filtered.len(), 1);
    assert_eq!(filtered[0].id, "anthropic/sonnet-3-5");

    state.filter = "nomatch_xyz".to_string();
    assert!(state.filtered_items().is_empty());
}

#[test]
fn test_models_dialog_state_selected_model() {
    let mut state = ModelsDialogState::new(sample_models(), "openai/gpt-4o");
    assert_eq!(
        state.selected_model().map(|m| m.id.as_str()),
        Some("openai/gpt-4o")
    );

    state.filter = "nonexistent".to_string();
    assert_eq!(state.selected_model(), None);
}

#[test]
fn test_format_context_window() {
    assert_eq!(format_context_window(0), "");
    assert_eq!(format_context_window(500), "500");
    assert_eq!(format_context_window(1_000), "1k");
    assert_eq!(format_context_window(128_000), "128k");
    assert_eq!(format_context_window(1_000_000), "1M");
    assert_eq!(format_context_window(2_000_000), "2M");
}

#[test]
fn context_window_rounds_down() {
    assert_eq!(format_context_window(1), "1");
    assert_eq!(format_context_window(999), "999");
    assert_eq!(format_context_window(1_999), "1k");
    assert_eq!(format_context_window(999_999), "999k");
    assert_eq!(format_context_window(u64::MAX), "18446744073709M");
}

#[test]
fn model_list_view_title_counts_and_rows() {
    let state = ModelsDialogState::new(sample_models(), "openai/gpt-4o");
    let listed = state.filtered_items();
    let view = state.model_list_view(&listed, "openai/gpt-4o", 5, 40);
    assert_eq!(view.title, " Select Model (3) ");
    assert_eq!(view.empty_note, None);
    assert_eq!(view.rows.len(), 3);
    assert_eq!(
        view.rows[0],
        ModelRow {
            selected: false,
            active: false,
            name: "anthropic/sonnet-3-5".to_string(),
            pad: 11,
            badge: "200k".to_string(),
        }
    );
    assert_eq!(
        view.rows[1],
        ModelRow {
            selected: true,
            active: true,
            name: "openai/gpt-4o".to_string(),
            pad: 5,
            badge: "128k [active]".to_string(),
        }
    );
    assert_eq!(view.rows[2].badge, "1M");
}

#[test]
fn model_list_view_filtered_title_and_empty_note() {
    let mut state = ModelsDialogState::new(sample_models(), "openai/gpt-4o");
    state.push_char('g');
    state.push_char('p');
    state.push_char('t');
    let listed = state.filtered_items();
    let view = state.model_list_view(&listed, "openai/gpt-4o", 5, 40);
    assert_eq!(view.title, " Select Model (1/3) ");
    assert_eq!(view.rows.len(), 1);

    state.push_char('z');
    let listed = state.filtered_items();
    let view = state.model_list_view(&listed, "openai/gpt-4o", 5, 40);
    assert_eq!(view.title, " Select Model (0/3) ");
    assert!(view.rows.is_empty());
    assert_eq!(view.empty_note, Some("  No models matching \"gptz\"".to_string()));
}

#[test]
fn model_list_view_scrolls_to_selection() {
    let mut state = ModelsDialogState::new(sample_models(), "google/gemini-pro");
    assert_eq!(state.selected, 2);
    let listed = state.filtered_items();
    let view = state.model_list_view(&listed, "google/gemini-pro", 2, 40);
    assert_eq!(view.rows.len(), 2);
    assert_eq!(view.rows[0].name, "openai/gpt-4o");
    assert!(!view.rows[0].selected);
    assert_eq!(view.rows[1].name, "google/gemini-pro");
    assert!(view.rows[1].selected && view.rows[1].active);
    assert_eq!(view.rows[1].badge, "1M [active]");
    state.selected = 0;
    let listed = state.filtered_items();
    let view = state.model_list_view(&listed, "google/gemini-pro", 2, 40);
    assert_eq!(view.rows[0].name, "anthropic/sonnet-3-5");
    assert!(view.rows[0].selected);
}

#[test]
fn model_list_view_cuts_long_ids() {
    let state = ModelsDialogState::new(sample_models(), "openai/gpt-4o");
    let listed = state.filtered_items();
    let view = state.model_list_view(&listed, "openai/gpt-4o", 5, 20);
    assert_eq!(view.rows[0].name, "anthropi…");
    assert_eq!(view.rows[0].pad, 0);
    // Room of four bytes or fewer: the id is shown whole.
    let view = state.model_list_view(&listed, "openai/gpt-4o", 5, 14);
    assert_eq!(view.rows[0].name, "anthropic/sonnet-3-5");
}

#[test]
fn model_list_fits_only_where_the_id_cut_is_on_a_character_boundary() {
    let state = ModelsDialogState::new(
        vec![ModelInfo { id: "ééééé".to_string(), context_window: 200_000 }],
        "other",
    );
    let listed = state.filtered_items();
    // Cursor, dot, badge and two take 13 bytes: 6 are left, the cut falls at 5.
    assert!(!state.model_list_fits(&listed, "other", 5, 19));
    assert!(state.model_list_fits(&listed, "other", 5, 20));
    assert_eq!(state.model_list_view(&listed, "other", 5, 20).rows[0].name, "ééé…");
    assert!(state.model_list_fits(&listed, "other", 5, 40));
}
