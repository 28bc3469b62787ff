use clawcode_tui::dialogs::themes::{ThemeInfo, ThemesDialogState};

fn theme(id: &str, name: &str, description: &str) -> ThemeInfo {
    ThemeInfo {
        id: id.to_string(),
        name: name.to_string(),
        description: description.to_string(),
    }
}

fn all_themes() -> Vec<ThemeInfo> {
    vec![
        theme("clawcode-dark", "Clawcode Dark", "The default dark palette"),
        theme("clawcode-light", "Clawcode Light", "A bright palette for daylight"),
        theme("tokyo-night", "Tokyo Night", "Deep blues and neon accents"),
        theme("gruvbox", "Gruvbox", "Retro groove colors"),
    ]
}

#[test]
fn test_themes_dialog_state_new() {
    let state = ThemesDialogState::new(all_themes(), "clawcode-dark");
    assert_eq!(state.items, all_themes());
    assert_eq!(state.selected, 0);
    assert!(state.filter.is_empty());
    assert_eq!(state.scroll_offset, 0);

    let all = all_themes();
    if all.len() > 1 {
        let second_theme = all[1].id.clone();
        let state2 = ThemesDialogState::new(all_themes(), &second_theme);
        assert_eq!(state2.selected, 1);
    }
}

#[test]
fn test_themes_dialog_state_push_pop_char() {
    let mut state = ThemesDialogState::new(all_themes(), "clawcode-dark");
    state.selected = 2;
    state.scroll_offset = 1;

    state.push_char('c');
    state.push_char('l');
    assert_eq!(state.filter, "cl");
    assert_eq!(state.selected, 0);
    assert_eq!(state.scroll_offset, 0);

    state.pop_char();
    assert_eq!(state.filter, "c");
    assert_eq!(state.selected, 0);
    assert_eq!(state.scroll_offset, 0);

    state.pop_char();
    assert_eq!(state.filter, "");
    assert_eq!(state.selected, 0);
    assert_eq!(state.scroll_offset, 0);
}

#[test]
fn test_themes_dialog_state_navigation() {
    let mut state = ThemesDialogState::new(all_themes(), "clawcode-dark");
    let count = state.filtered_items().len();
    assert!(count > 1);

    state.next();
    assert_eq!(state.selected, 1);

    state.previous();
    assert_eq!(state.selected, 0);

    state.previous();
    assert_eq!(state.selected, count - 1);

    state.next();
    assert_eq!(state.selected, 0);
}

#[test]
fn test_themes_dialog_state_filtered_items() {
    let mut state = ThemesDialogState::new(all_themes(), "clawcode-dark");
    assert_eq!(state.filtered_items().len(), all_themes().len());

    state.push_char('c');
    state.push_char('l');
    state.push_char('a');
    state.push_char('w');
    let filtered = state.filtered_items();
    assert!(!filtered.is_empty());
    assert!(filtered
        .iter()
        .all(|t| t.id.contains("claw") || t.name.to_lowercase().contains("claw")));

    state.filter = "non_existent_theme_query_xyz".to_string();
    assert!(state.filtered_items().is_empty());
}

#[test]
fn test_themes_dialog_state_selected_theme() {
    let mut state = ThemesDialogState::new(all_themes(), "clawcode-dark");
    assert_eq!(state.selected_theme(), Some(&all_themes()[0]));

    state.filter = "non_existent_theme_query_xyz".to_string();
    assert_eq!(state.selected_theme(), None);
}

#[test]
fn themes_unknown_active_theme_selects_first() {
    let state = ThemesDialogState::new(all_themes(), "no-such-theme");
    assert_eq!(state.selected, 0);
}

#[test]
fn themes_filter_matches_descriptions_ignoring_case() {
    let mut state = ThemesDialogState::new(all_themes(), "gruvbox");
    assert_eq!(state.selected, 3);
    for c in "NEON".chars() {
        state.push_char(c);
    }
    let filtered = state.filtered_items();
    assert_eq!(filtered.len(), 1);
    assert_eq!(filtered[0].id, "tokyo-night");
}

#[test]
fn theme_list_view_rows_and_title() {
    let state = ThemesDialogState::new(all_themes(), "clawcode-dark");
    let listed = state.filtered_items();
    let view = state.theme_list_view(&listed, "clawcode-dark", 10, 70);
    assert_eq!(view.title, " Color Theme (4) ");
    assert_eq!(view.empty_note, None);
    assert_eq!(view.rows.len(), 4);
    let first = &view.rows[0];
    assert!(first.selected && first.active);
    assert_eq!(first.id, "clawcode-dark");
    assert_eq!(first.name, "Clawcode Dark");
    assert_eq!(first.badge, "The default dark palette [active]");
    assert_eq!(first.pad, 9);
    let last = &view.rows[3];
    assert!(!last.selected && !last.active);
    assert_eq!(last.badge, "Retro groove colors");
    assert_eq!(last.pad, 70 - (5 + 6 + 7 + 19));
}

#[test]
fn theme_list_view_cuts_names_and_scrolls() {
    let mut state = ThemesDialogState::new(all_themes(), "clawcode-dark");
    let listed = state.filtered_items();
    let view = state.theme_list_view(&listed, "clawcode-dark", 10, 60);
    assert_eq!(view.rows[0].name, "Clawcode …");
    assert_eq!(view.rows[0].pad, 0);
    state.selected = 9;
    let listed = state.filtered_items();
    let view = state.theme_list_view(&listed, "clawcode-dark", 2, 70);
    assert_eq!(view.rows.len(), 2);
    assert_eq!(view.rows[0].id, "tokyo-night");
    assert!(view.rows[1].selected);
    assert_eq!(view.rows[1].id, "gruvbox");
}

#[test]
fn theme_list_view_filtered_and_empty() {
    let mut state = ThemesDialogState::new(all_themes(), "clawcode-dark");
    for c in "tokyo".chars() {
        state.push_char(c);
    }
    let listed = state.filtered_items();
    let view = state.theme_list_view(&listed, "clawcode-dark", 10, 70);
    assert_eq!(view.title, " Color Theme (1/4) ");
    assert_eq!(view.rows.len(), 1);
    state.push_char('!');
    let listed = state.filtered_items();
    let view = state.theme_list_view(&listed, "clawcode-dark", 10, 70);
    assert!(view.rows.is_empty());
    assert_eq!(view.empty_note, Some("  No themes matching \"tokyo!\"".to_string()));
}

#[test]
fn theme_list_fits_only_where_the_name_cut_is_on_a_character_boundary() {
    let state = ThemesDialogState::new(vec![theme("t", "ééééé", "")], "other");
    let listed = state.filtered_items();
    // Cursor, dot, swatches and two take 15 bytes.
    assert!(!state.theme_list_fits(&listed, "other", 5, 21));
    assert!(state.theme_list_fits(&listed, "other", 5, 22));
    assert_eq!(state.theme_list_view(&listed, "other", 5, 22).rows[0].name, "ééé…");
}
