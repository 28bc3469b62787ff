use clawcode_tui::dialogs::sessions::{
    session_panel_view, session_row, spinner_glyph, spinner_glyph_at, PanelLine, Session, SessionRow, SessionStatus,
    SessionsDialogState,
};

fn sample_sessions() -> Vec<Session> {
    vec![
        Session {
            id: 1,
            title: "Rust refactor".to_string(),
            workspace_id: 10,
            status: SessionStatus::Running,
            pinned: true,
        },
        Session {
            id: 2,
            title: "UI bugfix".to_string(),
            workspace_id: 10,
            status: SessionStatus::Idle,
            pinned: false,
        },
        Session {
            id: 3,
            title: "Documentation".to_string(),
            workspace_id: 20,
            status: SessionStatus::Idle,
            pinned: false,
        },
    ]
}

#[test]
fn test_sessions_dialog_state_new() {
    let sessions = sample_sessions();
    let state = SessionsDialogState::new(sessions.clone(), Some(2));
    assert_eq!(state.selected, 1);
    assert!(state.filter.is_empty());
    assert_eq!(state.scroll_offset, 0);
    assert_eq!(state.items.len(), 3);

    let fallback = SessionsDialogState::new(sessions, Some(999));
    assert_eq!(fallback.selected, 0);

    let empty = SessionsDialogState::new(Vec::new(), None);
    assert_eq!(empty.selected, 0);
    assert!(empty.items.is_empty());
}

#[test]
fn test_sessions_dialog_state_push_pop_char() {
    let mut state = SessionsDialogState::new(sample_sessions(), Some(1));
    state.selected = 2;
    state.scroll_offset = 1;

    state.push_char('u');
    state.push_char('i');
    assert_eq!(state.filter, "ui");
    assert_eq!(state.selected, 0);
    assert_eq!(state.scroll_offset, 0);

    state.pop_char();
    assert_eq!(state.filter, "u");
    assert_eq!(state.selected, 0);
    assert_eq!(state.scroll_offset, 0);

    state.pop_char();
    assert_eq!(state.filter, "");
    assert_eq!(state.selected, 0);
    assert_eq!(state.scroll_offset, 0);

    state.pop_char();
    assert_eq!(state.filter, "");
}

#[test]
fn test_sessions_dialog_state_navigation() {
    let mut state = SessionsDialogState::new(sample_sessions(), Some(1));
    assert_eq!(state.selected, 0);

    state.next();
    assert_eq!(state.selected, 1);

    state.next();
    assert_eq!(state.selected, 2);

    state.next();
    assert_eq!(state.selected, 0);

    state.previous();
    assert_eq!(state.selected, 2);

    state.previous();
    assert_eq!(state.selected, 1);

    let mut empty = SessionsDialogState::new(Vec::new(), None);
    empty.next();
    assert_eq!(empty.selected, 0);
    empty.previous();
    assert_eq!(empty.selected, 0);
}

#[test]
fn test_sessions_dialog_state_filtered_items() {
    let mut state = SessionsDialogState::new(sample_sessions(), Some(1));
    assert_eq!(state.filtered_items().len(), 3);

    state.push_char('R');
    state.push_char('U');
    state.push_char('S');
    state.push_char('T');
    let filtered = state.filtered_items();
    assert_eq!(filtered.len(), 1);
    assert_eq!(filtered[0].id, 1);

    state.filter = "3".to_string();
    let filtered_id = state.filtered_items();
    assert_eq!(filtered_id.len(), 1);
    assert_eq!(filtered_id[0].title, "Documentation");

    state.filter = "ws#20".to_string();
    let filtered_ws = state.filtered_items();
    assert_eq!(filtered_ws.len(), 1);
    assert_eq!(filtered_ws[0].id, 3);

    state.filter = "nomatch_xyz".to_string();
    assert!(state.filtered_items().is_empty());
}

#[test]
fn test_sessions_dialog_state_selected_session() {
    let mut state = SessionsDialogState::new(sample_sessions(), Some(2));
    assert_eq!(state.selected_session().map(|s| s.id), Some(2));

    state.filter = "nonexistent".to_string();
    assert_eq!(state.selected_session(), None);
}

#[test]
fn test_sessions_dialog_state_remove_item() {
    let mut state = SessionsDialogState::new(sample_sessions(), Some(3));
    assert_eq!(state.selected, 2);

    state.remove_item(3);
    assert_eq!(state.items.len(), 2);
    assert_eq!(state.selected, 1);
    assert_eq!(state.selected_session().map(|s| s.id), Some(2));

    state.remove_item(1);
    assert_eq!(state.items.len(), 1);
    assert_eq!(state.selected, 0);
    assert_eq!(state.selected_session().map(|s| s.id), Some(2));

    state.remove_item(2);
    assert_eq!(state.items.len(), 0);
    assert_eq!(state.selected, 0);
    assert_eq!(state.selected_session(), None);
}

#[test]
fn sessions_selected_session_clamps_past_the_end() {
    let mut state = SessionsDialogState::new(sample_sessions(), None);
    state.selected = 10;
    assert_eq!(state.selected_session().map(|s| s.id), Some(3));
    state.previous();
    assert_eq!(state.selected, 2);
}

#[test]
fn sessions_filter_matches_negative_ids() {
    let mut items = sample_sessions();
    items[0].id = -42;
    let mut state = SessionsDialogState::new(items, Some(-42));
    assert_eq!(state.selected, 0);
    state.filter = "-42".to_string();
    assert_eq!(state.filtered_items().len(), 1);
    state.remove_item(-42);
    assert_eq!(state.items.len(), 2);
    assert_eq!(state.selected, 0);
}

fn width(text: &str) -> usize {
    ratatui::text::Span::raw(text).width()
}

#[test]
fn session_rows_fit_their_width() {
    let session = Session {
        id: 1,
        title: "Fix bug".to_string(),
        workspace_id: 2,
        status: SessionStatus::Idle,
        pinned: false,
    };
    assert_eq!(
        session_row(&session, true, true, 40),
        SessionRow {
            cursor: " › ",
            dot: "● ",
            title: "ws#2 #1 Fix bug".to_string(),
            pad: 40 - width(" › ● ws#2 #1 Fix bug") - width("[active]"),
            badge: "[active]",
        }
    );

    let long = Session {
        id: -3,
        title: "界".repeat(20),
        workspace_id: 1,
        status: SessionStatus::Running,
        pinned: true,
    };
    let row = session_row(&long, false, false, 30);
    assert_eq!(row.cursor, "   ");
    assert_eq!(row.badge, "[running]");
    assert!(row.title.starts_with("ws#1 #-3 ★ 界"));
    assert!(row.title.ends_with('…'));
    let drawn = format!("{}{}{}", row.cursor, row.dot, row.title);
    assert_eq!(width(&drawn) + row.pad + width(row.badge), 30);

    let narrow = session_row(&long, false, false, 5);
    assert_eq!(narrow.title, "ws#1 #-3 ★ ");
    assert_eq!(narrow.pad, 0);
}

#[test]
fn session_list_view_shows_rows_and_title() {
    let state = SessionsDialogState::new(sample_sessions(), Some(2));
    let listed = state.filtered_items();
    let view = state.session_list_view(&listed, Some(2), 5, 60);
    assert_eq!(view.title, " Sessions (3) ");
    assert_eq!(view.empty_note, None);
    assert_eq!(view.rows.len(), 3);
    assert_eq!(view.rows[0].cursor, "   ");
    assert_eq!(view.rows[0].badge, "[running]");
    assert!(view.rows[0].title.starts_with("ws#10 #1 ★ Rust"));
    assert_eq!(view.rows[1].cursor, " › ");
    assert_eq!(view.rows[1].dot, "● ");
    assert_eq!(view.rows[1].badge, "[active]");
    assert_eq!(view.rows[1], session_row(&sample_sessions()[1], true, true, 60));
    assert_eq!(view.rows[2].badge, "");
}

#[test]
fn session_list_view_keeps_selection_in_the_list_and_scrolls() {
    let mut state = SessionsDialogState::new(sample_sessions(), Some(2));
    state.selected = 7;
    let listed = state.filtered_items();
    let view = state.session_list_view(&listed, None, 2, 60);
    assert_eq!(view.rows.len(), 2);
    assert!(view.rows[0].title.starts_with("ws#10 #2 "));
    assert_eq!(view.rows[1].cursor, " › ");
    assert!(view.rows[1].title.starts_with("ws#20 #3 "));
    assert_eq!(view.rows[1].dot, "  ");
}

#[test]
fn session_list_view_filtered_and_empty() {
    let mut state = SessionsDialogState::new(sample_sessions(), None);
    for c in "doc".chars() {
        state.push_char(c);
    }
    let listed = state.filtered_items();
    let view = state.session_list_view(&listed, None, 5, 60);
    assert_eq!(view.title, " Sessions (1/3) ");
    assert_eq!(view.rows.len(), 1);
    state.push_char('z');
    let listed = state.filtered_items();
    let view = state.session_list_view(&listed, None, 5, 60);
    assert_eq!(view.title, " Sessions (0/3) ");
    assert!(view.rows.is_empty());
    assert_eq!(view.empty_note, Some("  No sessions matching \"docz\"".to_string()));
}

#[test]
fn session_panel_groups_by_workspace_runs() {
    let mut sessions = sample_sessions();
    sessions.push(Session {
        id: 4,
        title: "Back to ten".to_string(),
        workspace_id: 10,
        status: SessionStatus::Idle,
        pinned: false,
    });
    let view = session_panel_view(&sessions, 40);
    assert_eq!(
        view.lines,
        vec![
            PanelLine::Workspace(10),
            PanelLine::Entry(0),
            PanelLine::Entry(1),
            PanelLine::Workspace(20),
            PanelLine::Entry(2),
            PanelLine::Workspace(10),
            PanelLine::Entry(3),
        ]
    );
    // Border, two distinct workspaces, four sessions.
    assert_eq!(view.height, 2 + 2 + 4);
    assert_eq!(session_panel_view(&sessions, 5).height, 5);
    let empty = session_panel_view(&[], 40);
    assert!(empty.lines.is_empty());
    assert_eq!(empty.height, 2);
}

#[test]
fn spinner_steps_every_120_ms() {
    assert_eq!(spinner_glyph_at(None), "·");
    assert_eq!(spinner_glyph_at(Some(119)), "·");
    assert_eq!(spinner_glyph_at(Some(120)), "✻");
    assert_eq!(spinner_glyph_at(Some(6 * 120)), "*");
    assert_eq!(spinner_glyph_at(Some(7 * 120)), "·");
    let glyph = spinner_glyph();
    assert!(["·", "✻", "✽", "✶", "✳", "✢", "*"].contains(&glyph));
}
