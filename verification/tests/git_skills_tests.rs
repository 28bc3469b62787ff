use clawcode_tui::dialogs::git::{diff_line_kind, DiffLineKind, GitBadge, GitDialogState, GitFileChange};
use clawcode_tui::dialogs::skills::{SkillItem, SkillSource, SkillsDialogState};

fn change(path: &str, staged: bool, code: &str) -> GitFileChange {
    GitFileChange { path: path.to_string(), staged, status_code: code.to_string() }
}

fn panel() -> GitDialogState {
    GitDialogState::with_changes(
        std::path::PathBuf::from("/repo"),
        vec![change("src/a.rs", false, "M"), change("new.txt", false, "?"), change("b.rs", true, "A")],
    )
}

#[test]
fn git_status_errors_show_no_changes() {
    let state = GitDialogState::new(std::path::PathBuf::from("/repo"), Err("not a repo".to_string()));
    assert!(state.changes.is_empty());
    assert_eq!(state.selected, 0);
    assert!(state.diff_request().is_none());
    assert!(state.selected_change().is_none());
}

#[test]
fn git_navigation_wraps_and_asks_for_reload() {
    let mut state = panel();
    assert!(state.previous());
    assert_eq!(state.selected, 2);
    assert!(state.next());
    assert_eq!(state.selected, 0);
    let mut empty = GitDialogState::with_changes(std::path::PathBuf::from("/repo"), vec![]);
    assert!(!empty.next());
    assert!(!empty.previous());
}

#[test]
fn git_refresh_keeps_the_selection_in_range() {
    let mut state = panel();
    state.selected = 2;
    assert!(state.refresh(Ok(vec![change("only.rs", false, "M")])));
    assert_eq!(state.selected, 0);
    assert!(!state.refresh(Err("boom".to_string())));
    assert_eq!(state.changes.len(), 1);
}

#[test]
fn git_diff_text() {
    let mut state = panel();
    let request = state.diff_request().unwrap();
    assert_eq!((request.path.as_str(), request.staged, request.untracked), ("src/a.rs", false, false));
    state.reload_diff(Ok("@@ -1 +1 @@".to_string()), None);
    assert_eq!(state.diff, "@@ -1 +1 @@");
    state.reload_diff(Ok(String::new()), None);
    assert_eq!(state.diff, "(no diff or binary file)");
    state.reload_diff(Err("bad".to_string()), None);
    assert_eq!(state.diff, "diff error: bad");

    state.next();
    assert!(state.diff_request().unwrap().untracked);
    state.reload_diff(Ok(String::new()), Some("one\ntwo".to_string()));
    assert_eq!(state.diff, "(untracked: new.txt)\n+ one\n+ two\n");
    state.reload_diff(Ok(String::new()), None);
    assert_eq!(state.diff, "(untracked: new.txt)\nPress Space to stage.");
    assert_eq!(state.diff_scroll, 0);
}

#[test]
fn git_diff_scrolling_stops_at_the_ends() {
    let mut state = panel();
    state.diff = "1\n2\n3\n4\n5\n6\n7".to_string();
    state.scroll_diff_down(5);
    assert_eq!(state.diff_scroll, 5);
    state.scroll_diff_down(5);
    assert_eq!(state.diff_scroll, 6);
    state.scroll_diff_up(4);
    assert_eq!(state.diff_scroll, 2);
    state.scroll_diff_up(9);
    assert_eq!(state.diff_scroll, 0);
}

#[test]
fn git_staging_and_commit_flow() {
    let mut state = panel();
    state.selected = 2;
    let request = state.toggle_stage_request().unwrap();
    assert_eq!((request.path.as_str(), request.unstage), ("b.rs", true));
    assert!(!state.toggle_stage(Err("locked".to_string())));
    assert_eq!(state.status_message.as_deref(), Some("Error: locked"));
    assert!(state.toggle_stage(Ok(())));
    assert_eq!(state.status_message, None);

    state.enter_commit_mode();
    state.push_commit_str("  add ");
    state.push_commit_char('x');
    state.pop_commit_char();
    state.push_commit_char('b');
    assert_eq!(state.commit_request(), Ok("add b".to_string()));
    assert_eq!(
        state.commit(Err("hook failed".to_string())),
        Err("hook failed".to_string())
    );
    assert_eq!(state.status_message.as_deref(), Some("commit failed: hook failed"));
    assert!(state.commit_mode);
    assert_eq!(state.commit(Ok("[main 1a2b] add b".to_string())), Ok("[main 1a2b] add b".to_string()));
    assert!(!state.commit_mode);
    assert_eq!(state.commit_message, "");
    assert_eq!(state.commit_request(), Err("commit message cannot be empty".to_string()));
    assert_eq!(state.status_message.as_deref(), Some("commit message cannot be empty"));
    state.exit_commit_mode();
    assert_eq!(state.status_message, None);
}

fn skill(name: &str, description: &str) -> SkillItem {
    SkillItem {
        name: name.to_string(),
        description: description.to_string(),
        instructions: format!("Instructions for {name}"),
        source: SkillSource::Project,
        location: std::path::PathBuf::from(format!("/skills/{name}")),
    }
}

#[test]
fn skills_filter_select_and_preview() {
    let mut state = SkillsDialogState::new(vec![
        skill("review", "Review a diff"),
        skill("release", "Cut a release"),
        skill("docs", "Write documentation"),
    ]);
    assert_eq!(state.filtered_skills().len(), 3);
    state.push_char('R');
    state.push_char('E');
    let names: Vec<&str> = state.filtered_skills().iter().map(|s| s.name.as_str()).collect();
    assert_eq!(names, vec!["review", "release"]);
    state.previous();
    assert_eq!(state.selected_skill().unwrap().name, "release");
    state.scroll_preview_down(7);
    assert_eq!(state.preview_scroll, 7);
    state.scroll_preview_up(3);
    assert_eq!(state.preview_scroll, 4);
    state.next();
    assert_eq!(state.preview_scroll, 0);
    assert_eq!(state.selected_skill().unwrap().name, "review");
    state.selected = 9;
    assert_eq!(state.selected_skill().unwrap().name, "release");
    state.pop_char();
    state.pop_char();
    assert_eq!(state.filter, "");
    state.scroll_preview_down(u16::MAX);
    state.scroll_preview_down(1);
    assert_eq!(state.preview_scroll, u16::MAX);
    state.filter = "zzz".to_string();
    assert!(state.selected_skill().is_none());
}

#[test]
fn git_panel_view_counts_rows_and_title() {
    let state = panel();
    let view = state.panel_view(5, 40);
    assert_eq!(view.header, " • 1 staged, 2 unstaged (3 total)");
    assert_eq!(view.file_scroll, 0);
    assert_eq!(view.rows.len(), 3);
    assert!(view.rows[0].selected);
    assert_eq!(view.rows[0].badge, GitBadge::Unstaged);
    assert_eq!(view.rows[0].name, "src/a.rs");
    assert_eq!(view.rows[1].badge, GitBadge::Untracked);
    assert_eq!(view.rows[2].badge, GitBadge::Staged);
    assert_eq!(view.diff_title, " Diff: src/a.rs (working) ");
}

#[test]
fn git_panel_view_scrolls_to_selection() {
    let mut state = panel();
    state.selected = 2;
    let view = state.panel_view(2, 40);
    assert_eq!(view.file_scroll, 1);
    assert_eq!(view.rows.len(), 2);
    assert_eq!(view.rows[0].name, "new.txt");
    assert!(!view.rows[0].selected);
    assert!(view.rows[1].selected);
    assert_eq!(view.diff_title, " Diff: b.rs (staged) ");
    // A window already showing the selection stays where it is.
    state.file_scroll = 2;
    assert_eq!(state.panel_view(2, 40).file_scroll, 2);
    state.selected = 0;
    assert_eq!(state.panel_view(2, 40).file_scroll, 0);
}

#[test]
fn git_panel_view_cuts_paths_at_the_front() {
    let state = panel();
    let view = state.panel_view(5, 12);
    assert_eq!(view.rows[0].name, "….rs");
    assert_eq!(view.rows[1].name, "…txt");
    assert_eq!(view.rows[2].name, "b.rs");
    let view = state.panel_view(5, 11);
    assert_eq!(view.rows[0].name, "src/a.rs");
}

#[test]
fn git_panel_view_without_changes() {
    let state = GitDialogState::with_changes(std::path::PathBuf::from("/repo"), vec![]);
    let view = state.panel_view(5, 40);
    assert_eq!(view.header, " • 0 staged, 0 unstaged (0 total)");
    assert!(view.rows.is_empty());
    assert_eq!(view.diff_title, " Diff Preview ");
}

#[test]
fn diff_lines_are_classified() {
    assert_eq!(diff_line_kind("+added"), DiffLineKind::Added);
    assert_eq!(diff_line_kind("+++ b/x.rs"), DiffLineKind::Context);
    assert_eq!(diff_line_kind("-gone"), DiffLineKind::Removed);
    assert_eq!(diff_line_kind("--- a/x.rs"), DiffLineKind::Context);
    assert_eq!(diff_line_kind("@@ -1 +1 @@"), DiffLineKind::Hunk);
    assert_eq!(diff_line_kind("diff --git a/x b/x"), DiffLineKind::Header);
    assert_eq!(diff_line_kind("index 1234..5678"), DiffLineKind::Header);
    assert_eq!(diff_line_kind(" context"), DiffLineKind::Context);
    assert_eq!(diff_line_kind(""), DiffLineKind::Context);
}

#[test]
fn skill_list_view_windows_the_list() {
    let mut state = SkillsDialogState::new(vec![
        skill("review", "Review a diff"),
        skill("release", "Cut a release"),
        skill("docs", "Write documentation"),
    ]);
    let listed = state.filtered_skills();
    let view = state.skill_list_view(&listed, 10);
    assert_eq!(view.title, " Skills Library (3) ");
    assert_eq!(view.scroll, 0);
    assert_eq!(view.rows.len(), 3);
    assert!(view.rows[0].selected);
    assert_eq!(view.rows[2].name, "docs");
    assert_eq!(view.rows[2].source, SkillSource::Project);

    state.selected = 9;
    let listed = state.filtered_skills();
    let view = state.skill_list_view(&listed, 2);
    assert_eq!(view.scroll, 1);
    assert_eq!(view.rows.len(), 2);
    assert_eq!(view.rows[0].name, "release");
    assert!(view.rows[1].selected);

    // A zero-row window still shows the selection.
    let view = state.skill_list_view(&listed, 0);
    assert_eq!(view.scroll, 2);
    assert_eq!(view.rows.len(), 1);
    assert_eq!(view.rows[0].name, "docs");

    state.push_char('q');
    let listed = state.filtered_skills();
    let view = state.skill_list_view(&listed, 10);
    assert_eq!(view.title, " Skills Library (0/3) ");
    assert!(view.rows.is_empty());
}

#[test]
fn git_moving_and_refreshing_scroll_the_diff_to_its_top() {
    let mut state = panel();
    state.diff_scroll = 7;
    assert!(state.next());
    assert_eq!(state.diff_scroll, 0);
    state.diff_scroll = 7;
    assert!(state.previous());
    assert_eq!(state.diff_scroll, 0);
    state.diff_scroll = 7;
    assert!(!state.refresh(Err("not a repo".to_string())));
    assert_eq!(state.diff_scroll, 7);
    assert!(state.refresh(Ok(vec![change("a.rs", false, "M")])));
    assert_eq!(state.diff_scroll, 0);
    let mut empty = GitDialogState::with_changes(std::path::PathBuf::from("/repo"), vec![]);
    empty.diff_scroll = 3;
    assert!(!empty.next());
    assert_eq!(empty.diff_scroll, 3);
}

#[test]
fn git_panel_fits_only_where_every_path_cut_is_on_a_character_boundary() {
    let state = panel();
    assert!(state.panel_fits(5, 40));
    // A list 12 cells wide leaves 4 bytes for a path: it keeps the last 3.
    let on_boundary = GitDialogState::with_changes(std::path::PathBuf::from("/repo"), vec![change("ab/éé.rs", false, "M")]);
    assert!(on_boundary.panel_fits(5, 12));
    assert_eq!(on_boundary.panel_view(5, 12).rows[0].name, "….rs");
    let inside_char = GitDialogState::with_changes(std::path::PathBuf::from("/repo"), vec![change("ab/ééé", false, "M")]);
    assert!(!inside_char.panel_fits(5, 12));
    assert!(inside_char.panel_fits(5, 40));
}
