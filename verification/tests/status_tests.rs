use clawcode_tui::dialogs::status::StatusDialogState;
use clawcode_tui::dialogs::which_key::WhichKeyState;

#[test]
fn test_status_dialog_state_new() {
    let state = StatusDialogState::new("Plan", "openai", "gpt-4o", "dark", "main", "/workspace");
    assert_eq!(state.mode, "Plan");
    assert_eq!(state.provider, "openai");
    assert_eq!(state.model, "gpt-4o");
    assert_eq!(state.theme, "dark");
    assert_eq!(state.branch, "main");
    assert_eq!(state.cwd, "/workspace");
    assert_eq!(state.transcript_bytes, 0);
    assert_eq!(state.status, "");
}

#[test]
fn test_status_dialog_state_with_details() {
    let state = StatusDialogState::new(
        "Build",
        "anthropic",
        "sonnet-3-5",
        "light",
        "feature",
        "/repo",
    )
    .with_details(1024, "ready");

    assert_eq!(state.transcript_bytes, 1024);
    assert_eq!(state.status, "ready");
    assert_eq!(state.mode, "Build");
    assert_eq!(state.provider, "anthropic");
}

#[test]
fn status_details_keep_every_other_field() {
    let before = StatusDialogState::new("Plan", "ollama", "llama3", "dark", "dev", "/src");
    let after = before.clone().with_details(7, "busy");
    assert_eq!(after.model, before.model);
    assert_eq!(after.theme, before.theme);
    assert_eq!(after.branch, before.branch);
    assert_eq!(after.cwd, before.cwd);
    assert_eq!(after.transcript_bytes, 7);
}

#[test]
fn test_which_key_state_show_hide_toggle() {
    let mut state = WhichKeyState::new();
    assert!(!state.visible);

    state.show();
    assert!(state.visible);

    state.hide_overlay();
    assert!(!state.visible);

    state.toggle();
    assert!(state.visible);

    state.toggle();
    assert!(!state.visible);
}

#[test]
fn which_key_default_is_hidden_and_show_is_idempotent() {
    let mut state = WhichKeyState::default();
    assert!(!state.visible);
    state.show();
    state.show();
    assert!(state.visible);
    state.hide_overlay();
    state.hide_overlay();
    assert!(!state.visible);
}
