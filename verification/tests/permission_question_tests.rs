use clawcode_tui::dialogs::permission::{PermissionDecision, PermissionDialogState, PermissionPrompt};
use clawcode_tui::dialogs::question::QuestionDialogState;

#[test]
fn test_permission_dialog_state_default_and_new() {
    let state_new = PermissionDialogState::new();
    assert_eq!(state_new.prompt, None);
    assert_eq!(state_new.selected_decision, 1);
    assert_eq!(state_new.selected(), PermissionDecision::AllowOnce);
    assert!(!state_new.is_active());

    let state_default = PermissionDialogState::default();
    assert_eq!(state_default.prompt, None);
    assert_eq!(state_default.selected_decision, 1);
    assert_eq!(state_default.selected(), PermissionDecision::AllowOnce);
    assert!(!state_default.is_active());
}

#[test]
fn test_permission_dialog_state_with_prompt() {
    let state =
        PermissionDialogState::with_prompt("bash", "rm -rf target", "Clean build directory");
    assert!(state.is_active());
    assert_eq!(state.selected_decision, 1);
    assert_eq!(state.selected(), PermissionDecision::AllowOnce);

    let prompt = state.prompt.as_ref().expect("prompt should be present");
    assert_eq!(prompt.tool_name, "bash");
    assert_eq!(prompt.action_desc, "rm -rf target");
    assert_eq!(prompt.reason, "Clean build directory");
}

#[test]
fn test_permission_dialog_state_navigation() {
    let mut state = PermissionDialogState::new();
    assert_eq!(state.selected_decision, 1);
    assert_eq!(state.selected(), PermissionDecision::AllowOnce);

    // Next moves right: 1 -> 2 (AllowAlways)
    state.next();
    assert_eq!(state.selected_decision, 2);
    assert_eq!(state.selected(), PermissionDecision::AllowAlways);

    // Next wraps around: 2 -> 0 (Deny)
    state.next();
    assert_eq!(state.selected_decision, 0);
    assert_eq!(state.selected(), PermissionDecision::Deny);

    // Next moves right: 0 -> 1 (AllowOnce)
    state.next();
    assert_eq!(state.selected_decision, 1);
    assert_eq!(state.selected(), PermissionDecision::AllowOnce);

    // Previous moves left: 1 -> 0 (Deny)
    state.previous();
    assert_eq!(state.selected_decision, 0);
    assert_eq!(state.selected(), PermissionDecision::Deny);

    // Previous wraps around: 0 -> 2 (AllowAlways)
    state.previous();
    assert_eq!(state.selected_decision, 2);
    assert_eq!(state.selected(), PermissionDecision::AllowAlways);

    // Previous moves left: 2 -> 1 (AllowOnce)
    state.previous();
    assert_eq!(state.selected_decision, 1);
    assert_eq!(state.selected(), PermissionDecision::AllowOnce);
}

#[test]
fn test_permission_dialog_state_show_and_clear() {
    let mut state = PermissionDialogState::new();
    assert!(!state.is_active());

    state.show("edit_file", "edit src/main.rs", "Modify entrypoint");
    assert!(state.is_active());
    assert_eq!(state.selected(), PermissionDecision::AllowOnce);

    state.next();
    assert_eq!(state.selected(), PermissionDecision::AllowAlways);

    state.clear();
    assert!(!state.is_active());
    assert_eq!(state.prompt, None);
    assert_eq!(state.selected_decision, 1);
    assert_eq!(state.selected(), PermissionDecision::AllowOnce);

    state.show_prompt(PermissionPrompt {
        tool_name: "write_file".to_string(),
        action_desc: "create config.toml".to_string(),
        reason: "Setup initial configuration".to_string(),
    });
    assert!(state.is_active());
    assert_eq!(state.selected(), PermissionDecision::AllowOnce);
}

#[test]
fn test_permission_dialog_state_decision_values() {
    let mut state = PermissionDialogState::new();
    state.selected_decision = 0;
    assert_eq!(state.selected(), PermissionDecision::Deny);

    state.selected_decision = 1;
    assert_eq!(state.selected(), PermissionDecision::AllowOnce);

    state.selected_decision = 2;
    assert_eq!(state.selected(), PermissionDecision::AllowAlways);
}

#[test]
fn permission_selection_is_taken_modulo_three() {
    let mut state = PermissionDialogState::new();
    state.selected_decision = 5;
    assert_eq!(state.selected(), PermissionDecision::AllowAlways);
    state.selected_decision = usize::MAX;
    // usize::MAX % 3 == 0
    assert_eq!(state.selected(), PermissionDecision::Deny);
    state.next();
    assert_eq!(state.selected_decision, 1);
}

#[test]
fn test_question_dialog_state_new() {
    let dialog = QuestionDialogState::new(
        "Which database adapter should be used?",
        vec!["PostgreSQL".to_string(), "SQLite".to_string()],
    );
    assert_eq!(dialog.question, "Which database adapter should be used?");
    assert_eq!(dialog.options.len(), 2);
    assert_eq!(dialog.selected_option, 0);
    assert_eq!(dialog.custom_answer, "");
    assert!(!dialog.typing_custom);
    assert!(dialog.is_active());

    // Empty options defaults to custom answer typing
    let empty_opts = QuestionDialogState::new("What is your name?", Vec::new());
    assert_eq!(empty_opts.options.len(), 0);
    assert_eq!(empty_opts.selected_option, 0);
    assert!(empty_opts.typing_custom);
    assert!(empty_opts.is_active());
}

#[test]
fn test_question_dialog_state_navigation() {
    let mut dialog = QuestionDialogState::new(
        "Select language",
        vec!["Rust".to_string(), "TypeScript".to_string()],
    );
    assert_eq!(dialog.selected_option, 0);
    assert_eq!(dialog.selected_answer(), "Rust");
    assert!(!dialog.typing_custom);

    // Next moves to option 1
    dialog.next();
    assert_eq!(dialog.selected_option, 1);
    assert_eq!(dialog.selected_answer(), "TypeScript");
    assert!(!dialog.typing_custom);

    // Next moves to option 2 (custom answer)
    dialog.next();
    assert_eq!(dialog.selected_option, 2);
    assert_eq!(dialog.selected_answer(), "");
    assert!(dialog.typing_custom);

    // Next wraps around to option 0
    dialog.next();
    assert_eq!(dialog.selected_option, 0);
    assert_eq!(dialog.selected_answer(), "Rust");
    assert!(!dialog.typing_custom);

    // Previous wraps to option 2 (custom answer)
    dialog.previous();
    assert_eq!(dialog.selected_option, 2);
    assert!(dialog.typing_custom);

    // Previous moves to option 1
    dialog.previous();
    assert_eq!(dialog.selected_option, 1);
    assert_eq!(dialog.selected_answer(), "TypeScript");
    assert!(!dialog.typing_custom);
}

#[test]
fn test_question_dialog_state_custom_answer_input() {
    let mut dialog =
        QuestionDialogState::new("Enter port", vec!["8080".to_string(), "3000".to_string()]);
    assert_eq!(dialog.selected_option, 0);

    dialog.push_char('9');
    assert_eq!(dialog.custom_answer, "9");
    assert_eq!(dialog.selected_option, 2);
    assert!(dialog.typing_custom);
    assert_eq!(dialog.selected_answer(), "9");

    dialog.push_char('0');
    dialog.push_char('0');
    dialog.push_char('0');
    assert_eq!(dialog.custom_answer, "9000");
    assert_eq!(dialog.selected_answer(), "9000");

    dialog.pop_char();
    assert_eq!(dialog.custom_answer, "900");
    assert_eq!(dialog.selected_answer(), "900");
}

#[test]
fn test_question_dialog_state_clear_and_active() {
    let mut dialog = QuestionDialogState::new("Test", vec!["A".to_string()]);
    assert!(dialog.is_active());

    dialog.clear();
    assert!(!dialog.is_active());
    assert_eq!(dialog.question, "");
    assert_eq!(dialog.options.len(), 0);
    assert_eq!(dialog.selected_option, 0);
    assert_eq!(dialog.custom_answer, "");
    assert!(!dialog.typing_custom);
}

#[test]
fn question_default_is_inactive_and_typing() {
    let dialog = QuestionDialogState::default();
    assert!(!dialog.is_active());
    assert!(dialog.typing_custom);
    assert_eq!(dialog.selected_answer(), "");
}

#[test]
fn permission_view_shows_prompt_or_placeholders() {
    let mut state = PermissionDialogState::new();
    let view = state.view();
    assert_eq!(view.tool_name, "unknown");
    assert_eq!(view.action, "No pending action description");
    assert_eq!(view.reason, "No reason provided");
    assert_eq!(view.lit, Some(PermissionDecision::AllowOnce));

    state = PermissionDialogState::with_prompt("bash", "rm -rf target", "Clean build directory");
    state.selected_decision = 0;
    let view = state.view();
    assert_eq!(view.tool_name, "bash");
    assert_eq!(view.action, "rm -rf target");
    assert_eq!(view.reason, "Clean build directory");
    assert_eq!(view.lit, Some(PermissionDecision::Deny));
    state.selected_decision = 2;
    assert_eq!(state.view().lit, Some(PermissionDecision::AllowAlways));
    state.selected_decision = 3;
    assert_eq!(state.view().lit, None);
}

#[test]
fn question_view_marks_selection_and_custom_entry() {
    let mut dialog = QuestionDialogState::new("Pick one", vec!["8080".to_string(), "3000".to_string()]);
    let view = dialog.view();
    assert_eq!(view.question, "Pick one");
    assert_eq!(view.option_selected, vec![true, false]);
    assert!(!view.custom_selected);
    assert_eq!(view.custom_text, "[input]");

    dialog.selected_option = 2;
    dialog.custom_answer = "9000".to_string();
    let view = dialog.view();
    assert_eq!(view.option_selected, vec![false, false]);
    assert!(view.custom_selected);
    assert_eq!(view.custom_text, "9000");

    let unnamed = QuestionDialogState::new("", Vec::new());
    let view = unnamed.view();
    assert_eq!(view.question, "Agent asked a question:");
    assert!(view.option_selected.is_empty());
    assert!(view.custom_selected);
}
