use clawcode_tui::commands::ConversationMode;
use clawcode_tui::dialogs::agents::AgentsDialogState;
use clawcode_tui::dialogs::git::{GitDialogState, GitFileChange};
use clawcode_tui::dialogs::models::{ModelInfo, ModelsDialogState};
use clawcode_tui::dialogs::permission::{PermissionDecision, PermissionDialogState};
use clawcode_tui::dialogs::question::QuestionDialogState;
use clawcode_tui::dialogs::router::{git_commit_diagnostic, DialogOutcome, DialogSet};
use clawcode_tui::dialogs::sessions::{Session, SessionStatus, SessionsDialogState};
use clawcode_tui::dialogs::status::StatusDialogState;
use clawcode_tui::dialogs::themes::{ThemeInfo, ThemesDialogState};
use clawcode_tui::events::{Input, UiEvent};
use clawcode_tui::prompt::PromptEditor;

fn key(input: Input) -> UiEvent {
    UiEvent::Input(input)
}

fn session(id: i64, title: &str) -> Session {
    Session {
        id,
        title: title.to_string(),
        workspace_id: 1,
        status: SessionStatus::Idle,
        pinned: false,
    }
}

fn check_delete_session_in_sessions_dialog() {
    let mut dialogs = DialogSet::new();
    let title = "delete me session".to_string();
    dialogs.sessions = Some(SessionsDialogState::new(vec![session(7, &title)], Some(7)));
    assert_eq!(dialogs.sessions.as_ref().unwrap().items.len(), 1);

    let out = dialogs.handle_dialog_input(&key(Input::Character('d')));
    assert_eq!(dialogs.sessions.as_ref().unwrap().items.len(), 0);
    assert_eq!(out, DialogOutcome::DeleteSession { id: 7, title: title.clone() });
    assert_eq!(out.diagnostic(), Some(format!("session deleted: {title}")));
}

#[test]
fn app_test_delete_session_in_sessions_dialog() {
    check_delete_session_in_sessions_dialog();
}

#[test]
fn tests_test_delete_session_in_sessions_dialog() {
    check_delete_session_in_sessions_dialog();
}

#[test]
fn nothing_open_means_not_handled() {
    let mut dialogs = DialogSet::new();
    assert!(!dialogs.has_dialog());
    assert_eq!(dialogs.handle_dialog_input(&key(Input::Submit)), DialogOutcome::NotHandled);
}

#[test]
fn stream_text_passes_through_an_open_dialog() {
    let mut dialogs = DialogSet::new();
    dialogs.status = Some(StatusDialogState::new("Plan", "p", "m", "t", "b", "/"));
    let out = dialogs.handle_dialog_input(&UiEvent::StreamDelta("chunk".to_string()));
    assert_eq!(out, DialogOutcome::Stream("chunk".to_string()));
    assert!(dialogs.status.is_some());
    let out = dialogs.handle_dialog_input(&UiEvent::Resize { width: 10, height: 10 });
    assert_eq!(out, DialogOutcome::Handled);
    assert_eq!(dialogs.handle_dialog_input(&key(Input::Up)), DialogOutcome::Handled);
    assert!(dialogs.status.is_some());
    assert_eq!(dialogs.handle_dialog_input(&key(Input::Clear)), DialogOutcome::Handled);
    assert!(dialogs.status.is_none());
}

#[test]
fn permission_dialog_comes_first_and_decides() {
    let mut dialogs = DialogSet::new();
    dialogs.permission = Some(PermissionDialogState::with_prompt("bash", "rm -rf", "danger"));
    dialogs.status = Some(StatusDialogState::new("Plan", "p", "m", "t", "b", "/"));
    dialogs.handle_dialog_input(&key(Input::Character('l')));
    assert_eq!(dialogs.permission.as_ref().unwrap().selected_decision, 2);
    dialogs.handle_dialog_input(&key(Input::Character('h')));
    dialogs.handle_dialog_input(&key(Input::Up));
    assert_eq!(dialogs.permission.as_ref().unwrap().selected_decision, 0);
    let out = dialogs.handle_dialog_input(&key(Input::Submit));
    assert_eq!(out, DialogOutcome::PermissionDecided(PermissionDecision::Deny));
    assert_eq!(out.diagnostic(), Some("Permission denied".to_string()));
    assert!(dialogs.permission.is_none());
    assert!(dialogs.status.is_some());

    dialogs.permission = Some(PermissionDialogState::with_prompt("bash", "ls", "look"));
    let out = dialogs.handle_dialog_input(&key(Input::Submit));
    assert_eq!(out.diagnostic(), Some("Permission granted (once)".to_string()));
    dialogs.permission = Some(PermissionDialogState::with_prompt("bash", "ls", "look"));
    assert_eq!(
        dialogs.handle_dialog_input(&key(Input::Cancel)),
        DialogOutcome::PermissionDecided(PermissionDecision::Deny)
    );
}

#[test]
fn question_dialog_types_only_into_the_custom_answer() {
    let mut dialogs = DialogSet::new();
    dialogs.question = Some(QuestionDialogState::new(
        "Which?",
        vec!["yes".to_string(), "no".to_string()],
    ));
    dialogs.handle_dialog_input(&key(Input::Character('x')));
    assert_eq!(dialogs.question.as_ref().unwrap().custom_answer, "");
    dialogs.handle_dialog_input(&key(Input::Down));
    let out = dialogs.handle_dialog_input(&key(Input::Submit));
    assert_eq!(out, DialogOutcome::QuestionAnswered("no".to_string()));
    assert_eq!(out.diagnostic(), Some("Answer selected: no".to_string()));

    dialogs.question = Some(QuestionDialogState::new("Which?", vec!["yes".to_string()]));
    dialogs.handle_dialog_input(&key(Input::Up));
    dialogs.handle_dialog_input(&key(Input::Character('m')));
    dialogs.handle_dialog_input(&key(Input::Character('e')));
    assert_eq!(
        dialogs.handle_dialog_input(&key(Input::Submit)),
        DialogOutcome::QuestionAnswered("me".to_string())
    );
    dialogs.question = Some(QuestionDialogState::new("Which?", vec![]));
    assert_eq!(dialogs.handle_dialog_input(&key(Input::Quit)), DialogOutcome::QuestionDismissed);
}

#[test]
fn shortcut_overlay_hides_and_names_the_action() {
    let mut dialogs = DialogSet::new();
    let cases = vec![
        (Input::Character('a'), DialogOutcome::OpenAgents),
        (Input::Character('t'), DialogOutcome::OpenThemes),
        (Input::Character('m'), DialogOutcome::OpenModels),
        (Input::Character('p'), DialogOutcome::SetMode(ConversationMode::Plan)),
        (Input::Character('b'), DialogOutcome::SetMode(ConversationMode::Build)),
        (Input::Character('s'), DialogOutcome::OpenStatus),
        (Input::Character('r'), DialogOutcome::OpenSessions),
        (Input::Character('c'), DialogOutcome::ClearScreen),
        (Input::ToggleMode, DialogOutcome::ToggleMode),
        (Input::Character('z'), DialogOutcome::Handled),
    ];
    for (input, expected) in cases {
        dialogs.which_key.show();
        assert_eq!(dialogs.handle_dialog_input(&key(input)), expected);
        assert!(!dialogs.which_key.visible);
    }
    assert_eq!(DialogOutcome::ClearScreen.diagnostic(), Some("screen cleared".to_string()));
}

#[test]
fn sessions_dialog_keys() {
    let mut dialogs = DialogSet::new();
    dialogs.sessions = Some(SessionsDialogState::new(
        vec![session(1, "alpha"), session(2, "beta")],
        Some(1),
    ));
    dialogs.handle_dialog_input(&key(Input::Down));
    let out = dialogs.handle_dialog_input(&key(Input::Submit));
    assert_eq!(out, DialogOutcome::SwitchSession { id: 2, title: "beta".to_string() });
    assert_eq!(out.diagnostic(), Some("switched to session #2 (beta)".to_string()));
    assert!(dialogs.sessions.is_none());

    dialogs.sessions = Some(SessionsDialogState::new(vec![session(1, "alpha")], None));
    assert_eq!(dialogs.handle_dialog_input(&key(Input::Character('/'))), DialogOutcome::StartCommand);
    assert!(dialogs.sessions.is_none());
    let mut editor = PromptEditor::new();
    editor.start_slash_command();
    assert_eq!((editor.prompt(), editor.cursor_position()), ("/", 1));

    dialogs.sessions = Some(SessionsDialogState::new(vec![session(1, "alpha")], None));
    dialogs.handle_dialog_input(&key(Input::Character('a')));
    // with a filter typed, 'd' and '/' are typed too
    dialogs.handle_dialog_input(&key(Input::Character('d')));
    assert_eq!(dialogs.sessions.as_ref().unwrap().filter, "ad");
    assert_eq!(dialogs.handle_dialog_input(&key(Input::Cancel)), DialogOutcome::SessionsClosed);

    dialogs.sessions = Some(SessionsDialogState::new(vec![], None));
    assert_eq!(dialogs.handle_dialog_input(&key(Input::Character('d'))), DialogOutcome::Handled);
    assert_eq!(dialogs.handle_dialog_input(&key(Input::Submit)), DialogOutcome::SessionsClosed);
}

#[test]
fn pickers_choose_and_close() {
    let mut dialogs = DialogSet::new();
    dialogs.agents = Some(AgentsDialogState::new("plan"));
    let out = dialogs.handle_dialog_input(&key(Input::Submit));
    match &out {
        DialogOutcome::AgentChosen { mode, name } => {
            assert_eq!(*mode, ConversationMode::Plan);
            assert_eq!(out.diagnostic(), Some(format!("agent selected: {name}")));
        }
        other => panic!("unexpected {other:?}"),
    }
    assert!(dialogs.agents.is_none());

    let themes = vec![
        ThemeInfo { id: "dark".to_string(), name: "Dark".to_string(), description: String::new() },
        ThemeInfo { id: "light".to_string(), name: "Light".to_string(), description: String::new() },
    ];
    dialogs.themes = Some(ThemesDialogState::new(themes, "dark"));
    dialogs.handle_dialog_input(&key(Input::PageDown));
    let out = dialogs.handle_dialog_input(&key(Input::Submit));
    assert_eq!(out, DialogOutcome::ThemeChosen { id: "light".to_string(), name: "Light".to_string() });
    assert_eq!(out.diagnostic(), Some("theme switched to: Light".to_string()));

    let models = vec![
        ModelInfo { id: "openai/gpt-4o".to_string(), context_window: 1 },
        ModelInfo { id: "custom-model".to_string(), context_window: 1 },
    ];
    dialogs.models = Some(ModelsDialogState::new(models.clone(), "openai/gpt-4o"));
    let out = dialogs.handle_dialog_input(&key(Input::Submit));
    assert_eq!(
        out,
        DialogOutcome::ModelChosen {
            id: "openai/gpt-4o".to_string(),
            provider: Some("openai".to_string()),
            model: "gpt-4o".to_string(),
        }
    );
    assert_eq!(out.diagnostic(), Some("model switched to: openai/gpt-4o".to_string()));
    dialogs.models = Some(ModelsDialogState::new(models, "custom-model"));
    assert_eq!(
        dialogs.handle_dialog_input(&key(Input::Submit)),
        DialogOutcome::ModelChosen {
            id: "custom-model".to_string(),
            provider: None,
            model: "custom-model".to_string(),
        }
    );

    dialogs.models = Some(ModelsDialogState::new(vec![], ""));
    dialogs.handle_dialog_input(&key(Input::Character('x')));
    assert_eq!(dialogs.models.as_ref().unwrap().filter, "x");
    assert_eq!(dialogs.handle_dialog_input(&key(Input::Submit)), DialogOutcome::Handled);
    assert!(dialogs.models.is_none());
}

#[test]
fn git_dialog_keys() {
    let changes = vec![
        GitFileChange { path: "a.rs".to_string(), staged: false, status_code: "M".to_string() },
        GitFileChange { path: "b.rs".to_string(), staged: true, status_code: "A".to_string() },
    ];
    let mut dialogs = DialogSet::new();
    dialogs.git = Some(GitDialogState::with_changes(std::path::PathBuf::from("."), changes));
    assert_eq!(dialogs.handle_dialog_input(&key(Input::Down)), DialogOutcome::GitReloadDiff);
    assert_eq!(dialogs.git.as_ref().unwrap().selected, 1);
    match dialogs.handle_dialog_input(&key(Input::Character(' '))) {
        DialogOutcome::GitStage(request) => {
            assert_eq!(request.path, "b.rs");
            assert!(request.unstage);
        }
        other => panic!("unexpected {other:?}"),
    }
    dialogs.handle_dialog_input(&key(Input::Character('c')));
    assert!(dialogs.git.as_ref().unwrap().commit_mode);
    let out = dialogs.handle_dialog_input(&key(Input::Submit));
    assert_eq!(out, DialogOutcome::GitRefused("commit message cannot be empty".to_string()));
    assert_eq!(out.diagnostic(), Some("git error: commit message cannot be empty".to_string()));
    dialogs.handle_dialog_input(&UiEvent::Paste("  fix: things ".to_string()));
    assert_eq!(
        dialogs.handle_dialog_input(&key(Input::Submit)),
        DialogOutcome::GitCommit("fix: things".to_string())
    );
    dialogs.handle_dialog_input(&key(Input::Cancel));
    assert!(!dialogs.git.as_ref().unwrap().commit_mode);
    dialogs.handle_dialog_input(&key(Input::Quit));
    assert!(dialogs.git.is_none());
    assert_eq!(git_commit_diagnostic(&Ok("1 file changed".to_string())), "git: 1 file changed");
    assert_eq!(git_commit_diagnostic(&Err("no repo".to_string())), "git error: no repo");
}
