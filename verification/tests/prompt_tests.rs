use clawcode_tui::dialogs::models::ModelInfo;
use clawcode_tui::dialogs::themes::ThemeInfo;
use clawcode_tui::events::Input;
use clawcode_tui::prompt::{ClickChoice, KeyOutcome, PromptEditor, Submission};

fn themes() -> Vec<ThemeInfo> {
    let theme = |id: &str, name: &str| ThemeInfo {
        id: id.to_string(),
        name: name.to_string(),
        description: String::new(),
    };
    vec![
        theme("clawcode-dark", "Clawcode Dark"),
        theme("clawcode-light", "Clawcode Light"),
        theme("tokyo-night", "Tokyo Night"),
    ]
}

fn models() -> Vec<ModelInfo> {
    vec![
        ModelInfo { id: "openai/gpt-4o".to_string(), context_window: 128_000 },
        ModelInfo { id: "anthropic/sonnet-3-5".to_string(), context_window: 200_000 },
        ModelInfo { id: "ollama/llama3".to_string(), context_window: 8_192 },
    ]
}

/// Submits the prompt as the app does.
fn submit(editor: &mut PromptEditor) {
    editor.take_submission(&models(), &themes());
}

fn check_prompt_history_navigation_bounds() {
    let mut editor = PromptEditor::new();
    // Empty history
    editor.navigate_history_up();
    assert_eq!(editor.prompt(), "");
    editor.navigate_history_down();
    assert_eq!(editor.prompt(), "");

    // Submit some prompts
    editor.prompt = "first".to_string();
    submit(&mut editor);
    editor.prompt = "second".to_string();
    submit(&mut editor);

    editor.navigate_history_up();
    assert_eq!(editor.prompt(), "second");
    editor.navigate_history_up();
    assert_eq!(editor.prompt(), "first");
    editor.navigate_history_up(); // Should clamp, not panic
    assert_eq!(editor.prompt(), "first");
    editor.navigate_history_down();
    assert_eq!(editor.prompt(), "second");
    editor.navigate_history_down();
    assert_eq!(editor.prompt(), "");
}

#[test]
fn app_test_prompt_history_navigation_bounds() {
    check_prompt_history_navigation_bounds();
}

#[test]
fn tests_test_prompt_history_navigation_bounds() {
    check_prompt_history_navigation_bounds();
}

fn check_suggestion_navigation_bounds() {
    let models = models();
    let themes = themes();
    let mut editor = PromptEditor::new();
    assert_eq!(editor.selected_suggestion_index(&models, &themes), 0);
    editor.previous_suggestion(&models, &themes);
    assert_eq!(editor.selected_suggestion_index(&models, &themes), 0);
    editor.next_suggestion(&models, &themes);
    assert_eq!(editor.selected_suggestion_index(&models, &themes), 0);

    editor.prompt = "/m".to_string();
    let count = editor.suggestion_count(&models, &themes);
    if count > 0 {
        editor.next_suggestion(&models, &themes);
        assert!(editor.selected_suggestion_index(&models, &themes) < count);
        editor.previous_suggestion(&models, &themes);
        assert!(editor.selected_suggestion_index(&models, &themes) < count);
    }
}

#[test]
fn app_test_suggestion_navigation_bounds() {
    check_suggestion_navigation_bounds();
}

#[test]
fn tests_test_suggestion_navigation_bounds() {
    check_suggestion_navigation_bounds();
}

fn check_paste_input_inserts_at_cursor() {
    let mut editor = PromptEditor::new();
    editor.insert_str_at_cursor("hello world");
    assert_eq!(editor.prompt(), "hello world");
    assert_eq!(editor.cursor_position(), 11);

    editor.move_left();
    editor.move_left();
    editor.insert_str_at_cursor("!");
    assert_eq!(editor.prompt(), "hello wor!ld");
}

#[test]
fn app_test_paste_input_inserts_at_cursor() {
    check_paste_input_inserts_at_cursor();
}

#[test]
fn tests_test_paste_input_inserts_at_cursor() {
    check_paste_input_inserts_at_cursor();
}

fn check_theme_autocompletion() {
    let models = models();
    let themes = themes();
    let mut editor = PromptEditor::new();
    editor.prompt = "/theme ".to_string();
    editor.cursor_position = editor.prompt.chars().count();
    let suggestions = editor.matching_theme_suggestions(&themes);
    assert!(!suggestions.is_empty());
    assert_eq!(suggestions[0], "Clawcode Dark");

    assert!(editor.autocomplete_selected_command(&models, &themes));
    assert!(editor.prompt().starts_with("/theme "));
    assert_eq!(editor.prompt(), "/theme Clawcode Dark");
}

#[test]
fn app_test_theme_autocompletion_and_no_mode_toggle() {
    check_theme_autocompletion();
}

#[test]
fn tests_test_theme_autocompletion_and_no_mode_toggle() {
    check_theme_autocompletion();
}

fn check_cursor_navigation_and_editing() {
    let mut editor = PromptEditor::new();
    for c in "hello".chars() {
        editor.type_char(c);
    }
    assert_eq!(editor.prompt(), "hello");
    assert_eq!(editor.cursor_position(), 5);

    editor.move_left();
    assert_eq!(editor.cursor_position(), 4);

    editor.type_char('X');
    assert_eq!(editor.prompt(), "hellXo");
    assert_eq!(editor.cursor_position(), 5);

    editor.move_home();
    assert_eq!(editor.cursor_position(), 0);

    editor.move_right();
    assert_eq!(editor.cursor_position(), 1);

    editor.backspace();
    assert_eq!(editor.prompt(), "ellXo");
    assert_eq!(editor.cursor_position(), 0);

    editor.move_end();
    assert_eq!(editor.cursor_position(), 5);
}

#[test]
fn app_test_cursor_navigation_and_editing() {
    check_cursor_navigation_and_editing();
}

#[test]
fn tests_test_cursor_navigation_and_editing() {
    check_cursor_navigation_and_editing();
}

#[test]
fn editing_counts_characters_not_bytes() {
    let mut editor = PromptEditor::new();
    editor.insert_str_at_cursor("日本");
    editor.move_left();
    editor.type_char('語');
    assert_eq!(editor.prompt(), "日語本");
    assert_eq!(editor.cursor_position(), 2);
    editor.backspace();
    assert_eq!(editor.prompt(), "日本");
    // a cursor past the end types at the end
    editor.cursor_position = 10;
    editor.type_char('!');
    assert_eq!(editor.prompt(), "日本!");
    assert_eq!(editor.cursor_position(), 11);
    editor.move_right();
    assert_eq!(editor.cursor_position(), 3);
    editor.move_home();
    editor.move_left();
    assert_eq!(editor.cursor_position(), 0);
    editor.backspace();
    assert_eq!(editor.prompt(), "日本!");
}

#[test]
fn history_keeps_the_draft_and_skips_repeats() {
    let mut editor = PromptEditor::new();
    for p in ["a", "a", "b"] {
        editor.prompt = p.to_string();
        submit(&mut editor);
    }
    assert_eq!(editor.prompt_history(), &["a".to_string(), "b".to_string()]);
    editor.prompt = "draft".to_string();
    editor.navigate_history_up();
    assert_eq!(editor.prompt(), "b");
    assert_eq!(editor.cursor_position(), 1);
    editor.navigate_history_down();
    assert_eq!(editor.prompt(), "draft");
    assert_eq!(editor.cursor_position(), 5);
    // a second step down without a shown entry changes nothing
    editor.navigate_history_down();
    assert_eq!(editor.prompt(), "draft");
}

#[test]
fn history_holds_at_most_a_hundred_prompts() {
    let mut editor = PromptEditor::new();
    for i in 0..105 {
        editor.push_history(&format!("p{i}"));
    }
    assert_eq!(editor.prompt_history().len(), 100);
    assert_eq!(editor.prompt_history()[0], "p5");
}

#[test]
fn command_completions_put_prefix_matches_first() {
    let editor = PromptEditor { prompt: "/mod".to_string(), ..PromptEditor::new() };
    let names: Vec<&str> = editor.matching_suggestions().iter().map(|c| c.name).collect();
    assert_eq!(names, vec!["/model", "/models", "/models refresh"]);

    let editor = PromptEditor { prompt: "/s".to_string(), ..PromptEditor::new() };
    let names: Vec<&str> = editor.matching_suggestions().iter().map(|c| c.name).collect();
    assert_eq!(names, vec!["/status", "/skills", "/skill ", "/sessions", "/models", "/models refresh", "/agents", "/themes", "/keys"]);

    let editor = PromptEditor { prompt: "hello".to_string(), ..PromptEditor::new() };
    assert!(editor.matching_suggestions().is_empty());

    let editor = PromptEditor { prompt: "//".to_string(), ..PromptEditor::new() };
    assert_eq!(editor.matching_suggestions().len(), 21);
}

#[test]
fn model_and_theme_completions() {
    let models = models();
    let themes = themes();
    let mut editor = PromptEditor { prompt: "/model  GPT ".to_string(), ..PromptEditor::new() };
    assert_eq!(editor.matching_model_suggestions(&models), vec!["openai/gpt-4o".to_string()]);
    assert_eq!(editor.suggestion_count(&models, &themes), 1);
    assert!(editor.autocomplete_selected_command(&models, &themes));
    assert_eq!(editor.prompt(), "/model openai/gpt-4o");
    assert_eq!(editor.cursor_position(), 20);

    let editor = PromptEditor { prompt: "/theme night".to_string(), ..PromptEditor::new() };
    assert_eq!(editor.matching_theme_suggestions(&themes), vec!["Tokyo Night".to_string()]);
    let editor = PromptEditor { prompt: "/theme light".to_string(), ..PromptEditor::new() };
    assert_eq!(editor.matching_theme_suggestions(&themes), vec!["Clawcode Light".to_string()]);

    let mut editor = PromptEditor { prompt: "/sess".to_string(), selected_suggestion: 7, ..PromptEditor::new() };
    assert_eq!(editor.selected_suggestion_index(&models, &themes), 0);
    assert!(editor.autocomplete_selected_command(&models, &themes));
    assert_eq!(editor.prompt(), "/sessions");

    let mut editor = PromptEditor { prompt: "/zzz".to_string(), ..PromptEditor::new() };
    assert!(!editor.autocomplete_selected_command(&models, &themes));
    assert_eq!(editor.prompt(), "/zzz");
}

#[test]
fn suggestion_selection_wraps() {
    let models = models();
    let themes = themes();
    let mut editor = PromptEditor { prompt: "/model ".to_string(), ..PromptEditor::new() };
    editor.previous_suggestion(&models, &themes);
    assert_eq!(editor.selected_suggestion, 2);
    editor.next_suggestion(&models, &themes);
    assert_eq!(editor.selected_suggestion, 0);
    editor.selected_suggestion = 9;
    editor.previous_suggestion(&models, &themes);
    assert_eq!(editor.selected_suggestion, 2);
    editor.selected_suggestion = 4;
    editor.next_suggestion(&models, &themes);
    assert_eq!(editor.selected_suggestion, 2);
}

#[test]
fn submission_trims_and_records_messages() {
    let mut editor = PromptEditor::new();
    editor.prompt = "   ".to_string();
    editor.cursor_position = 3;
    assert_eq!(editor.take_submission(&models(), &themes()), Submission::Empty);
    assert_eq!(editor.prompt(), "");
    assert_eq!(editor.cursor_position(), 0);
    assert!(editor.prompt_history().is_empty());

    editor.prompt = "  hello there \n".to_string();
    assert_eq!(
        editor.take_submission(&models(), &themes()),
        Submission::Submit("hello there".to_string())
    );
    assert_eq!(editor.prompt(), "");
    assert_eq!(editor.prompt_history(), &["hello there".to_string()]);

    editor.prompt = "hello there".to_string();
    editor.take_submission(&models(), &themes());
    assert_eq!(editor.prompt_history().len(), 1);
}

#[test]
fn submission_completes_slash_commands() {
    let mut editor = PromptEditor::new();
    editor.prompt = "/cle".to_string();
    assert_eq!(
        editor.take_submission(&models(), &themes()),
        Submission::Submit("/clear".to_string())
    );
    assert_eq!(editor.prompt_history(), &["/clear".to_string()]);

    editor.prompt = "/new".to_string();
    assert_eq!(
        editor.take_submission(&models(), &themes()),
        Submission::Usage("usage: /new <title>".to_string())
    );
    assert_eq!(editor.prompt(), "/new ");
    assert_eq!(editor.cursor_position(), 5);
    assert_eq!(editor.prompt_history().len(), 1);

    editor.prompt = "/new my chat  ".to_string();
    assert_eq!(
        editor.take_submission(&models(), &themes()),
        Submission::Submit("/new my chat".to_string())
    );

    editor.prompt = "/model gpt ".to_string();
    assert_eq!(
        editor.take_submission(&models(), &themes()),
        Submission::Submit("/model gpt ".to_string())
    );
}

#[test]
fn clicking_completions_fills_or_submits() {
    let mut editor = PromptEditor::new();
    editor.prompt = "/model ".to_string();
    editor.cursor_position = 7;
    assert_eq!(editor.click_suggestion(1, &models(), &themes()), ClickChoice::Submit);
    assert_eq!(editor.prompt(), "/model anthropic/sonnet-3-5");
    assert_eq!(editor.click_suggestion(9, &models(), &themes()), ClickChoice::Nothing);

    editor.prompt = "/theme tokyo".to_string();
    assert_eq!(editor.click_suggestion(0, &models(), &themes()), ClickChoice::Submit);
    assert_eq!(editor.prompt(), "/theme Tokyo Night");

    editor.prompt = "/ne".to_string();
    editor.selected_suggestion = 2;
    assert_eq!(editor.click_suggestion(0, &models(), &themes()), ClickChoice::Filled);
    assert_eq!(editor.prompt(), "/new ");
    assert_eq!(editor.cursor_position(), 5);
    assert_eq!(editor.selected_suggestion, 0);

    editor.prompt = "/cle".to_string();
    assert_eq!(editor.click_suggestion(0, &models(), &themes()), ClickChoice::Submit);
    assert_eq!(editor.prompt(), "/clear");

    editor.prompt = "hello".to_string();
    assert_eq!(editor.click_suggestion(0, &models(), &themes()), ClickChoice::Nothing);
    assert_eq!(editor.prompt(), "hello");
}

#[test]
fn keys_edit_the_prompt() {
    let (m, t) = (models(), themes());
    let mut editor = PromptEditor::new();
    for c in "héllo".chars() {
        assert_eq!(editor.handle_edit_key(Input::Character(c), &m, &t), KeyOutcome::Edited);
    }
    assert_eq!(editor.prompt(), "héllo");
    assert_eq!(editor.handle_edit_key(Input::Left, &m, &t), KeyOutcome::Edited);
    assert_eq!(editor.handle_edit_key(Input::Backspace, &m, &t), KeyOutcome::Edited);
    assert_eq!(editor.prompt(), "hélo");
    assert_eq!(editor.cursor_position(), 3);
    assert_eq!(editor.handle_edit_key(Input::Home, &m, &t), KeyOutcome::ScrolledToTop);
    assert_eq!(editor.cursor_position(), 0);
    assert_eq!(editor.handle_edit_key(Input::End, &m, &t), KeyOutcome::ScrolledToBottom);
    assert_eq!(editor.cursor_position(), 4);
    assert_eq!(editor.handle_edit_key(Input::ToggleMode, &m, &t), KeyOutcome::ToggleMode);
    assert_eq!(editor.handle_edit_key(Input::Submit, &m, &t), KeyOutcome::Passed);
    assert_eq!(editor.prompt(), "hélo");

    editor.take_submission(&m, &t);
    assert_eq!(editor.handle_edit_key(Input::Up, &m, &t), KeyOutcome::Edited);
    assert_eq!(editor.prompt(), "hélo");
    assert_eq!(editor.handle_edit_key(Input::Down, &m, &t), KeyOutcome::Edited);
    assert_eq!(editor.prompt(), "");

    for c in "/the".chars() {
        editor.handle_edit_key(Input::Character(c), &m, &t);
    }
    assert_eq!(editor.handle_edit_key(Input::Down, &m, &t), KeyOutcome::Edited);
    assert_eq!(editor.selected_suggestion, 1);
    assert_eq!(editor.handle_edit_key(Input::ToggleMode, &m, &t), KeyOutcome::Edited);
    assert_eq!(editor.selected_suggestion, 0);
    assert!(editor.prompt().starts_with("/theme"));
}

#[test]
fn switching_sessions_keeps_the_draft_and_puts_the_cursor_at_its_end() {
    let mut editor = PromptEditor::new();
    editor.insert_str_at_cursor("héllo");
    editor.move_home();
    let draft = editor.take_draft();
    assert_eq!(draft, "héllo");
    assert_eq!(editor.prompt, "");
    editor.restore_draft("naïve".to_string());
    assert_eq!(editor.prompt, "naïve");
    assert_eq!(editor.cursor_position, 5);
    assert_eq!(editor.selected_suggestion, 0);
}
