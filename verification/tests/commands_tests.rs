use clawcode_tui::commands::{
    append_help, choose_model, diagnostic_suffix, status_tone, StatusTone, local_command, model_switch, models_listed_message, sessions_listed_message, Identity,
    LocalCommand, ModelSwitch,
    get_random_placeholder, is_sensitive_command, mode_label, parse_finish_reason, placeholder_for_time,
    split_provider_model, status_label, ConversationMode, ConversationStatus, FinishReason,
};
use clawcode_tui::numfmt::{format_context_window, i64_to_decimal, u64_to_decimal};
use clawcode_tui::suggestions::available_commands;
use clawcode_tui::tools::{format_tool_success_detail, tool_names_match};

#[test]
fn provider_prefixes_split_only_for_known_providers() {
    assert_eq!(split_provider_model("openai/gpt-4o"), Some(("openai", "gpt-4o")));
    assert_eq!(split_provider_model("ollama/llama3/8b"), Some(("ollama", "llama3/8b")));
    assert_eq!(split_provider_model("9router/x"), Some(("9router", "x")));
    assert_eq!(split_provider_model("unknown/x"), None);
    assert_eq!(split_provider_model("gpt-4o"), None);
    assert_eq!(split_provider_model("/model"), None);
}

#[test]
fn sensitive_commands_need_confirmation() {
    assert!(is_sensitive_command("rm -rf /tmp/x"));
    assert!(is_sensitive_command("  RM  "));
    assert!(is_sensitive_command("kill"));
    assert!(is_sensitive_command("git reset --hard"));
    assert!(is_sensitive_command("chmod\t777 f"));
    assert!(is_sensitive_command("sudo mkfs.ext4 /dev/sda"));
    assert!(!is_sensitive_command("ls -la"));
    assert!(!is_sensitive_command("format c:"));
    assert!(!is_sensitive_command("echo kill"));
}

#[test]
fn finish_reasons_ignore_case() {
    assert_eq!(parse_finish_reason("STOP"), Some(FinishReason::Stop));
    assert_eq!(parse_finish_reason("max_tokens"), Some(FinishReason::Length));
    assert_eq!(parse_finish_reason("Tool_Use"), Some(FinishReason::ToolCall));
    assert_eq!(parse_finish_reason("tool_calls"), Some(FinishReason::ToolCall));
    assert_eq!(parse_finish_reason("error"), Some(FinishReason::Error));
    assert_eq!(parse_finish_reason("stopped"), None);
    assert_eq!(ConversationStatus::default(), ConversationStatus::Idle);
}

#[test]
fn placeholders_follow_the_clock() {
    assert_eq!(
        placeholder_for_time(Some(13)),
        "Ask anything... \"What is the tech stack of this project?\""
    );
    assert_eq!(placeholder_for_time(None), "Ask anything... \"Fix a TODO in the codebase\"");
    assert_eq!(
        placeholder_for_time(Some(11)),
        "Ask anything... \"Implement caching for this endpoint\""
    );
    let p = get_random_placeholder();
    assert!(p.starts_with("Ask anything... \"") && p.ends_with('"'));
}

#[test]
fn command_table_is_complete() {
    let commands = available_commands();
    assert_eq!(commands.len(), 21);
    assert_eq!(commands[0].name, "/plan");
    assert_eq!(commands[7].template, "/theme ");
    assert_eq!(commands[20].description, "Quit Clawcode workbench");
}

#[test]
fn decimal_rendering() {
    assert_eq!(u64_to_decimal(0), "0");
    assert_eq!(u64_to_decimal(18446744073709551615), "18446744073709551615");
    assert_eq!(i64_to_decimal(-42), "-42");
    assert_eq!(i64_to_decimal(i64::MIN), "-9223372036854775808");
    assert_eq!(format_context_window(1_000_000), "1M");
    assert_eq!(format_context_window(128_000), "128k");
}

#[test]
fn tool_aliases() {
    assert!(tool_names_match("grep", "grep_search"));
    assert!(tool_names_match("edit", "apply_patch"));
    assert!(tool_names_match("sh", "bash"));
    assert!(tool_names_match("custom", "custom"));
    assert!(!tool_names_match("read", "write"));
    assert!(!tool_names_match("custom", "other"));
}

#[test]
fn success_details() {
    assert_eq!(format_tool_success_detail("read_file", "a\nb\nc"), "3 lines");
    assert_eq!(format_tool_success_detail("read", "x"), "1 line");
    assert_eq!(format_tool_success_detail("grep", "  \n"), "0 matches");
    assert_eq!(format_tool_success_detail("grep", "a.rs:1"), "1 line");
    assert_eq!(format_tool_success_detail("glob", "a\nb"), "succeeded");
    assert_eq!(format_tool_success_detail("list_dir", "a\nb"), "2 entries");
    assert_eq!(format_tool_success_detail("list_dir", "a"), "1 entry");
    assert_eq!(
        format_tool_success_detail("write", "  Successfully wrote 10 bytes\nmore"),
        "Successfully wrote 10 bytes\nmore"
    );
    assert_eq!(format_tool_success_detail("write_file", "done"), "done");
    assert_eq!(format_tool_success_detail("write_file", "a\nb"), "2 lines");
    assert_eq!(format_tool_success_detail("patch", "whatever"), "succeeded");
    assert_eq!(format_tool_success_detail("bash", " ok "), "ok");
    assert_eq!(format_tool_success_detail("bash", "a\nb"), "2 lines");
    assert_eq!(format_tool_success_detail("sh", ""), "succeeded");
    assert_eq!(format_tool_success_detail("question", "yes"), "answered");
    assert_eq!(format_tool_success_detail("update_plan", ""), "Plan updated");
    assert_eq!(format_tool_success_detail("update_plan", " 3 steps "), "3 steps");
    assert_eq!(format_tool_success_detail("webfetch", "x"), "1 line");
    assert_eq!(format_tool_success_detail("websearch", "1. a\n  2. b\nzzz"), "2 results");
    assert_eq!(format_tool_success_detail("websearch", "1. only"), "1 result");
    assert_eq!(format_tool_success_detail("websearch", "No results found"), "0 results");
    assert_eq!(format_tool_success_detail("websearch", "nothing"), "succeeded");
    assert_eq!(format_tool_success_detail("skill", ""), "skill loaded successfully");
    assert_eq!(format_tool_success_detail("custom", "short"), "short");
    assert_eq!(format_tool_success_detail("custom", "a\nb\nc"), "3 lines");
    assert_eq!(format_tool_success_detail("custom", ""), "succeeded");
}

#[test]
fn status_dialog_labels() {
    assert_eq!(mode_label(ConversationMode::Plan), "Plan (Read-only)");
    assert_eq!(mode_label(ConversationMode::Build), "Build (Edits enabled)");
    assert_eq!(status_label(ConversationStatus::Idle), "Idle");
    assert_eq!(status_label(ConversationStatus::Active), "Active (Generating)");
    assert_eq!(status_label(ConversationStatus::Finished(FinishReason::Stop)), "Finished");
    assert_eq!(status_label(ConversationStatus::Cancelled), "Cancelled");
    assert_eq!(status_label(ConversationStatus::Rejected), "Rejected");
    assert_eq!(status_label(ConversationStatus::Error), "Error");
}

#[test]
fn submitted_text_is_classified() {
    assert_eq!(local_command("hello there"), LocalCommand::Message);
    assert_eq!(local_command("/agents"), LocalCommand::Agents);
    assert_eq!(local_command("/themes"), LocalCommand::Themes);
    assert_eq!(local_command("/theme  Tokyo Night "), LocalCommand::Theme("Tokyo Night".to_string()));
    assert_eq!(local_command("/keys"), LocalCommand::Keys);
    assert_eq!(local_command("/status"), LocalCommand::Status);
    assert_eq!(local_command("/clear"), LocalCommand::Clear);
    assert_eq!(local_command("/home"), LocalCommand::Clear);
    assert_eq!(local_command("/compact"), LocalCommand::Compact);
    assert_eq!(local_command("/copy"), LocalCommand::Copy);
    assert_eq!(local_command("/model openai/gpt-4o "), LocalCommand::Model("openai/gpt-4o".to_string()));
    assert_eq!(local_command("/new My session"), LocalCommand::Other);
    assert_eq!(local_command("/agentsx"), LocalCommand::Other);
}

#[test]
fn model_choice_prefers_the_selected_completion() {
    let models = vec![
        clawcode_tui::dialogs::models::ModelInfo { id: "openai/gpt-4o".to_string(), context_window: 0 },
        clawcode_tui::dialogs::models::ModelInfo { id: "local-llm".to_string(), context_window: 0 },
    ];
    let suggestions = vec!["openai/gpt-4o".to_string(), "openai/gpt-4o-mini".to_string()];
    assert_eq!(choose_model(&suggestions, 1, "gpt", &models), Some("openai/gpt-4o-mini".to_string()));
    assert_eq!(choose_model(&suggestions, 5, "gpt", &models), Some("openai/gpt-4o".to_string()));
    assert_eq!(choose_model(&[], 0, "local-llm", &models), Some("local-llm".to_string()));
    assert_eq!(choose_model(&[], 0, "missing", &models), None);
    assert_eq!(choose_model(&[], 0, "", &models), None);
}

#[test]
fn model_switch_splits_known_providers() {
    assert_eq!(
        model_switch("openai/gpt-4o"),
        ModelSwitch {
            provider: Some("openai".to_string()),
            model: "gpt-4o".to_string(),
            message: "model switched to: openai/gpt-4o".to_string(),
        }
    );
    let local = model_switch("local-llm");
    assert_eq!(local.provider, None);
    assert_eq!(local.model, "local-llm");
    assert_eq!(model_switch(&"m".repeat(300)).model.len(), 256);
}

#[test]
fn command_results_update_the_identity() {
    let mut id = Identity { provider: "openai".to_string(), model: "gpt-4o".to_string() };
    assert_eq!(id.select_model("openai/gpt-4o-mini"), "model switched to: openai/gpt-4o-mini");
    assert_eq!((id.provider.as_str(), id.model.as_str()), ("openai", "gpt-4o-mini"));
    // Not provider-qualified: the provider's own prefix is dropped.
    id.provider = "acme".to_string();
    id.select_model("acme/turbo");
    assert_eq!((id.provider.as_str(), id.model.as_str()), ("acme", "turbo"));
    id.select_model("plain");
    assert_eq!(id.model, "plain");
    id.provider.clear();
    id.select_model("acme/turbo");
    assert_eq!(id.model, "acme/turbo");
    assert_eq!(id.connect("anthropic"), "provider connected: anthropic");
    assert_eq!(id.provider, "anthropic");
    assert_eq!(id.model, "acme/turbo");
}

#[test]
fn command_result_messages() {
    assert_eq!(models_listed_message(3), "3 model(s)");
    assert_eq!(sessions_listed_message(0), "0 session(s) — press Esc to close");
    let mut t = String::new();
    append_help(&mut t, "help one");
    assert_eq!(t, "help one");
    append_help(&mut t, "help two");
    assert_eq!(t, "help one\nhelp two");
}

#[test]
fn header_status_tone_and_suffix() {
    assert_eq!(status_tone(ConversationStatus::Active, false), StatusTone::Working);
    assert_eq!(status_tone(ConversationStatus::Idle, true), StatusTone::Working);
    assert_eq!(status_tone(ConversationStatus::Error, false), StatusTone::Failure);
    assert_eq!(status_tone(ConversationStatus::Cancelled, false), StatusTone::Warning);
    assert_eq!(status_tone(ConversationStatus::Finished(FinishReason::Stop), false), StatusTone::Quiet);
    assert_eq!(diagnostic_suffix(""), "");
    assert_eq!(diagnostic_suffix("screen cleared"), "  ·  screen cleared");
}
