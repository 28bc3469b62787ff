use clawcode_tui::commands::{ConversationMode, ConversationStatus, FinishReason};
use clawcode_tui::json::JsonValue;
use clawcode_tui::stream::StreamPart;
use clawcode_tui::tools::ToolRowState;
use clawcode_tui::turn_view::{apply_runtime_step, is_reasoning, is_streaming_active, is_typing, TurnView, ViewEffect};
use clawcode_tui::runtime::{
    apply_runtime_payload, replay_event_step, runtime_event_step, ConversationView, ReplayStep,
    RuntimeEventView, RuntimeStep, TurnEffect, TurnEvent, TurnState,
};

fn event(session_id: i64, generation_id: i64, seq: i64, kind: &str, payload_json: &str) -> RuntimeEventView {
    RuntimeEventView {
        session_id,
        seq,
        generation_id: Some(generation_id),
        kind: kind.to_string(),
        payload_json: payload_json.to_string(),
    }
}

/// A conversation of session 1 waiting for its first generation.
fn active() -> ConversationView {
    let mut view = ConversationView::new(Some(1));
    view.status = ConversationStatus::Active;
    view
}


/// Feeds an event through the conversation state and then the view, typing
/// streamed text out at once; gives the step and the effect.
fn feed(conv: &mut ConversationView, view: &mut TurnView, e: RuntimeEventView) -> (String, ViewEffect) {
    let step = runtime_event_step(conv, &e);
    let shown_step = shown(&step);
    let effect = apply_runtime_step(view, step, None, "0.4s", "");
    if let Some(t) = &effect.feed_typewriter {
        view.add_text(t);
    }
    (shown_step, effect)
}

/// How a step prints, for comparing the step `feed` took.
fn shown(step: &RuntimeStep) -> String {
    format!("{:?}", step)
}

/// A turn of session 1 after the prompt `prompt` was sent.
fn prompted(prompt: &str) -> (ConversationView, TurnView) {
    let conv = active();
    let mut view = TurnView::new();
    view.add_prompt(prompt);
    (conv, view)
}

fn check_cancel_blocks_stale_same_generation_events() {
    let (mut conv, mut view) = prompted("first");
    assert_eq!(feed(&mut conv, &mut view, event(1, 7, 1, "generation_started", "{}")).0, shown(&RuntimeStep::GenerationStarted));
    assert_eq!(conv.active_generation_id, Some(7));

    conv.cancel_generation();
    view.reset_turn(false, "", "0.4s");
    assert_eq!(conv.status, ConversationStatus::Cancelled);

    assert_eq!(feed(&mut conv, &mut view, event(1, 7, 2, "generation_started", "{}")).0, shown(&RuntimeStep::Ignored));
    assert_eq!(
        feed(&mut conv, &mut view, event(1, 7, 3, "text_delta", "{\"delta\":\"stale\"}")).0,
        shown(&RuntimeStep::Ignored)
    );
    assert_eq!(conv.status, ConversationStatus::Cancelled);
    assert_eq!(conv.active_generation_id, None);
    assert!(!conv.text_stream_active);
    assert_eq!(view.stream_parts, vec![StreamPart::User("first".into())]);
    assert!(!view.transcript.contains("stale"));
}

#[test]
fn app_cancel_blocks_stale_same_generation_events() {
    check_cancel_blocks_stale_same_generation_events();
}

#[test]
fn tests_cancel_blocks_stale_same_generation_events() {
    check_cancel_blocks_stale_same_generation_events();
}

fn check_generation_started_does_not_bypass_generation_mismatch_guard() {
    let (mut conv, mut view) = prompted("first");
    assert_eq!(feed(&mut conv, &mut view, event(1, 7, 1, "generation_started", "{}")).0, shown(&RuntimeStep::GenerationStarted));
    assert_eq!(
        feed(&mut conv, &mut view, event(1, 7, 2, "text_delta", "{\"delta\":\"kept\"}")).0,
        shown(&RuntimeStep::TextDelta(Some("kept".into())))
    );
    assert_eq!(feed(&mut conv, &mut view, event(1, 8, 3, "generation_started", "{}")).0, shown(&RuntimeStep::Ignored));
    assert_eq!(conv.active_generation_id, Some(7));
    assert_eq!(conv.loaded_until_seq, 3);
    assert_eq!(view.stream_parts, vec![StreamPart::User("first".into()), StreamPart::Text("kept".into())]);
}

#[test]
fn app_generation_started_does_not_bypass_generation_mismatch_guard() {
    check_generation_started_does_not_bypass_generation_mismatch_guard();
}

#[test]
fn tests_generation_started_does_not_bypass_generation_mismatch_guard() {
    check_generation_started_does_not_bypass_generation_mismatch_guard();
}

fn check_cancelled_generation_followed_by_prompt_starts_fresh_active_turn() {
    let (mut conv, mut view) = prompted("first");
    feed(&mut conv, &mut view, event(1, 7, 1, "generation_started", "{}"));
    conv.cancel_generation();
    view.reset_turn(false, "", "0.4s");
    // a new prompt makes the conversation active again
    conv.status = ConversationStatus::Active;
    view.add_prompt("second");

    assert_eq!(
        feed(&mut conv, &mut view, event(1, 7, 2, "text_delta", "{\"delta\":\"stale\"}")).0,
        shown(&RuntimeStep::Ignored)
    );
    assert_eq!(feed(&mut conv, &mut view, event(1, 8, 3, "generation_started", "{}")).0, shown(&RuntimeStep::GenerationStarted));
    assert_eq!(
        feed(&mut conv, &mut view, event(1, 8, 4, "text_delta", "{\"delta\":\"fresh\"}")).0,
        shown(&RuntimeStep::TextDelta(Some("fresh".into())))
    );
    assert_eq!(conv.status, ConversationStatus::Active);
    assert_eq!(conv.active_generation_id, Some(8));
    assert!(conv.text_stream_active);
    assert_eq!(
        view.stream_parts,
        vec![
            StreamPart::User("first".into()),
            StreamPart::User("second".into()),
            StreamPart::Text("fresh".into())
        ]
    );
    assert!(!view.transcript.contains("stale"));
}

#[test]
fn app_cancelled_generation_followed_by_prompt_starts_fresh_active_turn() {
    check_cancelled_generation_followed_by_prompt_starts_fresh_active_turn();
}

#[test]
fn tests_cancelled_generation_followed_by_prompt_starts_fresh_active_turn() {
    check_cancelled_generation_followed_by_prompt_starts_fresh_active_turn();
}

fn check_runtime_finish_reason_survives_generation_finished() {
    let (mut conv, mut view) = prompted("finish with length");
    feed(&mut conv, &mut view, event(1, 1, 1, "generation_started", "{}"));
    assert_eq!(feed(&mut conv, &mut view, event(1, 1, 2, "finish", "{\"reason\":\"Length\"}")).0, shown(&RuntimeStep::Noted));
    assert_eq!(conv.pending_finish_reason, Some(FinishReason::Length));
    let (step, effect) = feed(
        &mut conv,
        &mut view,
        event(1, 1, 3, "generation_finished", "{\"status\":\"completed\",\"finish_reason\":\"Length\"}"),
    );
    assert_eq!(step, shown(&RuntimeStep::GenerationFinished(Some(ConversationStatus::Finished(FinishReason::Length)))));
    // The status the turn settles in, once nothing is left to type out.
    assert_eq!(effect.settle, Some(ConversationStatus::Finished(FinishReason::Length)));
    assert_eq!(conv.active_generation_id, None);
}

#[test]
fn app_runtime_finish_reason_survives_generation_finished() {
    check_runtime_finish_reason_survives_generation_finished();
}

#[test]
fn tests_runtime_finish_reason_survives_generation_finished() {
    check_runtime_finish_reason_survives_generation_finished();
}

#[test]
fn events_of_other_sessions_or_seen_are_dropped() {
    let mut view = active();
    assert_eq!(runtime_event_step(&mut view, &event(2, 7, 1, "generation_started", "{}")), RuntimeStep::Ignored);
    assert_eq!(view.loaded_until_seq, 0);
    runtime_event_step(&mut view, &event(1, 7, 5, "generation_started", "{}"));
    assert_eq!(runtime_event_step(&mut view, &event(1, 7, 5, "text_delta", "{\"delta\":\"x\"}")), RuntimeStep::Ignored);
    assert_eq!(runtime_event_step(&mut view, &event(1, 7, 4, "text_delta", "{\"delta\":\"x\"}")), RuntimeStep::Ignored);
    // prompts of the session pass whatever generation they carry
    assert_eq!(runtime_event_step(&mut view, &event(1, 9, 6, "prompt_admitted", "{}")), RuntimeStep::Noted);
}

#[test]
fn cancelled_generation_end_still_arrives() {
    let mut view = active();
    runtime_event_step(&mut view, &event(1, 7, 1, "generation_started", "{}"));
    view.cancel_generation();
    assert_eq!(
        runtime_event_step(&mut view, &event(1, 7, 2, "generation_finished", "{\"status\":\"cancelled\"}")),
        RuntimeStep::GenerationFinished(Some(ConversationStatus::Cancelled))
    );
    assert_eq!(
        runtime_event_step(&mut view, &event(1, 7, 3, "generation_finished", "{\"status\":\"failed\"}")),
        RuntimeStep::Ignored
    );
}

#[test]
fn tool_events_read_their_payloads() {
    let mut view = active();
    runtime_event_step(&mut view, &event(1, 3, 1, "generation_started", "{}"));
    view.reasoning_active = true;
    match runtime_event_step(&mut view, &event(1, 3, 2, "tool_call_start", "{\"name\":\"bash\",\"metadata\":{\"a\":1}}")) {
        RuntimeStep::ToolCallStarted(Some((id, name, meta))) => {
            assert_eq!(id, "bash:2");
            assert_eq!(name, "bash");
            assert!(matches!(meta, Some(JsonValue::Object(_))));
        }
        other => panic!("unexpected {other:?}"),
    }
    assert!(!view.reasoning_active);
    assert_eq!(
        runtime_event_step(&mut view, &event(1, 3, 3, "tool_call_delta", "{\"id\":\"c1\",\"arguments\":\"{\\\"cmd\"}")),
        RuntimeStep::ToolCallDelta(Some(("c1".into(), "{\"cmd".into())))
    );
    assert_eq!(runtime_event_step(&mut view, &event(1, 3, 4, "tool_call_end", "{}")), RuntimeStep::ToolCallEnded(None));
    match runtime_event_step(
        &mut view,
        &event(1, 3, 5, "tool_executed", "{\"name\":\"read\",\"success\":true,\"output\":\"ok\",\"arguments\":{\"path\":\"a\"}}"),
    ) {
        RuntimeStep::ToolExecuted(Some(report)) => {
            assert_eq!(report.call_id, "inline:read:5");
            assert_eq!(report.sent_id, "");
            assert!(report.success);
            assert_eq!(report.output, "ok");
            assert!(report.arguments.is_some());
            assert!(report.metadata.is_none());
        }
        other => panic!("unexpected {other:?}"),
    }
    match runtime_event_step(
        &mut view,
        &event(1, 3, 6, "tool_call_settled", "{\"call_id\":\"c1\",\"status\":\"failed\",\"error\":\"boom\"}"),
    ) {
        RuntimeStep::ToolCallSettled(Some(s)) => {
            assert_eq!(s.call_id, "c1");
            assert_eq!(s.tool_name, "tool");
            assert!(!s.success);
            assert_eq!(s.output, "boom");
        }
        other => panic!("unexpected {other:?}"),
    }
    assert_eq!(
        runtime_event_step(&mut view, &event(1, 3, 7, "assistant_message", "{\"content\":\"  done \"}")),
        RuntimeStep::AssistantMessage(Some("done".into()))
    );
    assert_eq!(runtime_event_step(&mut view, &event(1, 3, 8, "error", "{\"message\":\"bad\"}")), RuntimeStep::RuntimeError);
    assert_eq!(view.status, ConversationStatus::Error);
    assert_eq!(view.diagnostic, "bad");
    assert_eq!(
        apply_runtime_payload(&mut view, &event(1, 3, 9, "reasoning_delta", ""), None),
        RuntimeStep::Noted
    );
}

#[test]
fn replayed_events_set_the_final_state() {
    let mut view = ConversationView::new(Some(1));
    assert_eq!(
        replay_event_step(&mut view, &event(1, 1, 1, "user_message", "{\"prompt\":\" hi \"}")),
        ReplayStep::UserMessage(Some("hi".into()))
    );
    match replay_event_step(&mut view, &event(1, 1, 2, "tool_call_started", "{\"call_id\":\"c\",\"tool_name\":\"bash\"}")) {
        ReplayStep::CallOpened(Some(call)) => {
            assert_eq!(call.call_id, "c");
            assert!(call.running);
        }
        other => panic!("unexpected {other:?}"),
    }
    view.pending_finish_reason = Some(FinishReason::ToolCall);
    assert_eq!(
        replay_event_step(&mut view, &event(1, 1, 3, "generation_finished", "{\"status\":\"completed\"}")),
        ReplayStep::GenerationFinished
    );
    assert_eq!(view.status, ConversationStatus::Finished(FinishReason::ToolCall));
    assert_eq!(view.pending_finish_reason, None);
}

fn turn(mode: ConversationMode) -> TurnState {
    TurnState {
        status: ConversationStatus::Idle,
        mode,
        provider: String::new(),
        model: String::new(),
        diagnostic: "old".to_string(),
    }
}

#[test]
fn turn_events_drive_the_status() {
    let mut t = turn(ConversationMode::Build);
    assert_eq!(t.apply_turn_event(&TurnEvent::TextDelta("early".to_string())), TurnEffect::Nothing);
    assert_eq!(t.apply_turn_event(&TurnEvent::Finished(FinishReason::Stop)), TurnEffect::Nothing);
    assert_eq!(t.status, ConversationStatus::Idle);
    let submitted = TurnEvent::PromptSubmitted { provider: "openai".to_string(), model: "x".repeat(300) };
    assert_eq!(t.apply_turn_event(&submitted), TurnEffect::StartStream);
    assert_eq!(t.status, ConversationStatus::Active);
    assert_eq!(t.provider, "openai");
    assert_eq!(t.model.len(), 256);
    assert_eq!(t.diagnostic, "");
    assert_eq!(t.apply_turn_event(&TurnEvent::TextDelta("hi".to_string())), TurnEffect::StreamText);
    assert_eq!(t.apply_turn_event(&TurnEvent::Finished(FinishReason::Length)), TurnEffect::Finish);
    assert_eq!(t.status, ConversationStatus::Finished(FinishReason::Length));
    assert_eq!(t.apply_turn_event(&TurnEvent::Metrics(Some(FinishReason::Stop))), TurnEffect::Nothing);
    assert_eq!(t.apply_turn_event(&TurnEvent::Metrics(None)), TurnEffect::Nothing);
    assert_eq!(t.apply_turn_event(&TurnEvent::Metrics(Some(FinishReason::Length))), TurnEffect::KeepMetrics);
    assert_eq!(t.apply_turn_event(&TurnEvent::Usage), TurnEffect::Nothing);
}

#[test]
fn turn_errors_and_rejections_set_the_diagnostic() {
    let mut t = turn(ConversationMode::Plan);
    t.status = ConversationStatus::Active;
    assert_eq!(t.apply_turn_event(&TurnEvent::Error("boom".to_string())), TurnEffect::Fail);
    assert_eq!(t.status, ConversationStatus::Error);
    assert_eq!(t.diagnostic, "boom");
    assert_eq!(t.apply_turn_event(&TurnEvent::MutationRequested("write a.rs".to_string())), TurnEffect::Nothing);
    assert_eq!(t.status, ConversationStatus::Rejected);
    assert_eq!(t.diagnostic, "PLAN mode rejects mutation: write a.rs");

    let mut b = turn(ConversationMode::Build);
    b.status = ConversationStatus::Active;
    assert_eq!(b.apply_turn_event(&TurnEvent::MutationRequested("write".to_string())), TurnEffect::Nothing);
    assert_eq!(b.status, ConversationStatus::Active);
    let long = "é".repeat(3000);
    b.apply_turn_event(&TurnEvent::Error(long));
    assert_eq!(b.diagnostic.len(), 4096);
}

#[test]
fn cancelled_turn_ignores_everything() {
    let mut t = turn(ConversationMode::Build);
    t.status = ConversationStatus::Active;
    assert_eq!(t.apply_turn_event(&TurnEvent::Cancelled), TurnEffect::ReportCancelled);
    assert_eq!(t.status, ConversationStatus::Cancelled);
    let before = t.clone();
    let submitted = TurnEvent::PromptSubmitted { provider: "p".to_string(), model: "m".to_string() };
    for e in [submitted, TurnEvent::Cancelled, TurnEvent::Error("x".to_string()), TurnEvent::Finished(FinishReason::Stop)] {
        assert_eq!(t.apply_turn_event(&e), TurnEffect::Nothing);
        assert_eq!(t, before);
    }
}

#[test]
fn clearing_the_screen_drops_the_generation_and_goes_idle() {
    let mut view = active();
    runtime_event_step(&mut view, &event(1, 9, 1, "generation_started", "{}"));
    view.clear_screen();
    assert_eq!(view.status, ConversationStatus::Idle);
    assert_eq!(view.diagnostic, "screen cleared");
    assert_eq!(view.active_generation_id, None);
    assert_eq!(view.ignored_generation_ids, std::collections::HashSet::from([9]));
    assert_eq!(runtime_event_step(&mut view, &event(1, 9, 2, "text_delta", "{\"delta\":\"late\"}")), RuntimeStep::Ignored);
}

#[test]
fn tool_calls_build_their_rows() {
    let (mut conv, mut view) = prompted("list files");
    feed(&mut conv, &mut view, event(1, 1, 1, "generation_started", "{}"));
    let (_, e) = feed(&mut conv, &mut view, event(1, 1, 2, "tool_call_start", "{\"id\":\"c1\",\"name\":\"bash\"}"));
    assert!(e.record_reasoning_time);
    {
        let rows = view.tool_rows.tool_rows();
        assert_eq!(rows.len(), 1);
        assert_eq!(rows[0].state, ToolRowState::Pending);
        assert_eq!(rows[0].desc, "preparing arguments...");
    }
    feed(&mut conv, &mut view, event(1, 1, 3, "tool_call_delta", "{\"id\":\"c1\",\"arguments\":\"{\\\"command\\\":\"}"));
    assert_eq!(view.tool_rows.tool_rows()[0].desc, "preparing arguments...");
    feed(&mut conv, &mut view, event(1, 1, 4, "tool_call_delta", "{\"id\":\"c1\",\"arguments\":\"\\\"ls -la\\\"}\"}"));
    assert_eq!(view.tool_rows.tool_rows()[0].arguments, "{\"command\":\"ls -la\"}");
    assert_ne!(view.tool_rows.tool_rows()[0].desc, "preparing arguments...");
    feed(&mut conv, &mut view, event(1, 1, 5, "tool_call_end", "{\"id\":\"c1\"}"));
    assert!(view.tool_rows.tool_rows()[0].arguments_complete);
    feed(
        &mut conv,
        &mut view,
        event(1, 1, 6, "tool_executed", "{\"id\":\"c1\",\"name\":\"bash\",\"success\":true,\"output\":\"a\\nb\"}"),
    );
    let rows = view.tool_rows.tool_rows();
    assert_eq!(rows.len(), 1);
    assert_eq!(rows[0].state, ToolRowState::Completed);
    assert_eq!(rows[0].output, "a\nb");
    assert_eq!(
        view.stream_parts,
        vec![StreamPart::User("list files".into()), StreamPart::Tool("c1".into())]
    );
    assert!(view.tool_rows.active_tool().is_none());
}

#[test]
fn running_question_opens_the_dialog() {
    let (mut conv, mut view) = prompted("ask me");
    feed(&mut conv, &mut view, event(1, 1, 1, "generation_started", "{}"));
    let (_, e) = feed(
        &mut conv,
        &mut view,
        event(
            1,
            1,
            2,
            "tool_executing",
            "{\"id\":\"q1\",\"name\":\"question\",\"arguments\":{\"question\":\"Port?\",\"options\":[\"80\",3,\"443\"]}}",
        ),
    );
    assert_eq!(e.question, Some(("Port?".to_string(), vec!["80".to_string(), "443".to_string()])));
    let rows = view.tool_rows.tool_rows();
    assert_eq!(rows[0].state, ToolRowState::Running);
    assert_eq!(rows[0].arguments, "{\"options\":[\"80\",3,\"443\"],\"question\":\"Port?\"}");
    assert_eq!(view.tool_rows.active_tool().map(|a| a.name.as_str()), Some("question"));
}

#[test]
fn generation_end_fails_unfinished_calls() {
    let (mut conv, mut view) = prompted("go");
    feed(&mut conv, &mut view, event(1, 1, 1, "generation_started", "{}"));
    feed(&mut conv, &mut view, event(1, 1, 2, "tool_call_start", "{\"id\":\"c1\",\"name\":\"read\"}"));
    let (_, e) = feed(&mut conv, &mut view, event(1, 1, 3, "generation_finished", "{\"status\":\"failed\"}"));
    assert_eq!(e.settle, Some(ConversationStatus::Error));
    let rows = view.tool_rows.tool_rows();
    assert_eq!(rows[0].state, ToolRowState::Failed);
    assert_eq!(rows[0].output, "generation ended before tool completion");
}

#[test]
fn runtime_errors_fail_calls_and_write_out_the_reasoning() {
    let (mut conv, mut view) = prompted("go");
    feed(&mut conv, &mut view, event(1, 1, 1, "generation_started", "{}"));
    let (_, e) = feed(&mut conv, &mut view, event(1, 1, 2, "reasoning_delta", "{\"delta\":\"hmm\"}"));
    assert!(e.start_reasoning_clock);
    assert_eq!(view.reasoning_buffer, "hmm");
    feed(&mut conv, &mut view, event(1, 1, 3, "tool_call_start", "{\"id\":\"c1\",\"name\":\"read\"}"));
    let (_, e) = feed(&mut conv, &mut view, event(1, 1, 4, "error", "{\"message\":\"boom\"}"));
    assert!(e.reasoning_flushed);
    assert_eq!(conv.status, ConversationStatus::Error);
    assert_eq!(view.tool_rows.tool_rows()[0].state, ToolRowState::Failed);
    assert!(view.transcript.ends_with("Thought for 0.4s\n\n"));
    assert!(view.reasoning_buffer.is_empty());
}

#[test]
fn text_writes_out_the_reasoning_first() {
    let (mut conv, mut view) = prompted("why");
    feed(&mut conv, &mut view, event(1, 1, 1, "generation_started", "{}"));
    feed(&mut conv, &mut view, event(1, 1, 2, "reasoning_delta", "{\"delta\":\"think\"}"));
    let (_, e) = feed(&mut conv, &mut view, event(1, 1, 3, "text_delta", "{\"delta\":\"Because.\"}"));
    assert_eq!(e.feed_typewriter, Some("Because.".to_string()));
    assert!(e.reasoning_flushed);
    assert_eq!(view.transcript, "> why\n\nThought for 0.4s\n\nBecause.");
    assert_eq!(
        view.stream_parts,
        vec![
            StreamPart::User("why".into()),
            StreamPart::Reasoning("think".into()),
            StreamPart::Text("Because.".into())
        ]
    );
}

#[test]
fn assistant_messages_are_not_repeated() {
    let (mut conv, mut view) = prompted("hi");
    feed(&mut conv, &mut view, event(1, 1, 1, "generation_started", "{}"));
    feed(&mut conv, &mut view, event(1, 1, 2, "text_delta", "{\"delta\":\"Hello there\"}"));
    let (_, e) = feed(&mut conv, &mut view, event(1, 1, 3, "assistant_message", "{\"content\":\" Hello there \"}"));
    assert!(!e.scroll_to_bottom);
    assert_eq!(view.transcript.matches("Hello there").count(), 1);
    assert_eq!(view.stream_parts.len(), 2);

    let (mut conv, mut view) = prompted("hi");
    feed(&mut conv, &mut view, event(1, 1, 1, "generation_started", "{}"));
    let (_, e) = feed(&mut conv, &mut view, event(1, 1, 2, "assistant_message", "{\"content\":\"Full reply\"}"));
    assert!(e.scroll_to_bottom);
    assert_eq!(view.transcript, "> hi\n\nFull reply\n\n");
    assert_eq!(view.stream_parts, vec![StreamPart::User("hi".into()), StreamPart::Text("Full reply".into())]);
}

#[test]
fn settled_calls_get_a_row_when_none_ran() {
    let (mut conv, mut view) = prompted("go");
    feed(&mut conv, &mut view, event(1, 1, 1, "generation_started", "{}"));
    feed(
        &mut conv,
        &mut view,
        event(1, 1, 2, "tool_call_settled", "{\"call_id\":\"s1\",\"tool_name\":\"read\",\"status\":\"failed\",\"error\":\"denied\"}"),
    );
    let rows = view.tool_rows.tool_rows();
    assert_eq!(rows.len(), 1);
    assert_eq!(rows[0].call_id, "s1");
    assert_eq!(rows[0].state, ToolRowState::Failed);
    assert_eq!(rows[0].output, "denied");
    assert_eq!(view.stream_parts[1], StreamPart::Tool("s1".into()));
}

#[test]
fn plan_updates_replace_the_plan() {
    let (mut conv, mut view) = prompted("plan");
    feed(&mut conv, &mut view, event(1, 1, 1, "generation_started", "{}"));
    feed(
        &mut conv,
        &mut view,
        event(
            1,
            1,
            2,
            "tool_executed",
            "{\"id\":\"p1\",\"name\":\"update_plan\",\"success\":true,\"output\":\"ok\",\"arguments\":{\"plan\":[{\"step\":\"Read\",\"status\":\"completed\"}]}}",
        ),
    );
    assert_eq!(view.current_plan.len(), 1);
    assert_eq!(view.current_plan[0].0, "Read");
}

#[test]
fn typing_reasoning_and_streaming_follow_the_turn() {
    let (mut conv, mut view) = prompted("go");
    assert!(!is_typing(&conv, &view.tool_rows, false));
    assert!(is_streaming_active(&conv, &view.tool_rows, false, false));
    feed(&mut conv, &mut view, event(1, 1, 1, "generation_started", "{}"));
    feed(&mut conv, &mut view, event(1, 1, 2, "reasoning_delta", "{\"delta\":\"hmm\"}"));
    assert!(is_reasoning(&conv, &view.tool_rows));
    feed(&mut conv, &mut view, event(1, 1, 3, "text_delta", "{\"delta\":\"Hi\"}"));
    assert!(!is_reasoning(&conv, &view.tool_rows));
    assert!(is_typing(&conv, &view.tool_rows, false));
    feed(&mut conv, &mut view, event(1, 1, 4, "tool_call_start", "{\"id\":\"c1\",\"name\":\"read\"}"));
    assert!(!is_typing(&conv, &view.tool_rows, false));
    assert!(is_typing(&conv, &view.tool_rows, true));
    let (_, e) = feed(&mut conv, &mut view, event(1, 1, 5, "generation_finished", "{\"status\":\"completed\"}"));
    assert!(is_streaming_active(&conv, &view.tool_rows, false, false));
    // The turn settles once nothing is left to type out.
    conv.status = e.settle.unwrap();
    assert!(!is_streaming_active(&conv, &view.tool_rows, false, false));
    assert!(is_streaming_active(&conv, &view.tool_rows, false, true));
    assert!(is_streaming_active(&conv, &view.tool_rows, true, false));
}
