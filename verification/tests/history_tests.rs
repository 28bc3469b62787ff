use clawcode_tui::history::{restore_message, RestoredToolRow, StoredMessage};
use clawcode_tui::stream::StreamPart;

fn msg(id: i64, role: &str, content: &str) -> StoredMessage {
    StoredMessage { id, role: role.to_string(), content: content.to_string() }
}

#[test]
fn stored_messages_rebuild_the_transcript() {
    let mut transcript = String::new();
    let mut parts = Vec::new();
    assert_eq!(restore_message(&mut transcript, &mut parts, &msg(1, "user", "  hello ")), None);
    assert_eq!(transcript, "> hello\n\n");
    assert_eq!(restore_message(&mut transcript, &mut parts, &msg(2, "assistant", "hi there\n")), None);
    assert_eq!(transcript, "> hello\n\nhi there\n\n");
    assert_eq!(parts, vec![StreamPart::User("hello".to_string()), StreamPart::Text("hi there".to_string())]);

    let mut t = "line".to_string();
    restore_message(&mut t, &mut parts, &msg(3, "assistant", "next"));
    assert_eq!(t, "line\n\nnext\n\n");
    let mut t = "line\n".to_string();
    restore_message(&mut t, &mut parts, &msg(4, "user", "q"));
    assert_eq!(t, "line\n\n> q\n\n");
}

#[test]
fn tool_messages_become_tool_rows_once() {
    let mut transcript = "x\n\n".to_string();
    let mut parts = Vec::new();
    let row = restore_message(&mut transcript, &mut parts, &msg(7, "tool", " Plan updated: step 1 "));
    assert_eq!(
        row,
        Some(RestoredToolRow {
            call_id: "msg-7".to_string(),
            tool_name: "update_plan".to_string(),
            output: "Plan updated: step 1".to_string(),
        })
    );
    assert_eq!(transcript, "x\n\n");
    assert_eq!(parts, vec![StreamPart::Tool("msg-7".to_string())]);
    let again = restore_message(&mut transcript, &mut parts, &msg(7, "tool", "ran ls"));
    assert_eq!(again.map(|r| r.tool_name), Some("tool".to_string()));
    assert_eq!(parts.len(), 1);
    assert_eq!(restore_message(&mut transcript, &mut parts, &msg(8, "tool", "   ")), None);
    assert_eq!(restore_message(&mut transcript, &mut parts, &msg(9, "system", "note")), None);
    assert_eq!(transcript, "x\n\n");
    assert_eq!(parts.len(), 1);
}
