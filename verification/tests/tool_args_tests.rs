use clawcode_tui::json::JsonValue;
use clawcode_tui::tool_args::{parse_plan_items, tool_target_and_verbs};

fn s(text: &str) -> JsonValue {
    JsonValue::String(text.to_string())
}

fn obj(members: Vec<(&str, JsonValue)>) -> JsonValue {
    JsonValue::Object(members.into_iter().map(|(k, v)| (k.to_string(), v)).collect())
}

#[test]
fn file_tools_read_their_path() {
    let args = obj(vec![("path", s("src/main.rs"))]);
    assert_eq!(
        tool_target_and_verbs("read_file", Some(&args)),
        ("Read", "Reading", "src/main.rs".to_string())
    );
    let args = obj(vec![("filePath", s("lib.rs"))]);
    assert_eq!(
        tool_target_and_verbs("apply_patch", Some(&args)),
        ("Applied patch", "Applying patch", "lib.rs".to_string())
    );
    let args = obj(vec![("file_path", JsonValue::Number("3".to_string()))]);
    assert_eq!(
        tool_target_and_verbs("write", Some(&args)),
        ("Write", "Writing", String::new())
    );
}

#[test]
fn string_arguments_are_parsed_as_json() {
    let args = s("{\"command\":\"ls -la\"}");
    assert_eq!(
        tool_target_and_verbs("bash", Some(&args)),
        ("Ran", "Running", "ls -la".to_string())
    );
    // a string that is not JSON is kept as it is, and has no members
    let args = s("ls -la");
    assert_eq!(
        tool_target_and_verbs("bash", Some(&args)),
        ("Ran", "Running", String::new())
    );
}

#[test]
fn plan_and_task_targets() {
    let args = obj(vec![("explanation", s("  Refactor the parser  "))]);
    assert_eq!(tool_target_and_verbs("update_plan", Some(&args)).2, "Refactor the parser");
    let args = obj(vec![
        ("explanation", s("   ")),
        ("plan", JsonValue::Array(vec![JsonValue::Null, JsonValue::Null, JsonValue::Null])),
    ]);
    assert_eq!(
        tool_target_and_verbs("update_plan", Some(&args)),
        ("Updated Plan", "Updating Plan", "3 steps".to_string())
    );
    let args = obj(vec![("subagent_type", s("explorer")), ("description", s("find bugs"))]);
    assert_eq!(
        tool_target_and_verbs("task", Some(&args)),
        ("Task", "Delegating", "explorer: find bugs".to_string())
    );
    let args = obj(vec![]);
    assert_eq!(tool_target_and_verbs("task", Some(&args)).2, "subagent");
}

#[test]
fn defaults_and_unknown_tools() {
    let empty = obj(vec![]);
    assert_eq!(tool_target_and_verbs("list_dir", Some(&empty)).2, ".");
    assert_eq!(
        tool_target_and_verbs("execute", Some(&empty)),
        ("Execute", "Executing", "execute".to_string())
    );
    assert_eq!(
        tool_target_and_verbs("list_dir", None),
        ("List", "Listing", String::new())
    );
    let args = obj(vec![("query", s("needle")), ("pattern", s("*.rs"))]);
    assert_eq!(
        tool_target_and_verbs("custom_tool", Some(&args)),
        ("Tool", "Running", "needle".to_string())
    );
    assert_eq!(
        tool_target_and_verbs("glob", Some(&args)),
        ("Glob", "Running glob_search", "*.rs".to_string())
    );
    assert_eq!(
        tool_target_and_verbs("grep_search", Some(&args)),
        ("Grep", "Running grep_search", "needle".to_string())
    );
    // "fetch" is not an alias of "webfetch" here
    let args = obj(vec![("url", s("https://example.com")), ("path", s("p"))]);
    assert_eq!(
        tool_target_and_verbs("fetch", Some(&args)),
        ("Tool", "Running", "p".to_string())
    );
    assert_eq!(
        tool_target_and_verbs("webfetch", Some(&args)),
        ("Fetched", "Fetching", "https://example.com".to_string())
    );
}

#[test]
fn plan_items_from_a_json_string() {
    let text = [
        "{\"plan\":[",
        "{\"step\":\"1. Write tests\",\"status\":\"In Progress\"},",
        "{\"content\":\"Ship it\",\"status\":\" DONE \"},",
        "{\"title\":\"   \"},",
        "{\"step\":\"Plan. Then act\"},",
        "{\"step\":7,\"title\":\"ignored\"},",
        "5,",
        "{\"title\":\"12. \",\"status\":\"blocked\"}",
        "]}",
    ]
    .join("");
    let args = s(&text);
    let items = parse_plan_items(Some(&args));
    assert_eq!(
        items,
        vec![
            ("Write tests".to_string(), "in_progress".to_string()),
            ("Ship it".to_string(), "completed".to_string()),
            ("Plan. Then act".to_string(), "pending".to_string()),
            ("12.".to_string(), "blocked".to_string()),
        ]
    );
}

#[test]
fn plan_items_from_an_object_and_from_nothing() {
    let args = obj(vec![(
        "plan",
        JsonValue::Array(vec![obj(vec![("step", s("Todo item")), ("status", s("todo"))])]),
    )]);
    assert_eq!(
        parse_plan_items(Some(&args)),
        vec![("Todo item".to_string(), "pending".to_string())]
    );
    assert!(parse_plan_items(None).is_empty());
    assert!(parse_plan_items(Some(&s("not json"))).is_empty());
    assert!(parse_plan_items(Some(&obj(vec![("plan", s("x"))]))).is_empty());
}
