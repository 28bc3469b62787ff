use clawcode_tui::events::{Input, UiEvent, UiEventQueue};
use clawcode_tui::text::{bounded, ceil_char_boundary, find_user_turn_boundary, floor_char_boundary, strip_ansi_codes};

fn check_char_boundary_helpers() {
    let text = "🦀 clawcode 🚀 日本語";
    assert_eq!(floor_char_boundary(text, 0), 0);
    assert_eq!(floor_char_boundary(text, 1), 0); // Inside 🦀
    assert_eq!(floor_char_boundary(text, 2), 0);
    assert_eq!(floor_char_boundary(text, 3), 0);
    assert_eq!(floor_char_boundary(text, 4), 4); // After 🦀
    assert_eq!(floor_char_boundary(text, text.len() + 100), text.len());

    assert_eq!(ceil_char_boundary(text, 0), 0);
    assert_eq!(ceil_char_boundary(text, 1), 4); // Rounds up to end of 🦀
    assert_eq!(ceil_char_boundary(text, 2), 4);
    assert_eq!(ceil_char_boundary(text, 3), 4);
    assert_eq!(ceil_char_boundary(text, 4), 4);
    assert_eq!(ceil_char_boundary(text, text.len()), text.len());
    assert_eq!(ceil_char_boundary(text, text.len() + 100), text.len());
}

#[test]
fn app_test_char_boundary_helpers_multibyte_and_oob() {
    check_char_boundary_helpers();
}

#[test]
fn tests_test_char_boundary_helpers_multibyte_and_oob() {
    check_char_boundary_helpers();
}

fn check_bounded_string_utf8() {
    let text = "🦀 clawcode 🚀".to_string();
    let truncated = bounded(text, 2);
    assert_eq!(truncated, ""); // 2 bytes is inside 4-byte 🦀, clamped to 0

    let text2 = "🦀 clawcode 🚀".to_string();
    let truncated2 = bounded(text2, 4);
    assert_eq!(truncated2, "🦀");
}

#[test]
fn app_test_bounded_string_utf8() {
    check_bounded_string_utf8();
}

#[test]
fn tests_test_bounded_string_utf8() {
    check_bounded_string_utf8();
}

fn check_ui_event_queue_safety() {
    let mut queue = UiEventQueue::new(0); // Should clamp to >= 3 without panicking
    assert!(queue.capacity() >= 3);

    for i in 0..100 {
        queue.push(UiEvent::Input(Input::Character(
            (b'a' + (i % 26) as u8) as char,
        )));
    }
    assert!(queue.len() <= queue.capacity());
}

#[test]
fn app_test_ui_event_queue_safety() {
    check_ui_event_queue_safety();
}

#[test]
fn tests_test_ui_event_queue_safety() {
    check_ui_event_queue_safety();
}

#[test]
fn bounded_keeps_short_strings_and_cuts_long_ones() {
    assert_eq!(bounded("hello".to_string(), 10), "hello");
    assert_eq!(bounded("hello".to_string(), 3), "hel");
    assert_eq!(bounded("日本語".to_string(), 7), "日本");
    assert_eq!(bounded(String::new(), 0), "");
}

#[test]
fn floor_and_ceil_agree_on_boundaries() {
    let text = "aé日🦀";
    for i in 0..=text.len() + 2 {
        let f = floor_char_boundary(text, i);
        let c = ceil_char_boundary(text, i);
        assert!(text.is_char_boundary(f));
        assert!(text.is_char_boundary(c));
        assert!(f <= i.min(text.len()));
        assert!(c >= i.min(text.len()));
        if i <= text.len() && text.is_char_boundary(i) {
            assert_eq!(f, i);
            assert_eq!(c, i);
        }
    }
}

#[test]
fn test_strip_ansi_codes() {
    assert_eq!(strip_ansi_codes("\x1b[34;40m.agents\x1b[0m"), ".agents");
    assert_eq!(strip_ansi_codes("plain text"), "plain text");
    assert_eq!(
        strip_ansi_codes("\x1b[1;32mhello\x1b[0m \x1b[31mworld\x1b[m"),
        "hello world"
    );
}

#[test]
fn strip_ansi_removes_escape_sequences() {
    assert_eq!(strip_ansi_codes("\x1b[31mred\x1b[0m plain"), "red plain");
    assert_eq!(strip_ansi_codes("no escapes"), "no escapes");
    assert_eq!(strip_ansi_codes("\x1b[1;32mok"), "ok");
    assert_eq!(strip_ansi_codes("日本\x1b[2K語"), "日本語");
    assert_eq!(strip_ansi_codes(""), "");
}

#[test]
fn user_turn_boundary_skips_code_fences() {
    let text = "old\n```rust\n> literal\n```\n> recent prompt\nassistant";
    let at = find_user_turn_boundary(text, 0).unwrap();
    assert!(text[at..].starts_with("> recent prompt"));
    // a cutoff inside the fence still knows it is in a fence
    let inside = text.find("> literal").unwrap();
    let at2 = find_user_turn_boundary(text, inside).unwrap();
    assert_eq!(at2, at);
    // no user turn after the last one
    assert_eq!(find_user_turn_boundary(text, at + 1), None);
}

#[test]
fn user_turn_boundary_at_start_and_mid_line() {
    assert_eq!(find_user_turn_boundary("> first\n> second\n", 0), Some(0));
    // cutting in the middle of the first line finds the next line
    assert_eq!(find_user_turn_boundary("> first\n> second\n", 3), Some(8));
    // a quote that does not start a line is not a turn
    assert_eq!(find_user_turn_boundary("x > y\n", 0), None);
    // multibyte cutoff is rounded down to a boundary first
    let text = "日本\n> turn\n";
    assert_eq!(find_user_turn_boundary(text, 1), Some(7));
    // indented fences count too
    assert_eq!(find_user_turn_boundary("  ```\n> in code\n```\n> out\n", 0), Some(20));
}

#[test]
fn pending_events_come_urgent_first() {
    let mut queue = UiEventQueue::new(16);
    assert_eq!(queue.take_pending(true), None);

    queue.push(UiEvent::Input(Input::Character('a')));
    queue.push(UiEvent::StreamDelta("hel".into()));
    queue.push(UiEvent::StreamDelta("lo".into()));
    queue.push(UiEvent::Input(Input::Quit));
    queue.push(UiEvent::Input(Input::Cancel));

    // a quit that does not close the app leaves the cancel for next time
    assert_eq!(
        queue.take_pending(false),
        Some(vec![
            UiEvent::Input(Input::Quit),
            UiEvent::Input(Input::Character('a')),
            UiEvent::StreamDelta("hello".into()),
        ])
    );
    queue.push(UiEvent::Input(Input::Character('b')));
    assert_eq!(queue.take_pending(false), Some(vec![UiEvent::Input(Input::Cancel)]));
    assert_eq!(queue.take_pending(false), None);

    queue.push(UiEvent::Input(Input::Character('c')));
    assert_eq!(queue.take_pending(true), Some(vec![UiEvent::Input(Input::Character('c'))]));

    queue.push(UiEvent::Input(Input::Character('d')));
    queue.push(UiEvent::Input(Input::Quit));
    assert_eq!(queue.take_pending(true), Some(vec![UiEvent::Input(Input::Quit)]));
    assert!(queue.is_empty());
}
