use clawcode_tui::layout::{
    area_contains, centered, chat_window, completion_popup_area, scroll_badge, PopupKind, click_target, ClickTarget, QuickAction, model_popup_area, popup_item_at, popup_scroll, tool_row_at, which_key_area, Area,
};

fn area(x: u16, y: u16, width: u16, height: u16) -> Area {
    Area { x, y, width, height }
}

#[test]
fn area_contains_is_half_open() {
    let a = area(2, 3, 4, 2);
    assert!(area_contains(&a, 2, 3));
    assert!(area_contains(&a, 5, 4));
    assert!(!area_contains(&a, 6, 4));
    assert!(!area_contains(&a, 5, 5));
    assert!(!area_contains(&a, 1, 3));
    assert!(area_contains(&area(u16::MAX - 1, 0, 5, 1), u16::MAX, 0));
}

#[test]
fn tool_row_at_finds_the_first_hit() {
    let clicks = vec![
        ("__thought__".to_string(), area(0, 0, 80, 1)),
        ("call-1".to_string(), area(0, 2, 80, 3)),
        ("call-2".to_string(), area(0, 2, 80, 1)),
    ];
    assert_eq!(tool_row_at(&clicks, 10, 0), Some("__thought__".to_string()));
    assert_eq!(tool_row_at(&clicks, 10, 2), Some("call-1".to_string()));
    assert_eq!(tool_row_at(&clicks, 10, 1), None);
    assert_eq!(tool_row_at(&clicks, 90, 2), None);
}

#[test]
fn popup_rows_map_to_completions() {
    let popup = area(0, 10, 40, 6); // four rows inside the border
    assert_eq!(popup_item_at(&popup, 10, 0), Some(0));
    assert_eq!(popup_item_at(&popup, 11, 0), Some(0));
    assert_eq!(popup_item_at(&popup, 13, 0), Some(2));
    assert_eq!(popup_item_at(&popup, 15, 0), Some(3));
    // scrolled so that the selected completion shows
    assert_eq!(popup_item_at(&popup, 12, 6), Some(4));
    assert_eq!(popup_item_at(&area(0, 0, 40, 2), 1, 0), None);
}

#[test]
fn model_popup_sits_above_the_input() {
    let input = area(2, 20, 100, 3);
    assert_eq!(model_popup_area(&input, 3), Some(area(2, 15, 70, 5)));
    assert_eq!(model_popup_area(&input, 30), Some(area(2, 10, 70, 10)));
    assert_eq!(model_popup_area(&area(0, 4, 40, 3), 30), Some(area(0, 0, 40, 4)));
    assert_eq!(model_popup_area(&input, 0), None);
    assert_eq!(model_popup_area(&area(0, 20, 9, 3), 3), None);
    assert_eq!(model_popup_area(&area(0, 2, 40, 3), 3), None);
}

#[test]
fn popup_scrolls_to_keep_the_selection_visible() {
    assert_eq!(popup_scroll(0, 8), 0);
    assert_eq!(popup_scroll(7, 8), 0);
    assert_eq!(popup_scroll(8, 8), 1);
    assert_eq!(popup_scroll(20, 8), 13);
}

#[test]
fn dialogs_are_centred() {
    assert_eq!(centered(&area(0, 0, 100, 40), 60, 20), area(20, 10, 60, 20));
    assert_eq!(centered(&area(5, 3, 61, 21), 60, 20), area(5, 3, 60, 20));
    // A box wider than the area starts at the area's corner.
    assert_eq!(centered(&area(4, 2, 30, 10), 50, 12), area(4, 2, 50, 12));
}

#[test]
fn which_key_sheet_size() {
    assert_eq!(which_key_area(&area(0, 0, 120, 50)), area(24, 18, 72, 14));
    assert_eq!(which_key_area(&area(0, 0, 50, 10)), area(0, 1, 50, 8));
    assert_eq!(which_key_area(&area(0, 0, 20, 1)), area(0, 0, 36, 0));
}

#[test]
fn clicks_land_on_rows_then_popup_then_cards() {
    let rows = vec![
        ("__thought__".to_string(), area(0, 0, 40, 1)),
        ("call-1".to_string(), area(0, 2, 40, 1)),
    ];
    let popup = Some(area(0, 10, 30, 6));
    let cards = vec![area(0, 20, 10, 3), area(10, 20, 10, 3), area(20, 20, 10, 3), area(30, 20, 10, 3), area(40, 20, 10, 3)];
    assert_eq!(click_target(&rows, popup, true, 0, &cards, true, 5, 0), ClickTarget::Thought);
    assert_eq!(click_target(&rows, popup, true, 0, &cards, true, 5, 2), ClickTarget::ToolRow("call-1".to_string()));
    // Row 13 of a popup at row 10: the second completion row inside the border.
    assert_eq!(click_target(&rows, popup, true, 0, &cards, true, 5, 13), ClickTarget::Popup(Some(2)));
    assert_eq!(click_target(&rows, popup, false, 0, &cards, true, 5, 13), ClickTarget::Nothing);
    assert_eq!(click_target(&rows, Some(area(0, 10, 30, 2)), true, 0, &cards, true, 5, 11), ClickTarget::Popup(None));
    assert_eq!(click_target(&rows, popup, true, 0, &cards, true, 12, 21), ClickTarget::QuickAction(QuickAction::BuildMode));
    assert_eq!(click_target(&rows, popup, true, 0, &cards, true, 35, 21), ClickTarget::QuickAction(QuickAction::Shortcuts));
    assert_eq!(click_target(&rows, popup, true, 0, &cards, true, 45, 21), ClickTarget::Nothing);
    assert_eq!(click_target(&rows, popup, true, 0, &cards, false, 12, 21), ClickTarget::Nothing);
    assert_eq!(click_target(&rows, None, true, 0, &[], true, 79, 79), ClickTarget::Nothing);
}

#[test]
fn chat_window_scrolls_and_maps_tool_rows() {
    let rows = [1usize, 3, 2];
    let tools = vec![("a".to_string(), 1usize), ("b".to_string(), 2), ("c".to_string(), 9)];
    let w = chat_window(&rows, 0, &area(0, 5, 40, 4), &tools);
    assert_eq!(w.total_rows, 6);
    assert_eq!(w.scroll_y, 2);
    assert_eq!(w.scroll_offset, 0);
    assert_eq!(w.clicks, vec![("b".to_string(), area(0, 7, 40, 1))]);

    let w = chat_window(&rows, 5, &area(0, 5, 40, 4), &tools);
    assert_eq!(w.scroll_offset, 2);
    assert_eq!(w.scroll_y, 0);
    assert_eq!(w.clicks, vec![("a".to_string(), area(0, 6, 40, 1))]);

    // A transcript that fits does not scroll.
    let w = chat_window(&[1, 1], 3, &area(0, 0, 40, 10), &[("x".to_string(), 0)]);
    assert_eq!((w.total_rows, w.scroll_y, w.scroll_offset), (2, 0, 0));
    assert_eq!(w.clicks, vec![("x".to_string(), area(0, 0, 40, 1))]);

    // Row counts are held at the largest u16.
    let w = chat_window(&[usize::MAX, 5], 0, &area(0, 0, 40, 10), &[]);
    assert_eq!(w.total_rows, u16::MAX);
    assert_eq!(w.scroll_y, u16::MAX - 10);
}

#[test]
fn scrolled_up_note_sits_bottom_right() {
    let (text, spot) = scroll_badge(12, &area(10, 5, 60, 10)).expect("shown");
    assert_eq!(text, " ↓ 12 lines up (End to bottom) ");
    let w = text.len() as u16;
    assert_eq!(spot, area(10 + 60 - w - 2, 14, w, 1));
    assert_eq!(scroll_badge(0, &area(0, 0, 60, 10)), None);
    assert_eq!(scroll_badge(3, &area(0, 0, 29, 10)), None);
    assert_eq!(scroll_badge(3, &area(0, 0, 60, 1)), None);
    // Too narrow for the note and two cells.
    assert_eq!(scroll_badge(3, &area(0, 0, 34, 10)), None);
}

#[test]
fn completion_popup_sits_above_the_input() {
    assert_eq!(completion_popup_area(120, 40, false, PopupKind::Command, 3), Some(area(0, 28, 64, 5)));
    assert_eq!(completion_popup_area(120, 40, true, PopupKind::Model, 20), Some(area(10, 22, 70, 10)));
    assert_eq!(completion_popup_area(60, 20, true, PopupKind::Theme, 2), Some(area(2, 8, 50, 4)));
    assert_eq!(completion_popup_area(120, 40, false, PopupKind::Command, 0), None);
    assert_eq!(completion_popup_area(50, 8, false, PopupKind::Command, 3), None);
    assert_eq!(completion_popup_area(0, 40, false, PopupKind::Command, 3), None);
}

#[test]
fn popup_windows() {
    assert_eq!(clawcode_tui::layout::popup_window(10, 0, 4), (0, 4));
    assert_eq!(clawcode_tui::layout::popup_window(10, 5, 4), (2, 4));
    assert_eq!(clawcode_tui::layout::popup_window(3, 2, 8), (0, 3));
    assert_eq!(clawcode_tui::layout::popup_window(10, 9, 4), (6, 4));
    assert_eq!(clawcode_tui::layout::popup_window(0, 0, 4), (0, 0));
}
