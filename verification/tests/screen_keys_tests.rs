use clawcode_tui::events::{screen_key, Input, ScreenKey};

#[test]
fn quit_closes_the_session_panel_first() {
    assert_eq!(screen_key(Input::Quit, true, 0), ScreenKey::CloseSessionPanel);
    assert_eq!(screen_key(Input::Quit, false, 0), ScreenKey::Exit);
}

#[test]
fn scrolling_steps_and_saturates() {
    assert_eq!(screen_key(Input::ScrollUp, false, 10), ScreenKey::ScrollTo(13));
    assert_eq!(screen_key(Input::ScrollDown, false, 10), ScreenKey::ScrollTo(7));
    assert_eq!(screen_key(Input::PageUp, false, 10), ScreenKey::ScrollTo(25));
    assert_eq!(screen_key(Input::PageDown, false, 10), ScreenKey::ScrollTo(0));
    assert_eq!(screen_key(Input::ScrollDown, false, 2), ScreenKey::ScrollTo(0));
    assert_eq!(screen_key(Input::PageUp, false, u16::MAX - 4), ScreenKey::ScrollTo(u16::MAX));
}

#[test]
fn other_screen_keys() {
    assert_eq!(screen_key(Input::Cancel, false, 0), ScreenKey::CancelTurn);
    assert_eq!(screen_key(Input::Clear, false, 0), ScreenKey::ClearScreen);
    assert_eq!(screen_key(Input::Paste, false, 0), ScreenKey::PasteClipboard);
    assert_eq!(screen_key(Input::Submit, false, 0), ScreenKey::Submit);
    assert_eq!(screen_key(Input::WhichKey, false, 0), ScreenKey::ToggleWhichKey);
    assert_eq!(
        screen_key(Input::Click { column: 4, row: 9 }, false, 0),
        ScreenKey::Click { column: 4, row: 9 }
    );
    for input in [Input::Character('a'), Input::Backspace, Input::Up, Input::Down, Input::Left, Input::Right,
        Input::Home, Input::End, Input::ToggleMode]
    {
        assert_eq!(screen_key(input, true, 5), ScreenKey::Edit);
    }
}
