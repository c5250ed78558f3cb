use vaise::icon::tray_icon_image;
use vaise::launcher::{launcher_action, toggle_main_window, tray_menu_items, LauncherAction, LauncherEvent, ToggleStep};
use vaise::text::{chars_less, text_chars, text_equals};

#[test]
fn shortcut_press_toggles() {
    assert_eq!(launcher_action(&LauncherEvent::ShortcutPressed), LauncherAction::ToggleWindow);
    assert_eq!(launcher_action(&LauncherEvent::ShortcutReleased), LauncherAction::Ignore);
}

#[test]
fn menu_items_dispatch() {
    assert_eq!(
        launcher_action(&LauncherEvent::MenuItem("toggle-launcher".to_string())),
        LauncherAction::ToggleWindow
    );
    assert_eq!(launcher_action(&LauncherEvent::MenuItem("quit-vaise".to_string())), LauncherAction::Quit(0));
    assert_eq!(launcher_action(&LauncherEvent::MenuItem("quit".to_string())), LauncherAction::Ignore);
    assert_eq!(launcher_action(&LauncherEvent::MenuItem(String::new())), LauncherAction::Ignore);
}

#[test]
fn tray_menu_is_toggle_then_quit() {
    let items = tray_menu_items();
    assert_eq!(items.len(), 2);
    assert_eq!(items[0].id, "toggle-launcher");
    assert_eq!(items[0].label, "Open / Hide Vaise");
    assert_eq!(items[1].id, "quit-vaise");
    assert_eq!(items[1].label, "Quit Vaise");
    for (item, expected) in items.iter().zip([LauncherAction::ToggleWindow, LauncherAction::Quit(0)]) {
        assert_eq!(launcher_action(&LauncherEvent::MenuItem(item.id.clone())), expected);
    }
}

#[test]
fn only_left_click_release_toggles() {
    let click = |left_button, released| launcher_action(&LauncherEvent::TrayClick { left_button, released });
    assert_eq!(click(true, true), LauncherAction::ToggleWindow);
    assert_eq!(click(true, false), LauncherAction::Ignore);
    assert_eq!(click(false, true), LauncherAction::Ignore);
    assert_eq!(click(false, false), LauncherAction::Ignore);
    assert_eq!(launcher_action(&LauncherEvent::OtherTrayEvent), LauncherAction::Ignore);
}

#[test]
fn window_hides_on_blur_and_close() {
    assert_eq!(launcher_action(&LauncherEvent::WindowFocused(false)), LauncherAction::HideWindow);
    assert_eq!(launcher_action(&LauncherEvent::WindowFocused(true)), LauncherAction::Ignore);
    assert_eq!(launcher_action(&LauncherEvent::WindowCloseRequested), LauncherAction::PreventCloseAndHide);
    assert_eq!(launcher_action(&LauncherEvent::OtherWindowEvent), LauncherAction::Ignore);
}

#[test]
fn toggle_hides_shown_and_shows_hidden() {
    assert_eq!(toggle_main_window(Some(true)), Ok(ToggleStep::Hide));
    assert_eq!(toggle_main_window(Some(false)), Ok(ToggleStep::ShowAndFocus));
    assert_eq!(toggle_main_window(None), Err("Main window is not available".to_string()));
}

#[test]
fn text_helpers_compare_like_str() {
    let words = ["", "a", "A", "ab", "b", "é", "z", "Z", "aa", "tmux", "VS Code"];
    for x in words {
        for y in words {
            assert_eq!(chars_less(&text_chars(x), &text_chars(y)), x < y, "{:?} < {:?}", x, y);
            assert_eq!(text_equals(x, y), x == y);
        }
    }
}

const TWO_PIXEL_PNG: [u8; 71] = [
    137, 80, 78, 71, 13, 10, 26, 10, 0, 0, 0, 13, 73, 72, 68, 82, 0, 0, 0, 2, 0, 0, 0, 1, 8, 6, 0, 0, 0,
    244, 34, 127, 138, 0, 0, 0, 14, 73, 68, 65, 84, 120, 156, 99, 248, 207, 192, 0, 66, 13, 0, 15, 122,
    3, 126, 119, 233, 127, 151, 0, 0, 0, 0, 73, 69, 78, 68, 174, 66, 96, 130,
];

#[test]
fn icon_decodes_png_pixels() {
    let icon = tray_icon_image(&TWO_PIXEL_PNG).expect("valid png");
    assert_eq!((icon.width, icon.height), (2, 1));
    assert_eq!(icon.rgba, vec![255, 0, 0, 255, 0, 0, 255, 128]);
}

#[test]
fn icon_reports_decoding_errors() {
    let error = tray_icon_image(b"not a png").err().expect("decoding fails");
    assert!(error.starts_with("Unable to decode tray icon PNG: "), "{}", error);
    assert!(error.len() > "Unable to decode tray icon PNG: ".len());
}
