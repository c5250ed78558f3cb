//! What the launcher does on each event of its shortcut, tray, menu and window.
use vstd::prelude::*;
use crate::text::text_equals;

verus! {

/// An event the launcher reacts to.
#[derive(Debug)]
pub enum LauncherEvent {
    /// The global shortcut went down.
    ShortcutPressed,
    /// The global shortcut came up.
    ShortcutReleased,
    /// A tray menu item with this id was chosen.
    MenuItem(String),
    /// The tray icon was clicked.
    TrayClick { left_button: bool, released: bool },
    /// Another tray icon event (hover, double click, ...).
    OtherTrayEvent,
    /// The main window gained (`true`) or lost (`false`) focus.
    WindowFocused(bool),
    /// The user asked to close the main window.
    WindowCloseRequested,
    /// Another window event.
    OtherWindowEvent,
}

/// What the launcher does in answer to an event.
#[derive(Debug, PartialEq, Eq, Structural)]
pub enum LauncherAction {
    /// Show the main window if hidden, hide it if shown.
    ToggleWindow,
    /// Leave the application with this exit code.
    Quit(i32),
    /// Hide the main window.
    HideWindow,
    /// Refuse to close the main window, and hide it instead.
    PreventCloseAndHide,
    /// Nothing.
    Ignore,
}

/// The id of the tray menu item that shows or hides the launcher.
pub open spec fn toggle_item_id() -> Seq<char> {
    "toggle-launcher"@
}

/// The id of the tray menu item that quits.
pub open spec fn quit_item_id() -> Seq<char> {
    "quit-vaise"@
}

/// The action for each event.
pub open spec fn action_for(event: LauncherEvent) -> LauncherAction {
    match event {
        LauncherEvent::ShortcutPressed => LauncherAction::ToggleWindow,
        LauncherEvent::MenuItem(id) => if id@ == toggle_item_id() {
            LauncherAction::ToggleWindow
        } else if id@ == quit_item_id() {
            LauncherAction::Quit(0)
        } else {
            LauncherAction::Ignore
        },
        LauncherEvent::TrayClick { left_button, released } => if left_button && released {
            LauncherAction::ToggleWindow
        } else {
            LauncherAction::Ignore
        },
        LauncherEvent::WindowFocused(focused) => if focused {
            LauncherAction::Ignore
        } else {
            LauncherAction::HideWindow
        },
        LauncherEvent::WindowCloseRequested => LauncherAction::PreventCloseAndHide,
        _ => LauncherAction::Ignore,
    }
}

/// Decides what the launcher does on `event`.
pub fn launcher_action(event: &LauncherEvent) -> (r: LauncherAction)
    ensures
        r == action_for(*event),
{
    match event {
        LauncherEvent::ShortcutPressed => LauncherAction::ToggleWindow,
        LauncherEvent::MenuItem(id) => {
            if text_equals(id.as_str(), "toggle-launcher") {
                LauncherAction::ToggleWindow
            } else if text_equals(id.as_str(), "quit-vaise") {
                LauncherAction::Quit(0)
            } else {
                LauncherAction::Ignore
            }
        },
        LauncherEvent::TrayClick { left_button, released } => {
            if *left_button && *released {
                LauncherAction::ToggleWindow
            } else {
                LauncherAction::Ignore
            }
        },
        LauncherEvent::WindowFocused(focused) => {
            if *focused {
                LauncherAction::Ignore
            } else {
                LauncherAction::HideWindow
            }
        },
        LauncherEvent::WindowCloseRequested => LauncherAction::PreventCloseAndHide,
        LauncherEvent::ShortcutReleased => LauncherAction::Ignore,
        LauncherEvent::OtherTrayEvent => LauncherAction::Ignore,
        LauncherEvent::OtherWindowEvent => LauncherAction::Ignore,
    }
}

/// An item of the tray menu.
#[derive(Debug)]
pub struct MenuItemSpec {
    pub id: String,
    pub label: String,
}

/// The tray menu: an item that shows or hides the launcher, then one that quits.
pub fn tray_menu_items() -> (r: Vec<MenuItemSpec>)
    ensures
        r@.len() == 2,
        r@[0].id@ == toggle_item_id(),
        r@[0].label@ == "Open / Hide Vaise"@,
        r@[1].id@ == quit_item_id(),
        r@[1].label@ == "Quit Vaise"@,
{
    vec![
        MenuItemSpec {
            id: String::from_str("toggle-launcher"),
            label: String::from_str("Open / Hide Vaise"),
        },
        MenuItemSpec { id: String::from_str("quit-vaise"), label: String::from_str("Quit Vaise") },
    ]
}

/// Choosing the first tray menu item toggles the launcher, choosing the second quits
/// with exit code 0: the ids the menu is built with are the ones the launcher answers.
pub proof fn lemma_menu_items_dispatch(first: String, second: String)
    requires
        first@ == toggle_item_id(),
        second@ == quit_item_id(),
    ensures
        action_for(LauncherEvent::MenuItem(first)) == LauncherAction::ToggleWindow,
        action_for(LauncherEvent::MenuItem(second)) == LauncherAction::Quit(0),
{
    reveal_strlit("toggle-launcher");
    reveal_strlit("quit-vaise");
    assert(toggle_item_id().len() != quit_item_id().len());
}

/// One step of showing or hiding the main window.
#[derive(Debug, PartialEq, Eq, Structural)]
pub enum ToggleStep {
    /// The window was shown: hide it.
    Hide,
    /// The window was hidden: show it, bring it forward, focus it and ask the page to
    /// focus its search field.
    ShowAndFocus,
}

/// The step that toggling takes, given whether there is a main window and, if so,
/// whether it is shown.
pub open spec fn toggle_step_for(window: Option<bool>) -> Result<ToggleStep, Seq<char>> {
    match window {
        None => Err("Main window is not available"@),
        Some(visible) => if visible {
            Ok(ToggleStep::Hide)
        } else {
            Ok(ToggleStep::ShowAndFocus)
        },
    }
}

/// Decides how to toggle the main window: `window` is `None` when there is no main
/// window, else whether it is shown.
pub fn toggle_main_window(window: Option<bool>) -> (r: Result<ToggleStep, String>)
    ensures
        match (r, toggle_step_for(window)) {
            (Ok(step), Ok(expected)) => step == expected,
            (Err(message), Err(expected)) => message@ == expected,
            _ => false,
        },
{
    match window {
        None => Err(String::from_str("Main window is not available")),
        Some(visible) => {
            if visible {
                Ok(ToggleStep::Hide)
            } else {
                Ok(ToggleStep::ShowAndFocus)
            }
        },
    }
}

/// Whether the main window is shown after a toggle step.
pub open spec fn shown_after(step: ToggleStep) -> bool {
    step == ToggleStep::ShowAndFocus
}

/// Toggling flips the window: a shown window ends hidden, a hidden one shown; so
/// toggling twice brings it back to where it was.
pub proof fn lemma_toggle_flips(visible: bool)
    ensures
        toggle_step_for(Some(visible)) matches Ok(step) && shown_after(step) == !visible,
        toggle_step_for(Some(!visible)) matches Ok(second) && shown_after(second) == visible,
{
}

/// What each event does: the shortcut toggles when pressed; a left click released on
/// the tray icon toggles, any other click does nothing; losing focus hides the window,
/// gaining it does nothing; closing is refused and hides instead; other events do nothing.
pub proof fn lemma_event_actions(left_button: bool, released: bool, focused: bool)
    ensures
        action_for(LauncherEvent::ShortcutPressed) == LauncherAction::ToggleWindow,
        action_for(LauncherEvent::ShortcutReleased) == LauncherAction::Ignore,
        (action_for(LauncherEvent::TrayClick { left_button, released }) == LauncherAction::ToggleWindow)
            == (left_button && released),
        !(left_button && released) ==> action_for(LauncherEvent::TrayClick { left_button, released })
            == LauncherAction::Ignore,
        action_for(LauncherEvent::OtherTrayEvent) == LauncherAction::Ignore,
        action_for(LauncherEvent::WindowFocused(focused)) == (if focused {
            LauncherAction::Ignore
        } else {
            LauncherAction::HideWindow
        }),
        action_for(LauncherEvent::WindowCloseRequested) == LauncherAction::PreventCloseAndHide,
        action_for(LauncherEvent::OtherWindowEvent) == LauncherAction::Ignore,
{
}

/// A menu item whose id is neither the toggle item's nor the quit item's does nothing.
pub proof fn lemma_unknown_menu_items_ignored(id: String)
    requires
        id@ != "toggle-launcher"@,
        id@ != "quit-vaise"@,
    ensures
        action_for(LauncherEvent::MenuItem(id)) == LauncherAction::Ignore,
{
}

/// Toggling without a main window fails with the message the launcher reports.
pub proof fn lemma_toggle_without_window()
    ensures
        toggle_step_for(None) == Err::<ToggleStep, Seq<char>>("Main window is not available"@),
{
}

} // verus!
