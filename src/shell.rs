//! Decisions of the desktop shell around the signer: which global shortcuts
//! are registered and what each one asks the interface to do, and how the
//! development window is laid out.

use vstd::prelude::*;
use crate::text::same_text;

verus! {

/// A key pressed together with the platform's super modifier.
#[derive(PartialEq, Eq, Structural, Clone, Copy, Debug)]
pub enum ShortcutKey {
    Enter,
    KeyK,
    ArrowLeft,
    ArrowRight,
}

pub open spec fn shortcut_event_spec(k: ShortcutKey) -> Seq<char> {
    match k {
        ShortcutKey::Enter => "search"@,
        ShortcutKey::KeyK => "search-alt"@,
        ShortcutKey::ArrowLeft => "navigate-back"@,
        ShortcutKey::ArrowRight => "navigate-forward"@,
    }
}

/// Name of the event the interface receives for every shortcut.
pub const SHORTCUT_EVENT: &'static str = "global-shortcut";

/// The payload sent with the shortcut event when `key` is pressed.
pub fn shortcut_event(key: ShortcutKey) -> (r: &'static str)
    ensures
        r@ == shortcut_event_spec(key),
{
    match key {
        ShortcutKey::Enter => "search",
        ShortcutKey::KeyK => "search-alt",
        ShortcutKey::ArrowLeft => "navigate-back",
        ShortcutKey::ArrowRight => "navigate-forward",
    }
}

/// The shortcuts registered at start-up, in order.
pub fn global_shortcuts() -> (r: Vec<ShortcutKey>)
    ensures
        r@ == seq![ShortcutKey::Enter, ShortcutKey::KeyK, ShortcutKey::ArrowLeft, ShortcutKey::ArrowRight],
{
    let r = vec![ShortcutKey::Enter, ShortcutKey::KeyK, ShortcutKey::ArrowLeft, ShortcutKey::ArrowRight];
    assert(r@ =~= seq![ShortcutKey::Enter, ShortcutKey::KeyK, ShortcutKey::ArrowLeft, ShortcutKey::ArrowRight]);
    r
}

/// How a development build lays out its window.
#[derive(PartialEq, Eq, Structural, Clone, Copy, Debug)]
pub enum DevLayout {
    /// Almost the monitor's full width, with the developer tools open.
    Wide,
    /// The configured size, without developer tools.
    Clean,
    /// The configured size, with the developer tools open.
    Standard,
}

/// Reads the layout from its setting; an unknown or empty setting is `Standard`.
pub fn parse_dev_layout(setting: &str) -> (r: DevLayout)
    ensures
        setting@ == "wide"@ ==> r == DevLayout::Wide,
        setting@ == "clean"@ ==> r == DevLayout::Clean,
        setting@ != "wide"@ && setting@ != "clean"@ ==> r == DevLayout::Standard,
{
    proof {
        reveal_strlit("wide");
        reveal_strlit("clean");
        assert("wide"@.len() != "clean"@.len());
    }
    if same_text(setting, "wide") {
        DevLayout::Wide
    } else if same_text(setting, "clean") {
        DevLayout::Clean
    } else {
        DevLayout::Standard
    }
}

impl DevLayout {
    /// Whether the developer tools are opened.
    pub fn opens_devtools(&self) -> (r: bool)
        ensures
            r == (*self != DevLayout::Clean),
    {
        !matches!(self, DevLayout::Clean)
    }
}

/// Space left free beside the wide window, for a dock.
pub const DOCK_MARGIN: u32 = 50;

/// Height of the wide window.
pub const WIDE_HEIGHT: u32 = 1200;

/// Shift to the right of the centred wide window, away from a dock.
pub const DOCK_SHIFT: i64 = 15;

/// Size and position of a window, in physical pixels.
#[derive(PartialEq, Eq, Structural, Clone, Copy, Debug)]
pub struct WindowFrame {
    pub width: u32,
    pub height: u32,
    pub x: i32,
    pub y: i32,
}

/// The wide development window on a monitor of width `monitor_width` whose
/// top-left corner is at (`monitor_x`, `monitor_y`): the monitor's width less
/// the dock margin, centred and then shifted right. `None` when the monitor is
/// narrower than the margin or the position does not fit.
pub fn wide_window_frame(monitor_width: u32, monitor_x: i32, monitor_y: i32) -> (r: Option<WindowFrame>)
    ensures
        ({
            let width = monitor_width - DOCK_MARGIN;
            let x = monitor_x + (monitor_width - width) / 2 + DOCK_SHIFT;
            match r {
                Some(f) => monitor_width >= DOCK_MARGIN && f == (WindowFrame {
                    width: width as u32,
                    height: WIDE_HEIGHT,
                    x: x as i32,
                    y: monitor_y,
                }) && i32::MIN <= x <= i32::MAX,
                None => monitor_width < DOCK_MARGIN || x < i32::MIN || x > i32::MAX,
            }
        }),
{
    if monitor_width < DOCK_MARGIN {
        return None;
    }
    let width = monitor_width - DOCK_MARGIN;
    let x = monitor_x as i64 + ((monitor_width - width) / 2) as i64 + DOCK_SHIFT;
    if x < i32::MIN as i64 || x > i32::MAX as i64 {
        return None;
    }
    Some(WindowFrame { width, height: WIDE_HEIGHT, x: x as i32, y: monitor_y })
}

} // verus!
