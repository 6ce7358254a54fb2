//! The virtual mouse: which button a request names, which events a click,
//! press or release sends, and where a relative move puts the cursor.

use vstd::prelude::*;

verus! {

/// A mouse button.
#[derive(Clone, Copy, Debug, PartialEq, Eq, Structural)]
pub enum MouseButton {
    Left,
    Right,
}

/// A mouse event to send to the system.
#[derive(Clone, Copy, Debug, PartialEq, Eq, Structural)]
pub enum MouseAction {
    LeftDown,
    LeftUp,
    RightDown,
    RightUp,
}

/// The button a request names: `right` is the right button, any other name
/// the left one.
pub open spec fn named_button(name: Seq<char>) -> MouseButton {
    if name == "right"@ {
        MouseButton::Right
    } else {
        MouseButton::Left
    }
}

/// The button that the request names (see `named_button`).
pub fn mouse_button(name: &str) -> (b: MouseButton)
    ensures
        b == named_button(name@),
{
    if name.to_owned() == "right".to_owned() {
        MouseButton::Right
    } else {
        MouseButton::Left
    }
}

/// The event that presses `button`.
pub open spec fn press_of(button: MouseButton) -> MouseAction {
    match button {
        MouseButton::Left => MouseAction::LeftDown,
        MouseButton::Right => MouseAction::RightDown,
    }
}

/// The event that releases `button`.
pub open spec fn release_of(button: MouseButton) -> MouseAction {
    match button {
        MouseButton::Left => MouseAction::LeftUp,
        MouseButton::Right => MouseAction::RightUp,
    }
}

/// The event a press of the named button sends.
pub fn press_action(name: &str) -> (a: MouseAction)
    ensures
        a == press_of(named_button(name@)),
{
    match mouse_button(name) {
        MouseButton::Left => MouseAction::LeftDown,
        MouseButton::Right => MouseAction::RightDown,
    }
}

/// The event a release of the named button sends.
pub fn release_action(name: &str) -> (a: MouseAction)
    ensures
        a == release_of(named_button(name@)),
{
    match mouse_button(name) {
        MouseButton::Left => MouseAction::LeftUp,
        MouseButton::Right => MouseAction::RightUp,
    }
}

/// The events a click of the named button sends, in order: press, then release.
pub fn click_actions(name: &str) -> (r: Vec<MouseAction>)
    ensures
        r@ == seq![press_of(named_button(name@)), release_of(named_button(name@))],
{
    let mut r: Vec<MouseAction> = Vec::new();
    r.push(press_action(name));
    r.push(release_action(name));
    r
}

/// The cursor position after moving from `(x, y)` by `(dx, dy)`.
pub fn cursor_target(x: i32, y: i32, dx: i32, dy: i32) -> (r: (i32, i32))
    requires
        i32::MIN <= x + dx <= i32::MAX,
        i32::MIN <= y + dy <= i32::MAX,
    ensures
        r.0 == x + dx,
        r.1 == y + dy,
{
    (x + dx, y + dy)
}

/// A click presses the button and then releases the same button.
pub proof fn law_click_is_press_then_release(name: Seq<char>)
    ensures
        press_of(named_button(name)) != release_of(named_button(name)),
        (press_of(named_button(name)) == MouseAction::RightDown) <==> (release_of(
            named_button(name),
        ) == MouseAction::RightUp),
{
}

} // verus!
