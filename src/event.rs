use vstd::prelude::*;
use crate::input::{Key, MouseButton, Action, key_of_code, mouse_button_of_code, action_of_code, key_from_code, mouse_button_from_code, action_from_code};

verus! {

/// An event that a window receives. A coordinate pair is carried as the
/// IEEE-754 bit patterns of the two `f64` values that the native backend
/// reported (`f64::to_bits`), so that the event model holds plain integers.
#[derive(Debug, PartialEq)]
pub enum Event {
    /// Key, action, scancode, modifiers.
    Key(Key, Action, i32, i32),
    /// Button, action, modifiers.
    MouseButton(MouseButton, Action, i32),
    /// Bit patterns of the cursor's x and y.
    MousePosition(u64, u64),
    /// Bit patterns of the scroll offsets along x and y.
    MouseScroll(u64, u64),
    /// Width and height of the framebuffer.
    FramebufferSize(i32, i32),
    WindowClose,
    /// The dropped paths, in the order the native backend listed them.
    DragNDrop(Vec<String>),
}

/// The key event that raw native arguments describe, if both codes are known.
pub open spec fn spec_key_event(key: i32, scancode: i32, action: i32, mods: i32) -> Option<Event> {
    match (key_of_code(key), action_of_code(action)) {
        (Some(k), Some(a)) => Some(Event::Key(k, a, scancode, mods)),
        _ => None,
    }
}

/// The mouse button event that raw native arguments describe, if both codes
/// are known.
pub open spec fn spec_mouse_button_event(button: i32, action: i32, mods: i32) -> Option<Event> {
    match (mouse_button_of_code(button), action_of_code(action)) {
        (Some(b), Some(a)) => Some(Event::MouseButton(b, a, mods)),
        _ => None,
    }
}

/// Builds the key event from the raw arguments of a native key callback.
/// `None` when the key code or the action code is one that the binding does
/// not know: the caller must not go on with such an event.
pub fn key_event(key: i32, scancode: i32, action: i32, mods: i32) -> (r: Option<Event>)
    ensures
        r == spec_key_event(key, scancode, action, mods),
{
    match (key_from_code(key), action_from_code(action)) {
        (Some(k), Some(a)) => Some(Event::Key(k, a, scancode, mods)),
        _ => None,
    }
}

/// Builds the mouse button event from the raw arguments of a native mouse
/// button callback. `None` when the button index or the action code is one
/// that the binding does not know.
pub fn mouse_button_event(button: i32, action: i32, mods: i32) -> (r: Option<Event>)
    ensures
        r == spec_mouse_button_event(button, action, mods),
{
    match (mouse_button_from_code(button), action_from_code(action)) {
        (Some(b), Some(a)) => Some(Event::MouseButton(b, a, mods)),
        _ => None,
    }
}

/// Builds the drag-and-drop event from the paths that a native drop callback
/// reported: an owned copy of each, in the same order.
pub fn drag_n_drop_event(paths: &Vec<&str>) -> (r: Event)
    ensures
        r matches Event::DragNDrop(v) && v.len() == paths.len()
            && forall|i: int| 0 <= i < paths.len() ==> #[trigger] v[i]@ == paths[i]@,
{
    let mut owned: Vec<String> = Vec::new();
    let mut i: usize = 0;
    while i < paths.len()
        invariant
            i <= paths.len(),
            owned.len() == i,
            forall|j: int| 0 <= j < i ==> #[trigger] owned[j]@ == paths[j]@,
        decreases paths.len() - i,
    {
        owned.push(paths[i].to_owned());
        i = i + 1;
    }
    Event::DragNDrop(owned)
}

} // verus!
