use vstd::prelude::*;
use crate::input::MouseButton;

verus! {

/// The state of the mouse cursor: whether it is locked to the window and
/// whether it is drawn.
#[derive(Clone, Copy, Debug, PartialEq, Eq, Structural)]
pub struct CursorState {
    pub locked: bool,
    pub visible: bool,
}

/// The cursor state with both the lock and the visibility flipped.
pub open spec fn toggled(s: CursorState) -> CursorState {
    CursorState { locked: !s.locked, visible: !s.visible }
}

/// Grabs the cursor if it is free and frees it if it is grabbed.
pub fn toggle_grab_cursor(state: CursorState) -> (r: CursorState)
    ensures
        r == toggled(state),
{
    CursorState { locked: !state.locked, visible: !state.visible }
}

/// Escape grabs or frees the cursor: the state after a frame in which
/// escape was, or was not, just pressed.
pub fn cursor_grab(state: CursorState, escape_just_pressed: bool) -> (r: CursorState)
    ensures
        r == (if escape_just_pressed { toggled(state) } else { state }),
{
    if escape_just_pressed {
        toggle_grab_cursor(state)
    } else {
        state
    }
}

/// Toggling the grab twice leaves the cursor as it was.
pub proof fn lemma_toggle_twice(state: CursorState)
    ensures
        toggled(toggled(state)) == state,
{
}

/// Mouse motion turns the camera only while the cursor is locked or while
/// the left or right button is held.
pub fn look_enabled(cursor_locked: bool, pressed: &Vec<MouseButton>) -> (r: bool)
    ensures
        r == (cursor_locked || pressed@.contains(MouseButton::Left) || pressed@.contains(
            MouseButton::Right,
        )),
{
    if cursor_locked {
        return true;
    }
    let mut i: usize = 0;
    while i < pressed.len()
        invariant
            i <= pressed.len(),
            forall|j: int|
                0 <= j < i ==> #[trigger] pressed@[j] != MouseButton::Left && pressed@[j]
                    != MouseButton::Right,
        decreases pressed.len() - i,
    {
        match pressed[i] {
            MouseButton::Left | MouseButton::Right => return true,
            MouseButton::Other => {},
        }
        i = i + 1;
    }
    false
}

} // verus!
