use vstd::prelude::*;

verus! {

/// How the window holds on to the mouse cursor.
#[derive(Clone, Copy, Debug, PartialEq, Eq, Structural)]
pub enum CursorGrab {
    /// The cursor moves freely and may leave the window.
    Free,
    /// The cursor is kept inside the window.
    Confined,
    /// The cursor is locked in place.
    Locked,
}

/// The cursor options that the game screen controls.
#[derive(Clone, Copy, Debug, PartialEq, Eq, Structural)]
pub struct CursorState {
    pub visible: bool,
    pub grab_mode: CursorGrab,
}

/// Marker for the window screen of the running game.
pub struct InGameScreenSceneWorkflow;

/// The cursor after one frame: Escape shows and frees it, a left click hides
/// and locks it; the click is handled after Escape, so it wins when both come
/// in the same frame.
pub open spec fn cursor_after(cursor: CursorState, escape_just_pressed: bool, left_just_pressed: bool) -> CursorState {
    if left_just_pressed {
        CursorState { visible: false, grab_mode: CursorGrab::Locked }
    } else if escape_just_pressed {
        CursorState { visible: true, grab_mode: CursorGrab::Free }
    } else {
        cursor
    }
}

impl InGameScreenSceneWorkflow {
    /// Enables or disables the cursor on the game screen for this frame's input.
    pub fn draw_cursor(cursor: &mut CursorState, escape_just_pressed: bool, left_just_pressed: bool)
        ensures
            *final(cursor) == cursor_after(*old(cursor), escape_just_pressed, left_just_pressed),
    {
        if escape_just_pressed {
            cursor.visible = true;
            cursor.grab_mode = CursorGrab::Free;
        }
        if left_just_pressed {
            cursor.visible = false;
            cursor.grab_mode = CursorGrab::Locked;
        }
    }
}

/// A left click always hides and locks the cursor, whatever the cursor was
/// and whether Escape came in the same frame.
pub proof fn lemma_click_locks_cursor(cursor: CursorState, escape_just_pressed: bool)
    ensures
        cursor_after(cursor, escape_just_pressed, true) == (CursorState { visible: false, grab_mode: CursorGrab::Locked }),
{
}

/// Escape without a click shows and frees the cursor.
pub proof fn lemma_escape_frees_cursor(cursor: CursorState)
    ensures
        cursor_after(cursor, true, false) == (CursorState { visible: true, grab_mode: CursorGrab::Free }),
{
}

/// Without Escape or a click the cursor stays as it is.
pub proof fn lemma_no_input_keeps_cursor(cursor: CursorState)
    ensures
        cursor_after(cursor, false, false) == cursor,
{
}

/// Any input decides the cursor alone: two cursors that get the same
/// Escape or click end up the same, and handling the same input again
/// changes nothing.
pub proof fn lemma_input_decides_cursor(
    first: CursorState,
    second: CursorState,
    escape_just_pressed: bool,
    left_just_pressed: bool,
)
    requires
        escape_just_pressed || left_just_pressed,
    ensures
        cursor_after(first, escape_just_pressed, left_just_pressed) == cursor_after(
            second,
            escape_just_pressed,
            left_just_pressed,
        ),
        cursor_after(cursor_after(first, escape_just_pressed, left_just_pressed), escape_just_pressed, left_just_pressed)
            == cursor_after(first, escape_just_pressed, left_just_pressed),
{
}

} // verus!
