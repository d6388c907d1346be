//! The cursor-lock state machine.
//!
//! Two states: `Free` (cursor visible, unconstrained) and `Locked` (cursor
//! hidden, confined to the window). A left-mouse-button press edge locks
//! the cursor; an escape press edge frees it. Nothing else moves the
//! machine, and it starts `Free`.

use vstd::prelude::*;

verus! {

#[derive(Clone, Copy, Debug, PartialEq, Eq, Structural)]
pub enum CursorMode {
    Free,
    Locked,
}

/// The mode after one frame's press edges. When both edges arrive in the
/// same frame, escape is applied after the click, so the cursor ends free.
pub open spec fn spec_cursor_after(
    mode: CursorMode,
    left_just_pressed: bool,
    escape_just_pressed: bool,
) -> CursorMode {
    if escape_just_pressed {
        CursorMode::Free
    } else if left_just_pressed {
        CursorMode::Locked
    } else {
        mode
    }
}

impl CursorMode {
    /// The initial mode of a fresh window.
    pub fn initial() -> (m: CursorMode)
        ensures
            m == CursorMode::Free,
    {
        CursorMode::Free
    }

    /// Advance the machine by one frame of press edges.
    pub fn after_input(self, left_just_pressed: bool, escape_just_pressed: bool) -> (m: CursorMode)
        ensures
            m == spec_cursor_after(self, left_just_pressed, escape_just_pressed),
    {
        if escape_just_pressed {
            CursorMode::Free
        } else if left_just_pressed {
            CursorMode::Locked
        } else {
            self
        }
    }

    /// Whether the host should show the cursor: exactly in the free mode.
    pub fn cursor_visible(self) -> (v: bool)
        ensures
            v == (self is Free),
    {
        match self {
            CursorMode::Free => true,
            CursorMode::Locked => false,
        }
    }
}

/// A press edge while the machine is already in the state that the edge
/// leads to leaves it there: a second escape while free, or a second click
/// while locked, is a no-op.
pub proof fn lemma_cursor_edges_idempotent(left_just_pressed: bool, escape_just_pressed: bool)
    ensures
        escape_just_pressed ==> spec_cursor_after(
            CursorMode::Free,
            left_just_pressed,
            escape_just_pressed,
        ) == CursorMode::Free,
        left_just_pressed && !escape_just_pressed ==> spec_cursor_after(
            CursorMode::Locked,
            left_just_pressed,
            escape_just_pressed,
        ) == CursorMode::Locked,
{
}

/// A frame without press edges changes nothing.
pub proof fn lemma_cursor_quiet_frame(mode: CursorMode)
    ensures
        spec_cursor_after(mode, false, false) == mode,
{
}

} // verus!
