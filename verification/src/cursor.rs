//! Cursor-capture state machine.
//!
//! Pointer motion drives the orbit camera only while the pointer is
//! captured. Capture begins on the primary-button press edge and ends on
//! the cancel-key press edge; when both edges fire in the same frame the
//! button wins and the pointer stays captured.

use vstd::prelude::*;

verus! {

/// Whether pointer motion is routed exclusively to the camera
/// (`Captured`) or left to the desktop (`Free`).
#[derive(Clone, Copy, PartialEq, Eq, Structural, Debug)]
pub enum CursorCaptureState {
    Free,
    Captured,
}

impl CursorCaptureState {
    /// The state a fresh window starts in: the pointer is free.
    pub fn initial() -> (r: CursorCaptureState)
        ensures
            r == CursorCaptureState::Free,
    {
        CursorCaptureState::Free
    }

    /// Advances the machine by one frame of press edges. The primary
    /// button captures, the cancel key releases, and a frame with both
    /// edges ends captured; a frame with neither leaves the state alone.
    pub fn step(self, primary_pressed: bool, cancel_pressed: bool) -> (r: CursorCaptureState)
        ensures
            primary_pressed ==> r == CursorCaptureState::Captured,
            !primary_pressed && cancel_pressed ==> r == CursorCaptureState::Free,
            !primary_pressed && !cancel_pressed ==> r == self,
    {
        if primary_pressed {
            CursorCaptureState::Captured
        } else if cancel_pressed {
            CursorCaptureState::Free
        } else {
            self
        }
    }

    /// The pointer is visible exactly while it is free.
    pub fn pointer_visible(self) -> (r: bool)
        ensures
            r == (self == CursorCaptureState::Free),
    {
        match self {
            CursorCaptureState::Free => true,
            CursorCaptureState::Captured => false,
        }
    }

    /// The operating-system pointer lock is engaged exactly while
    /// captured.
    pub fn pointer_locked(self) -> (r: bool)
        ensures
            r == (self == CursorCaptureState::Captured),
    {
        match self {
            CursorCaptureState::Free => false,
            CursorCaptureState::Captured => true,
        }
    }
}

} // verus!
