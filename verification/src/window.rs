//! The main window's visibility lifecycle: commands, state, and the
//! close-hides-instead-of-quits policy.

use vstd::prelude::*;

verus! {

/// What a routed event asks the host to do with the main window.
#[derive(PartialEq, Eq, Structural, Clone, Copy)]
pub enum WindowCommand {
    /// Unminimize, show, and focus the window.
    Reveal,
    /// Leave the window as it is.
    Keep,
}

/// The window state this shell cares about.  The window object itself is
/// never destroyed by this layer: a hidden window stays recoverable.
#[derive(PartialEq, Eq, Structural, Clone, Copy)]
pub struct WindowModel {
    pub visible: bool,
    pub minimized: bool,
    pub focused: bool,
}

/// The state a window command leaves the window in.
pub open spec fn spec_apply_window(w: WindowModel, c: WindowCommand) -> WindowModel {
    match c {
        WindowCommand::Reveal => WindowModel { visible: true, minimized: false, focused: true },
        WindowCommand::Keep => w,
    }
}

/// Apply a window command to the current window state.
pub fn apply_window_command(w: WindowModel, c: WindowCommand) -> (r: WindowModel)
    ensures
        r == spec_apply_window(w, c),
{
    match c {
        WindowCommand::Reveal => WindowModel { visible: true, minimized: false, focused: true },
        WindowCommand::Keep => w,
    }
}

/// The answer to a user-initiated close request on the main window.
#[derive(PartialEq, Eq, Structural, Clone, Copy)]
pub struct CloseResponse {
    /// The host must suppress its default close/terminate action.
    pub prevent_close: bool,
    /// The shell never exits the process on a close request.
    pub exit: bool,
    /// The window state after the request is handled.
    pub window: WindowModel,
}

/// The close policy: suppress the default close action and hide the window,
/// leaving the rest of its state untouched.
pub open spec fn spec_on_close(w: WindowModel) -> CloseResponse {
    CloseResponse {
        prevent_close: true,
        exit: false,
        window: WindowModel { visible: false, ..w },
    }
}

/// Handle a close request: the window hides rather than closes, and the
/// process keeps running.  This is a standing policy for the lifetime of the
/// window, applied to every close request.
pub fn on_close_requested(w: WindowModel) -> (r: CloseResponse)
    ensures
        r == spec_on_close(w),
{
    CloseResponse { prevent_close: true, exit: false, window: WindowModel { visible: false, ..w } }
}

/// A close request never terminates the process and leaves the window
/// hidden but alive: a later Reveal command (the "open" selection) makes it
/// visible again.
pub proof fn lemma_close_hides_and_is_recoverable(w: WindowModel)
    ensures
        spec_on_close(w).prevent_close,
        !spec_on_close(w).exit,
        !spec_on_close(w).window.visible,
        spec_apply_window(spec_on_close(w).window, WindowCommand::Reveal).visible,
{
}

} // verus!
