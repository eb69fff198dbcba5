//! The window's display mode and the key that toggles it.

use vstd::prelude::*;

verus! {

/// How the game window is shown.
#[derive(Clone, Copy, Debug, PartialEq, Eq, Structural)]
pub enum WindowMode {
    Windowed,
    BorderlessFullscreen,
    SizedFullscreen,
    Fullscreen,
}

/// The mode a window in `mode` goes to when the fullscreen key was pressed.
pub open spec fn toggled(mode: WindowMode) -> WindowMode {
    if mode == WindowMode::BorderlessFullscreen {
        WindowMode::Windowed
    } else {
        WindowMode::BorderlessFullscreen
    }
}

/// The window mode after a frame in which the fullscreen key was or was not
/// just pressed: a press leaves borderless fullscreen for a window and
/// anything else for borderless fullscreen.
pub fn full_screen(just_pressed: bool, mode: WindowMode) -> (next: WindowMode)
    ensures
        next == if just_pressed {
            toggled(mode)
        } else {
            mode
        },
{
    if just_pressed {
        match mode {
            WindowMode::BorderlessFullscreen => WindowMode::Windowed,
            _ => WindowMode::BorderlessFullscreen,
        }
    } else {
        mode
    }
}

} // verus!
