//! Window and input events, reduced to what the renderer reads of them.

use vstd::prelude::*;

verus! {

#[derive(Clone, Copy, Debug, PartialEq, Eq, Structural)]
pub enum MouseButton {
    Left,
    Right,
    Middle,
    Other,
}

#[derive(Clone, Copy, Debug, PartialEq, Eq, Structural)]
pub enum ElementState {
    Pressed,
    Released,
}

/// An event of the window that is handed on to the renderer.
#[derive(Debug, PartialEq, Eq)]
pub enum InputEvent {
    /// A key whose logical meaning is the text `text` was pressed or released.
    Character { text: String, state: ElementState },
    /// A mouse button was pressed or released.
    MouseInput { button: MouseButton, state: ElementState },
    /// The cursor moved to (`x`, `y`), two double-precision numbers.
    CursorMoved { x: u64, y: u64 },
    /// Anything else.
    Other,
}

impl InputEvent {
    /// A copy of this event.
    pub fn duplicate(&self) -> (copy: InputEvent)
        ensures
            copy == *self,
    {
        match self {
            InputEvent::Character { text, state } => InputEvent::Character {
                text: text.clone(),
                state: *state,
            },
            InputEvent::MouseInput { button, state } => InputEvent::MouseInput {
                button: *button,
                state: *state,
            },
            InputEvent::CursorMoved { x, y } => InputEvent::CursorMoved { x: *x, y: *y },
            InputEvent::Other => InputEvent::Other,
        }
    }
}

/// An event of the event loop.
#[derive(Debug, PartialEq, Eq)]
pub enum LoopEvent {
    /// The loop has started.
    Init,
    /// The application was resumed.
    Resumed,
    /// The application was suspended.
    Suspended,
    /// The window has a new size.
    Resized { width: u32, height: u32 },
    /// The window was asked to close.
    CloseRequested,
    /// The escape key was pressed or released.
    EscapeKey,
    /// The window has to be drawn again.
    RedrawRequested,
    /// Another event of the window.
    Window(InputEvent),
    /// Anything else.
    Other,
}

/// Where the program runs, as far as the surface's life cycle depends on it.
#[derive(Clone, Copy, Debug, PartialEq, Eq, Structural)]
pub enum Platform {
    /// A desktop system: the surface is made when the loop starts.
    Desktop,
    /// Android: the surface is made on each resume and dropped on suspend.
    Android,
    /// A browser: the surface has to exist before an adapter is asked for.
    Web,
}

} // verus!
