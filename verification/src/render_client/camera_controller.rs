//! Maps keyboard and mouse input to what moves the camera.
//!
//! The controller keeps what the input asks for. Moving the camera by it is
//! arithmetic on floating-point numbers and is done by the device layer.

use crate::render_client::event::{ElementState, InputEvent, MouseButton};
use crate::utils::float_bits::is_zero_f64;
use vstd::prelude::*;
use vstd::string::StrSliceExecFns;

verus! {

/// A step along the camera's axes: each component is -1, 0 or 1.
#[derive(Clone, Copy, Debug, PartialEq, Eq, Structural)]
pub struct MoveDir {
    pub x: i8,
    pub y: i8,
}

/// A position of the cursor: two double-precision numbers.
#[derive(Clone, Copy, Debug, PartialEq, Eq, Structural)]
pub struct CursorPos {
    pub x: u64,
    pub y: u64,
}

/// A movement of the cursor. The rotation that it asks for is `from - to`,
/// scaled by the sensitivity.
#[derive(Clone, Copy, Debug, PartialEq, Eq, Structural)]
pub struct CursorMove {
    pub from: CursorPos,
    pub to: CursorPos,
}

#[derive(Clone, Copy, Debug, PartialEq, Eq, Structural)]
pub struct CameraController {
    pub speed: u32,
    pub move_dir: MoveDir,
    pub cursor_delta: CursorMove,
    pub rotate_activated: bool,
    pub last_cursor_pos: CursorPos,
}

/// The step that a key asks for: `w` and `s` along y, `a` and `d` along x,
/// no step for any other text.
pub open spec fn key_direction(text: Seq<char>) -> MoveDir {
    if text == seq!['w'] {
        MoveDir { x: 0, y: -1i8 }
    } else if text == seq!['a'] {
        MoveDir { x: -1i8, y: 0 }
    } else if text == seq!['s'] {
        MoveDir { x: 0, y: 1 }
    } else if text == seq!['d'] {
        MoveDir { x: 1, y: 0 }
    } else {
        MoveDir { x: 0, y: 0 }
    }
}

/// Whether a position is the origin, as floating-point numbers compare.
pub open spec fn is_origin(pos: CursorPos) -> bool {
    crate::utils::float_bits::f64_is_zero(pos.x) && crate::utils::float_bits::f64_is_zero(pos.y)
}

fn direction_of(text: &str) -> (dir: MoveDir)
    ensures
        dir == key_direction(text@),
{
    if text.unicode_len() != 1 {
        return MoveDir { x: 0, y: 0 };
    }
    let c = text.get_char(0);
    assert(text@ =~= seq![c]);
    assert(seq!['w'][0] == 'w' && seq!['a'][0] == 'a' && seq!['s'][0] == 's' && seq!['d'][0] == 'd');
    if c == 'w' {
        MoveDir { x: 0, y: -1 }
    } else if c == 'a' {
        MoveDir { x: -1, y: 0 }
    } else if c == 's' {
        MoveDir { x: 0, y: 1 }
    } else if c == 'd' {
        MoveDir { x: 1, y: 0 }
    } else {
        MoveDir { x: 0, y: 0 }
    }
}

impl CameraController {
    /// A controller of the given speed that asks for no movement.
    pub open spec fn spec_new(speed: u32) -> CameraController {
        CameraController {
            speed,
            move_dir: MoveDir { x: 0, y: 0 },
            cursor_delta: CursorMove {
                from: CursorPos { x: 0, y: 0 },
                to: CursorPos { x: 0, y: 0 },
            },
            rotate_activated: false,
            last_cursor_pos: CursorPos { x: 0, y: 0 },
        }
    }

    /// The controller after `event`, and whether the event was taken.
    ///
    /// - A key that is pressed sets the step if the key asks for one, and is
    ///   taken only then. A key that is released clears the step and is not
    ///   taken.
    /// - The right mouse button switches rotation on while it is down, and
    ///   is taken. Other buttons are not.
    /// - A movement of the cursor is measured from the last position, or from
    ///   the new position itself while the last position is the origin, and
    ///   is taken.
    pub open spec fn spec_process_input(self, event: InputEvent) -> (CameraController, bool) {
        match event {
            InputEvent::Character { text, state } => {
                if state == ElementState::Pressed {
                    let dir = key_direction(text@);
                    if dir != (MoveDir { x: 0, y: 0 }) {
                        (CameraController { move_dir: dir, ..self }, true)
                    } else {
                        (self, false)
                    }
                } else {
                    (CameraController { move_dir: MoveDir { x: 0, y: 0 }, ..self }, false)
                }
            },
            InputEvent::MouseInput { button, state } => {
                if button == MouseButton::Right {
                    (
                        CameraController {
                            rotate_activated: state == ElementState::Pressed,
                            ..self
                        },
                        true,
                    )
                } else {
                    (self, false)
                }
            },
            InputEvent::CursorMoved { x, y } => {
                let position = CursorPos { x, y };
                let from = if is_origin(self.last_cursor_pos) {
                    position
                } else {
                    self.last_cursor_pos
                };
                (
                    CameraController {
                        cursor_delta: CursorMove { from, to: position },
                        last_cursor_pos: position,
                        ..self
                    },
                    true,
                )
            },
            InputEvent::Other => (self, false),
        }
    }

    #[verifier::when_used_as_spec(spec_new)]
    pub fn new(speed: u32) -> (controller: CameraController)
        ensures
            controller == Self::spec_new(speed),
    {
        CameraController {
            speed,
            move_dir: MoveDir { x: 0, y: 0 },
            cursor_delta: CursorMove {
                from: CursorPos { x: 0, y: 0 },
                to: CursorPos { x: 0, y: 0 },
            },
            rotate_activated: false,
            last_cursor_pos: CursorPos { x: 0, y: 0 },
        }
    }

    /// Takes an event of the window. The result says whether the event was
    /// meant for the camera.
    pub fn process_input(&mut self, event: &InputEvent) -> (taken: bool)
        ensures
            (*final(self), taken) == old(self).spec_process_input(*event),
    {
        match event {
            InputEvent::Character { text, state } => {
                if *state == ElementState::Pressed {
                    let dir = direction_of(text.as_str());
                    if dir.x != 0 || dir.y != 0 {
                        self.move_dir = dir;
                        true
                    } else {
                        false
                    }
                } else {
                    self.move_dir = MoveDir { x: 0, y: 0 };
                    false
                }
            },
            InputEvent::MouseInput { button, state } => {
                if *button == MouseButton::Right {
                    self.rotate_activated = *state == ElementState::Pressed;
                    true
                } else {
                    false
                }
            },
            InputEvent::CursorMoved { x, y } => {
                let position = CursorPos { x: *x, y: *y };
                if is_zero_f64(self.last_cursor_pos.x) && is_zero_f64(self.last_cursor_pos.y) {
                    self.last_cursor_pos = position;
                }
                self.cursor_delta = CursorMove { from: self.last_cursor_pos, to: position };
                self.last_cursor_pos = position;
                true
            },
            InputEvent::Other => false,
        }
    }
}

} // verus!
