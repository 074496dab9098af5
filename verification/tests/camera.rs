use voxel_shading::render_client::camera::{AspectRatio, Camera};
use voxel_shading::render_client::camera_controller::{
    CameraController, CursorMove, CursorPos, MoveDir,
};
use voxel_shading::render_client::event::{ElementState, InputEvent, MouseButton};
use voxel_shading::utils::float_bits::is_zero_f64;
use voxel_shading::utils::float_bits::{
    Vec3Bits, F32_0_05, F32_0_1, F32_0_5, F32_0_8, F32_HUNDRED, F32_NEG_ONE, F32_ONE, F32_SIXTY,
    F32_THREE, F32_TWO, F32_ZERO, F64_0_1, F64_0_2, F64_0_3, F64_ONE, F64_SIGN,
};

fn key(text: &str, state: ElementState) -> InputEvent {
    InputEvent::Character { text: String::from(text), state }
}

fn moved(x: f64, y: f64) -> InputEvent {
    InputEvent::CursorMoved { x: x.to_bits(), y: y.to_bits() }
}

fn pos(x: f64, y: f64) -> CursorPos {
    CursorPos { x: x.to_bits(), y: y.to_bits() }
}

#[test]
fn named_constants_are_the_numbers_they_name() {
    assert_eq!(F32_ZERO, 0.0f32.to_bits());
    assert_eq!(F32_0_05, 0.05f32.to_bits());
    assert_eq!(F32_0_1, 0.1f32.to_bits());
    assert_eq!(F32_0_5, 0.5f32.to_bits());
    assert_eq!(F32_0_8, 0.8f32.to_bits());
    assert_eq!(F32_ONE, 1.0f32.to_bits());
    assert_eq!(F32_NEG_ONE, (-1.0f32).to_bits());
    assert_eq!(F32_TWO, 2.0f32.to_bits());
    assert_eq!(F32_THREE, 3.0f32.to_bits());
    assert_eq!(F32_SIXTY, 60.0f32.to_bits());
    assert_eq!(F32_HUNDRED, 100.0f32.to_bits());
    assert_eq!(F64_0_1, 0.1f64.to_bits());
    assert_eq!(F64_0_2, 0.2f64.to_bits());
    assert_eq!(F64_0_3, 0.3f64.to_bits());
    assert_eq!(F64_ONE, 1.0f64.to_bits());
    assert_eq!(F64_SIGN, (-0.0f64).to_bits());
}

#[test]
fn zero_test_agrees_with_floating_point_comparison() {
    for v in [
        0.0f64,
        -0.0,
        1.0,
        -1.0,
        f64::MIN_POSITIVE,
        -f64::MIN_POSITIVE,
        5e-324,
        f64::INFINITY,
        f64::NEG_INFINITY,
        f64::NAN,
        1e300,
    ] {
        assert_eq!(is_zero_f64(v.to_bits()), v == 0.0, "{}", v);
    }
}

#[test]
fn default_camera() {
    let c = Camera::default();
    assert_eq!(
        c.eye,
        Vec3Bits { x: 0.0f32.to_bits(), y: 1.0f32.to_bits(), z: 2.0f32.to_bits() }
    );
    assert_eq!(
        c.dir,
        Vec3Bits { x: 0.0f32.to_bits(), y: 0.0f32.to_bits(), z: (-1.0f32).to_bits() }
    );
    assert_eq!(
        c.up,
        Vec3Bits { x: 0.0f32.to_bits(), y: 1.0f32.to_bits(), z: 0.0f32.to_bits() }
    );
    assert_eq!(c.aspect, AspectRatio { width: 1, height: 1 });
    assert_eq!(c.aspect.width as f32 / c.aspect.height as f32, 1.0);
    assert_eq!(f32::from_bits(c.fov), 60.0);
    assert_eq!(f32::from_bits(c.z_near), 0.1);
    assert_eq!(f32::from_bits(c.z_far), 100.0);
}

#[test]
fn new_controller_asks_for_nothing() {
    let c = CameraController::new(0.05f32.to_bits());
    assert_eq!(f32::from_bits(c.speed), 0.05);
    assert_eq!(c.move_dir, MoveDir { x: 0, y: 0 });
    assert_eq!(c.cursor_delta, CursorMove { from: pos(0.0, 0.0), to: pos(0.0, 0.0) });
    assert!(!c.rotate_activated);
    assert_eq!(c.last_cursor_pos, pos(0.0, 0.0));
}

#[test]
fn movement_keys_set_the_step() {
    let cases = [("w", (0, -1)), ("a", (-1, 0)), ("s", (0, 1)), ("d", (1, 0))];
    for (text, (x, y)) in cases {
        let mut c = CameraController::new(1);
        assert!(c.process_input(&key(text, ElementState::Pressed)));
        assert_eq!(c.move_dir, MoveDir { x, y });
    }
}

#[test]
fn other_keys_are_not_taken_and_change_nothing() {
    for text in ["q", "W", "ww", "", "wa", "é", " w", "r"] {
        let mut c = CameraController::new(1);
        c.process_input(&key("a", ElementState::Pressed));
        let before = c;
        assert!(!c.process_input(&key(text, ElementState::Pressed)), "{:?}", text);
        assert_eq!(c, before);
    }
}

#[test]
fn releasing_any_key_stops_the_movement() {
    for text in ["w", "q", "", "long"] {
        let mut c = CameraController::new(1);
        c.process_input(&key("s", ElementState::Pressed));
        assert!(!c.process_input(&key(text, ElementState::Released)));
        assert_eq!(c.move_dir, MoveDir { x: 0, y: 0 });
    }
}

#[test]
fn right_button_switches_rotation() {
    let mut c = CameraController::new(1);
    assert!(c.process_input(&InputEvent::MouseInput {
        button: MouseButton::Right,
        state: ElementState::Pressed,
    }));
    assert!(c.rotate_activated);
    assert!(c.process_input(&InputEvent::MouseInput {
        button: MouseButton::Right,
        state: ElementState::Released,
    }));
    assert!(!c.rotate_activated);
}

#[test]
fn other_buttons_are_not_taken() {
    for button in [MouseButton::Left, MouseButton::Middle, MouseButton::Other] {
        let mut c = CameraController::new(1);
        let before = c;
        assert!(!c.process_input(&InputEvent::MouseInput {
            button,
            state: ElementState::Pressed,
        }));
        assert_eq!(c, before);
    }
}

#[test]
fn first_cursor_movement_is_measured_from_itself() {
    let mut c = CameraController::new(1);
    assert!(c.process_input(&moved(100.0, 50.0)));
    assert_eq!(c.cursor_delta, CursorMove { from: pos(100.0, 50.0), to: pos(100.0, 50.0) });
    assert_eq!(c.last_cursor_pos, pos(100.0, 50.0));
}

#[test]
fn later_cursor_movement_is_measured_from_the_last_position() {
    let mut c = CameraController::new(1);
    c.process_input(&moved(100.0, 50.0));
    assert!(c.process_input(&moved(90.0, 70.0)));
    assert_eq!(c.cursor_delta, CursorMove { from: pos(100.0, 50.0), to: pos(90.0, 70.0) });
    assert_eq!(c.last_cursor_pos, pos(90.0, 70.0));
    let dx = (f64::from_bits(c.cursor_delta.from.x) - f64::from_bits(c.cursor_delta.to.x)) as f32;
    let dy = (f64::from_bits(c.cursor_delta.from.y) - f64::from_bits(c.cursor_delta.to.y)) as f32;
    assert_eq!((dx, dy), (10.0, -20.0));
}

#[test]
fn a_last_position_at_the_origin_counts_as_none() {
    let mut c = CameraController::new(1);
    c.process_input(&moved(3.0, 4.0));
    c.process_input(&moved(-0.0, 0.0));
    assert_eq!(c.last_cursor_pos, pos(-0.0, 0.0));
    c.process_input(&moved(8.0, 9.0));
    assert_eq!(c.cursor_delta, CursorMove { from: pos(8.0, 9.0), to: pos(8.0, 9.0) });
}

#[test]
fn a_last_position_on_one_axis_is_a_position() {
    let mut c = CameraController::new(1);
    c.process_input(&moved(0.0, 4.0));
    c.process_input(&moved(8.0, 9.0));
    assert_eq!(c.cursor_delta, CursorMove { from: pos(0.0, 4.0), to: pos(8.0, 9.0) });
}

#[test]
fn events_that_are_not_input_are_not_taken() {
    let mut c = CameraController::new(1);
    let before = c;
    assert!(!c.process_input(&InputEvent::Other));
    assert_eq!(c, before);
}

#[test]
fn duplicate_of_an_event_is_equal() {
    for e in [
        key("w", ElementState::Pressed),
        moved(1.0, 2.0),
        InputEvent::MouseInput { button: MouseButton::Left, state: ElementState::Released },
        InputEvent::Other,
    ] {
        assert_eq!(e.duplicate(), e);
    }
}
