use webgpu_scene::control::{update_camera_control, ControlEvent, ControlResponseJs};

fn key_down(c: &mut ControlResponseJs, key: &str, shift: bool) {
    c.handle_event(&ControlEvent::KeyDown { key: key.to_string(), shift_key: shift });
}

fn key_up(c: &mut ControlResponseJs, key: &str) {
    c.handle_event(&ControlEvent::KeyUp { key: key.to_string() });
}

#[test]
fn default_control_is_released() {
    let c = ControlResponseJs::default();
    assert_eq!(c.movement_x, 0);
    assert_eq!(c.movement_y, 0);
    assert!(!c.on_left_click && !c.on_right_click && !c.on_wheel && !c.on_shift);
    assert!(!c.on_w && !c.on_a && !c.on_s && !c.on_d);
}

#[test]
fn mouse_move_records_movement_and_buttons() {
    let mut c = ControlResponseJs::default();
    c.handle_event(&ControlEvent::MouseMove { movement_x: 5, movement_y: -3, which: 1 });
    assert_eq!((c.movement_x, c.movement_y), (5, -3));
    assert!(c.on_left_click && !c.on_right_click);
    c.handle_event(&ControlEvent::MouseMove { movement_x: 1, movement_y: 2, which: 3 });
    assert!(!c.on_left_click && c.on_right_click);
    c.handle_event(&ControlEvent::MouseMove { movement_x: 0, movement_y: 0, which: 2 });
    assert!(!c.on_left_click && !c.on_right_click);
}

#[test]
fn keys_in_either_case_walk() {
    let mut c = ControlResponseJs::default();
    key_down(&mut c, "W", false);
    key_down(&mut c, "a", true);
    assert!(c.on_w && c.on_a && !c.on_s && !c.on_d && c.on_shift);
    key_up(&mut c, "w");
    assert!(!c.on_w && c.on_a);
    key_down(&mut c, "x", false);
    assert!(!c.on_w && c.on_a && !c.on_s && !c.on_d);
}

#[test]
fn shift_is_released_only_by_lower_case_name() {
    let mut c = ControlResponseJs::default();
    key_down(&mut c, "Shift", true);
    assert!(c.on_shift);
    key_up(&mut c, "Shift");
    assert!(c.on_shift);
    key_up(&mut c, "shift");
    assert!(!c.on_shift);
}

#[test]
fn blur_and_context_menu_release_keys() {
    let mut c = ControlResponseJs::default();
    key_down(&mut c, "s", true);
    key_down(&mut c, "D", false);
    c.handle_event(&ControlEvent::MouseMove { movement_x: 1, movement_y: 1, which: 1 });
    c.handle_event(&ControlEvent::Blur);
    assert!(!c.on_s && !c.on_d && !c.on_shift);
    assert!(c.on_left_click);
    key_down(&mut c, "w", false);
    c.handle_event(&ControlEvent::ContextMenu);
    assert!(!c.on_w);
}

#[test]
fn camera_control_consumes_pulses_once() {
    let mut c = ControlResponseJs::default();
    c.handle_event(&ControlEvent::MouseMove { movement_x: 4, movement_y: 2, which: 3 });
    c.handle_event(&ControlEvent::Wheel);
    key_down(&mut c, "w", false);
    key_down(&mut c, "d", false);
    let m = update_camera_control(&mut c);
    assert!(m.rotate && m.zoom && m.forward && m.right && !m.backward && !m.left);
    assert_eq!((m.movement_x, m.movement_y), (4, 2));
    assert!(!c.on_left_click && !c.on_right_click && !c.on_wheel);
    let again = update_camera_control(&mut c);
    assert!(!again.rotate && !again.zoom);
    assert!(again.forward && again.right);
}
