use abyssal_eclipse::camera_control::{
    movement_speed, net_direction, plan_frame, CursorMode, KeyState, BASE_SPEED, BOOST_SPEED,
};

fn no_keys() -> KeyState {
    KeyState {
        forward: false,
        back: false,
        left: false,
        right: false,
        up: false,
        down: false,
        boost: false,
        wireframe: false,
    }
}

#[test]
fn net_direction_cancels_opposite_keys() {
    assert_eq!(net_direction(true, false), 1);
    assert_eq!(net_direction(false, true), -1);
    assert_eq!(net_direction(true, true), 0);
    assert_eq!(net_direction(false, false), 0);
}

#[test]
fn boost_doubles_speed() {
    assert_eq!(movement_speed(false), 10);
    assert_eq!(movement_speed(true), 20);
    assert_eq!(BOOST_SPEED, 2 * BASE_SPEED);
}

#[test]
fn first_frame_recenters_cursor_and_turns_nothing() {
    let p = plan_frame(CursorMode::Uninitialized, &no_keys());
    assert!(p.recenter_cursor);
    assert!(!p.apply_mouse_look);
    assert_eq!(p.next_mode, CursorMode::Tracking);
}

#[test]
fn tracking_frames_apply_mouse_look() {
    let p = plan_frame(CursorMode::Tracking, &no_keys());
    assert!(!p.recenter_cursor);
    assert!(p.apply_mouse_look);
    assert_eq!(p.next_mode, CursorMode::Tracking);
}

#[test]
fn plan_maps_keys_to_impulses() {
    let keys = KeyState { forward: true, left: true, down: true, boost: true, wireframe: true, ..no_keys() };
    let p = plan_frame(CursorMode::Tracking, &keys);
    assert_eq!((p.forward, p.right, p.up), (1, -1, -1));
    assert_eq!(p.speed, 20);
    assert!(p.wireframe);

    let keys = KeyState { back: true, right: true, up: true, ..no_keys() };
    let p = plan_frame(CursorMode::Tracking, &keys);
    assert_eq!((p.forward, p.right, p.up), (-1, 1, 1));
    assert_eq!(p.speed, 10);
    assert!(!p.wireframe);
}
