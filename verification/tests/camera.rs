use ivrigst::camera::{Camera, DEFAULT_DIST, DEFAULT_FOV, DEFAULT_PITCH, MAX_ZOOM, MIN_ZOOM,
    ROLL_LIMIT, TURN};

#[test]
fn camera_defaults() {
    let cam = Camera::new();
    assert_eq!(cam.fov, DEFAULT_FOV);
    assert_eq!(cam.pitch, DEFAULT_PITCH);
    assert_eq!(cam.roll, 0);
    assert_eq!(cam.dist, DEFAULT_DIST);
    assert!(!cam.mousedown);
}

#[test]
fn wheel_clamp_far() {
    let mut cam = Camera::new();
    for _ in 0..1000 {
        cam.mousewheel(-5);
        assert!(cam.dist >= MIN_ZOOM && cam.dist <= MAX_ZOOM);
    }
    assert_eq!(cam.dist, MAX_ZOOM);
}

#[test]
fn wheel_clamp_near() {
    let mut cam = Camera::new();
    for _ in 0..1000 {
        cam.mousewheel(7);
        assert!(cam.dist >= MIN_ZOOM && cam.dist <= MAX_ZOOM);
    }
    assert_eq!(cam.dist, MIN_ZOOM);
}

#[test]
fn wheel_step_size() {
    let mut cam = Camera::new();
    cam.mousewheel(-1);
    assert_eq!(cam.dist, DEFAULT_DIST + 3_000);
}

#[test]
fn drag_gating_before_mousedown() {
    let mut cam = Camera::new();
    let before_pitch = cam.pitch;
    let before_roll = cam.roll;
    let changed = cam.mousemove(25, -40);
    assert!(!changed);
    assert_eq!(cam.pitch, before_pitch);
    assert_eq!(cam.roll, before_roll);
}

#[test]
fn drag_gating_after_mouseup() {
    let mut cam = Camera::new();
    cam.mousedown();
    cam.mousemove(10, 10);
    cam.mouseup();
    let before_pitch = cam.pitch;
    let before_roll = cam.roll;
    let changed = cam.mousemove(3, 4);
    assert!(!changed);
    assert_eq!(cam.pitch, before_pitch);
    assert_eq!(cam.roll, before_roll);
}

#[test]
fn drag_roll_clamped() {
    let mut cam = Camera::new();
    cam.mousedown();
    for _ in 0..500 {
        let changed = cam.mousemove(0, -3);
        assert!(changed);
        assert!(cam.roll >= -ROLL_LIMIT && cam.roll <= ROLL_LIMIT);
    }
    assert_eq!(cam.roll, ROLL_LIMIT);
    for _ in 0..1000 {
        cam.mousemove(0, 3);
        assert!(cam.roll >= -ROLL_LIMIT && cam.roll <= ROLL_LIMIT);
    }
    assert_eq!(cam.roll, -ROLL_LIMIT);
}

#[test]
fn drag_pitch_wraps() {
    let mut cam = Camera::new();
    cam.mousedown();
    // One drag count moves the pitch by a five-hundredth of a turn.
    cam.mousemove(-1, 0);
    assert_eq!(cam.pitch, DEFAULT_PITCH + 2_000);
    // Fifty more full turns of drag leave the pitch where it was.
    cam.mousemove(-500 * 50, 0);
    assert_eq!(cam.pitch, DEFAULT_PITCH + 2_000);
    assert!(cam.pitch >= 0 && cam.pitch < TURN);
    // Dragging backwards past zero wraps to just under a full turn.
    let mut cam = Camera::new();
    cam.mousedown();
    cam.mousemove(63, 0);
    assert_eq!(cam.pitch, DEFAULT_PITCH - 126_000 + TURN);
}

#[test]
fn set_dist_clamps() {
    let mut cam = Camera::new();
    cam.set_dist(0);
    assert_eq!(cam.dist, MIN_ZOOM);
    cam.set_dist(1_000_000);
    assert_eq!(cam.dist, MAX_ZOOM);
    cam.set_dist(123_456);
    assert_eq!(cam.dist, 123_456);
}
