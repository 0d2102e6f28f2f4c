use let_engine::vec2;
use physics_sandbox::camera::Pan;

#[test]
fn the_pan_follows_nothing_while_the_button_is_up() {
    let mut pan = Pan::new();
    assert!(pan.track(false, vec2(0.1, 0.2), vec2(3.0, 4.0)).is_none());
    assert!(pan.anchor.is_none());
    assert!(!pan.middle.is_down());
}

#[test]
fn a_press_notes_pointer_and_camera() {
    let mut pan = Pan::new();
    let anchor = pan.track(true, vec2(0.1, 0.2), vec2(3.0, 4.0)).unwrap();
    assert_eq!(anchor.pointer, vec2(0.1, 0.2));
    assert_eq!(anchor.camera, vec2(3.0, 4.0));
}

#[test]
fn the_anchor_stays_while_the_button_is_held() {
    let mut pan = Pan::new();
    pan.track(true, vec2(0.1, 0.2), vec2(3.0, 4.0));
    let held = pan.track(true, vec2(0.5, 0.6), vec2(2.0, 1.0)).unwrap();
    assert_eq!(held.pointer, vec2(0.1, 0.2));
    assert_eq!(held.camera, vec2(3.0, 4.0));
}

#[test]
fn the_next_press_notes_a_fresh_anchor() {
    let mut pan = Pan::new();
    pan.track(true, vec2(0.1, 0.2), vec2(3.0, 4.0));
    assert!(pan.track(false, vec2(0.3, 0.3), vec2(2.5, 2.5)).is_none());
    let kept = pan.anchor.unwrap();
    assert_eq!(kept.pointer, vec2(0.1, 0.2));
    let fresh = pan.track(true, vec2(-0.4, 0.9), vec2(7.0, 8.0)).unwrap();
    assert_eq!(fresh.pointer, vec2(-0.4, 0.9));
    assert_eq!(fresh.camera, vec2(7.0, 8.0));
}
