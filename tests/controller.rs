use hover_rig::controller::{FollowerController, Rate};

#[test]
fn no_keys_no_rotation() {
    let c = FollowerController::new(0, 3.0f32);
    assert_eq!(c.rotation_horizontal(), Rate::Zero);
    assert_eq!(c.rotation_vertical(), Rate::Zero);
}

#[test]
fn right_turns_plus_left_turns_minus() {
    let mut c = FollowerController::new(0, 3.0f32);
    c.set_rotation_keys(false, true, false, false);
    assert_eq!(c.rotation_horizontal(), Rate::Plus(3.0));
    c.set_rotation_keys(true, false, false, false);
    assert_eq!(c.rotation_horizontal(), Rate::Minus(3.0));
}

#[test]
fn right_wins_over_left() {
    let mut c = FollowerController::new(0, 3.0f32);
    c.set_rotation_keys(true, true, false, false);
    assert_eq!(c.rotation_horizontal(), Rate::Plus(3.0));
    assert_eq!(c.rotation_vertical(), Rate::Zero);
}

#[test]
fn up_turns_minus_down_turns_plus() {
    let mut c = FollowerController::new(0, 2.5f32);
    c.set_rotation_keys(false, false, true, false);
    assert_eq!(c.rotation_vertical(), Rate::Minus(2.5));
    c.set_rotation_keys(false, false, false, true);
    assert_eq!(c.rotation_vertical(), Rate::Plus(2.5));
    c.set_rotation_keys(false, false, true, true);
    assert_eq!(c.rotation_vertical(), Rate::Minus(2.5));
    assert_eq!(c.rotation_horizontal(), Rate::Zero);
}

#[test]
fn setting_keys_keeps_id_and_speed() {
    let mut c = FollowerController::new(4, 3.0f32);
    c.set_rotation_keys(true, false, true, false);
    assert_eq!(c.follower_id, 4);
    assert_eq!(c.rotation_speed, 3.0);
    assert!(c.rotate_left && !c.rotate_right && c.rotate_up && !c.rotate_down);
}
