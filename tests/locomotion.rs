use hover_rig::locomotion::{plan_forces, ControlInput, ForcePlan, Heading, MoveKeys};

fn keys(forward: bool, back: bool, left: bool, right: bool) -> MoveKeys {
    MoveKeys { forward, back, left, right }
}

#[test]
fn single_keys_pick_their_heading() {
    assert_eq!(keys(true, false, false, false).heading(), Some(Heading::Forward));
    assert_eq!(keys(false, true, false, false).heading(), Some(Heading::Back));
    assert_eq!(keys(false, false, true, false).heading(), Some(Heading::Left));
    assert_eq!(keys(false, false, false, true).heading(), Some(Heading::Right));
    assert_eq!(keys(false, false, false, false).heading(), None);
}

#[test]
fn later_key_overrides_earlier() {
    assert_eq!(keys(true, true, false, false).heading(), Some(Heading::Back));
    assert_eq!(keys(true, false, true, false).heading(), Some(Heading::Left));
    assert_eq!(keys(true, false, false, true).heading(), Some(Heading::Right));
    assert_eq!(keys(false, true, true, false).heading(), Some(Heading::Left));
    assert_eq!(keys(true, true, true, true).heading(), Some(Heading::Right));
}

#[test]
fn miss_without_keys_has_no_force() {
    let input = ControlInput { keys: keys(false, false, false, false), jump_just_pressed: false };
    assert_eq!(
        plan_forces(&input, false),
        ForcePlan { floating: false, movement: None, jump: false }
    );
}

#[test]
fn miss_keeps_movement_only() {
    let input = ControlInput { keys: keys(true, false, false, false), jump_just_pressed: false };
    assert_eq!(
        plan_forces(&input, false),
        ForcePlan { floating: false, movement: Some(Heading::Forward), jump: false }
    );
}

#[test]
fn hit_adds_spring() {
    let input = ControlInput { keys: keys(false, false, false, false), jump_just_pressed: false };
    assert_eq!(
        plan_forces(&input, true),
        ForcePlan { floating: true, movement: None, jump: false }
    );
}

#[test]
fn jump_fires_with_or_without_hit() {
    let input = ControlInput { keys: keys(false, false, false, true), jump_just_pressed: true };
    assert_eq!(
        plan_forces(&input, true),
        ForcePlan { floating: true, movement: Some(Heading::Right), jump: true }
    );
    assert_eq!(
        plan_forces(&input, false),
        ForcePlan { floating: false, movement: Some(Heading::Right), jump: true }
    );
}
