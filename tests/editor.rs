use hover_rig::editor::{BodyKind, ColliderKind, TmpColliderType, TmpRigidBodyType};

#[test]
fn solid_flag_picks_solid() {
    assert_eq!(TmpColliderType { solid: true, sensor: true }.collider_kind(), ColliderKind::Solid);
    assert_eq!(TmpColliderType { solid: true, sensor: false }.collider_kind(), ColliderKind::Solid);
}

#[test]
fn otherwise_sensor() {
    assert_eq!(TmpColliderType { solid: false, sensor: true }.collider_kind(), ColliderKind::Sensor);
    assert_eq!(TmpColliderType::default().collider_kind(), ColliderKind::Sensor);
}

fn body(d: bool, s: bool, kp: bool, kv: bool) -> TmpRigidBodyType {
    TmpRigidBodyType {
        dynamic: d,
        static_: s,
        kinematic_position_based: kp,
        kinematic_velocity_based: kv,
    }
}

#[test]
fn first_body_flag_wins() {
    assert_eq!(body(true, true, true, true).body_kind(), BodyKind::Dynamic);
    assert_eq!(body(false, true, true, false).body_kind(), BodyKind::Static);
    assert_eq!(body(false, false, true, true).body_kind(), BodyKind::KinematicPositionBased);
    assert_eq!(body(false, false, false, true).body_kind(), BodyKind::KinematicVelocityBased);
}

#[test]
fn no_body_flag_is_velocity_kinematic() {
    assert_eq!(TmpRigidBodyType::default().body_kind(), BodyKind::KinematicVelocityBased);
}
