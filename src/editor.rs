//! Editor flags that pick the kind of a collider or of a rigid body.

use vstd::prelude::*;

verus! {

#[derive(Debug, Clone, Copy, PartialEq, Eq, Default)]
pub struct TmpColliderType {
    pub solid: bool,
    pub sensor: bool,
}

#[derive(Debug, Clone, Copy, PartialEq, Eq)]
pub enum ColliderKind {
    Solid,
    Sensor,
}

impl TmpColliderType {
    /// A solid collider when `solid` is set, a sensor otherwise.
    pub fn collider_kind(&self) -> (r: ColliderKind)
        ensures
            self.solid ==> r == ColliderKind::Solid,
            !self.solid ==> r == ColliderKind::Sensor,
    {
        if self.solid {
            ColliderKind::Solid
        } else {
            ColliderKind::Sensor
        }
    }
}

#[derive(Debug, Clone, Copy, PartialEq, Eq, Default)]
pub struct TmpRigidBodyType {
    pub dynamic: bool,
    pub static_: bool,
    pub kinematic_position_based: bool,
    pub kinematic_velocity_based: bool,
}

#[derive(Debug, Clone, Copy, PartialEq, Eq)]
pub enum BodyKind {
    Dynamic,
    Static,
    KinematicPositionBased,
    KinematicVelocityBased,
}

impl TmpRigidBodyType {
    /// The first flag set in the order dynamic, static, position-based
    /// kinematic; velocity-based kinematic when none of those is set.
    pub fn body_kind(&self) -> (r: BodyKind)
        ensures
            self.dynamic ==> r == BodyKind::Dynamic,
            !self.dynamic && self.static_ ==> r == BodyKind::Static,
            !self.dynamic && !self.static_ && self.kinematic_position_based
                ==> r == BodyKind::KinematicPositionBased,
            !self.dynamic && !self.static_ && !self.kinematic_position_based
                ==> r == BodyKind::KinematicVelocityBased,
    {
        if self.dynamic {
            BodyKind::Dynamic
        } else if self.static_ {
            BodyKind::Static
        } else if self.kinematic_position_based {
            BodyKind::KinematicPositionBased
        } else {
            BodyKind::KinematicVelocityBased
        }
    }
}

} // verus!
