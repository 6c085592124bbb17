//! What the floating controller applies on a tick. The caller turns this
//! plan into vectors: the spring force along up when `floating`, the movement
//! force along the chosen heading, the upright and heading torques (always
//! applied), and the jump impulse along up when `jump`.

use vstd::prelude::*;

verus! {

/// Movement keys held on this tick.
#[derive(Debug, Clone, Copy, PartialEq, Eq)]
pub struct MoveKeys {
    pub forward: bool,
    pub back: bool,
    pub left: bool,
    pub right: bool,
}

/// A movement direction in the steering frame: forward, its opposite, or
/// along minus or plus the right vector.
#[derive(Debug, Clone, Copy, PartialEq, Eq)]
pub enum Heading {
    Forward,
    Back,
    Left,
    Right,
}

/// The keys are read in the order forward, back, left, right, each held key
/// replacing the choice before it: the last held key in that order wins.
pub open spec fn heading_of(keys: MoveKeys) -> Option<Heading> {
    if keys.right {
        Some(Heading::Right)
    } else if keys.left {
        Some(Heading::Left)
    } else if keys.back {
        Some(Heading::Back)
    } else if keys.forward {
        Some(Heading::Forward)
    } else {
        None
    }
}

impl MoveKeys {
    pub open spec fn none_held(self) -> bool {
        !self.forward && !self.back && !self.left && !self.right
    }

    /// The movement heading chosen by the held keys, `heading_of(*self)`.
    pub fn heading(&self) -> (r: Option<Heading>)
        ensures
            r == heading_of(*self),
            r is None <==> self.none_held(),
    {
        let mut choice: Option<Heading> = None;
        if self.forward {
            choice = Some(Heading::Forward);
        }
        if self.back {
            choice = Some(Heading::Back);
        }
        if self.left {
            choice = Some(Heading::Left);
        }
        if self.right {
            choice = Some(Heading::Right);
        }
        choice
    }
}

/// Input read on a tick: the movement keys and whether the jump key went down
/// on this very tick.
#[derive(Debug, Clone, Copy, PartialEq, Eq)]
pub struct ControlInput {
    pub keys: MoveKeys,
    pub jump_just_pressed: bool,
}

/// The terms of one tick. The force is the spring term when `floating`, plus
/// the movement term when `movement` names a heading; nothing else enters it.
#[derive(Debug, Clone, Copy, PartialEq, Eq)]
pub struct ForcePlan {
    pub floating: bool,
    pub movement: Option<Heading>,
    pub jump: bool,
}

impl ForcePlan {
    /// Whether the force has any term; without one it is the zero vector.
    pub open spec fn has_force(self) -> bool {
        self.floating || self.movement is Some
    }
}

/// The plan for a tick: the spring holds the body up only when the ray hit
/// a surface, the movement term follows the keys, and the jump fires on the
/// tick its key goes down.
pub open spec fn force_plan(input: ControlInput, ray_hit: bool) -> ForcePlan {
    ForcePlan { floating: ray_hit, movement: heading_of(input.keys), jump: input.jump_just_pressed }
}

/// Computes `force_plan(*input, ray_hit)`.
pub fn plan_forces(input: &ControlInput, ray_hit: bool) -> (r: ForcePlan)
    ensures
        r == force_plan(*input, ray_hit),
{
    ForcePlan { floating: ray_hit, movement: input.keys.heading(), jump: input.jump_just_pressed }
}

/// When the ray hits nothing the force holds the movement term alone, and
/// with no movement key held it holds no term: it is the zero vector.
pub proof fn miss_leaves_movement_only(input: ControlInput)
    ensures
        !force_plan(input, false).floating,
        force_plan(input, false).movement == heading_of(input.keys),
        input.keys.none_held() ==> !force_plan(input, false).has_force(),
{
}

/// The jump impulse depends on the jump key alone: whether the ray hits and
/// which movement keys are held change nothing about it.
pub proof fn jump_independent_of_forces(a: ControlInput, b: ControlInput, hit_a: bool, hit_b: bool)
    requires
        a.jump_just_pressed == b.jump_just_pressed,
    ensures
        force_plan(a, hit_a).jump == force_plan(b, hit_b).jump,
{
}

} // verus!
