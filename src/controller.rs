//! Rotation input for the active follower: four held keys become signed
//! horizontal and vertical rotation rates.

use vstd::prelude::*;
use crate::follower::Follower;

verus! {

/// A signed rate: the speed itself, its negation, or nothing.
#[derive(Debug, Clone, Copy, PartialEq, Eq)]
pub enum Rate<S> {
    Plus(S),
    Minus(S),
    Zero,
}

/// Which follower takes rotation input, at what speed, and which rotation
/// keys are held. `S` is the caller's scalar type for the speed.
#[derive(Debug, Clone, Copy, PartialEq)]
pub struct FollowerController<S> {
    pub follower_id: u32,
    pub rotation_speed: S,
    pub rotate_right: bool,
    pub rotate_left: bool,
    pub rotate_up: bool,
    pub rotate_down: bool,
}

impl<S: Copy> FollowerController<S> {
    /// A controller for follower `follower_id` with no key held.
    pub fn new(follower_id: u32, rotation_speed: S) -> (r: Self)
        ensures
            r.follower_id == follower_id,
            r.rotation_speed == rotation_speed,
            !r.rotate_right && !r.rotate_left && !r.rotate_up && !r.rotate_down,
    {
        FollowerController {
            follower_id,
            rotation_speed,
            rotate_right: false,
            rotate_left: false,
            rotate_up: false,
            rotate_down: false,
        }
    }

    /// Horizontal rate: plus the speed while "right" is held, minus it while
    /// only "left" is held, zero otherwise. "Right" wins when both are held.
    pub fn rotation_horizontal(&self) -> (r: Rate<S>)
        ensures
            self.rotate_right ==> r == Rate::Plus(self.rotation_speed),
            !self.rotate_right && self.rotate_left ==> r == Rate::Minus(self.rotation_speed),
            !self.rotate_right && !self.rotate_left ==> r == Rate::<S>::Zero,
    {
        if self.rotate_right {
            Rate::Plus(self.rotation_speed)
        } else if self.rotate_left {
            Rate::Minus(self.rotation_speed)
        } else {
            Rate::Zero
        }
    }

    /// Vertical rate: minus the speed while "up" is held, plus it while only
    /// "down" is held, zero otherwise. "Up" wins when both are held.
    pub fn rotation_vertical(&self) -> (r: Rate<S>)
        ensures
            self.rotate_up ==> r == Rate::Minus(self.rotation_speed),
            !self.rotate_up && self.rotate_down ==> r == Rate::Plus(self.rotation_speed),
            !self.rotate_up && !self.rotate_down ==> r == Rate::<S>::Zero,
    {
        if self.rotate_up {
            Rate::Minus(self.rotation_speed)
        } else if self.rotate_down {
            Rate::Plus(self.rotation_speed)
        } else {
            Rate::Zero
        }
    }

    /// Records which rotation keys are held on this tick.
    pub fn set_rotation_keys(&mut self, left: bool, right: bool, up: bool, down: bool)
        ensures
            final(self).rotate_left == left,
            final(self).rotate_right == right,
            final(self).rotate_up == up,
            final(self).rotate_down == down,
            final(self).follower_id == old(self).follower_id,
            final(self).rotation_speed == old(self).rotation_speed,
    {
        self.rotate_left = left;
        self.rotate_right = right;
        self.rotate_up = up;
        self.rotate_down = down;
    }

    /// Whether `follower` is the one that takes rotation input.
    pub fn controls(&self, follower: &Follower) -> (r: bool)
        ensures
            r == (follower.id == self.follower_id),
    {
        follower.id == self.follower_id
    }
}

} // verus!
