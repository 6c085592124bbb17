//! The follower state machine: a follower (a camera or a light) keeps an orbit
//! around a tracked target and moves to another orbit over a fixed time span.
//!
//! Times are nanoseconds since startup. The orbit type `P` is left to the
//! caller: this module decides when to rotate, when to blend, and when a
//! transition is over, and never looks inside an orbit.

use vstd::prelude::*;
use crate::controller::FollowerController;

verus! {

/// The part of a transition that has elapsed: `num / den`, a fraction in `[0, 1]`.
#[derive(Debug, Clone, Copy, PartialEq, Eq)]
pub struct Progress {
    pub num: u64,
    pub den: u64,
}

impl Progress {
    pub open spec fn wf(self) -> bool {
        0 < self.den && self.num <= self.den
    }

    pub open spec fn is_complete(self) -> bool {
        self.num == self.den
    }

    /// Whether the whole span has elapsed.
    pub fn complete(&self) -> (r: bool)
        ensures
            r == self.is_complete(),
    {
        self.num == self.den
    }
}

/// Time from `start` to `now`; zero when the clock reads earlier than `start`.
pub open spec fn elapsed_since(start: u64, now: u64) -> nat {
    if now <= start {
        0
    } else {
        (now - start) as nat
    }
}

/// The progress of a transition that started at `start` and lasts `span`:
/// the elapsed time clamped to `[0, span]`, over `span`. A transition of
/// zero length is complete at once.
pub open spec fn progress_at(start: u64, now: u64, span: u64) -> Progress {
    if span == 0 {
        Progress { num: 1, den: 1 }
    } else if elapsed_since(start, now) >= span {
        Progress { num: span, den: span }
    } else {
        Progress { num: elapsed_since(start, now) as u64, den: span }
    }
}

/// Computes `progress_at(start, now, transition_time)`.
pub fn transition_progress(start: u64, now: u64, transition_time: u64) -> (r: Progress)
    ensures
        r == progress_at(start, now, transition_time),
        r.wf(),
        r.is_complete() <==> (transition_time == 0 || elapsed_since(start, now) >= transition_time),
{
    if transition_time == 0 {
        return Progress { num: 1, den: 1 };
    }
    let elapsed: u64 = if now <= start {
        0
    } else {
        now - start
    };
    if elapsed >= transition_time {
        Progress { num: transition_time, den: transition_time }
    } else {
        Progress { num: elapsed, den: transition_time }
    }
}

/// How a follower is oriented once it stands on its orbit.
#[derive(Debug, Clone, Copy, PartialEq, Eq)]
pub enum FollowerType {
    /// Keeps its own orientation.
    Follow,
    /// Turns to face the tracked target.
    LookAt,
}

/// A follower entity: an id, matched against the controller's active id, and
/// how it is oriented.
#[derive(Debug, Clone, Copy, PartialEq, Eq)]
pub struct Follower {
    pub id: u32,
    pub f_type: FollowerType,
}

/// Per-follower constants: how long a transition lasts (nanoseconds) and the
/// world up direction, of the caller's vector type `V`.
#[derive(Debug, Clone, Copy, PartialEq)]
pub struct FollowerConfig<V> {
    pub transition_time: u64,
    pub up_direction: V,
}

/// A transition in flight: when it started and the orbit it ends on.
#[derive(Debug, PartialEq)]
pub struct NewPosition<P> {
    pub transition_start: u64,
    pub position: P,
}

/// `Normal`: the follower stays on its orbit and takes rotation input.
/// `Transition`: it is moving to another orbit.
#[derive(Debug, PartialEq)]
pub enum PositionState<P> {
    Normal,
    Transition(NewPosition<P>),
}

/// The state of one follower: its steady orbit and any transition in flight.
/// While a transition runs, `current_position` is the orbit it started from.
#[derive(Debug, PartialEq)]
pub struct FollowerPosition<P> {
    pub position_state: PositionState<P>,
    pub current_position: P,
}

/// What the caller computes on a tick, after `FollowerPosition::advance`.
#[derive(Debug, Clone, Copy, PartialEq, Eq)]
pub enum FollowerStep {
    /// Place the follower on `current_position`, first rotating that orbit by
    /// the input rates when `rotate` holds.
    Steady { rotate: bool },
    /// Place the follower on the orbit blended from `current_position` toward
    /// the pending target by `progress`.
    Blend { progress: Progress },
}

impl<P> FollowerPosition<P> {
    /// The state and the step after one tick at time `now`; `active` says
    /// whether this follower takes rotation input.
    pub open spec fn advanced(self, now: u64, transition_time: u64, active: bool) -> (Self, FollowerStep) {
        match self.position_state {
            PositionState::Normal => (self, FollowerStep::Steady { rotate: active }),
            PositionState::Transition(np) => {
                let progress = progress_at(np.transition_start, now, transition_time);
                if progress.is_complete() {
                    (
                        FollowerPosition { position_state: PositionState::Normal, current_position: np.position },
                        FollowerStep::Steady { rotate: false },
                    )
                } else {
                    (self, FollowerStep::Blend { progress })
                }
            },
        }
    }

    /// A follower at rest on `initial`.
    pub fn new(initial: P) -> (r: Self)
        ensures
            r.position_state is Normal,
            r.current_position == initial,
    {
        FollowerPosition { position_state: PositionState::Normal, current_position: initial }
    }

    /// Starts a transition at `start` toward `target`. `origin` is where the
    /// follower is seen now: its orbit, or the blended orbit when a transition
    /// was already running, whose target is dropped.
    pub fn begin_transition(&mut self, start: u64, origin: P, target: P)
        ensures
            final(self).current_position == origin,
            final(self).position_state == PositionState::Transition(
                NewPosition { transition_start: start, position: target },
            ),
    {
        self.current_position = origin;
        self.position_state = PositionState::Transition(NewPosition { transition_start: start, position: target });
    }

    /// The orbit of the transition in flight, if any.
    pub fn pending_target(&self) -> (r: Option<&P>)
        ensures
            match self.position_state {
                PositionState::Normal => r is None,
                PositionState::Transition(np) => r == Some(&np.position),
            },
    {
        match &self.position_state {
            PositionState::Normal => None,
            PositionState::Transition(np) => Some(&np.position),
        }
    }

    /// One tick at time `now`. A follower at rest stays so and rotates when
    /// `active`. A transition whose span has elapsed is committed in this
    /// tick: its target becomes the steady orbit exactly. Any other
    /// transition is left as it is and the caller blends by its progress.
    pub fn advance(&mut self, now: u64, transition_time: u64, active: bool) -> (r: FollowerStep)
        ensures
            (*final(self), r) == old(self).advanced(now, transition_time, active),
    {
        let mut state = PositionState::Normal;
        std::mem::swap(&mut self.position_state, &mut state);
        match state {
            PositionState::Normal => FollowerStep::Steady { rotate: active },
            PositionState::Transition(np) => {
                let progress = transition_progress(np.transition_start, now, transition_time);
                if progress.complete() {
                    self.current_position = np.position;
                    FollowerStep::Steady { rotate: false }
                } else {
                    self.position_state = PositionState::Transition(np);
                    FollowerStep::Blend { progress }
                }
            },
        }
    }
}

/// A transition whose span has fully elapsed ends in the tick that sees it:
/// the follower is at rest on the target orbit itself, not on a blend near
/// it, and rotation input waits for the next tick.
pub proof fn transition_completes<P>(pos: FollowerPosition<P>, now: u64, transition_time: u64, active: bool)
    requires
        pos.position_state is Transition,
        elapsed_since(pos.position_state->0.transition_start, now) >= transition_time,
    ensures
        pos.advanced(now, transition_time, active).0.position_state is Normal,
        pos.advanced(now, transition_time, active).0.current_position == pos.position_state->0.position,
        pos.advanced(now, transition_time, active).1 == (FollowerStep::Steady { rotate: false }),
{
}

/// A transition never ends before its span has elapsed: until then a tick
/// leaves the state as it is and asks for a blend.
pub proof fn transition_holds_until_elapsed<P>(pos: FollowerPosition<P>, now: u64, transition_time: u64, active: bool)
    requires
        pos.position_state is Transition,
        elapsed_since(pos.position_state->0.transition_start, now) < transition_time,
    ensures
        pos.advanced(now, transition_time, active).0 == pos,
        pos.advanced(now, transition_time, active).1 is Blend,
{
}

/// One tick of `follower`: it takes rotation input only when the controller
/// names its id, then advances as `FollowerPosition::advance` does.
pub fn update_follower<P, S: Copy, V>(
    follower: &Follower,
    config: &FollowerConfig<V>,
    controller: &FollowerController<S>,
    position: &mut FollowerPosition<P>,
    now: u64,
) -> (r: FollowerStep)
    ensures
        (*final(position), r) == old(position).advanced(
            now,
            config.transition_time,
            follower.id == controller.follower_id,
        ),
{
    let active = controller.controls(follower);
    position.advance(now, config.transition_time, active)
}

/// Why the tracked target could not be read.
#[derive(Debug, Clone, Copy, PartialEq, Eq)]
pub enum TargetError {
    /// No entity is tagged as the target.
    Missing,
    /// More than one entity is tagged as the target.
    Ambiguous,
}

/// The position of the one tracked target among `targets`, the positions of
/// every entity tagged as a target. Followers are placed only when there is
/// exactly one.
pub fn single_target<T: Copy>(targets: &[T]) -> (r: Result<T, TargetError>)
    ensures
        targets@.len() == 1 <==> r is Ok,
        targets@.len() == 1 ==> r == Ok::<T, TargetError>(targets@[0]),
        targets@.len() == 0 <==> r == Err::<T, TargetError>(TargetError::Missing),
        targets@.len() > 1 <==> r == Err::<T, TargetError>(TargetError::Ambiguous),
{
    if targets.len() == 0 {
        Err(TargetError::Missing)
    } else if targets.len() > 1 {
        Err(TargetError::Ambiguous)
    } else {
        Ok(targets[0])
    }
}

} // verus!
