//! Decision logic of a floating character controller and of the camera
//! followers that track it: which forces and torques apply on a tick, how
//! input keys map to rotation rates, and how a follower moves between two
//! orbits over time. Vector arithmetic is left to the caller; every choice
//! that selects what to compute is made and proved here.

pub mod follower;
pub mod controller;
pub mod locomotion;
pub mod editor;
