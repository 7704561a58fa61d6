//! A locomotion kernel for a side-view platformer character.
//!
//! The kernel turns directional and jump input, together with the ground
//! contact reported by a kinematic sweep, into a discrete movement state, a
//! smoothed velocity, a selected animation clip and impulses for loose bodies
//! the character runs into. It moves nothing and draws nothing itself: each
//! simulation step it is handed what the controls, the clock and the last
//! sweep say, and hands back what to ask of the sweep service and what to
//! show.
//!
//! All of it is integer arithmetic: quantities are fixed-point numbers in
//! thousandths, time is counted in microseconds, and every function carries
//! a verified contract.
//!
//! * [`fixed`] holds the arithmetic.
//! * [`animation`] holds clips and their playback.
//! * [`sweep`] holds what a sweep reports and what is asked of loose bodies.
//! * [`player`] holds the character, its movement states and the single
//!   steps that move it.
//! * [`tick`] puts the steps in order.

pub mod animation;
pub mod fixed;
pub mod player;
pub mod sweep;
pub mod tick;
