//! Flight-dynamics and control-state core of an arcade flight simulator.
//!
//! The library computes, frame by frame, the thrust, drag, acceleration,
//! speed, turn rate and heading of a player-controlled aircraft.  It covers
//! the piecewise-linear thrust-curve model, the aircraft performance catalog,
//! the flight-model math and the per-tick player state machine.  Rendering,
//! input polling and asset loading are external collaborators: they hand the
//! core plain values (elapsed milliseconds, heading direction components,
//! viewport extents, discrete control actions) and read plain values back.
//!
//! All physical quantities are fixed-point integers; see [`fixed`].

pub mod aircraft;
pub mod fixed;
pub mod gamestate;
pub mod player;
