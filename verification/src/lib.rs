//! Core simulation of a two-paddle ball-bouncing match.
//!
//! The library holds the per-tick game logic: paddle input handling, ball
//! kinematics with a rally-time speed ramp, axis-aligned bounding-box
//! collision detection, scoring, the serve timer, and the scoreboard text.
//! Positions and velocities are kept in integer milli-pixels so that every
//! step of the simulation is exact.

pub mod ball;
pub mod game;
pub mod geometry;
pub mod paddle;
pub mod scoring;
pub mod text;
