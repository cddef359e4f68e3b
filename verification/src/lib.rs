//! A verified model of a two-player pong round: paddle movement, ball
//! kinematics, wall reflection, paddle bounces and scoring.
//!
//! All game-space quantities are fixed-point integers: one game unit is
//! `UNIT` subunits, and angles are measured in thousandths of a degree
//! (`ANGLE_TAU` per full turn). The trigonometric evaluation of a bounce
//! or serve angle into a unit direction vector is floating-point work and
//! is left to the embedding program, which hands the resulting direction
//! components back through [`entities::set_ball_direction`].

pub mod entities;
pub mod game;
pub mod geometry;
pub mod input;
pub mod physics;
pub mod render;

pub use geometry::Vec2;
