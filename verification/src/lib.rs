//! Thruster control for a small free-floating spacecraft.
//!
//! The craft carries eight independently held thrusters. Holding both members
//! of an opposing pair produces pure translation along the craft's forward or
//! up axis; holding a single thruster produces pure rotation about one of
//! those axes. Each simulation tick maps the set of held thrusters to a
//! linear and an angular velocity delta, and emits one feedback marker per
//! held thruster at its mount point in world space.
//!
//! All geometry is carried in fixed-point micro-units (`i64` counts of
//! millionths), so every step of the control law is exact integer arithmetic.

pub mod action;
pub mod control;
pub mod craft;
pub mod fixed;
pub mod laws;
pub mod vec3;
