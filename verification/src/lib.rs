//! A minimal rigid-body drone model: a main body carrying two independently
//! rotating, independently powered thrusters.
//!
//! The crate computes, per simulation tick, the world-space force vector and
//! application point contributed by each thruster, honouring the parent-child
//! transform composition (a thruster rotates rigidly with the body and adds
//! its own deflection on top). It also derives the compound collision shape
//! of the assembly from the same geometry constants that place the thrusters,
//! so collision geometry and force-application geometry cannot drift apart.
//!
//! All quantities are fixed-point integers (see [`fixed`]): a rotation is a
//! scaled cosine/sine pair, so composing rotations and rotating vectors are
//! exact integer computations with a single rounding step per component.
//! Rendering, input, and the rigid-body integration itself (velocity and
//! position updates under gravity and damping) are left to the host
//! application, which consumes the force samples this crate produces.

pub mod drone;
pub mod fixed;
pub mod force;
pub mod geom;
pub mod hierarchy;
