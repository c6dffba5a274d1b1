//! Settle detection and face resolution for a simulated dice tray.
//!
//! Five dice are dropped into a tray and tumble under an external physics
//! engine. This crate holds the verified core of that simulation: deciding
//! when a tumbling die has truly stopped, locking it exactly once, reading
//! its resting orientation into a face value 1-6 with a deterministic
//! tie-break, and recovering dice that escape the play volume.
//!
//! All geometry is carried in fixed-point units (see [`fx`]): one world unit
//! is `fx::SCALE` fixed-point steps. The surrounding application converts
//! the physics engine's state into these units each tick.

pub mod die;
pub mod fx;
pub mod quat;
pub mod sampler;
pub mod session;
pub mod trig;
pub mod vec3;
