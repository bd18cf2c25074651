//! Transform interpolation between fixed simulation ticks.
//!
//! The simulation commits a pose once per fixed tick; the presentation runs at its own rate.
//! This library keeps a snapshot of the pose of the previous tick for every moving body,
//! and on every presentation frame writes a transform that blends the snapshot with the
//! current pose, following a per-field policy. The arithmetic of positions and rotations
//! is the caller's: the library is generic over both and takes the blend as functions.
//!
//! - [`fields`]: the per-field policy.
//! - [`pose`]: a position with a rotation.
//! - [`snapshot`]: the pose of the previous tick, refreshed at each tick boundary.
//! - [`lifecycle`]: when an entity gets a snapshot and a policy, and when it loses them.
//! - [`interpolate`]: the transform written on each presentation frame.
//! - [`sync`]: switching off the simulation's own copy into the transform.
//! - [`schedule`]: the plugin and the steps it runs.
pub mod fields;
pub mod interpolate;
pub mod lifecycle;
pub mod pose;
pub mod schedule;
pub mod snapshot;
pub mod sync;

pub use fields::{InterpolateTransformFields, InterpolationMode};
pub use schedule::{
    AvianInterpolationFixedSystem, AvianInterpolationPlugin, AvianInterpolationVariableSystem,
};
