use vstd::prelude::*;

verus! {

/// Transform interpolation for a simulation that steps at a fixed rate. The pieces it
/// puts together are in the other modules of this crate.
#[non_exhaustive]
pub struct AvianInterpolationPlugin;

impl Default for AvianInterpolationPlugin {
    fn default() -> (r: Self) {
        AvianInterpolationPlugin
    }
}

/// The steps of the fixed-rate loop, in their order. They run before the simulation's
/// own step.
#[derive(Debug, Clone, Copy, Hash, PartialEq, Eq, Structural)]
pub enum AvianInterpolationFixedSystem {
    /// The first step; empty unless the application adds to it.
    First,
    /// Refresh the snapshots from the pose of the last tick.
    CachePreviousPhysicsTransform,
    /// The last step; empty unless the application adds to it.
    Last,
}

/// The steps of the presentation loop, in their order. They run every frame, after any
/// fixed-rate ticks of that frame.
#[derive(Debug, Clone, Copy, Hash, PartialEq, Eq, Structural)]
pub enum AvianInterpolationVariableSystem {
    /// The first step; empty unless the application adds to it.
    First,
    /// Write the interpolated transforms.
    Interpolate,
    /// The last step; empty unless the application adds to it.
    Last,
}

} // verus!
