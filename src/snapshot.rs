use vstd::prelude::*;

use crate::pose::Pose;

verus! {

/// The snapshot after a tick boundary: each field that changed since the last boundary
/// takes the current value, each other field keeps the one it had.
pub open spec fn cached<V, R>(
    previous: Pose<V, R>,
    current: Pose<V, R>,
    position_changed: bool,
    rotation_changed: bool,
) -> Pose<V, R> {
    Pose {
        position: if position_changed {
            current.position
        } else {
            previous.position
        },
        rotation: if rotation_changed {
            current.rotation
        } else {
            previous.rotation
        },
    }
}

/// Refreshes a snapshot at a tick boundary from the pose committed by the last tick,
/// field by field: only the fields that changed since the last boundary are copied.
pub fn cache_previous_transform<V: Copy, R: Copy>(
    previous: &mut Pose<V, R>,
    current: Pose<V, R>,
    position_changed: bool,
    rotation_changed: bool,
)
    ensures
        *final(previous) == cached(*old(previous), current, position_changed, rotation_changed),
{
    if position_changed {
        previous.position = current.position;
    }
    if rotation_changed {
        previous.rotation = current.rotation;
    }
}

} // verus!
