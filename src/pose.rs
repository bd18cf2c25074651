use vstd::prelude::*;

verus! {

/// A position and an orientation, of whatever representation the caller works in
/// (a 3D vector and a quaternion, say).
#[derive(Debug, Clone, Copy, PartialEq)]
pub struct Pose<V, R> {
    /// Where the object is.
    pub position: V,
    /// How the object is turned.
    pub rotation: R,
}

impl<V: Copy, R: Copy> Pose<V, R> {
    /// A pose made of its two parts.
    pub fn new(position: V, rotation: R) -> (r: Self)
        ensures
            r.position == position,
            r.rotation == rotation,
    {
        Pose { position, rotation }
    }
}

} // verus!
