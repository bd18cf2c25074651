use vstd::prelude::*;

verus! {

/// How one field of the presentation transform follows the simulation.
#[derive(Debug, Clone, Copy, Hash, PartialEq, Eq, Structural)]
pub enum InterpolationMode {
    /// Blend between the previous and the current simulation pose. This is the default.
    Linear,
    /// Use the current simulation pose as it is, without smoothing.
    Last,
    /// Leave the field alone, so that something else (manual extrapolation, say) can drive it.
    Off,
}

impl Default for InterpolationMode {
    fn default() -> (r: Self)
        ensures
            r == InterpolationMode::Linear,
    {
        InterpolationMode::Linear
    }
}

/// Which fields of the presentation transform are interpolated, and how.
/// An entity without one behaves as if it had the default, which blends every field.
#[derive(Debug, Clone, Copy, Hash, PartialEq, Eq, Structural)]
pub struct InterpolateTransformFields {
    /// The mode for the translation, driven by the simulation position.
    pub translation: InterpolationMode,
    /// The mode for the rotation, driven by the simulation orientation.
    pub rotation: InterpolationMode,
}

/// The policy that stands for an entity that carries none.
pub open spec fn default_fields() -> InterpolateTransformFields {
    InterpolateTransformFields {
        translation: InterpolationMode::Linear,
        rotation: InterpolationMode::Linear,
    }
}

/// The policy in effect: the one given, or the default where none is.
pub open spec fn effective_fields(
    fields: Option<InterpolateTransformFields>,
) -> InterpolateTransformFields {
    match fields {
        Some(f) => f,
        None => default_fields(),
    }
}

impl Default for InterpolateTransformFields {
    fn default() -> (r: Self)
        ensures
            r == default_fields(),
    {
        InterpolateTransformFields {
            translation: InterpolationMode::Linear,
            rotation: InterpolationMode::Linear,
        }
    }
}

impl InterpolateTransformFields {
    /// The policy in effect for an entity that may carry none.
    pub fn or_default(fields: Option<InterpolateTransformFields>) -> (r: Self)
        ensures
            r == effective_fields(fields),
    {
        match fields {
            Some(f) => f,
            None => InterpolateTransformFields::default(),
        }
    }
}

impl From<InterpolationMode> for InterpolateTransformFields {
    /// The same mode for every field.
    fn from(mode: InterpolationMode) -> (r: Self)
        ensures
            r.translation == mode,
            r.rotation == mode,
    {
        InterpolateTransformFields { translation: mode, rotation: mode }
    }
}

impl vstd::std_specs::convert::FromSpecImpl<InterpolationMode> for InterpolateTransformFields {
    open spec fn obeys_from_spec() -> bool {
        true
    }

    open spec fn from_spec(mode: InterpolationMode) -> Self {
        InterpolateTransformFields { translation: mode, rotation: mode }
    }
}

} // verus!
