use vstd::prelude::*;

use crate::fields::{effective_fields, InterpolateTransformFields, InterpolationMode};
use crate::pose::Pose;

verus! {

/// The arithmetic of one presentation frame, supplied by the caller.
///
/// `lerp` and `slerp` blend the previous value of a field toward its current value by the
/// progress fraction of the tick under way; `local_translation` and `local_rotation`
/// re-express a world-space value relative to the matching field of a parent's transform.
pub struct PoseMath<FL, FS, GT, GR> {
    /// Blends two positions.
    pub lerp: FL,
    /// Blends two rotations along the shorter arc.
    pub slerp: FS,
    /// A world position made relative to a parent's position.
    pub local_translation: GT,
    /// A world rotation made relative to a parent's rotation.
    pub local_rotation: GR,
}

/// `f` gives at most one result for each pair of arguments.
pub open spec fn is_function<A, B, T, F: Fn(A, B) -> T>(f: F) -> bool {
    forall|a: A, b: B, r1: T, r2: T|
        #[trigger] f.ensures((a, b), r1) && #[trigger] f.ensures((a, b), r2) ==> r1 == r2
}

/// `f` can be called on every pair of arguments.
pub open spec fn is_total<A, B, T, F: Fn(A, B) -> T>(f: F) -> bool {
    forall|a: A, b: B| #[trigger] f.requires((a, b))
}

/// Each of the four functions of `math` can be called on any arguments.
pub open spec fn total_math<V, R, FL, FS, GT, GR>(math: PoseMath<FL, FS, GT, GR>) -> bool where
    FL: Fn(V, V) -> V,
    FS: Fn(R, R) -> R,
    GT: Fn(V, V) -> V,
    GR: Fn(R, R) -> R,
 {
    &&& is_total(math.lerp)
    &&& is_total(math.slerp)
    &&& is_total(math.local_translation)
    &&& is_total(math.local_rotation)
}

/// Each of the four functions of `math` gives one result for given arguments: no hidden state.
pub open spec fn deterministic_math<V, R, FL, FS, GT, GR>(
    math: PoseMath<FL, FS, GT, GR>,
) -> bool where
    FL: Fn(V, V) -> V,
    FS: Fn(R, R) -> R,
    GT: Fn(V, V) -> V,
    GR: Fn(R, R) -> R,
 {
    &&& is_function(math.lerp)
    &&& is_function(math.slerp)
    &&& is_function(math.local_translation)
    &&& is_function(math.local_rotation)
}

/// `after` is `world` written under an optional parent: `world` itself where there is no
/// parent, `world` made relative to the parent's value by `relative` where there is one.
pub open spec fn placed<T, G: Fn(T, T) -> T>(
    world: T,
    parent: Option<T>,
    relative: G,
    after: T,
) -> bool {
    match parent {
        None => after == world,
        Some(p) => relative.ensures((world, p), after),
    }
}

/// What one field of the presentation transform may become, from `before`, under `mode`:
/// a blend of `previous` toward `current`, `current` itself, or `before` untouched.
pub open spec fn field_outcome<T, F: Fn(T, T) -> T, G: Fn(T, T) -> T>(
    mode: InterpolationMode,
    before: T,
    previous: T,
    current: T,
    parent: Option<T>,
    blend: F,
    relative: G,
    after: T,
) -> bool {
    match mode {
        InterpolationMode::Linear => exists|w: T|
            #[trigger] blend.ensures((previous, current), w) && placed(w, parent, relative, after),
        InterpolationMode::Last => placed(current, parent, relative, after),
        InterpolationMode::Off => after == before,
    }
}

/// The position of an optional parent transform.
pub open spec fn parent_position<V, R>(parent: Option<Pose<V, R>>) -> Option<V> {
    match parent {
        Some(p) => Some(p.position),
        None => None,
    }
}

/// The rotation of an optional parent transform.
pub open spec fn parent_rotation<V, R>(parent: Option<Pose<V, R>>) -> Option<R> {
    match parent {
        Some(p) => Some(p.rotation),
        None => None,
    }
}

/// What the presentation transform `before` may become on one frame: each field as its
/// mode says, where both the snapshot and the current pose are known; otherwise the
/// entity is skipped and `after == before`.
pub open spec fn transform_outcome<V, R, FL, FS, GT, GR>(
    fields: Option<InterpolateTransformFields>,
    before: Pose<V, R>,
    previous: Option<Pose<V, R>>,
    current: Option<Pose<V, R>>,
    parent: Option<Pose<V, R>>,
    math: PoseMath<FL, FS, GT, GR>,
    after: Pose<V, R>,
) -> bool where
    FL: Fn(V, V) -> V,
    FS: Fn(R, R) -> R,
    GT: Fn(V, V) -> V,
    GR: Fn(R, R) -> R,
 {
    match (previous, current) {
        (Some(p), Some(c)) => {
            let f = effective_fields(fields);
            &&& field_outcome(
                f.translation,
                before.position,
                p.position,
                c.position,
                parent_position(parent),
                math.lerp,
                math.local_translation,
                after.position,
            )
            &&& field_outcome(
                f.rotation,
                before.rotation,
                p.rotation,
                c.rotation,
                parent_rotation(parent),
                math.slerp,
                math.local_rotation,
                after.rotation,
            )
        },
        _ => after == before,
    }
}

/// One field of one frame: blend, take the current value, or keep the old one, then
/// place the result under the parent, if any.
pub fn interpolate_field<T: Copy, F: Fn(T, T) -> T, G: Fn(T, T) -> T>(
    mode: InterpolationMode,
    before: T,
    previous: T,
    current: T,
    parent: Option<T>,
    blend: &F,
    relative: &G,
) -> (after: T)
    requires
        is_total(*blend),
        is_total(*relative),
    ensures
        field_outcome(mode, before, previous, current, parent, *blend, *relative, after),
{
    let world = match mode {
        InterpolationMode::Linear => blend(previous, current),
        InterpolationMode::Last => current,
        InterpolationMode::Off => {
            return before;
        },
    };
    match parent {
        Some(p) => relative(world, p),
        None => world,
    }
}

/// Writes one frame of the presentation transform of one entity.
///
/// `previous` is the entity's snapshot of the last tick and `current` its pose now;
/// where either is missing the entity is skipped and the transform kept. Otherwise each
/// field follows its mode in `fields` (the default where there is none), and where the
/// entity has a parent whose transform is known, the result is expressed relative to it;
/// where that transform is not known the world-space value is written.
pub fn interpolate_transform<V, R, FL, FS, GT, GR>(
    transform: &mut Pose<V, R>,
    fields: Option<InterpolateTransformFields>,
    previous: Option<Pose<V, R>>,
    current: Option<Pose<V, R>>,
    parent: Option<Pose<V, R>>,
    math: &PoseMath<FL, FS, GT, GR>,
) where
    V: Copy,
    R: Copy,
    FL: Fn(V, V) -> V,
    FS: Fn(R, R) -> R,
    GT: Fn(V, V) -> V,
    GR: Fn(R, R) -> R,

    requires
        total_math::<V, R, FL, FS, GT, GR>(*math),
    ensures
        transform_outcome(fields, *old(transform), previous, current, parent, *math, *final(transform)),
{
    match (previous, current) {
        (Some(p), Some(c)) => {
            let f = InterpolateTransformFields::or_default(fields);
            let parent_position = match parent {
                Some(q) => Some(q.position),
                None => None,
            };
            let parent_rotation = match parent {
                Some(q) => Some(q.rotation),
                None => None,
            };
            let position = interpolate_field(
                f.translation,
                transform.position,
                p.position,
                c.position,
                parent_position,
                &math.lerp,
                &math.local_translation,
            );
            let rotation = interpolate_field(
                f.rotation,
                transform.rotation,
                p.rotation,
                c.rotation,
                parent_rotation,
                &math.slerp,
                &math.local_rotation,
            );
            transform.position = position;
            transform.rotation = rotation;
        },
        _ => {},
    }
}

/// Under a mode, one field written twice from the same inputs, the second time over the
/// first result, comes out as it did the first time.
proof fn lemma_field_idempotent<T, F: Fn(T, T) -> T, G: Fn(T, T) -> T>(
    mode: InterpolationMode,
    before: T,
    previous: T,
    current: T,
    parent: Option<T>,
    blend: F,
    relative: G,
    first: T,
    second: T,
)
    requires
        is_function(blend),
        is_function(relative),
        field_outcome(mode, before, previous, current, parent, blend, relative, first),
        field_outcome(mode, first, previous, current, parent, blend, relative, second),
    ensures
        second == first,
{
    if mode == InterpolationMode::Linear {
        let w1 = choose|w: T|
            #[trigger] blend.ensures((previous, current), w) && placed(w, parent, relative, first);
        let w2 = choose|w: T|
            #[trigger] blend.ensures((previous, current), w) && placed(w, parent, relative, second);
        assert(w1 == w2);
    }
}

/// Idempotence: a second frame with the same progress fraction and unchanged inputs
/// writes the transform that the first wrote. The frame keeps no state of its own, so
/// this holds wherever the blend functions keep none either.
pub proof fn lemma_interpolation_idempotent<V, R, FL, FS, GT, GR>(
    fields: Option<InterpolateTransformFields>,
    before: Pose<V, R>,
    previous: Option<Pose<V, R>>,
    current: Option<Pose<V, R>>,
    parent: Option<Pose<V, R>>,
    math: PoseMath<FL, FS, GT, GR>,
    first: Pose<V, R>,
    second: Pose<V, R>,
) where
    FL: Fn(V, V) -> V,
    FS: Fn(R, R) -> R,
    GT: Fn(V, V) -> V,
    GR: Fn(R, R) -> R,

    requires
        deterministic_math::<V, R, FL, FS, GT, GR>(math),
        transform_outcome(fields, before, previous, current, parent, math, first),
        transform_outcome(fields, first, previous, current, parent, math, second),
    ensures
        second == first,
{
    if let (Some(p), Some(c)) = (previous, current) {
        let f = effective_fields(fields);
        lemma_field_idempotent(
            f.translation,
            before.position,
            p.position,
            c.position,
            parent_position(parent),
            math.lerp,
            math.local_translation,
            first.position,
            second.position,
        );
        lemma_field_idempotent(
            f.rotation,
            before.rotation,
            p.rotation,
            c.rotation,
            parent_rotation(parent),
            math.slerp,
            math.local_rotation,
            first.rotation,
            second.rotation,
        );
    }
}

/// A field in `Last` mode shows the current pose, whatever the blend functions and so
/// whatever the progress fraction: the pose's value itself for an entity without a
/// parent, that value made relative to the parent for one with a parent.
pub proof fn lemma_last_shows_current_pose<V, R, FL, FS, GT, GR>(
    fields: Option<InterpolateTransformFields>,
    before: Pose<V, R>,
    previous: Pose<V, R>,
    current: Pose<V, R>,
    parent: Option<Pose<V, R>>,
    math: PoseMath<FL, FS, GT, GR>,
    after: Pose<V, R>,
) where
    FL: Fn(V, V) -> V,
    FS: Fn(R, R) -> R,
    GT: Fn(V, V) -> V,
    GR: Fn(R, R) -> R,

    requires
        transform_outcome(fields, before, Some(previous), Some(current), parent, math, after),
    ensures
        effective_fields(fields).translation == InterpolationMode::Last ==> placed(
            current.position,
            parent_position(parent),
            math.local_translation,
            after.position,
        ),
        effective_fields(fields).rotation == InterpolationMode::Last ==> placed(
            current.rotation,
            parent_rotation(parent),
            math.local_rotation,
            after.rotation,
        ),
        effective_fields(fields).translation == InterpolationMode::Last && parent.is_none()
            ==> after.position == current.position,
        effective_fields(fields).rotation == InterpolationMode::Last && parent.is_none()
            ==> after.rotation == current.rotation,
{
}

/// A field in `Off` mode is never written: it keeps the value it had before the frame,
/// whatever the snapshot, the pose, the parent and the blend functions.
pub proof fn lemma_off_is_never_written<V, R, FL, FS, GT, GR>(
    fields: Option<InterpolateTransformFields>,
    before: Pose<V, R>,
    previous: Option<Pose<V, R>>,
    current: Option<Pose<V, R>>,
    parent: Option<Pose<V, R>>,
    math: PoseMath<FL, FS, GT, GR>,
    after: Pose<V, R>,
) where
    FL: Fn(V, V) -> V,
    FS: Fn(R, R) -> R,
    GT: Fn(V, V) -> V,
    GR: Fn(R, R) -> R,

    requires
        transform_outcome(fields, before, previous, current, parent, math, after),
    ensures
        effective_fields(fields).translation == InterpolationMode::Off ==> after.position
            == before.position,
        effective_fields(fields).rotation == InterpolationMode::Off ==> after.rotation
            == before.rotation,
{
}

/// An entity without a snapshot, or without a pose, is not touched by a frame.
pub proof fn lemma_skipped_entity_is_untouched<V, R, FL, FS, GT, GR>(
    fields: Option<InterpolateTransformFields>,
    before: Pose<V, R>,
    previous: Option<Pose<V, R>>,
    current: Option<Pose<V, R>>,
    parent: Option<Pose<V, R>>,
    math: PoseMath<FL, FS, GT, GR>,
    after: Pose<V, R>,
) where
    FL: Fn(V, V) -> V,
    FS: Fn(R, R) -> R,
    GT: Fn(V, V) -> V,
    GR: Fn(R, R) -> R,

    requires
        previous.is_none() || current.is_none(),
        transform_outcome(fields, before, previous, current, parent, math, after),
    ensures
        after == before,
{
}

/// `f` gives back its first argument: a blend at the start of a tick.
pub open spec fn stays_at_start<T, F: Fn(T, T) -> T>(f: F) -> bool {
    forall|a: T, b: T, r: T| #[trigger] f.ensures((a, b), r) ==> r == a
}

/// `f` gives back its second argument: a blend at the end of a tick.
pub open spec fn reaches_end<T, F: Fn(T, T) -> T>(f: F) -> bool {
    forall|a: T, b: T, r: T| #[trigger] f.ensures((a, b), r) ==> r == b
}

/// Blended fields run from the snapshot to the current pose: where the blend functions
/// are at the start of the tick, an entity without a parent shows its snapshot, and
/// where they are at its end, it shows its current pose.
pub proof fn lemma_blend_runs_from_snapshot_to_pose<V, R, FL, FS, GT, GR>(
    fields: Option<InterpolateTransformFields>,
    before: Pose<V, R>,
    previous: Pose<V, R>,
    current: Pose<V, R>,
    math: PoseMath<FL, FS, GT, GR>,
    after: Pose<V, R>,
) where
    FL: Fn(V, V) -> V,
    FS: Fn(R, R) -> R,
    GT: Fn(V, V) -> V,
    GR: Fn(R, R) -> R,

    requires
        transform_outcome(fields, before, Some(previous), Some(current), None, math, after),
    ensures
        effective_fields(fields).translation == InterpolationMode::Linear && stays_at_start(
            math.lerp,
        ) ==> after.position == previous.position,
        effective_fields(fields).rotation == InterpolationMode::Linear && stays_at_start(
            math.slerp,
        ) ==> after.rotation == previous.rotation,
        effective_fields(fields).translation == InterpolationMode::Linear && reaches_end(
            math.lerp,
        ) ==> after.position == current.position,
        effective_fields(fields).rotation == InterpolationMode::Linear && reaches_end(math.slerp)
            ==> after.rotation == current.rotation,
{
}

} // verus!
