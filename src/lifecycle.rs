use vstd::prelude::*;

use crate::fields::{effective_fields, InterpolateTransformFields, InterpolationMode};
use crate::interpolate::{transform_outcome, PoseMath};
use crate::pose::Pose;
use crate::snapshot::{cache_previous_transform, cached};

verus! {

/// The kind of simulated body that an entity is.
#[derive(Debug, Clone, Copy, PartialEq, Eq, Structural)]
pub enum BodyKind {
    /// Moved by the simulation.
    Dynamic,
    /// Moved by the application, through the simulation.
    Kinematic,
    /// Never moves.
    Static,
}

impl BodyKind {
    /// Whether the body never moves.
    pub fn is_static(&self) -> (r: bool)
        ensures
            r == (*self == BodyKind::Static),
    {
        match self {
            BodyKind::Static => true,
            _ => false,
        }
    }
}

/// A change to an entity that the lifecycle reacts to.
#[derive(Debug, Clone, Copy, PartialEq, Eq, Structural)]
pub enum LifecycleEvent {
    /// The entity was given a simulation pose.
    PoseAdded,
    /// The entity is losing its simulation pose.
    PoseRemoved,
    /// The entity is being excluded from interpolation.
    ExclusionAdded,
    /// The entity is being let back into interpolation.
    ExclusionRemoved,
}

/// What the lifecycle does to an entity's interpolation state.
#[derive(Debug, Clone, Copy, PartialEq)]
pub enum LifecycleAction<V, R> {
    /// Give the entity this snapshot and this policy.
    Attach { previous: Pose<V, R>, fields: InterpolateTransformFields },
    /// Take the entity's snapshot and policy away, where it has them.
    Detach,
    /// Leave the entity as it is.
    Keep,
}

/// The components of one entity that interpolation reads or keeps.
#[derive(Debug, Clone, Copy, PartialEq)]
pub struct Interpolant<V, R> {
    /// The simulation's current pose, where the entity has one.
    pub pose: Option<Pose<V, R>>,
    /// The kind of body, where the entity is one (a collider alone is not).
    pub body: Option<BodyKind>,
    /// Whether the entity carries the exclusion marker.
    pub excluded: bool,
    /// The snapshot of the pose at the last tick boundary.
    pub previous: Option<Pose<V, R>>,
    /// The interpolation policy.
    pub fields: Option<InterpolateTransformFields>,
}

/// A body that the simulation can move: one that is there and is not static.
pub open spec fn can_move(body: Option<BodyKind>) -> bool {
    match body {
        Some(kind) => kind != BodyKind::Static,
        None => false,
    }
}

/// The attachment that an entity with this pose, body and policy gets, where it can move.
pub open spec fn attach_for<V, R>(e: Interpolant<V, R>) -> LifecycleAction<V, R> {
    if e.pose.is_some() && can_move(e.body) {
        LifecycleAction::Attach { previous: e.pose.unwrap(), fields: effective_fields(e.fields) }
    } else {
        LifecycleAction::Keep
    }
}

/// The action that answers `event` on an entity whose components are `e` when it fires.
/// The marker is still present when its removal fires, so that event does not read it.
pub open spec fn action_for<V, R>(event: LifecycleEvent, e: Interpolant<V, R>) -> LifecycleAction<
    V,
    R,
> {
    match event {
        LifecycleEvent::PoseAdded => if e.excluded {
            LifecycleAction::Keep
        } else {
            attach_for(e)
        },
        LifecycleEvent::PoseRemoved => LifecycleAction::Detach,
        LifecycleEvent::ExclusionAdded => LifecycleAction::Detach,
        LifecycleEvent::ExclusionRemoved => attach_for(e),
    }
}

/// Decides what the lifecycle does when `event` fires on an entity with components `e`:
/// a pose added to a movable body that is not excluded, or an exclusion lifted from a
/// movable body with a pose, attaches a snapshot equal to the current pose and the
/// entity's policy (the default where it has none); a pose removed or an exclusion added
/// detaches both; anything else keeps the entity as it is. Static bodies and colliders
/// that are no bodies are never attached.
pub fn lifecycle_action<V: Copy, R: Copy>(event: LifecycleEvent, e: &Interpolant<V, R>) -> (r:
    LifecycleAction<V, R>)
    ensures
        r == action_for(event, *e),
{
    let attach = match (e.pose, e.body) {
        (Some(pose), Some(kind)) => {
            if kind.is_static() {
                LifecycleAction::Keep
            } else {
                LifecycleAction::Attach {
                    previous: pose,
                    fields: InterpolateTransformFields::or_default(e.fields),
                }
            }
        },
        _ => LifecycleAction::Keep,
    };
    match event {
        LifecycleEvent::PoseAdded => if e.excluded {
            LifecycleAction::Keep
        } else {
            attach
        },
        LifecycleEvent::PoseRemoved => LifecycleAction::Detach,
        LifecycleEvent::ExclusionAdded => LifecycleAction::Detach,
        LifecycleEvent::ExclusionRemoved => attach,
    }
}

/// Reacts to a pose being added to an entity: a movable body that is not excluded gets a
/// snapshot equal to its current pose, and the default policy where it has none; any
/// other entity is left as it is.
pub fn insert_previous_position<V: Copy, R: Copy>(e: &mut Interpolant<V, R>)
    ensures
        *final(e) == old(e).applied(action_for(LifecycleEvent::PoseAdded, *old(e))),
{
    let action = lifecycle_action(LifecycleEvent::PoseAdded, e);
    e.apply(action);
}

/// Reacts to a pose being removed from an entity, or to the entity being excluded: its
/// snapshot and its policy are taken away. Nothing else about it changes, and an entity
/// that has neither is left as it is.
pub fn remove_previous_transform<V: Copy, R: Copy>(e: &mut Interpolant<V, R>)
    ensures
        *final(e) == old(e).applied(LifecycleAction::Detach),
        final(e).previous.is_none(),
        final(e).fields.is_none(),
{
    e.apply(LifecycleAction::Detach);
}

impl<V: Copy, R: Copy> Interpolant<V, R> {
    /// Whether the entity should be interpolated: it has a pose, can move, and is not excluded.
    pub open spec fn interpolated(self) -> bool {
        self.pose.is_some() && can_move(self.body) && !self.excluded
    }

    /// The lifecycle's invariant: a snapshot exists exactly while the entity is interpolated,
    /// and never without a policy.
    pub open spec fn wf(self) -> bool {
        &&& self.previous.is_some() == self.interpolated()
        &&& self.previous.is_some() ==> self.fields.is_some()
    }

    /// The components after `action`.
    pub open spec fn applied(self, action: LifecycleAction<V, R>) -> Self {
        match action {
            LifecycleAction::Attach { previous, fields } => Interpolant {
                previous: Some(previous),
                fields: Some(fields),
                ..self
            },
            LifecycleAction::Detach => Interpolant { previous: None, fields: None, ..self },
            LifecycleAction::Keep => self,
        }
    }

    /// The components after the simulation sets the pose: a pose given to an entity
    /// without one fires `PoseAdded`; one that replaces a pose fires nothing.
    pub open spec fn with_pose(self, pose: Pose<V, R>) -> Self {
        let e = Interpolant { pose: Some(pose), ..self };
        if self.pose.is_none() {
            e.applied(action_for(LifecycleEvent::PoseAdded, e))
        } else {
            e
        }
    }

    /// The components after the pose is taken away (`PoseRemoved` fires where there was one).
    pub open spec fn without_pose(self) -> Self {
        let e = if self.pose.is_some() {
            self.applied(action_for(LifecycleEvent::PoseRemoved, self))
        } else {
            self
        };
        Interpolant { pose: None, ..e }
    }

    /// The components after the exclusion marker is added (`ExclusionAdded` fires where
    /// it was absent).
    pub open spec fn with_exclusion(self) -> Self {
        if self.excluded {
            self
        } else {
            let e = Interpolant { excluded: true, ..self };
            e.applied(action_for(LifecycleEvent::ExclusionAdded, e))
        }
    }

    /// The components after the exclusion marker is removed (`ExclusionRemoved` fires,
    /// while the marker is still there, where it was present).
    pub open spec fn without_exclusion(self) -> Self {
        if self.excluded {
            let e = self.applied(action_for(LifecycleEvent::ExclusionRemoved, self));
            Interpolant { excluded: false, ..e }
        } else {
            self
        }
    }

    /// A new entity, before anything has been added to it.
    pub fn new(body: Option<BodyKind>) -> (r: Self)
        ensures
            r.pose.is_none(),
            r.body == body,
            !r.excluded,
            r.previous.is_none(),
            r.fields.is_none(),
            r.wf(),
    {
        Interpolant { pose: None, body, excluded: false, previous: None, fields: None }
    }

    /// Carries out a lifecycle action.
    pub fn apply(&mut self, action: LifecycleAction<V, R>)
        ensures
            *final(self) == old(self).applied(action),
    {
        match action {
            LifecycleAction::Attach { previous, fields } => {
                self.previous = Some(previous);
                self.fields = Some(fields);
            },
            LifecycleAction::Detach => {
                self.previous = None;
                self.fields = None;
            },
            LifecycleAction::Keep => {},
        }
    }

    /// The simulation sets the entity's pose.
    pub fn set_pose(&mut self, pose: Pose<V, R>)
        requires
            old(self).wf(),
        ensures
            *final(self) == old(self).with_pose(pose),
            final(self).wf(),
    {
        let added = self.pose.is_none();
        self.pose = Some(pose);
        if added {
            insert_previous_position(self);
        }
    }

    /// The simulation takes the entity's pose away.
    pub fn remove_pose(&mut self)
        requires
            old(self).wf(),
        ensures
            *final(self) == old(self).without_pose(),
            final(self).wf(),
    {
        if self.pose.is_some() {
            remove_previous_transform(self);
        }
        self.pose = None;
    }

    /// The application excludes the entity from interpolation.
    pub fn exclude(&mut self)
        requires
            old(self).wf(),
        ensures
            *final(self) == old(self).with_exclusion(),
            final(self).wf(),
    {
        if !self.excluded {
            self.excluded = true;
            remove_previous_transform(self);
        }
    }

    /// The application lets the entity back into interpolation.
    pub fn readmit(&mut self)
        requires
            old(self).wf(),
        ensures
            *final(self) == old(self).without_exclusion(),
            final(self).wf(),
    {
        if self.excluded {
            let action = lifecycle_action(LifecycleEvent::ExclusionRemoved, self);
            self.apply(action);
            self.excluded = false;
        }
    }

    /// The application sets the entity's policy; it takes effect on the next frame.
    pub fn set_fields(&mut self, fields: InterpolateTransformFields)
        requires
            old(self).wf(),
        ensures
            *final(self) == (Interpolant { fields: Some(fields), ..*old(self) }),
            final(self).wf(),
    {
        self.fields = Some(fields);
    }

    /// At a tick boundary, refreshes the snapshot from the pose, field by field as they
    /// changed; an entity without a snapshot or without a pose is left alone.
    pub fn cache_previous(&mut self, position_changed: bool, rotation_changed: bool)
        requires
            old(self).wf(),
        ensures
            final(self).wf(),
            final(self).pose == old(self).pose,
            final(self).fields == old(self).fields,
            final(self).excluded == old(self).excluded,
            final(self).body == old(self).body,
            final(self).previous == match (old(self).previous, old(self).pose) {
                (Some(p), Some(c)) => Some(cached(p, c, position_changed, rotation_changed)),
                _ => old(self).previous,
            },
    {
        match (self.previous, self.pose) {
            (Some(p), Some(c)) => {
                let mut p = p;
                cache_previous_transform(&mut p, c, position_changed, rotation_changed);
                self.previous = Some(p);
            },
            _ => {},
        }
    }
}

/// Blending a value with itself gives that value.
pub open spec fn keeps_equal_ends<T, F: Fn(T, T) -> T>(f: F) -> bool {
    forall|a: T, r: T| #[trigger] f.ensures((a, a), r) ==> r == a
}

/// Round trip: excluding an entity and letting it back in, while its pose does not move,
/// drops its snapshot and policy and then gives it back a snapshot equal to its current
/// pose, and a policy, where it is a movable body with a pose.
pub proof fn lemma_exclusion_round_trip<V: Copy, R: Copy>(e: Interpolant<V, R>)
    requires
        e.wf(),
        !e.excluded,
    ensures
        e.with_exclusion().previous.is_none(),
        e.with_exclusion().fields.is_none(),
        e.with_exclusion().wf(),
        e.with_exclusion().without_exclusion().wf(),
        e.with_exclusion().without_exclusion().pose == e.pose,
        !e.with_exclusion().without_exclusion().excluded,
        e.pose.is_some() && can_move(e.body) ==> e.with_exclusion().without_exclusion().previous
            == e.pose && e.with_exclusion().without_exclusion().fields.is_some(),
{
}

/// The first frame after an entity is let back in shows its current pose: no field that
/// is written jumps, wherever blending a value with itself gives that value back.
pub proof fn lemma_readmission_does_not_jump<V: Copy, R: Copy, FL, FS, GT, GR>(
    e: Interpolant<V, R>,
    before: Pose<V, R>,
    math: PoseMath<FL, FS, GT, GR>,
    after: Pose<V, R>,
) where
    FL: Fn(V, V) -> V,
    FS: Fn(R, R) -> R,
    GT: Fn(V, V) -> V,
    GR: Fn(R, R) -> R,

    requires
        e.wf(),
        !e.excluded,
        e.pose.is_some(),
        can_move(e.body),
        keeps_equal_ends(math.lerp),
        keeps_equal_ends(math.slerp),
        transform_outcome(
            e.with_exclusion().without_exclusion().fields,
            before,
            e.with_exclusion().without_exclusion().previous,
            e.with_exclusion().without_exclusion().pose,
            None,
            math,
            after,
        ),
    ensures
        e.with_exclusion().without_exclusion().fields.unwrap().translation
            != InterpolationMode::Off ==> after.position == e.pose.unwrap().position,
        e.with_exclusion().without_exclusion().fields.unwrap().rotation != InterpolationMode::Off
            ==> after.rotation == e.pose.unwrap().rotation,
{
    lemma_exclusion_round_trip(e);
}

/// An entity whose pose is removed loses its snapshot and its policy at once, and no
/// later frame touches its transform.
pub proof fn lemma_pose_removal_detaches<V: Copy, R: Copy, FL, FS, GT, GR>(
    e: Interpolant<V, R>,
    before: Pose<V, R>,
    parent: Option<Pose<V, R>>,
    math: PoseMath<FL, FS, GT, GR>,
    after: Pose<V, R>,
) where
    FL: Fn(V, V) -> V,
    FS: Fn(R, R) -> R,
    GT: Fn(V, V) -> V,
    GR: Fn(R, R) -> R,

    requires
        e.wf(),
        e.pose.is_some(),
        transform_outcome(
            e.without_pose().fields,
            before,
            e.without_pose().previous,
            e.without_pose().pose,
            parent,
            math,
            after,
        ),
    ensures
        e.without_pose().previous.is_none(),
        e.without_pose().fields.is_none(),
        e.without_pose().wf(),
        after == before,
{
}

} // verus!
