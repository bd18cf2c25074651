use avian_interpolation::fields::{InterpolateTransformFields, InterpolationMode};
use avian_interpolation::interpolate::{interpolate_field, interpolate_transform, PoseMath};
use avian_interpolation::pose::Pose;
use glam::{Quat, Vec3};
use std::f32::consts::{FRAC_PI_2, PI};

type Math = PoseMath<
    Box<dyn Fn(Vec3, Vec3) -> Vec3>,
    Box<dyn Fn(Quat, Quat) -> Quat>,
    Box<dyn Fn(Vec3, Vec3) -> Vec3>,
    Box<dyn Fn(Quat, Quat) -> Quat>,
>;

fn math(alpha: f32) -> Math {
    PoseMath {
        lerp: Box::new(move |a: Vec3, b: Vec3| a.lerp(b, alpha)),
        slerp: Box::new(move |a: Quat, b: Quat| a.slerp(b, alpha)),
        local_translation: Box::new(|t: Vec3, p: Vec3| t - p),
        local_rotation: Box::new(|r: Quat, p: Quat| r * p.inverse()),
    }
}

fn pose(x: f32, y: f32, z: f32, rotation: Quat) -> Pose<Vec3, Quat> {
    Pose::new(Vec3::new(x, y, z), rotation)
}

fn close(a: Vec3, b: Vec3) -> bool {
    a.distance(b) < 1e-5
}

fn same_rotation(a: Quat, b: Quat) -> bool {
    a.dot(b).abs() > 1.0 - 1e-5
}

fn fields(translation: InterpolationMode, rotation: InterpolationMode) -> InterpolateTransformFields {
    InterpolateTransformFields { translation, rotation }
}

#[test]
fn translation_blends_halfway() {
    let mut transform = pose(3.0, 3.0, 3.0, Quat::IDENTITY);
    let previous = pose(0.0, 0.0, 0.0, Quat::IDENTITY);
    let current = pose(10.0, 0.0, 0.0, Quat::IDENTITY);
    interpolate_transform(&mut transform, None, Some(previous), Some(current), None, &math(0.5));
    assert!(close(transform.position, Vec3::new(5.0, 0.0, 0.0)));
    assert!(same_rotation(transform.rotation, Quat::IDENTITY));
}

#[test]
fn rotation_blends_halfway_along_shorter_arc() {
    let mut transform = pose(0.0, 0.0, 0.0, Quat::IDENTITY);
    let previous = pose(0.0, 0.0, 0.0, Quat::IDENTITY);
    let current = pose(0.0, 0.0, 0.0, Quat::from_rotation_y(PI));
    interpolate_transform(&mut transform, None, Some(previous), Some(current), None, &math(0.5));
    let (axis, angle) = transform.rotation.to_axis_angle();
    assert!((transform.rotation.length() - 1.0).abs() < 1e-5);
    assert!((angle - FRAC_PI_2).abs() < 1e-4);
    assert!(axis.x.abs() < 1e-4 && axis.z.abs() < 1e-4 && (axis.y.abs() - 1.0).abs() < 1e-4);
}

#[test]
fn rotation_blend_takes_the_shorter_arc() {
    // 350 degrees one way is 10 degrees the other: halfway is 5 degrees back.
    let mut transform = pose(0.0, 0.0, 0.0, Quat::IDENTITY);
    let previous = pose(0.0, 0.0, 0.0, Quat::IDENTITY);
    let current = pose(0.0, 0.0, 0.0, Quat::from_rotation_y(350f32.to_radians()));
    interpolate_transform(&mut transform, None, Some(previous), Some(current), None, &math(0.5));
    assert!(same_rotation(transform.rotation, Quat::from_rotation_y(-5f32.to_radians())));
    assert!((transform.rotation.length() - 1.0).abs() < 1e-5);
}

#[test]
fn blend_at_zero_shows_snapshot() {
    let mut transform = pose(9.0, 9.0, 9.0, Quat::IDENTITY);
    let previous = pose(1.0, 2.0, 3.0, Quat::from_rotation_x(0.3));
    let current = pose(4.0, -2.0, 8.0, Quat::from_rotation_x(1.2));
    interpolate_transform(&mut transform, None, Some(previous), Some(current), None, &math(0.0));
    assert_eq!(transform.position, previous.position);
    assert!(same_rotation(transform.rotation, previous.rotation));
}

#[test]
fn blend_near_one_approaches_pose() {
    let mut transform = pose(9.0, 9.0, 9.0, Quat::IDENTITY);
    let previous = pose(1.0, 2.0, 3.0, Quat::from_rotation_x(0.3));
    let current = pose(4.0, -2.0, 8.0, Quat::from_rotation_x(1.2));
    interpolate_transform(&mut transform, None, Some(previous), Some(current), None, &math(0.9999));
    assert!(transform.position.distance(current.position) < 1e-3);
    assert!(same_rotation(transform.rotation, current.rotation));
}

#[test]
fn last_mode_shows_pose_for_any_alpha() {
    let previous = pose(1.0, 2.0, 3.0, Quat::from_rotation_z(0.1));
    let current = pose(4.0, 5.0, 6.0, Quat::from_rotation_z(0.7));
    let policy = Some(fields(InterpolationMode::Last, InterpolationMode::Last));
    for alpha in [0.0, 0.25, 0.5, 0.99] {
        let mut transform = pose(0.0, 0.0, 0.0, Quat::IDENTITY);
        interpolate_transform(&mut transform, policy, Some(previous), Some(current), None, &math(alpha));
        assert_eq!(transform, current);
    }
}

#[test]
fn off_mode_leaves_field_alone() {
    let before = pose(-7.0, 0.5, 2.0, Quat::from_rotation_y(0.4));
    let previous = pose(1.0, 2.0, 3.0, Quat::IDENTITY);
    let current = pose(4.0, 5.0, 6.0, Quat::from_rotation_z(0.7));
    let mut transform = before;
    let policy = Some(fields(InterpolationMode::Off, InterpolationMode::Last));
    interpolate_transform(&mut transform, policy, Some(previous), Some(current), None, &math(0.5));
    assert_eq!(transform.position, before.position);
    assert_eq!(transform.rotation, current.rotation);

    let mut transform = before;
    let policy = Some(fields(InterpolationMode::Linear, InterpolationMode::Off));
    interpolate_transform(&mut transform, policy, Some(previous), Some(current), None, &math(0.5));
    assert!(close(transform.position, Vec3::new(2.5, 3.5, 4.5)));
    assert_eq!(transform.rotation, before.rotation);
}

#[test]
fn second_frame_with_same_inputs_changes_nothing() {
    let previous = pose(1.0, 2.0, 3.0, Quat::from_rotation_x(0.3));
    let current = pose(4.0, -2.0, 8.0, Quat::from_rotation_x(1.2));
    let parent = Some(pose(1.0, 1.0, 1.0, Quat::from_rotation_y(0.5)));
    let m = math(0.3);
    let mut transform = pose(0.0, 0.0, 0.0, Quat::IDENTITY);
    interpolate_transform(&mut transform, None, Some(previous), Some(current), parent, &m);
    let first = transform;
    interpolate_transform(&mut transform, None, Some(previous), Some(current), parent, &m);
    assert_eq!(transform, first);
}

#[test]
fn missing_snapshot_or_pose_skips_entity() {
    let before = pose(-7.0, 0.5, 2.0, Quat::from_rotation_y(0.4));
    let other = pose(4.0, 5.0, 6.0, Quat::IDENTITY);
    let mut transform = before;
    interpolate_transform(&mut transform, None, None, Some(other), None, &math(0.5));
    assert_eq!(transform, before);
    interpolate_transform(&mut transform, None, Some(other), None, None, &math(0.5));
    assert_eq!(transform, before);
}

#[test]
fn reparented_entity_follows_new_parent() {
    let previous = pose(0.0, 0.0, 0.0, Quat::IDENTITY);
    let current = pose(10.0, 0.0, 0.0, Quat::IDENTITY);
    let old_parent = pose(1.0, 0.0, 0.0, Quat::IDENTITY);
    let new_parent = pose(0.0, 3.0, 0.0, Quat::from_rotation_y(FRAC_PI_2));
    let m = math(0.5);
    let mut transform = pose(0.0, 0.0, 0.0, Quat::IDENTITY);
    interpolate_transform(&mut transform, None, Some(previous), Some(current), Some(old_parent), &m);
    assert!(close(transform.position, Vec3::new(4.0, 0.0, 0.0)));
    // The entity is moved under another parent before the next frame.
    interpolate_transform(&mut transform, None, Some(previous), Some(current), Some(new_parent), &m);
    assert!(close(transform.position, Vec3::new(5.0, -3.0, 0.0)));
    assert!(same_rotation(transform.rotation, Quat::from_rotation_y(-FRAC_PI_2)));
}

#[test]
fn unknown_parent_transform_writes_world_values() {
    let previous = pose(0.0, 0.0, 0.0, Quat::IDENTITY);
    let current = pose(10.0, 0.0, 0.0, Quat::IDENTITY);
    let mut transform = pose(0.0, 0.0, 0.0, Quat::IDENTITY);
    interpolate_transform(&mut transform, None, Some(previous), Some(current), None, &math(0.5));
    assert!(close(transform.position, Vec3::new(5.0, 0.0, 0.0)));
}

#[test]
fn field_modes_pick_their_source() {
    let blend = |a: i64, b: i64| (a + b) / 2;
    let relative = |w: i64, p: i64| w - p;
    assert_eq!(interpolate_field(InterpolationMode::Linear, 7, 0, 10, None, &blend, &relative), 5);
    assert_eq!(interpolate_field(InterpolationMode::Last, 7, 0, 10, None, &blend, &relative), 10);
    assert_eq!(interpolate_field(InterpolationMode::Off, 7, 0, 10, None, &blend, &relative), 7);
    assert_eq!(interpolate_field(InterpolationMode::Linear, 7, 0, 10, Some(2), &blend, &relative), 3);
    assert_eq!(interpolate_field(InterpolationMode::Last, 7, 0, 10, Some(2), &blend, &relative), 8);
    assert_eq!(interpolate_field(InterpolationMode::Off, 7, 0, 10, Some(2), &blend, &relative), 7);
}

#[test]
fn default_policy_blends_both_fields() {
    let policy = InterpolateTransformFields::default();
    assert_eq!(policy.translation, InterpolationMode::Linear);
    assert_eq!(policy.rotation, InterpolationMode::Linear);
    assert_eq!(InterpolationMode::default(), InterpolationMode::Linear);
    assert_eq!(InterpolateTransformFields::or_default(None), policy);
    let last = fields(InterpolationMode::Last, InterpolationMode::Off);
    assert_eq!(InterpolateTransformFields::or_default(Some(last)), last);
}

#[test]
fn policy_from_one_mode() {
    let policy = InterpolateTransformFields::from(InterpolationMode::Off);
    assert_eq!(policy.translation, InterpolationMode::Off);
    assert_eq!(policy.rotation, InterpolationMode::Off);
}
