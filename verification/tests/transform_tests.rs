//! Tests of the transform value type and the animator, checked
//! against the linear-algebra crate computing the same things
//! directly.

use glam::{Mat4, Quat, Vec3};
use render_core::animator::TransformAnimator;
use render_core::scalar::{ONE_BITS, TENTH_BITS, ZERO_BITS};
use render_core::transform::Transform;

fn quat_bits(q: Quat) -> [u32; 4] {
    let a = q.to_array();
    [
        a[0].to_bits(),
        a[1].to_bits(),
        a[2].to_bits(),
        a[3].to_bits(),
    ]
}

fn vec_bits(v: Vec3) -> [u32; 3] {
    [v.x.to_bits(), v.y.to_bits(), v.z.to_bits()]
}

fn mat_bits(m: Mat4) -> [u32; 16] {
    m.to_cols_array().map(f32::to_bits)
}

fn quat_of_bits(b: [u32; 4]) -> Quat {
    Quat::from_xyzw(
        f32::from_bits(b[0]),
        f32::from_bits(b[1]),
        f32::from_bits(b[2]),
        f32::from_bits(b[3]),
    )
}

#[test]
fn new_transform_is_identity() {
    let t = Transform::new();
    assert_eq!(t.translation, [ZERO_BITS, ZERO_BITS, ZERO_BITS]);
    assert_eq!(t.rotation, [ZERO_BITS, ZERO_BITS, ZERO_BITS, ONE_BITS]);
    assert_eq!(t.scale, [ONE_BITS, ONE_BITS, ONE_BITS]);
    assert_eq!(f32::from_bits(ONE_BITS), 1.0_f32);
    assert_eq!(f32::from_bits(TENTH_BITS), 0.1_f32);
}

#[test]
fn rotate_composes_the_quaternion_product() {
    let t = Transform::new();
    let q = Quat::from_axis_angle(Vec3::Z, 0.3);
    let rotated = t.rotate_by(quat_bits(q));
    let expected = Quat::IDENTITY.mul_quat(q);
    assert_eq!(rotated.rotation, quat_bits(expected));
    assert_eq!(rotated.translation, t.translation);
    assert_eq!(rotated.scale, t.scale);
}

#[test]
fn rotate_x_matches_direct_computation() {
    let t = Transform::new().rotate_by(quat_bits(Quat::from_axis_angle(Vec3::Y, 0.5)));
    let delta = 0.125_f32;
    let rotated = t.rotate_x(delta.to_bits());
    let expected = quat_of_bits(t.rotation).mul_quat(Quat::from_axis_angle(Vec3::X, delta));
    assert_eq!(rotated.rotation, quat_bits(expected));
}

#[test]
fn add_translate_drifts_x_and_y_only() {
    let t = Transform::new().add_translate(0.25_f32.to_bits());
    assert_eq!(t.translation, vec_bits(Vec3::new(0.25, 0.25, 0.0)));
    let t2 = t.add_translate((-0.5_f32).to_bits());
    let expected = Vec3::new(0.25 + -0.5, 0.25 + -0.5, 0.0);
    assert_eq!(t2.translation, vec_bits(expected));
}

#[test]
fn set_scale_splats_absolutely() {
    let t = Transform::new().set_scale(0.7_f32.to_bits());
    let s = 0.7_f32.to_bits();
    assert_eq!(t.scale, [s, s, s]);
    let t2 = t.set_scale(0.2_f32.to_bits());
    let s2 = 0.2_f32.to_bits();
    assert_eq!(t2.scale, [s2, s2, s2]);
}

#[test]
fn update_order_cannot_change_the_outcome() {
    let base = Transform::new()
        .rotate_by(quat_bits(Quat::from_axis_angle(Vec3::Y, 0.4)))
        .add_translate(0.125_f32.to_bits());
    let q = quat_bits(Quat::from_axis_angle(Vec3::X, 0.2));
    let v = 0.0625_f32.to_bits();
    let s = 0.9_f32.to_bits();

    let a = base.rotate_by(q).add_translate(v).set_scale(s);
    let b = base.add_translate(v).rotate_by(q).set_scale(s);
    let c = base.set_scale(s).rotate_by(q).add_translate(v);
    let d = base.add_translate(v).set_scale(s).rotate_by(q);

    for other in [&b, &c, &d] {
        assert_eq!(a.translation, other.translation);
        assert_eq!(a.rotation, other.rotation);
        assert_eq!(a.scale, other.scale);
        assert_eq!(a.to_mat4(), other.to_mat4());
    }
}

#[test]
fn matrix_is_the_fixed_composition() {
    let t = Transform::new()
        .rotate_by(quat_bits(Quat::from_axis_angle(Vec3::X, 1.1)))
        .add_translate(0.5_f32.to_bits())
        .set_scale(0.8_f32.to_bits());
    let m = t.to_mat4();
    let expected = Mat4::from_scale_rotation_translation(
        Vec3::splat(0.8),
        quat_of_bits(t.rotation),
        Vec3::new(0.5, 0.5, 0.0),
    );
    assert_eq!(m, mat_bits(expected));

    // the composed matrix equals the product of the three elementary
    // matrices in the fixed order translation * rotation * scale
    // (scale applied first), up to floating-point rounding
    let product = Mat4::from_translation(Vec3::new(0.5, 0.5, 0.0))
        * Mat4::from_quat(quat_of_bits(t.rotation))
        * Mat4::from_scale(Vec3::splat(0.8));
    for (a, b) in m.iter().zip(product.to_cols_array().iter()) {
        assert!((f32::from_bits(*a) - b).abs() < 1e-6);
    }
}

#[test]
fn tick_advances_like_the_direct_float_computation() {
    let mut animator = TransformAnimator::new();
    let e1 = 0.5_f32;
    let frame = animator.tick(e1.to_bits());
    assert_eq!(frame.elapsed, e1.to_bits());
    assert_eq!(frame.delta, (e1 - 0.0_f32).to_bits());

    // expected transform, computed directly with floats
    let q = Quat::IDENTITY.mul_quat(Quat::from_axis_angle(Vec3::X, e1 - 0.0));
    let drift = e1.cos() / 100.0;
    let scale = e1.sin().max(0.1);
    assert_eq!(animator.transform.rotation, quat_bits(q));
    assert_eq!(
        animator.transform.translation,
        vec_bits(Vec3::new(drift, drift, 0.0))
    );
    assert_eq!(animator.transform.scale, [scale.to_bits(); 3]);
    let expected_matrix = Mat4::from_scale_rotation_translation(
        Vec3::splat(scale),
        q,
        Vec3::new(drift, drift, 0.0),
    );
    assert_eq!(frame.matrix, mat_bits(expected_matrix));

    // a second tick uses the stored previous elapsed time
    let e2 = 0.75_f32;
    let frame2 = animator.tick(e2.to_bits());
    assert_eq!(frame2.delta, (e2 - e1).to_bits());
    assert_eq!(animator.last_elapsed, e2.to_bits());
}

#[test]
fn scale_never_falls_below_the_floor() {
    // sin is negative over a whole sweep of elapsed times; the scale
    // must be clamped to 0.1 at each of them
    let mut animator = TransformAnimator::new();
    for k in 0..60 {
        let elapsed = 0.25_f32 * k as f32;
        animator.tick(elapsed.to_bits());
        let s = f32::from_bits(animator.transform.scale[0]);
        assert!(s >= 0.1, "scale {s} fell below the floor at t={elapsed}");
        assert_eq!(s, elapsed.sin().max(0.1));
    }
}

#[test]
fn nan_sine_is_clamped_to_the_floor() {
    // sin of infinity is NaN; the clamp must still yield the floor
    let mut animator = TransformAnimator::new();
    animator.tick(f32::INFINITY.to_bits());
    assert_eq!(animator.transform.scale, [TENTH_BITS; 3]);
}

#[test]
fn accumulated_rotation_is_elapsed_time_modulo_two_pi() {
    // constant angular velocity of one radian per second: after T
    // seconds the accumulated axis-angle rotation is T modulo 2*pi
    for total in [2.0_f32, 5.5_f32, 9.0_f32] {
        let mut animator = TransformAnimator::new();
        let steps = 40;
        for k in 1..=steps {
            let elapsed = total * k as f32 / steps as f32;
            animator.tick(elapsed.to_bits());
        }
        let q = quat_of_bits(animator.transform.rotation);
        let (axis, angle) = q.to_axis_angle();
        let turned = if axis.x >= 0.0 {
            angle
        } else {
            2.0 * std::f32::consts::PI - angle
        };
        let expected = total % (2.0 * std::f32::consts::PI);
        assert!(
            (turned - expected).abs() < 1e-3,
            "turned {turned}, expected {expected}"
        );
    }
}
