//! The animated model transform.
//!
//! A transform is an immutable value: translation, rotation (a
//! quaternion) and scale, each carried as single-precision bit
//! patterns. Every mutating operation returns a new value derived from
//! the previous one, and the three elementary updates touch disjoint
//! components, so the order in which a frame applies them cannot
//! change the matrix that is finally composed from the accumulated
//! components in the fixed order scale, then rotation, then
//! translation.

use vstd::prelude::*;
use crate::algebra::{
    Vec3Bits, QuatBits, Mat4Bits, add3_of, quat_mul_of, mat4_of, vec3_add, quat_mul,
    quat_from_axis_angle, mat4_compose,
};
use crate::scalar::{ZERO_BITS, ONE_BITS};

verus! {

/// The same value in every lane.
pub open spec fn splat3(v: u32) -> Vec3Bits {
    [v, v, v]
}

/// The per-frame drift vector: the step added to the x and y lanes,
/// nothing to z.
pub open spec fn drift_step(v: u32) -> Vec3Bits {
    [v, v, ZERO_BITS]
}

/// The translation after one drift step: x and y take their
/// componentwise sums, z is kept as it was.
pub open spec fn translated(t: Vec3Bits, v: u32) -> Vec3Bits {
    [add3_of(t, drift_step(v))[0], add3_of(t, drift_step(v))[1], t[2]]
}

/// A model transform: translation, rotation and scale, composed into
/// a 4×4 matrix in the fixed order scale, then rotation, then
/// translation.
#[derive(Clone, Copy, Debug)]
pub struct Transform {
    pub translation: Vec3Bits,
    pub rotation: QuatBits,
    pub scale: Vec3Bits,
}

/// The identity transform: no translation, identity rotation, unit
/// scale.
pub open spec fn identity_transform() -> Transform {
    Transform {
        translation: [ZERO_BITS, ZERO_BITS, ZERO_BITS],
        rotation: [ZERO_BITS, ZERO_BITS, ZERO_BITS, ONE_BITS],
        scale: [ONE_BITS, ONE_BITS, ONE_BITS],
    }
}

/// The transform after composing a further rotation onto the
/// accumulated one.
pub open spec fn spec_rotate_by(t: Transform, q: QuatBits) -> Transform {
    Transform { rotation: quat_mul_of(t.rotation, q), ..t }
}

/// The transform after one translation drift step.
pub open spec fn spec_add_translate(t: Transform, v: u32) -> Transform {
    Transform { translation: translated(t.translation, v), ..t }
}

/// The transform after the scale is set absolutely.
pub open spec fn spec_set_scale(t: Transform, s: u32) -> Transform {
    Transform { scale: splat3(s), ..t }
}

impl Transform {
    /// The identity transform every run starts from.
    pub fn new() -> (t: Transform)
        ensures
            t == identity_transform(),
    {
        Transform {
            translation: [ZERO_BITS, ZERO_BITS, ZERO_BITS],
            rotation: [ZERO_BITS, ZERO_BITS, ZERO_BITS, ONE_BITS],
            scale: [ONE_BITS, ONE_BITS, ONE_BITS],
        }
    }

    /// Composes a further rotation, given as a quaternion, onto the
    /// accumulated rotation; translation and scale are untouched.
    pub fn rotate_by(&self, q: QuatBits) -> (t: Transform)
        ensures
            t == spec_rotate_by(*self, q),
    {
        Transform { rotation: quat_mul(self.rotation, q), translation: self.translation, scale: self.scale }
    }

    /// Rotates around `axis` by `radius` radians. The quaternion for
    /// the turn goes through the platform's trigonometry, so only the
    /// untouched components are pinned down here; the composition
    /// itself is exact in `rotate_by`.
    pub fn rotate(&self, axis: Vec3Bits, radius: u32) -> (t: Transform)
        ensures
            t.translation == self.translation,
            t.scale == self.scale,
    {
        let q = quat_from_axis_angle(axis, radius);
        self.rotate_by(q)
    }

    /// Rotates around the x axis.
    pub fn rotate_x(&self, radius: u32) -> (t: Transform)
        ensures
            t.translation == self.translation,
            t.scale == self.scale,
    {
        self.rotate([ONE_BITS, ZERO_BITS, ZERO_BITS], radius)
    }

    /// Rotates around the y axis.
    pub fn rotate_y(&self, radius: u32) -> (t: Transform)
        ensures
            t.translation == self.translation,
            t.scale == self.scale,
    {
        self.rotate([ZERO_BITS, ONE_BITS, ZERO_BITS], radius)
    }

    /// Rotates around the z axis.
    pub fn rotate_z(&self, radius: u32) -> (t: Transform)
        ensures
            t.translation == self.translation,
            t.scale == self.scale,
    {
        self.rotate([ZERO_BITS, ZERO_BITS, ONE_BITS], radius)
    }

    /// Sets the scale absolutely, the same factor in every lane;
    /// translation and rotation are untouched.
    pub fn set_scale(&self, scale: u32) -> (t: Transform)
        ensures
            t == spec_set_scale(*self, scale),
    {
        Transform { scale: [scale, scale, scale], translation: self.translation, rotation: self.rotation }
    }

    /// Adds one drift step to the x and y lanes of the translation,
    /// leaving z as it was; rotation and scale are untouched.
    pub fn add_translate(&self, tran_val: u32) -> (t: Transform)
        ensures
            t == spec_add_translate(*self, tran_val),
    {
        let s = vec3_add(self.translation, [tran_val, tran_val, ZERO_BITS]);
        Transform {
            translation: [s[0], s[1], self.translation[2]],
            rotation: self.rotation,
            scale: self.scale,
        }
    }

    /// Composes the accumulated components into the column-major 4×4
    /// matrix uploaded each frame, in the fixed order scale, then
    /// rotation, then translation.
    pub fn to_mat4(&self) -> (m: Mat4Bits)
        ensures
            m == mat4_of(self.scale, self.rotation, self.translation),
    {
        mat4_compose(self.scale, self.rotation, self.translation)
    }
}

/// Law: one tick's three elementary updates — rotate by `q`, drift by
/// `v`, set the scale to `s` — land in the same transform in whatever
/// order they are applied, and its matrix is the one composed from the
/// accumulated components in the fixed order scale, then rotation,
/// then translation.
pub proof fn lemma_update_order_independent(t: Transform, q: QuatBits, v: u32, s: u32)
    ensures
        spec_set_scale(spec_add_translate(spec_rotate_by(t, q), v), s) == (Transform {
            translation: translated(t.translation, v),
            rotation: quat_mul_of(t.rotation, q),
            scale: splat3(s),
        }),
        spec_set_scale(spec_add_translate(spec_rotate_by(t, q), v), s) == spec_add_translate(
            spec_set_scale(spec_rotate_by(t, q), s),
            v,
        ),
        spec_set_scale(spec_add_translate(spec_rotate_by(t, q), v), s) == spec_rotate_by(
            spec_set_scale(spec_add_translate(t, v), s),
            q,
        ),
        spec_set_scale(spec_add_translate(spec_rotate_by(t, q), v), s) == spec_rotate_by(
            spec_add_translate(spec_set_scale(t, s), v),
            q,
        ),
        spec_set_scale(spec_add_translate(spec_rotate_by(t, q), v), s) == spec_add_translate(
            spec_rotate_by(spec_set_scale(t, s), q),
            v,
        ),
        spec_set_scale(spec_add_translate(spec_rotate_by(t, q), v), s) == spec_set_scale(
            spec_rotate_by(spec_add_translate(t, v), q),
            s,
        ),
        mat4_of(
            spec_set_scale(spec_add_translate(spec_rotate_by(t, q), v), s).scale,
            spec_set_scale(spec_add_translate(spec_rotate_by(t, q), v), s).rotation,
            spec_set_scale(spec_add_translate(spec_rotate_by(t, q), v), s).translation,
        ) == mat4_of(splat3(s), quat_mul_of(t.rotation, q), translated(t.translation, v)),
{
}

} // verus!
