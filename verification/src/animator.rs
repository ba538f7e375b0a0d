//! The per-frame transform animation.
//!
//! Each redraw tick computes the elapsed time's delta against the
//! previous tick, turns it into an incremental rotation, drifts the
//! translation by the cosine of the elapsed time over one hundred,
//! and sets the scale to the sine of the elapsed time, clamped to a
//! floor of 0.1 so the matrix never degenerates — whatever value the
//! platform's trigonometry returns. The sine and cosine themselves
//! are outside results with no promised value; everything done with
//! them is exact.

use vstd::prelude::*;
use crate::algebra::{
    Mat4Bits, QuatBits, mat4_of, sub3_of, div3_of, vec3_sub, vec3_div, sin_bits, cos_bits,
    quat_from_axis_angle,
};
use crate::scalar::{
    ZERO_BITS, ONE_BITS, TENTH_BITS, HUNDRED_BITS, is_nan_bits, lt_bits, ge_bits, scalar_is_nan,
    scalar_lt,
};
use crate::transform::{
    Transform, identity_transform, splat3, spec_rotate_by, spec_add_translate, spec_set_scale,
};

verus! {

/// The scale actually applied for a raw sine value: the raw value if
/// it is a real value not below the floor, the floor otherwise — also
/// when the raw value is NaN.
pub open spec fn spec_clamp_scale(raw: u32) -> u32 {
    if is_nan_bits(raw) || lt_bits(raw, TENTH_BITS) {
        TENTH_BITS
    } else {
        raw
    }
}

/// The floor itself is a real value no less than itself.
pub proof fn lemma_floor_ge_itself()
    ensures
        ge_bits(TENTH_BITS, TENTH_BITS),
{
    assert(0x3DCC_CCCDu32 & 0x7FFF_FFFF == 0x3DCC_CCCD) by (bit_vector);
}

/// Law: for every raw sine value — hence for every elapsed time —
/// the clamped scale is a real value at least 0.1.
pub proof fn lemma_scale_never_below_floor(raw: u32)
    ensures
        ge_bits(spec_clamp_scale(raw), TENTH_BITS),
{
    lemma_floor_ge_itself();
}

/// Clamps a raw scale to the 0.1 floor.
pub fn clamp_scale(raw: u32) -> (r: u32)
    ensures
        r == spec_clamp_scale(raw),
        ge_bits(r, TENTH_BITS),
{
    proof {
        lemma_scale_never_below_floor(raw);
    }
    if scalar_is_nan(raw) || scalar_lt(raw, TENTH_BITS) {
        TENTH_BITS
    } else {
        raw
    }
}

/// The scalar difference of two encoded times, read through the
/// vector subtraction's first lane.
pub open spec fn spec_delta(elapsed: u32, previous: u32) -> u32 {
    sub3_of([elapsed, ZERO_BITS, ZERO_BITS], [previous, ZERO_BITS, ZERO_BITS])[0]
}

/// The drift step for an encoded cosine: its value over one hundred,
/// read through the vector division's first lane.
pub open spec fn spec_drift(cosine: u32) -> u32 {
    div3_of([cosine, ZERO_BITS, ZERO_BITS], [HUNDRED_BITS, ONE_BITS, ONE_BITS])[0]
}

/// One tick's outputs: the frame's ephemeral state.
pub struct FrameState {
    /// The elapsed time this tick ran at.
    pub elapsed: u32,
    /// The scalar difference against the previous tick.
    pub delta: u32,
    /// The matrix composed from the advanced transform, ready to
    /// serialize and upload.
    pub matrix: Mat4Bits,
}

/// The transform animator: the accumulated transform and the elapsed
/// time of the previous tick.
#[derive(Clone, Copy, Debug)]
pub struct TransformAnimator {
    pub transform: Transform,
    pub last_elapsed: u32,
}

/// The exact transform one tick produces from its three inputs: the
/// incremental rotation composed on, one drift step added, and the
/// clamped scale set.
pub open spec fn spec_advance(t: Transform, delta_rot: QuatBits, drift: u32, scale_raw: u32) -> Transform {
    spec_set_scale(spec_add_translate(spec_rotate_by(t, delta_rot), drift), spec_clamp_scale(scale_raw))
}

impl TransformAnimator {
    /// Starts animating from the identity transform at time zero.
    pub fn new() -> (a: TransformAnimator)
        ensures
            a.transform == identity_transform(),
            a.last_elapsed == ZERO_BITS,
    {
        TransformAnimator { transform: Transform::new(), last_elapsed: ZERO_BITS }
    }

    /// Applies one tick's three updates to a transform. This is the
    /// exact core: it holds for every value the trigonometry may have
    /// returned for the rotation and the raw scale.
    pub fn advance(t: &Transform, delta_rot: QuatBits, drift: u32, scale_raw: u32) -> (r: Transform)
        ensures
            r == spec_advance(*t, delta_rot, drift, scale_raw),
            r.scale == splat3(spec_clamp_scale(scale_raw)),
            ge_bits(r.scale[0], TENTH_BITS),
    {
        proof {
            lemma_scale_never_below_floor(scale_raw);
        }
        t.rotate_by(delta_rot).add_translate(drift).set_scale(clamp_scale(scale_raw))
    }

    /// One redraw tick at the given elapsed time: computes the delta
    /// since the previous tick, rotates around the x axis by it,
    /// drifts by the elapsed time's cosine over one hundred, clamps
    /// and sets the sine as scale, and composes the matrix. The
    /// rotation quaternion and the raw trigonometric values are
    /// outside results; everything stated holds for all of them.
    pub fn tick(&mut self, elapsed: u32) -> (f: FrameState)
        ensures
            final(self).last_elapsed == elapsed,
            f.elapsed == elapsed,
            f.delta == spec_delta(elapsed, old(self).last_elapsed),
            // the scale is clamped whatever the sine returned
            final(self).transform.scale[0] == final(self).transform.scale[1],
            final(self).transform.scale[1] == final(self).transform.scale[2],
            ge_bits(final(self).transform.scale[0], TENTH_BITS),
            // drifting never touches the z translation
            final(self).transform.translation[2] == old(self).transform.translation[2],
            // the matrix is exactly the fixed composition of the
            // advanced components
            f.matrix == mat4_of(
                final(self).transform.scale,
                final(self).transform.rotation,
                final(self).transform.translation,
            ),
    {
        let delta = vec3_sub(
            [elapsed, ZERO_BITS, ZERO_BITS],
            [self.last_elapsed, ZERO_BITS, ZERO_BITS],
        )[0];
        self.last_elapsed = elapsed;
        let q = quat_from_axis_angle([ONE_BITS, ZERO_BITS, ZERO_BITS], delta);
        let cosine = cos_bits(elapsed);
        let drift = vec3_div(
            [cosine, ZERO_BITS, ZERO_BITS],
            [HUNDRED_BITS, ONE_BITS, ONE_BITS],
        )[0];
        let scale_raw = sin_bits(elapsed);
        self.transform = Self::advance(&self.transform, q, drift, scale_raw);
        let matrix = self.transform.to_mat4();
        FrameState { elapsed, delta, matrix }
    }
}

} // verus!
