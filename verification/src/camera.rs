//! The fixed camera of the animated variant.
//!
//! The view matrix looks from (0, 0, 3) towards (0, 1, 0) with the y
//! axis up; it is a pure arithmetic function of those constants, so
//! its value is pinned to the named result of the view construction.
//! The projection is a 45-degree vertical field of view over the
//! drawable's aspect ratio, with near and far planes at 0.1 and 40;
//! its tangent goes through the platform's trigonometry, so only the
//! aspect ratio itself is pinned down exactly.

use vstd::prelude::*;
use crate::algebra::{
    Mat4Bits, Vec3Bits, look_at_of, div3_of, real3_of_uints, mat4_look_at, mat4_perspective,
    uints_to_reals, vec3_div, to_radians_bits,
};
use crate::scalar::{ZERO_BITS, ONE_BITS, THREE_BITS, TENTH_BITS, FORTY_BITS, DEG45_BITS};

verus! {

/// The camera's eye point: (0, 0, 3).
pub open spec fn camera_eye() -> Vec3Bits {
    [ZERO_BITS, ZERO_BITS, THREE_BITS]
}

/// The camera's focus point: (0, 1, 0).
pub open spec fn camera_center() -> Vec3Bits {
    [ZERO_BITS, ONE_BITS, ZERO_BITS]
}

/// The camera's up direction: the y axis.
pub open spec fn camera_up() -> Vec3Bits {
    [ZERO_BITS, ONE_BITS, ZERO_BITS]
}

/// The right-handed view matrix of the fixed camera.
pub fn view_matrix() -> (m: Mat4Bits)
    ensures
        m == look_at_of(camera_eye(), camera_center(), camera_up()),
{
    mat4_look_at(
        [ZERO_BITS, ZERO_BITS, THREE_BITS],
        [ZERO_BITS, ONE_BITS, ZERO_BITS],
        [ZERO_BITS, ONE_BITS, ZERO_BITS],
    )
}

/// The aspect ratio of a drawable size: the quotient of the nearest
/// real values of width and height.
pub open spec fn spec_aspect(width: u32, height: u32) -> u32 {
    div3_of(
        real3_of_uints([width, height, 1]),
        [
            real3_of_uints([width, height, 1])[1],
            real3_of_uints([width, height, 1])[1],
            real3_of_uints([width, height, 1])[1],
        ],
    )[0]
}

/// Computes the drawable's aspect ratio.
pub fn aspect_ratio(width: u32, height: u32) -> (r: u32)
    ensures
        r == spec_aspect(width, height),
{
    let reals = uints_to_reals([width, height, 1]);
    let q = vec3_div(reals, [reals[1], reals[1], reals[1]]);
    q[0]
}

/// The perspective projection for a drawable size: a 45-degree
/// vertical field of view over the drawable's aspect ratio, near
/// plane 0.1, far plane 40. The construction evaluates the platform's
/// tangent, so no value is claimed of the matrix itself; the aspect
/// ratio handed to it is exactly `spec_aspect`.
pub fn projection_matrix(width: u32, height: u32) -> Mat4Bits {
    let fov_y = to_radians_bits(DEG45_BITS);
    let aspect = aspect_ratio(width, height);
    mat4_perspective(fov_y, aspect, TENTH_BITS, FORTY_BITS)
}

} // verus!
