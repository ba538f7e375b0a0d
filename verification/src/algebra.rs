//! Trusted bridge to the external linear-algebra crate.
//!
//! Vectors, quaternions and matrices are carried through the engine as
//! arrays of IEEE 754 single-precision bit patterns. Each wrapper below
//! reinterprets those patterns as the corresponding `glam` value,
//! makes exactly one call, and reinterprets the result back. Results
//! that are a pure arithmetic function of the operand bit patterns
//! (sums, Hamilton products, matrix assembly) are given uninterpreted
//! names, so that callers' contracts can speak of them exactly.
//! Results that go through the platform's transcendental functions
//! (`sin`, `cos`, `tan`), whose rounding the standard library documents
//! as non-deterministic, are given no name: callers state only what
//! holds of every outcome.

use vstd::prelude::*;

verus! {

/// Three single-precision bit patterns: x, y, z.
pub type Vec3Bits = [u32; 3];

/// Four single-precision bit patterns: x, y, z, w.
pub type QuatBits = [u32; 4];

/// Sixteen single-precision bit patterns, column-major.
pub type Mat4Bits = [u32; 16];

/// The componentwise sum that `glam`'s vector addition returns for two
/// encoded vectors.
pub uninterp spec fn add3_of(a: Vec3Bits, b: Vec3Bits) -> Vec3Bits;

/// The componentwise difference that `glam`'s vector subtraction
/// returns for two encoded vectors.
pub uninterp spec fn sub3_of(a: Vec3Bits, b: Vec3Bits) -> Vec3Bits;

/// The componentwise quotient that `glam`'s vector division returns
/// for two encoded vectors.
pub uninterp spec fn div3_of(a: Vec3Bits, b: Vec3Bits) -> Vec3Bits;

/// The Hamilton product that `glam`'s quaternion multiplication
/// returns for two encoded quaternions.
pub uninterp spec fn quat_mul_of(a: QuatBits, b: QuatBits) -> QuatBits;

/// The column-major affine matrix that `glam` assembles from an
/// encoded scale, rotation and translation.
pub uninterp spec fn mat4_of(scale: Vec3Bits, rotation: QuatBits, translation: Vec3Bits) -> Mat4Bits;

/// The right-handed view matrix that `glam` derives from an encoded
/// eye point, focus point and up direction.
pub uninterp spec fn look_at_of(eye: Vec3Bits, center: Vec3Bits, up: Vec3Bits) -> Mat4Bits;

/// The vector of single-precision values nearest to three unsigned
/// integers, as `glam`'s integer-to-real conversion returns it.
pub uninterp spec fn real3_of_uints(v: [u32; 3]) -> Vec3Bits;

/// Relies on `glam::Vec3`'s `Add` impl: the componentwise IEEE 754 sum,
/// a function of the operand bit patterns alone.
#[verifier::external_body]
pub(crate) fn vec3_add(a: Vec3Bits, b: Vec3Bits) -> (r: Vec3Bits)
    ensures
        r == add3_of(a, b),
{
    let va = bytemuck::cast::<Vec3Bits, glam::Vec3>(a);
    let vb = bytemuck::cast::<Vec3Bits, glam::Vec3>(b);
    bytemuck::cast::<glam::Vec3, Vec3Bits>(va + vb)
}

/// Relies on `glam::Vec3`'s `Sub` impl: the componentwise IEEE 754
/// difference, a function of the operand bit patterns alone.
#[verifier::external_body]
pub(crate) fn vec3_sub(a: Vec3Bits, b: Vec3Bits) -> (r: Vec3Bits)
    ensures
        r == sub3_of(a, b),
{
    let va = bytemuck::cast::<Vec3Bits, glam::Vec3>(a);
    let vb = bytemuck::cast::<Vec3Bits, glam::Vec3>(b);
    bytemuck::cast::<glam::Vec3, Vec3Bits>(va - vb)
}

/// Relies on `glam::Vec3`'s `Div` impl: the componentwise IEEE 754
/// quotient, a function of the operand bit patterns alone.
#[verifier::external_body]
pub(crate) fn vec3_div(a: Vec3Bits, b: Vec3Bits) -> (r: Vec3Bits)
    ensures
        r == div3_of(a, b),
{
    let va = bytemuck::cast::<Vec3Bits, glam::Vec3>(a);
    let vb = bytemuck::cast::<Vec3Bits, glam::Vec3>(b);
    bytemuck::cast::<glam::Vec3, Vec3Bits>(va / vb)
}

/// Relies on `glam::Quat::mul_quat`: the Hamilton product of the two
/// quaternions, a fixed arithmetic formula over the operand bit
/// patterns.
#[verifier::external_body]
pub(crate) fn quat_mul(a: QuatBits, b: QuatBits) -> (r: QuatBits)
    ensures
        r == quat_mul_of(a, b),
{
    let qa = bytemuck::cast::<QuatBits, glam::Quat>(a);
    let qb = bytemuck::cast::<QuatBits, glam::Quat>(b);
    bytemuck::cast::<glam::Quat, QuatBits>(qa.mul_quat(qb))
}

/// Relies on `glam::Quat::from_axis_angle`. Its body evaluates the
/// platform's sine and cosine, whose rounding is documented as
/// non-deterministic, so nothing is claimed of the result.
#[verifier::external_body]
pub(crate) fn quat_from_axis_angle(axis: Vec3Bits, angle: u32) -> QuatBits {
    let av = bytemuck::cast::<Vec3Bits, glam::Vec3>(axis);
    let ang = bytemuck::cast::<Vec3Bits, glam::Vec3>([angle, angle, angle]).x;
    bytemuck::cast::<glam::Quat, QuatBits>(glam::Quat::from_axis_angle(av, ang))
}

/// Relies on `glam::Mat4::from_scale_rotation_translation`: the affine
/// matrix assembled by a fixed arithmetic formula over the operand bit
/// patterns, returned column-major.
#[verifier::external_body]
pub(crate) fn mat4_compose(scale: Vec3Bits, rotation: QuatBits, translation: Vec3Bits) -> (r:
    Mat4Bits)
    ensures
        r == mat4_of(scale, rotation, translation),
{
    let s = bytemuck::cast::<Vec3Bits, glam::Vec3>(scale);
    let q = bytemuck::cast::<QuatBits, glam::Quat>(rotation);
    let t = bytemuck::cast::<Vec3Bits, glam::Vec3>(translation);
    bytemuck::cast::<glam::Mat4, Mat4Bits>(glam::Mat4::from_scale_rotation_translation(s, q, t))
}

/// Relies on `glam::Mat4::look_at_rh`: a fixed arithmetic formula
/// (normalization, cross and dot products) over the operand bit
/// patterns, returned column-major.
#[verifier::external_body]
pub(crate) fn mat4_look_at(eye: Vec3Bits, center: Vec3Bits, up: Vec3Bits) -> (r: Mat4Bits)
    ensures
        r == look_at_of(eye, center, up),
{
    let e = bytemuck::cast::<Vec3Bits, glam::Vec3>(eye);
    let c = bytemuck::cast::<Vec3Bits, glam::Vec3>(center);
    let u = bytemuck::cast::<Vec3Bits, glam::Vec3>(up);
    bytemuck::cast::<glam::Mat4, Mat4Bits>(glam::Mat4::look_at_rh(e, c, u))
}

/// Relies on `glam::Mat4::perspective_rh`. Its body evaluates the
/// platform's tangent, whose rounding is documented as
/// non-deterministic, so nothing is claimed of the result.
#[verifier::external_body]
pub(crate) fn mat4_perspective(fov_y: u32, aspect: u32, z_near: u32, z_far: u32) -> Mat4Bits {
    let v = bytemuck::cast::<[u32; 4], glam::Vec4>([fov_y, aspect, z_near, z_far]);
    bytemuck::cast::<glam::Mat4, Mat4Bits>(glam::Mat4::perspective_rh(v.x, v.y, v.z, v.w))
}

/// Relies on `glam::UVec3::as_vec3`: each unsigned integer rounded to
/// the nearest single-precision value, a function of the integers
/// alone.
#[verifier::external_body]
pub(crate) fn uints_to_reals(v: [u32; 3]) -> (r: Vec3Bits)
    ensures
        r == real3_of_uints(v),
{
    let u = glam::UVec3::new(v[0], v[1], v[2]);
    bytemuck::cast::<glam::Vec3, Vec3Bits>(u.as_vec3())
}

/// The radian value of an encoded degree value: its product with the
/// single-precision constant pi over one hundred eighty.
pub uninterp spec fn radians_of(degrees: u32) -> u32;

/// Relies on `f32::to_radians`: one multiplication by a fixed
/// constant, a function of the operand bit pattern alone.
#[verifier::external_body]
pub(crate) fn to_radians_bits(degrees: u32) -> (r: u32)
    ensures
        r == radians_of(degrees),
{
    let v = bytemuck::cast::<Vec3Bits, glam::Vec3>([degrees, degrees, degrees]).x;
    bytemuck::cast::<glam::Vec3, Vec3Bits>(glam::Vec3::splat(v.to_radians()))[0]
}

/// Relies on `f32::sin`, whose rounding the standard library documents
/// as non-deterministic: nothing is claimed of the result.
#[verifier::external_body]
pub(crate) fn sin_bits(x: u32) -> u32 {
    let v = bytemuck::cast::<Vec3Bits, glam::Vec3>([x, x, x]).x;
    bytemuck::cast::<glam::Vec3, Vec3Bits>(glam::Vec3::splat(v.sin()))[0]
}

/// Relies on `f32::cos`, whose rounding the standard library documents
/// as non-deterministic: nothing is claimed of the result.
#[verifier::external_body]
pub(crate) fn cos_bits(x: u32) -> u32 {
    let v = bytemuck::cast::<Vec3Bits, glam::Vec3>([x, x, x]).x;
    bytemuck::cast::<glam::Vec3, Vec3Bits>(glam::Vec3::splat(v.cos()))[0]
}

} // verus!
