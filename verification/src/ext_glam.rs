//! Trusted declarations for the `glam` linear-algebra crate.
//!
//! Matrices and vectors hold 32-bit floating-point entries, which this
//! crate does not model numerically. A `glam::Mat4` is therefore opaque
//! here; what the verified code relies on is that `glam`'s constructors
//! and its matrix product are pure functions of their arguments, named
//! below by uninterpreted spec functions.

use vstd::prelude::*;

verus! {

#[verifier::external_type_specification]
#[verifier::external_body]
pub struct ExMat4(glam::Mat4);

#[verifier::external_type_specification]
#[verifier::external_body]
pub struct ExVec3(glam::Vec3);

/// The value of the constant `glam::Mat4::IDENTITY`; the argument is unused.
pub uninterp spec fn mat_identity(unused: u32) -> glam::Mat4;

/// The matrix product `a * b` as `glam::Mat4::mul_mat4` computes it.
pub uninterp spec fn mat_mul(a: glam::Mat4, b: glam::Mat4) -> glam::Mat4;

/// The translation matrix `glam::Mat4::from_translation(v)`.
pub uninterp spec fn mat_translation(v: glam::Vec3) -> glam::Mat4;

/// The rotation matrix `glam::Mat4::from_rotation_x` of the angle whose
/// IEEE-754 bit pattern is `radians_bits`.
pub uninterp spec fn mat_rotation_x(radians_bits: u32) -> glam::Mat4;

/// The rotation matrix `glam::Mat4::from_rotation_y` of the angle whose
/// IEEE-754 bit pattern is `radians_bits`.
pub uninterp spec fn mat_rotation_y(radians_bits: u32) -> glam::Mat4;

/// The rotation matrix `glam::Mat4::from_rotation_z` of the angle whose
/// IEEE-754 bit pattern is `radians_bits`.
pub uninterp spec fn mat_rotation_z(radians_bits: u32) -> glam::Mat4;

/// The scale matrix `glam::Mat4::from_scale(v)`.
pub uninterp spec fn mat_scale(v: glam::Vec3) -> glam::Mat4;

/// The 64-byte in-memory image of a matrix, as `bytemuck::bytes_of`
/// reads it: four columns of four 32-bit entries each, in the byte
/// order of the host (little-endian on every target `wgpu` supports) —
/// a pure function of the matrix.
pub uninterp spec fn mat4_bytes_of(m: glam::Mat4) -> Seq<u8>;

/// Relies on `bytemuck::bytes_of` on `glam::Mat4` (plain old data of 16
/// 32-bit entries): the matrix's 64-byte image.
#[verifier::external_body]
pub(crate) fn mat4_to_bytes(m: &glam::Mat4) -> (r: Vec<u8>)
    ensures
        r@ == mat4_bytes_of(*m),
        r@.len() == 64,
{
    bytemuck::bytes_of(m).to_vec()
}

/// Relies on `glam::Mat4::IDENTITY`: the same constant in every process.
#[verifier::external_body]
pub(crate) fn mat4_identity() -> (r: glam::Mat4)
    ensures
        r == mat_identity(0),
{
    glam::Mat4::IDENTITY
}

/// Relies on `glam::Mat4::mul_mat4`: the matrix product of its two
/// arguments, a pure function of them.
#[verifier::external_body]
pub(crate) fn mat4_mul(a: &glam::Mat4, b: &glam::Mat4) -> (r: glam::Mat4)
    ensures
        r == mat_mul(*a, *b),
{
    a.mul_mat4(b)
}

/// Relies on `glam::Mat4::from_translation`: a pure function of `v`.
#[verifier::external_body]
pub(crate) fn mat4_from_translation(v: glam::Vec3) -> (r: glam::Mat4)
    ensures
        r == mat_translation(v),
{
    glam::Mat4::from_translation(v)
}

/// Relies on `glam::Mat4::from_rotation_x`: a pure function of the angle,
/// handed over as its IEEE-754 bit pattern.
#[verifier::external_body]
pub(crate) fn mat4_from_rotation_x(radians_bits: u32) -> (r: glam::Mat4)
    ensures
        r == mat_rotation_x(radians_bits),
{
    glam::Mat4::from_rotation_x(bytemuck::cast(radians_bits))
}

/// Relies on `glam::Mat4::from_rotation_y`: a pure function of the angle,
/// handed over as its IEEE-754 bit pattern.
#[verifier::external_body]
pub(crate) fn mat4_from_rotation_y(radians_bits: u32) -> (r: glam::Mat4)
    ensures
        r == mat_rotation_y(radians_bits),
{
    glam::Mat4::from_rotation_y(bytemuck::cast(radians_bits))
}

/// Relies on `glam::Mat4::from_rotation_z`: a pure function of the angle,
/// handed over as its IEEE-754 bit pattern.
#[verifier::external_body]
pub(crate) fn mat4_from_rotation_z(radians_bits: u32) -> (r: glam::Mat4)
    ensures
        r == mat_rotation_z(radians_bits),
{
    glam::Mat4::from_rotation_z(bytemuck::cast(radians_bits))
}

/// Relies on `glam::Mat4::from_scale`: a pure function of `v`.
#[verifier::external_body]
pub(crate) fn mat4_from_scale(v: glam::Vec3) -> (r: glam::Mat4)
    ensures
        r == mat_scale(v),
{
    glam::Mat4::from_scale(v)
}

} // verus!
