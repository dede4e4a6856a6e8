//! Model-transform accumulation.
//!
//! A [`ModelTransform`] holds the accumulated model matrix of one scene
//! object. Every operation right-multiplies the accumulator, so a
//! sequence of calls is applied in left-to-right order: each new
//! operation acts in the object's current local frame. `reset` restores
//! the identity and thereby discards everything applied before it.

use vstd::prelude::*;

use crate::ext_glam::{
    mat4_from_rotation_x, mat4_from_rotation_y, mat4_from_rotation_z, mat4_from_scale,
    mat4_from_translation, mat4_identity, mat4_mul, mat_identity, mat_mul, mat_rotation_x,
    mat_rotation_y, mat_rotation_z, mat_scale, mat_translation,
};

verus! {

/// One transform operation, as it is applied to the accumulator.
/// Angles are carried as the IEEE-754 bit pattern of the angle in
/// radians, since this crate does not model floating point.
#[derive(Clone, Copy)]
pub enum TransformOp {
    Translate(glam::Vec3),
    RotateX(u32),
    RotateY(u32),
    RotateZ(u32),
    Scale(glam::Vec3),
}

/// The matrix that one operation right-multiplies onto the accumulator.
pub open spec fn op_matrix(op: TransformOp) -> glam::Mat4 {
    match op {
        TransformOp::Translate(v) => mat_translation(v),
        TransformOp::RotateX(bits) => mat_rotation_x(bits),
        TransformOp::RotateY(bits) => mat_rotation_y(bits),
        TransformOp::RotateZ(bits) => mat_rotation_z(bits),
        TransformOp::Scale(v) => mat_scale(v),
    }
}

/// The matrix after applying `ops` left to right onto `m`, each by
/// right-multiplication.
pub open spec fn apply_ops(m: glam::Mat4, ops: Seq<TransformOp>) -> glam::Mat4
    decreases ops.len(),
{
    if ops.len() == 0 {
        m
    } else {
        mat_mul(apply_ops(m, ops.drop_last()), op_matrix(ops.last()))
    }
}

/// Appending one operation right-multiplies its matrix onto the result.
pub proof fn lemma_apply_ops_push(m: glam::Mat4, ops: Seq<TransformOp>, op: TransformOp)
    ensures
        apply_ops(m, ops.push(op)) == mat_mul(apply_ops(m, ops), op_matrix(op)),
{
    assert(ops.push(op).drop_last() =~= ops);
    assert(ops.push(op).last() == op);
}

/// Composition of operation sequences is associative: applying
/// `ops1 + ops2` is applying `ops1`, then `ops2` onto the result.
pub proof fn lemma_apply_ops_concat(m: glam::Mat4, ops1: Seq<TransformOp>, ops2: Seq<TransformOp>)
    ensures
        apply_ops(m, ops1 + ops2) == apply_ops(apply_ops(m, ops1), ops2),
    decreases ops2.len(),
{
    if ops2.len() == 0 {
        assert(ops1 + ops2 =~= ops1);
    } else {
        lemma_apply_ops_concat(m, ops1, ops2.drop_last());
        assert((ops1 + ops2).drop_last() =~= ops1 + ops2.drop_last());
        assert((ops1 + ops2).last() == ops2.last());
    }
}

/// The matrix that `reset` leaves in the accumulator: the identity,
/// whatever stood there before.
pub open spec fn reset_result(before: glam::Mat4) -> glam::Mat4 {
    mat_identity(0)
}

/// A sequence of operations applied after a `reset` yields a matrix
/// independent of everything applied before the reset.
pub proof fn lemma_reset_independent(
    before1: glam::Mat4,
    before2: glam::Mat4,
    ops: Seq<TransformOp>,
)
    ensures
        apply_ops(reset_result(before1), ops) == apply_ops(reset_result(before2), ops),
{
}

/// Applying operations in the defined right-multiplication order, a
/// scale followed by a translation composes as
/// `identity * Scale(s) * Translate(t)`: the translation is placed in
/// the still-unscaled frame, and the scale multiplies the composed
/// result from the left.
pub proof fn lemma_scale_then_translate(s: glam::Vec3, t: glam::Vec3)
    ensures
        apply_ops(mat_identity(0), seq![TransformOp::Scale(s), TransformOp::Translate(t)])
            == mat_mul(mat_mul(mat_identity(0), mat_scale(s)), mat_translation(t)),
{
    let ops = seq![TransformOp::Scale(s), TransformOp::Translate(t)];
    let one = seq![TransformOp::Scale(s)];
    let base = mat_identity(0);
    assert(one.drop_last() =~= Seq::<TransformOp>::empty());
    assert(apply_ops(base, Seq::<TransformOp>::empty()) == base);
    assert(apply_ops(base, one) == mat_mul(base, mat_scale(s)));
    assert(ops.drop_last() =~= one);
    assert(ops.last() == TransformOp::Translate(t));
    assert(apply_ops(base, ops) == mat_mul(apply_ops(base, one), mat_translation(t)));
}

/// The accumulated model transform of one object.
pub struct ModelTransform {
    m: glam::Mat4,
}

impl ModelTransform {
    /// The current accumulator value.
    pub closed spec fn matrix_spec(&self) -> glam::Mat4 {
        self.m
    }

    /// A fresh accumulator, holding the identity.
    pub fn new() -> (r: ModelTransform)
        ensures
            r.matrix_spec() == mat_identity(0),
    {
        ModelTransform { m: mat4_identity() }
    }

    /// The current model matrix.
    pub fn matrix(&self) -> (r: glam::Mat4)
        ensures
            r == self.matrix_spec(),
    {
        self.m
    }

    /// Restores the identity; everything applied before is discarded.
    pub fn reset(&mut self)
        ensures
            final(self).matrix_spec() == reset_result(old(self).matrix_spec()),
    {
        self.m = mat4_identity();
    }

    /// Right-multiplies a translation by `v` onto the accumulator.
    pub fn translate(&mut self, v: glam::Vec3)
        ensures
            final(self).matrix_spec() == mat_mul(old(self).matrix_spec(), mat_translation(v)),
    {
        self.m = mat4_mul(&self.m, &mat4_from_translation(v));
    }

    /// Right-multiplies a rotation about the x axis onto the accumulator;
    /// the angle in radians is handed over as its IEEE-754 bit pattern.
    pub fn rotate_x(&mut self, radians_bits: u32)
        ensures
            final(self).matrix_spec() == mat_mul(
                old(self).matrix_spec(),
                mat_rotation_x(radians_bits),
            ),
    {
        self.m = mat4_mul(&self.m, &mat4_from_rotation_x(radians_bits));
    }

    /// Right-multiplies a rotation about the y axis onto the accumulator;
    /// the angle in radians is handed over as its IEEE-754 bit pattern.
    pub fn rotate_y(&mut self, radians_bits: u32)
        ensures
            final(self).matrix_spec() == mat_mul(
                old(self).matrix_spec(),
                mat_rotation_y(radians_bits),
            ),
    {
        self.m = mat4_mul(&self.m, &mat4_from_rotation_y(radians_bits));
    }

    /// Right-multiplies a rotation about the z axis onto the accumulator;
    /// the angle in radians is handed over as its IEEE-754 bit pattern.
    pub fn rotate_z(&mut self, radians_bits: u32)
        ensures
            final(self).matrix_spec() == mat_mul(
                old(self).matrix_spec(),
                mat_rotation_z(radians_bits),
            ),
    {
        self.m = mat4_mul(&self.m, &mat4_from_rotation_z(radians_bits));
    }

    /// Right-multiplies a scale by `v` onto the accumulator.
    pub fn scale(&mut self, v: glam::Vec3)
        ensures
            final(self).matrix_spec() == mat_mul(old(self).matrix_spec(), mat_scale(v)),
    {
        self.m = mat4_mul(&self.m, &mat4_from_scale(v));
    }

    /// Applies one operation.
    pub fn apply(&mut self, op: &TransformOp)
        ensures
            final(self).matrix_spec() == mat_mul(old(self).matrix_spec(), op_matrix(*op)),
    {
        match op {
            TransformOp::Translate(v) => self.translate(*v),
            TransformOp::RotateX(bits) => self.rotate_x(*bits),
            TransformOp::RotateY(bits) => self.rotate_y(*bits),
            TransformOp::RotateZ(bits) => self.rotate_z(*bits),
            TransformOp::Scale(v) => self.scale(*v),
        }
    }

    /// Applies a whole sequence of operations, left to right.
    pub fn apply_all(&mut self, ops: &Vec<TransformOp>)
        ensures
            final(self).matrix_spec() == apply_ops(old(self).matrix_spec(), ops@),
    {
        let mut i: usize = 0;
        while i < ops.len()
            invariant
                i <= ops.len(),
                self.matrix_spec() == apply_ops(old(self).matrix_spec(), ops@.take(i as int)),
            decreases ops.len() - i,
        {
            self.apply(&ops[i]);
            proof {
                assert(ops@.take(i + 1 as int) =~= ops@.take(i as int).push(ops@[i as int]));
                lemma_apply_ops_push(old(self).matrix_spec(), ops@.take(i as int), ops@[i as int]);
            }
            i = i + 1;
        }
        proof {
            assert(ops@.take(ops@.len() as int) =~= ops@);
        }
    }
}

} // verus!
