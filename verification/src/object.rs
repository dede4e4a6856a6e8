//! Scene objects: camera and model transforms over one or more
//! (mesh, material) parts.
//!
//! Every transform call right-multiplies onto the object's accumulated
//! model matrix, so a sequence of calls applies left to right in the
//! object's current local frame; `reset` restores the identity and makes
//! what follows independent of what came before. An object also owns a
//! projection and a view transform, set by the camera's owner; at draw
//! time it pushes the composed `projection * view * model` matrix into
//! each part's material, records that material's bindings and uniform
//! upload, then the part's mesh draw — one bind-and-draw pair per part,
//! in part order.

use vstd::prelude::*;

use crate::ext_glam::{
    mat4_mul, mat_identity, mat_mul, mat_rotation_x, mat_rotation_y, mat_rotation_z, mat_scale,
    mat_translation,
};
use crate::ext_wgpu::{pass_bindings, pass_draws, pass_pipelines};
use crate::material::{spec_uniform_bytes, Material, SimpleMaterial};
use crate::mesh::Mesh;
use crate::xform::{apply_ops, reset_result, ModelTransform, TransformOp};

verus! {

/// One drawable part of an object.
struct Renderable {
    mesh: Mesh,
    material: SimpleMaterial,
}

/// One scene object: its parts, its model transform, and the camera
/// transforms it draws under.
pub struct Object {
    parts: Vec<Renderable>,
    transform: ModelTransform,
    projection_xform: glam::Mat4,
    view_xform: glam::Mat4,
}

impl Object {
    /// The accumulated model matrix.
    pub closed spec fn model_spec(&self) -> glam::Mat4 {
        self.transform.matrix_spec()
    }

    /// The projection transform the object draws under.
    pub closed spec fn projection_spec(&self) -> glam::Mat4 {
        self.projection_xform
    }

    /// The view transform the object draws under.
    pub closed spec fn view_spec(&self) -> glam::Mat4 {
        self.view_xform
    }

    /// The matrix pushed into the materials at draw time:
    /// `projection * view * model`.
    pub open spec fn composed_transform(&self) -> glam::Mat4 {
        mat_mul(mat_mul(self.projection_spec(), self.view_spec()), self.model_spec())
    }

    /// How many (mesh, material) parts the object draws.
    pub closed spec fn parts_len_spec(&self) -> nat {
        self.parts@.len()
    }

    /// The mesh of part `i`.
    pub closed spec fn part_mesh(&self, i: int) -> Mesh {
        self.parts@[i].mesh
    }

    /// The material of part `i`.
    pub closed spec fn part_material(&self, i: int) -> SimpleMaterial {
        self.parts@[i].material
    }

    /// The transform staged in the material of part `i`.
    pub closed spec fn part_material_transform(&self, i: int) -> glam::Mat4 {
        self.parts@[i].material.transform_spec()
    }

    /// The uniform block the material of part `i` last handed to the
    /// queue.
    pub closed spec fn part_uploaded(&self, i: int) -> Seq<u8> {
        self.parts@[i].material.uploaded_spec()
    }

    /// Whether two objects hold the same parts (same meshes, same
    /// materials with the same staged state).
    pub closed spec fn same_parts(&self, other: &Object) -> bool {
        self.parts@ == other.parts@
    }

    /// The indexed draws one recording of this object appends to a
    /// pass: one full-range, single-instance draw per part, in part
    /// order.
    pub open spec fn recorded_draws(&self) -> Seq<(u32, u32, i32, u32, u32)> {
        Seq::new(
            self.parts_len_spec(),
            |j: int| (0u32, self.part_mesh(j).index_count() as u32, 0i32, 0u32, 1u32),
        )
    }

    /// Every part's mesh and material are well formed.
    pub closed spec fn wf(&self) -> bool {
        forall|i: int|
            0 <= i < self.parts@.len() ==> (#[trigger] self.parts@[i]).mesh.wf()
                && self.parts@[i].material.wf()
    }

    /// Composes an object from (mesh, material) parts that share one
    /// model transform; model, projection and view all start at the
    /// identity. Part `i` of the object is pair `i` of the input: part
    /// order is draw order.
    pub fn from_parts(parts: Vec<(Mesh, SimpleMaterial)>) -> (r: Object)
        requires
            forall|i: int|
                0 <= i < parts@.len() ==> (#[trigger] parts@[i]).0.wf() && parts@[i].1.wf(),
        ensures
            r.wf(),
            r.model_spec() == mat_identity(0),
            r.projection_spec() == mat_identity(0),
            r.view_spec() == mat_identity(0),
            r.parts_len_spec() == parts@.len(),
            forall|i: int|
                0 <= i < parts@.len() ==> #[trigger] r.part_mesh(i) == parts@[i].0
                    && r.part_material(i) == parts@[i].1,
    {
        let ghost orig = parts@;
        let mut parts = parts;
        let mut assembled: Vec<Renderable> = Vec::new();
        while parts.len() > 0
            invariant
                assembled@.len() + parts@.len() == orig.len(),
                parts@ == orig.skip(assembled@.len() as int),
                forall|i: int| 0 <= i < orig.len() ==> (#[trigger] orig[i]).0.wf() && orig[i].1.wf(),
                forall|i: int|
                    0 <= i < assembled@.len() ==> #[trigger] assembled@[i].mesh == orig[i].0
                        && assembled@[i].material == orig[i].1,
            decreases parts@.len(),
        {
            let ghost k = assembled@.len() as int;
            let (mesh, material) = parts.remove(0);
            proof {
                assert(orig.skip(k)[0] == orig[k]);
                assert(orig.skip(k).remove(0) =~= orig.skip(k + 1));
            }
            assembled.push(Renderable { mesh, material });
        }
        let transform = ModelTransform::new();
        let projection_xform = transform.matrix();
        let view_xform = transform.matrix();
        Object { parts: assembled, transform, projection_xform, view_xform }
    }

    /// How many parts the object draws.
    pub fn part_count(&self) -> (r: usize)
        ensures
            r == self.parts_len_spec(),
    {
        self.parts.len()
    }

    /// The current model matrix.
    pub fn model_matrix(&self) -> (r: glam::Mat4)
        ensures
            r == self.model_spec(),
    {
        self.transform.matrix()
    }

    /// Sets the projection transform the object draws under.
    pub fn set_projection(&mut self, projection: glam::Mat4)
        requires
            old(self).wf(),
        ensures
            final(self).wf(),
            final(self).projection_spec() == projection,
            final(self).view_spec() == old(self).view_spec(),
            final(self).model_spec() == old(self).model_spec(),
            final(self).same_parts(old(self)),
    {
        self.projection_xform = projection;
    }

    /// Sets the view transform the object draws under.
    pub fn set_view(&mut self, view: glam::Mat4)
        requires
            old(self).wf(),
        ensures
            final(self).wf(),
            final(self).view_spec() == view,
            final(self).projection_spec() == old(self).projection_spec(),
            final(self).model_spec() == old(self).model_spec(),
            final(self).same_parts(old(self)),
    {
        self.view_xform = view;
    }

    /// Right-multiplies a translation by `v` onto the model transform.
    pub fn translate(&mut self, translation: glam::Vec3)
        requires
            old(self).wf(),
        ensures
            final(self).wf(),
            final(self).model_spec() == mat_mul(
                old(self).model_spec(),
                mat_translation(translation),
            ),
            final(self).projection_spec() == old(self).projection_spec(),
            final(self).view_spec() == old(self).view_spec(),
            final(self).same_parts(old(self)),
    {
        self.transform.translate(translation);
    }

    /// Right-multiplies a rotation about the x axis onto the model
    /// transform; the angle in radians is handed over as its IEEE-754
    /// bit pattern.
    pub fn rotate_x(&mut self, radians_bits: u32)
        requires
            old(self).wf(),
        ensures
            final(self).wf(),
            final(self).model_spec() == mat_mul(
                old(self).model_spec(),
                mat_rotation_x(radians_bits),
            ),
            final(self).projection_spec() == old(self).projection_spec(),
            final(self).view_spec() == old(self).view_spec(),
            final(self).same_parts(old(self)),
    {
        self.transform.rotate_x(radians_bits);
    }

    /// Right-multiplies a rotation about the y axis onto the model
    /// transform; the angle in radians is handed over as its IEEE-754
    /// bit pattern.
    pub fn rotate_y(&mut self, radians_bits: u32)
        requires
            old(self).wf(),
        ensures
            final(self).wf(),
            final(self).model_spec() == mat_mul(
                old(self).model_spec(),
                mat_rotation_y(radians_bits),
            ),
            final(self).projection_spec() == old(self).projection_spec(),
            final(self).view_spec() == old(self).view_spec(),
            final(self).same_parts(old(self)),
    {
        self.transform.rotate_y(radians_bits);
    }

    /// Right-multiplies a rotation about the z axis onto the model
    /// transform; the angle in radians is handed over as its IEEE-754
    /// bit pattern.
    pub fn rotate_z(&mut self, radians_bits: u32)
        requires
            old(self).wf(),
        ensures
            final(self).wf(),
            final(self).model_spec() == mat_mul(
                old(self).model_spec(),
                mat_rotation_z(radians_bits),
            ),
            final(self).projection_spec() == old(self).projection_spec(),
            final(self).view_spec() == old(self).view_spec(),
            final(self).same_parts(old(self)),
    {
        self.transform.rotate_z(radians_bits);
    }

    /// Right-multiplies a scale by `v` onto the model transform.
    pub fn scale(&mut self, scale: glam::Vec3)
        requires
            old(self).wf(),
        ensures
            final(self).wf(),
            final(self).model_spec() == mat_mul(old(self).model_spec(), mat_scale(scale)),
            final(self).projection_spec() == old(self).projection_spec(),
            final(self).view_spec() == old(self).view_spec(),
            final(self).same_parts(old(self)),
    {
        self.transform.scale(scale);
    }

    /// Restores the identity model transform: what follows is
    /// independent of every transform applied before the reset. The
    /// camera transforms are untouched.
    pub fn reset(&mut self)
        requires
            old(self).wf(),
        ensures
            final(self).wf(),
            final(self).model_spec() == reset_result(old(self).model_spec()),
            final(self).projection_spec() == old(self).projection_spec(),
            final(self).view_spec() == old(self).view_spec(),
            final(self).same_parts(old(self)),
    {
        self.transform.reset();
    }

    /// Applies a whole sequence of transform operations, left to right.
    pub fn apply_all(&mut self, ops: &Vec<TransformOp>)
        requires
            old(self).wf(),
        ensures
            final(self).wf(),
            final(self).model_spec() == apply_ops(old(self).model_spec(), ops@),
            final(self).projection_spec() == old(self).projection_spec(),
            final(self).view_spec() == old(self).view_spec(),
            final(self).same_parts(old(self)),
    {
        self.transform.apply_all(ops);
    }

    /// Records the object into the pass: pushes the composed
    /// `projection * view * model` transform into each part's material,
    /// records that material's bindings and uniform upload, then the
    /// part's mesh draw. The pass gains exactly one bind-and-draw pair
    /// per part, in part order: per part one pipeline selection, one
    /// bind-group set at index 0, and one full-range single-instance
    /// draw; and each part's material holds the uniform block packed
    /// from the composed transform and the frame time.
    pub fn set_render_pass(
        &mut self,
        pass: &mut wgpu::RenderPass<'static>,
        queue: &wgpu::Queue,
        time_bits: u32,
    )
        requires
            old(self).wf(),
        ensures
            final(self).wf(),
            final(self).model_spec() == old(self).model_spec(),
            final(self).projection_spec() == old(self).projection_spec(),
            final(self).view_spec() == old(self).view_spec(),
            final(self).parts_len_spec() == old(self).parts_len_spec(),
            forall|j: int|
                0 <= j < final(self).parts_len_spec() ==> #[trigger] final(self).part_mesh(j)
                    == old(self).part_mesh(j),
            forall|j: int|
                0 <= j < final(self).parts_len_spec()
                    ==> #[trigger] final(self).part_material_transform(j)
                    == old(self).composed_transform(),
            forall|j: int|
                0 <= j < final(self).parts_len_spec() ==> #[trigger] final(self).part_uploaded(j)
                    == spec_uniform_bytes(old(self).composed_transform(), time_bits),
            pass_draws(*final(pass)) == pass_draws(*old(pass)) + old(self).recorded_draws(),
            pass_bindings(*final(pass)) == pass_bindings(*old(pass)) + Seq::new(
                old(self).parts_len_spec(),
                |j: int| 0u32,
            ),
            pass_pipelines(*final(pass)) == pass_pipelines(*old(pass))
                + old(self).parts_len_spec(),
    {
        let pv = mat4_mul(&self.projection_xform, &self.view_xform);
        let model = self.transform.matrix();
        let composed = mat4_mul(&pv, &model);
        let mut i: usize = 0;
        while i < self.parts.len()
            invariant
                0 <= i <= self.parts@.len(),
                composed == old(self).composed_transform(),
                self.transform.matrix_spec() == old(self).model_spec(),
                self.projection_xform == old(self).projection_spec(),
                self.view_xform == old(self).view_spec(),
                self.parts@.len() == old(self).parts@.len(),
                forall|k: int|
                    0 <= k < self.parts@.len() ==> #[trigger] self.parts@[k].mesh == old(
                        self,
                    ).parts@[k].mesh && self.parts@[k].mesh.wf() && self.parts@[k].material.wf(),
                forall|k: int|
                    0 <= k < i ==> (#[trigger] self.parts@[k].material.transform_spec())
                        == composed,
                forall|k: int|
                    0 <= k < i ==> (#[trigger] self.parts@[k].material.uploaded_spec())
                        == spec_uniform_bytes(composed, time_bits),
                pass_draws(*pass) == pass_draws(*old(pass)) + Seq::new(
                    i as nat,
                    |j: int| (
                        0u32,
                        old(self).parts@[j].mesh.index_count() as u32,
                        0i32,
                        0u32,
                        1u32,
                    ),
                ),
                pass_bindings(*pass) == pass_bindings(*old(pass)) + Seq::new(
                    i as nat,
                    |j: int| 0u32,
                ),
                pass_pipelines(*pass) == pass_pipelines(*old(pass)) + i,
            decreases self.parts@.len() - i,
        {
            let part = &mut self.parts[i];
            part.material.set_transform(composed);
            part.material.set_render_pass(pass, queue, time_bits);
            part.mesh.set_render_pass(pass);
            proof {
                assert(Seq::new(
                    (i + 1) as nat,
                    |j: int| (
                        0u32,
                        old(self).parts@[j].mesh.index_count() as u32,
                        0i32,
                        0u32,
                        1u32,
                    ),
                ) =~= Seq::new(
                    i as nat,
                    |j: int| (
                        0u32,
                        old(self).parts@[j].mesh.index_count() as u32,
                        0i32,
                        0u32,
                        1u32,
                    ),
                ).push((0u32, old(self).parts@[i as int].mesh.index_count() as u32, 0i32, 0u32, 1u32)));
                assert(Seq::new((i + 1) as nat, |j: int| 0u32) =~= Seq::new(
                    i as nat,
                    |j: int| 0u32,
                ).push(0u32));
            }
            i = i + 1;
        }
        proof {
            assert(pass_draws(*pass) =~= pass_draws(*old(pass)) + old(self).recorded_draws());
        }
    }
}

} // verus!
