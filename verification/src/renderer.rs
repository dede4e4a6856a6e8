//! The renderer: owns the graphics context and the scene's object list
//! and drives the per-frame loop.
//!
//! Per frame the caller first animates object transforms (the frame
//! time is threaded in explicitly, as the IEEE-754 bit pattern of the
//! elapsed seconds, so no wall clock is read here), then `render` asks
//! the context for a frame into which every object records itself, in
//! list order. A failed frame acquisition leaves the renderer exactly
//! as it was: the caller may reconfigure the surface and the next
//! `render` call starts from the same state.

use vstd::prelude::*;

use crate::error::FrameError;
use crate::gpu::Gpu;
use crate::material::spec_uniform_bytes;
use crate::object::Object;
use crate::xform::{apply_ops, reset_result, TransformOp};

verus! {

/// The renderer: the graphics context and the scene.
pub struct Renderer {
    gpu: Gpu,
    objects: Vec<Object>,
}

impl Renderer {
    /// The owned graphics context.
    pub closed spec fn gpu_spec(&self) -> Gpu {
        self.gpu
    }

    /// The owned scene objects, in draw order.
    pub closed spec fn objects_spec(&self) -> Seq<Object> {
        self.objects@
    }

    /// The context and every object are well formed.
    pub closed spec fn wf(&self) -> bool {
        &&& self.gpu.wf()
        &&& forall|i: int| 0 <= i < self.objects@.len() ==> (#[trigger] self.objects@[i]).wf()
    }

    /// Builds the renderer over a context and a caller-supplied scene.
    pub fn new(gpu: Gpu, objects: Vec<Object>) -> (r: Renderer)
        requires
            gpu.wf(),
            forall|i: int| 0 <= i < objects@.len() ==> (#[trigger] objects@[i]).wf(),
        ensures
            r.wf(),
            r.gpu_spec() == gpu,
            r.objects_spec() == objects@,
    {
        Renderer { gpu, objects }
    }

    /// How many objects the scene holds.
    pub fn object_count(&self) -> (r: usize)
        ensures
            r == self.objects_spec().len(),
    {
        self.objects.len()
    }

    /// Restores the identity model transform of object `i`.
    pub fn reset_object(&mut self, i: usize)
        requires
            old(self).wf(),
            i < old(self).objects_spec().len(),
        ensures
            final(self).wf(),
            final(self).gpu_spec() == old(self).gpu_spec(),
            final(self).objects_spec().len() == old(self).objects_spec().len(),
            final(self).objects_spec()[i as int].model_spec() == reset_result(
                old(self).objects_spec()[i as int].model_spec(),
            ),
            forall|j: int|
                0 <= j < old(self).objects_spec().len() && j != i ==> final(self).objects_spec()[j]
                    == old(self).objects_spec()[j],
    {
        let obj = &mut self.objects[i];
        obj.reset();
    }

    /// Applies a sequence of transform operations, left to right, onto
    /// the model transform of object `i`.
    pub fn transform_object(&mut self, i: usize, ops: &Vec<TransformOp>)
        requires
            old(self).wf(),
            i < old(self).objects_spec().len(),
        ensures
            final(self).wf(),
            final(self).gpu_spec() == old(self).gpu_spec(),
            final(self).objects_spec().len() == old(self).objects_spec().len(),
            final(self).objects_spec()[i as int].model_spec() == apply_ops(
                old(self).objects_spec()[i as int].model_spec(),
                ops@,
            ),
            forall|j: int|
                0 <= j < old(self).objects_spec().len() && j != i ==> final(self).objects_spec()[j]
                    == old(self).objects_spec()[j],
    {
        let obj = &mut self.objects[i];
        obj.apply_all(ops);
    }

    /// Draws one frame with the given frame time and clear color: every
    /// object records itself in list order. On success, every part of
    /// every object was staged to its object's composed
    /// projection-view-model transform and had the uniform block packed
    /// from that transform and the frame time handed to the queue. On
    /// acquisition failure the frame is skipped, the error is reported,
    /// and the renderer is left exactly as it was, so the caller can
    /// reconfigure and retry on the next frame.
    pub fn render(&mut self, time_bits: u32, clear: &wgpu::Color) -> (r: Result<(), FrameError>)
        requires
            old(self).wf(),
        ensures
            final(self).wf(),
            final(self).gpu_spec() == old(self).gpu_spec(),
            final(self).objects_spec().len() == old(self).objects_spec().len(),
            forall|i: int|
                0 <= i < final(self).objects_spec().len()
                    ==> (#[trigger] final(self).objects_spec()[i]).model_spec()
                    == old(self).objects_spec()[i].model_spec(),
            r is Ok ==> forall|i: int, j: int|
                0 <= i < final(self).objects_spec().len()
                    && 0 <= j < final(self).objects_spec()[i].parts_len_spec()
                    ==> #[trigger] final(self).objects_spec()[i].part_material_transform(j)
                    == old(self).objects_spec()[i].composed_transform(),
            r is Ok ==> forall|i: int, j: int|
                0 <= i < final(self).objects_spec().len()
                    && 0 <= j < final(self).objects_spec()[i].parts_len_spec()
                    ==> #[trigger] final(self).objects_spec()[i].part_uploaded(j)
                    == spec_uniform_bytes(
                    old(self).objects_spec()[i].composed_transform(),
                    time_bits,
                ),
            r is Err ==> final(self).objects_spec() == old(self).objects_spec(),
    {
        let gpu = &self.gpu;
        gpu.render(&mut self.objects, time_bits, clear)
    }

    /// Applies the stored surface configuration, as after a resize or a
    /// lost frame.
    pub fn reconfigure(&self)
        requires
            self.wf(),
    {
        self.gpu.reconfigure();
    }

    /// Forwards a window resize to the context: only the stored
    /// configuration changes; buffers, pipelines and objects stay as
    /// they are.
    pub fn resize(&mut self, width: u32, height: u32)
        requires
            old(self).wf(),
            width > 0,
            height > 0,
        ensures
            final(self).wf(),
            final(self).objects_spec() == old(self).objects_spec(),
            final(self).gpu_spec().width_spec() == width,
            final(self).gpu_spec().height_spec() == height,
            final(self).gpu_spec().format_spec() == old(self).gpu_spec().format_spec(),
            final(self).gpu_spec().device_spec() == old(self).gpu_spec().device_spec(),
            final(self).gpu_spec().queue_spec() == old(self).gpu_spec().queue_spec(),
            final(self).gpu_spec().surface_spec() == old(self).gpu_spec().surface_spec(),
    {
        self.gpu.resize(width, height);
    }
}

} // verus!
