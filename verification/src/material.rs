//! Materials: pipeline, bind group, uniform buffer and per-frame
//! uniform upload.
//!
//! A material owns its render pipeline and bind group, both immutable
//! after creation; only the buffer contents behind the uniform binding
//! change, once per frame, when `set_render_pass` packs the staged
//! transform and the frame time into the uniform block and writes it
//! through the queue — a write ordered before the draw recorded in the
//! same submission.

use vstd::bytes::{spec_u32_to_le_bytes, u32_to_le_bytes};
use vstd::prelude::*;

use crate::data::VERTEX_SIZE;
use crate::error::MaterialError;
use crate::ext_glam::{mat4_bytes_of, mat4_identity, mat4_to_bytes, mat_identity};
use crate::ext_image::{decode_rgba, decoded_rgba};
use crate::ext_wgpu::{
    buffer_size, color_target_state, create_bind_group, create_bind_group_layout,
    create_pipeline_layout, create_render_pipeline, create_sampler, create_shader_module,
    create_texture_rgba, create_uniform_buffer, group_entry_binding, group_entry_kind,
    group_entry_size, layout_entry_binding, layout_entry_kind, multisample_state, pass_bindings,
    pass_draws, pass_pipelines, pass_set_bind_group, pass_set_pipeline, primitive_state,
    queue_write_buffer, queue_write_texture, sampler_group_entry, sampler_layout_entry,
    texture_group_entry, texture_layout_entry, texture_view, uniform_group_entry,
    uniform_layout_entry, vertex_attr_f32x3, vertex_attr_location, vertex_attr_offset,
};
use crate::gpu::Gpu;
use crate::layout::{
    simple_material_plan, simple_vertex_attrs, spec_simple_material_plan,
    spec_simple_vertex_attrs, BindingKind, BindingSlot, UNIFORM_SIZE,
};

verus! {

/// The packed uniform block: the 64 matrix bytes, the 4-byte frame
/// time, then zero padding up to the aligned size.
pub open spec fn spec_uniform_bytes(m: glam::Mat4, time_bits: u32) -> Seq<u8> {
    mat4_bytes_of(m) + spec_u32_to_le_bytes(time_bits) + Seq::new(12, |i: int| 0u8)
}

/// Packs transform and frame time into the uniform block layout:
/// matrix bytes first, the time value at offset 64, zero padding up to
/// the aligned size of [`UNIFORM_SIZE`] bytes.
pub fn pack_uniform(m: &glam::Mat4, time_bits: u32) -> (r: Vec<u8>)
    ensures
        r@ == spec_uniform_bytes(*m, time_bits),
        r@.len() == UNIFORM_SIZE,
{
    let mut out = mat4_to_bytes(m);
    let mut t = u32_to_le_bytes(time_bits);
    out.append(&mut t);
    let mut i: usize = 0;
    while i < 12
        invariant
            0 <= i <= 12,
            mat4_bytes_of(*m).len() == 64,
            out@ == mat4_bytes_of(*m) + spec_u32_to_le_bytes(time_bits) + Seq::new(
                i as nat,
                |j: int| 0u8,
            ),
        decreases 12 - i,
    {
        out.push(0);
        proof {
            assert(out@ =~= mat4_bytes_of(*m) + spec_u32_to_le_bytes(time_bits) + Seq::new(
                (i + 1) as nat,
                |j: int| 0u8,
            ));
        }
        i = i + 1;
    }
    proof {
        assert(out@ =~= spec_uniform_bytes(*m, time_bits));
        vstd::bytes::lemma_auto_spec_u32_to_from_le_bytes();
    }
    out
}

/// The layout entries and the group entries supplied at bind-group
/// creation declare exactly the plan's binding indices: same count,
/// same index at every slot.
pub open spec fn entries_match<'a>(
    plan: Seq<BindingSlot>,
    layout_entries: Seq<wgpu::BindGroupLayoutEntry>,
    group_entries: Seq<wgpu::BindGroupEntry<'a>>,
) -> bool {
    &&& layout_entries.len() == plan.len()
    &&& group_entries.len() == plan.len()
    &&& forall|i: int|
        0 <= i < plan.len() ==> #[trigger] layout_entry_binding(layout_entries[i])
            == plan[i].binding
    &&& forall|i: int|
        0 <= i < plan.len() ==> #[trigger] group_entry_binding(group_entries[i])
            == plan[i].binding
}

/// Builds the bind-group layout entries for a plan: one entry per slot,
/// each declaring the slot's binding index and kind.
pub fn build_layout_entries(plan: &Vec<BindingSlot>) -> (r: Vec<wgpu::BindGroupLayoutEntry>)
    ensures
        r@.len() == plan@.len(),
        forall|i: int|
            0 <= i < plan@.len() ==> #[trigger] layout_entry_binding(r@[i]) == plan@[i].binding,
        forall|i: int|
            0 <= i < plan@.len() ==> #[trigger] layout_entry_kind(r@[i]) == plan@[i].kind,
{
    let mut entries: Vec<wgpu::BindGroupLayoutEntry> = Vec::new();
    let mut i: usize = 0;
    while i < plan.len()
        invariant
            0 <= i <= plan@.len(),
            entries@.len() == i,
            forall|j: int|
                0 <= j < i ==> #[trigger] layout_entry_binding(entries@[j]) == plan@[j].binding,
            forall|j: int|
                0 <= j < i ==> #[trigger] layout_entry_kind(entries@[j]) == plan@[j].kind,
        decreases plan@.len() - i,
    {
        let slot = plan[i];
        let entry = match slot.kind {
            BindingKind::UniformBuffer => uniform_layout_entry(slot.binding),
            BindingKind::Texture => texture_layout_entry(slot.binding),
            BindingKind::Sampler => sampler_layout_entry(slot.binding),
        };
        entries.push(entry);
        proof {
            assert(entries@[i as int] == entry);
            assert(layout_entry_kind(entry) == slot.kind);
        }
        i = i + 1;
    }
    entries
}

/// Builds the bind-group entries for a plan against the material's
/// resources: the uniform buffer bound over exactly the aligned uniform
/// size, the texture view and the sampler, each at its slot's binding
/// index.
pub fn build_group_entries<'a>(
    plan: &Vec<BindingSlot>,
    uniform: &'a wgpu::Buffer,
    view: &'a wgpu::TextureView,
    sampler: &'a wgpu::Sampler,
) -> (r: Vec<wgpu::BindGroupEntry<'a>>)
    ensures
        r@.len() == plan@.len(),
        forall|i: int|
            0 <= i < plan@.len() ==> #[trigger] group_entry_binding(r@[i]) == plan@[i].binding,
        forall|i: int|
            0 <= i < plan@.len() ==> #[trigger] group_entry_kind(r@[i]) == plan@[i].kind,
        forall|i: int|
            0 <= i < plan@.len() && plan@[i].kind == BindingKind::UniformBuffer
                ==> #[trigger] group_entry_size(r@[i]) == Some(UNIFORM_SIZE),
        forall|i: int|
            0 <= i < plan@.len() && plan@[i].kind != BindingKind::UniformBuffer
                ==> #[trigger] group_entry_size(r@[i]) is None,
{
    let mut entries: Vec<wgpu::BindGroupEntry<'a>> = Vec::new();
    let mut i: usize = 0;
    while i < plan.len()
        invariant
            0 <= i <= plan@.len(),
            entries@.len() == i,
            forall|j: int|
                0 <= j < i ==> #[trigger] group_entry_binding(entries@[j]) == plan@[j].binding,
            forall|j: int|
                0 <= j < i ==> #[trigger] group_entry_kind(entries@[j]) == plan@[j].kind,
            forall|j: int|
                0 <= j < i && plan@[j].kind == BindingKind::UniformBuffer
                    ==> #[trigger] group_entry_size(entries@[j]) == Some(UNIFORM_SIZE),
            forall|j: int|
                0 <= j < i && plan@[j].kind != BindingKind::UniformBuffer
                    ==> #[trigger] group_entry_size(entries@[j]) is None,
        decreases plan@.len() - i,
    {
        let slot = plan[i];
        let entry = match slot.kind {
            BindingKind::UniformBuffer => uniform_group_entry(slot.binding, uniform, UNIFORM_SIZE),
            BindingKind::Texture => texture_group_entry(slot.binding, view),
            BindingKind::Sampler => sampler_group_entry(slot.binding, sampler),
        };
        entries.push(entry);
        proof {
            assert(entries@[i as int] == entry);
            assert(group_entry_kind(entry) == slot.kind);
        }
        i = i + 1;
    }
    entries
}

/// The declared bind-group layout entries and the bindings supplied at
/// bind-group creation agree: same entry count, and at every slot the
/// layout's binding index equals the supplied binding's index — both are
/// the plan's.
pub proof fn lemma_layout_matches_bind_group<'a>(
    plan: Seq<BindingSlot>,
    layout_entries: Seq<wgpu::BindGroupLayoutEntry>,
    group_entries: Seq<wgpu::BindGroupEntry<'a>>,
)
    requires
        layout_entries.len() == plan.len(),
        group_entries.len() == plan.len(),
        forall|i: int|
            0 <= i < plan.len() ==> #[trigger] layout_entry_binding(layout_entries[i])
                == plan[i].binding,
        forall|i: int|
            0 <= i < plan.len() ==> #[trigger] group_entry_binding(group_entries[i])
                == plan[i].binding,
    ensures
        entries_match(plan, layout_entries, group_entries),
        forall|i: int|
            0 <= i < plan.len() ==> #[trigger] layout_entry_binding(layout_entries[i])
                == group_entry_binding(group_entries[i]),
{
}

/// Builds the pipeline's vertex attributes from the declared plan.
fn build_vertex_attributes() -> (r: Vec<wgpu::VertexAttribute>)
    ensures
        r@.len() == spec_simple_vertex_attrs().len(),
        forall|i: int|
            0 <= i < r@.len() ==> #[trigger] vertex_attr_location(r@[i])
                == spec_simple_vertex_attrs()[i].location && vertex_attr_offset(r@[i])
                == spec_simple_vertex_attrs()[i].offset,
{
    let plan = simple_vertex_attrs();
    let mut attrs: Vec<wgpu::VertexAttribute> = Vec::new();
    let mut i: usize = 0;
    while i < plan.len()
        invariant
            0 <= i <= plan@.len(),
            plan@ == spec_simple_vertex_attrs(),
            attrs@.len() == i,
            forall|j: int|
                0 <= j < i ==> #[trigger] vertex_attr_location(attrs@[j]) == plan@[j].location
                    && vertex_attr_offset(attrs@[j]) == plan@[j].offset,
        decreases plan@.len() - i,
    {
        let a = plan[i];
        attrs.push(vertex_attr_f32x3(a.location, a.offset));
        i = i + 1;
    }
    attrs
}

/// Whether the texture bytes decode to a non-empty RGBA image whose row
/// pitch fits the GPU's 32-bit row size: exactly the inputs on which
/// material construction succeeds.
pub open spec fn decodes_ok(bytes: Seq<u8>) -> bool {
    match decoded_rgba(bytes) {
        Some((w, h, p)) => w > 0 && h > 0 && 4 * (w as int) <= u32::MAX as int,
        None => false,
    }
}

/// Decodes texture bytes into 8-bit RGBA pixels: width, height and the
/// pixel array, four bytes per pixel. Fails with `AssetDecodeFailed`
/// exactly when the bytes are not a valid image, or the image is empty
/// or too wide for the GPU's 32-bit row pitch.
pub fn decode_texture(bytes: &[u8]) -> (r: Result<(u32, u32, Vec<u8>), MaterialError>)
    ensures
        match r {
            Ok((w, h, p)) => decodes_ok(bytes@) && decoded_rgba(bytes@) == Some((w, h, p@)) && w
                > 0 && h > 0 && p@.len() == 4 * (w as int) * (h as int) && 4 * (w as int)
                <= u32::MAX as int,
            Err(e) => e == MaterialError::AssetDecodeFailed && !decodes_ok(bytes@),
        },
{
    let (width, height, pixels) = match decode_rgba(bytes) {
        Ok(t) => t,
        Err(_) => {
            return Err(MaterialError::AssetDecodeFailed);
        },
    };
    if width == 0 || height == 0 || width > u32::MAX / 4 {
        return Err(MaterialError::AssetDecodeFailed);
    }
    Ok((width, height, pixels))
}

/// The capability set every material variant offers: staging the next
/// frame's transform and recording its pipeline, bindings and uniform
/// upload into a pass.
pub trait Material: Sized {
    /// The transform staged for the next frame.
    spec fn transform_spec(&self) -> glam::Mat4;

    /// The uniform block handed to the queue at the material's last
    /// `set_render_pass`.
    spec fn uploaded_spec(&self) -> Seq<u8>;

    /// The material's internal invariant.
    spec fn wf(&self) -> bool;

    /// Stages the transform written into the uniform block at the next
    /// `set_render_pass`. No GPU call happens here.
    fn set_transform(&mut self, transform: glam::Mat4)
        requires
            old(self).wf(),
        ensures
            final(self).wf(),
            final(self).transform_spec() == transform,
            final(self).uploaded_spec() == old(self).uploaded_spec(),
    ;

    /// Selects the material's pipeline and bind group on the pass —
    /// recording exactly one pipeline selection and one bind-group set
    /// at group index 0, and no draw — and writes the uniform block
    /// packed from the staged transform and the frame time (IEEE-754
    /// bits of the elapsed seconds) into the uniform buffer via the
    /// queue.
    fn set_render_pass(
        &mut self,
        pass: &mut wgpu::RenderPass<'static>,
        queue: &wgpu::Queue,
        time_bits: u32,
    )
        requires
            old(self).wf(),
        ensures
            final(self).wf(),
            final(self).transform_spec() == old(self).transform_spec(),
            final(self).uploaded_spec() == spec_uniform_bytes(
                old(self).transform_spec(),
                time_bits,
            ),
            pass_draws(*final(pass)) == pass_draws(*old(pass)),
            pass_bindings(*final(pass)) == pass_bindings(*old(pass)).push(0u32),
            pass_pipelines(*final(pass)) == pass_pipelines(*old(pass)) + 1,
    ;
}

/// A textured material: one diffuse texture with a sampler, and the
/// uniform block of transform and time. The `uploaded` field mirrors,
/// in ghost state, the uniform block most recently handed to the queue
/// for this material's uniform buffer.
pub struct SimpleMaterial {
    pipeline: wgpu::RenderPipeline,
    bind_group: wgpu::BindGroup,
    uniform_buffer: wgpu::Buffer,
    xform: glam::Mat4,
    texture: wgpu::Texture,
    uploaded: Ghost<Seq<u8>>,
}

/// Picks the texture source for a material slot: the preferred source
/// where the loader found one, else the named fallback asset. The
/// sources are plain path bytes; resolving them to files is the asset
/// loader's job.
pub fn resolve_texture_source(preferred: Option<String>, fallback: String) -> (r: String)
    ensures
        match preferred {
            Some(p) => r == p,
            None => r == fallback,
        },
{
    match preferred {
        Some(p) => p,
        None => fallback,
    }
}

impl SimpleMaterial {
    /// Builds the material: decodes the texture bytes, uploads the
    /// pixels, creates the uniform buffer at exactly the aligned
    /// uniform size, builds the bind-group layout and the bind group
    /// from the same binding plan, and builds the pipeline over the
    /// declared vertex layout against the context's surface format.
    ///
    /// Succeeds exactly when the texture bytes decode to a non-empty
    /// image of supported width; the transform starts at the identity.
    pub fn new(gpu: &Gpu, shader_source: &str, texture_bytes: &[u8]) -> (r: Result<
        SimpleMaterial,
        MaterialError,
    >)
        ensures
            match r {
                Ok(m) => decodes_ok(texture_bytes@) && m.wf() && m.transform_spec() == mat_identity(
                    0,
                ),
                Err(e) => e == MaterialError::AssetDecodeFailed && !decodes_ok(texture_bytes@),
            },
    {
        let (width, height, pixels) = match decode_texture(texture_bytes) {
            Ok(t) => t,
            Err(e) => {
                return Err(e);
            },
        };
        let uniform_buffer = create_uniform_buffer(gpu.device(), UNIFORM_SIZE);
        let texture = create_texture_rgba(gpu.device(), width, height);
        queue_write_texture(gpu.queue(), &texture, width, height, 4 * width, pixels.as_slice());
        let view = texture_view(&texture);
        let sampler = create_sampler(gpu.device());

        let plan = simple_material_plan();
        let layout_entries = build_layout_entries(&plan);
        let group_entries = build_group_entries(&plan, &uniform_buffer, &view, &sampler);
        proof {
            // The declared layout and the supplied bindings match the
            // plan slot for slot.
            assert(entries_match(spec_simple_material_plan(), layout_entries@, group_entries@));
        }
        let bind_group_layout = create_bind_group_layout(gpu.device(), &layout_entries);
        let bind_group = create_bind_group(gpu.device(), &bind_group_layout, &group_entries);
        let pipeline_layout = create_pipeline_layout(gpu.device(), &bind_group_layout);

        let shader = create_shader_module(gpu.device(), shader_source);
        let attrs = build_vertex_attributes();
        let format = gpu.surface_format();
        let pipeline = create_render_pipeline(
            gpu.device(),
            &pipeline_layout,
            &shader,
            &attrs,
            VERTEX_SIZE,
            color_target_state(&format),
            primitive_state(),
            multisample_state(),
        );

        Ok(
            SimpleMaterial {
                pipeline,
                bind_group,
                uniform_buffer,
                xform: mat4_identity(),
                texture,
                uploaded: Ghost(Seq::empty()),
            },
        )
    }
}

impl Material for SimpleMaterial {
    /// The transform staged for the next frame.
    closed spec fn transform_spec(&self) -> glam::Mat4 {
        self.xform
    }

    /// The uniform block handed to the queue at the last
    /// `set_render_pass`.
    closed spec fn uploaded_spec(&self) -> Seq<u8> {
        self.uploaded@
    }

    /// The uniform buffer was created at exactly the aligned uniform
    /// size — the size the uniform binding and every per-frame write
    /// cover.
    closed spec fn wf(&self) -> bool {
        buffer_size(self.uniform_buffer) == UNIFORM_SIZE
    }

    fn set_transform(&mut self, transform: glam::Mat4) {
        self.xform = transform;
    }

    fn set_render_pass(
        &mut self,
        pass: &mut wgpu::RenderPass<'static>,
        queue: &wgpu::Queue,
        time_bits: u32,
    ) {
        pass_set_pipeline(pass, &self.pipeline);
        pass_set_bind_group(pass, 0, &self.bind_group);
        let data = pack_uniform(&self.xform, time_bits);
        queue_write_buffer(queue, &self.uniform_buffer, 0, data.as_slice());
        self.uploaded = Ghost(data@);
    }
}

} // verus!
