//! Trusted declarations for the `wgpu` graphics crate.
//!
//! GPU resources are opaque handles here. Each wrapper makes exactly
//! one `wgpu` call; its contract states what `wgpu` documents of that
//! call. Results that depend on the device or driver (such as which
//! frame-acquisition outcome comes back) get no name: the callers state
//! what holds of every outcome.

use vstd::prelude::*;

use crate::error::FrameError;

verus! {

#[verifier::external_type_specification]
#[verifier::external_body]
pub struct ExDevice(wgpu::Device);

#[verifier::external_type_specification]
#[verifier::external_body]
pub struct ExQueue(wgpu::Queue);

#[verifier::external_type_specification]
#[verifier::external_body]
pub struct ExAdapter(wgpu::Adapter);

#[verifier::external_type_specification]
#[verifier::external_body]
pub struct ExSurface<'window>(wgpu::Surface<'window>);

#[verifier::external_type_specification]
#[verifier::external_body]
pub struct ExSurfaceTexture(wgpu::SurfaceTexture);

#[verifier::external_type_specification]
#[verifier::external_body]
pub struct ExBuffer(wgpu::Buffer);

#[verifier::external_type_specification]
#[verifier::external_body]
pub struct ExTexture(wgpu::Texture);

#[verifier::external_type_specification]
#[verifier::external_body]
pub struct ExTextureView(wgpu::TextureView);

#[verifier::external_type_specification]
#[verifier::external_body]
pub struct ExSampler(wgpu::Sampler);

#[verifier::external_type_specification]
#[verifier::external_body]
pub struct ExShaderModule(wgpu::ShaderModule);

#[verifier::external_type_specification]
#[verifier::external_body]
pub struct ExRenderPipeline(wgpu::RenderPipeline);

#[verifier::external_type_specification]
#[verifier::external_body]
pub struct ExPipelineLayout(wgpu::PipelineLayout);

#[verifier::external_type_specification]
#[verifier::external_body]
pub struct ExBindGroup(wgpu::BindGroup);

#[verifier::external_type_specification]
#[verifier::external_body]
pub struct ExBindGroupLayout(wgpu::BindGroupLayout);

#[verifier::external_type_specification]
#[verifier::external_body]
pub struct ExBindGroupLayoutEntry(wgpu::BindGroupLayoutEntry);

#[verifier::external_type_specification]
#[verifier::external_body]
pub struct ExBindGroupEntry<'a>(wgpu::BindGroupEntry<'a>);

#[verifier::external_type_specification]
#[verifier::external_body]
pub struct ExRenderPass<'encoder>(wgpu::RenderPass<'encoder>);

#[verifier::external_type_specification]
#[verifier::external_body]
pub struct ExCommandEncoder(wgpu::CommandEncoder);

#[verifier::external_type_specification]
#[verifier::external_body]
pub struct ExCommandBuffer(wgpu::CommandBuffer);

#[verifier::external_type_specification]
#[verifier::external_body]
pub struct ExTextureFormat(wgpu::TextureFormat);

#[verifier::external_type_specification]
#[verifier::external_body]
pub struct ExPresentMode(wgpu::PresentMode);

#[verifier::external_type_specification]
#[verifier::external_body]
pub struct ExCompositeAlphaMode(wgpu::CompositeAlphaMode);

#[verifier::external_type_specification]
#[verifier::external_body]
pub struct ExColor(wgpu::Color);

#[verifier::external_type_specification]
#[verifier::external_body]
pub struct ExVertexAttribute(wgpu::VertexAttribute);

#[verifier::external_type_specification]
#[verifier::external_body]
pub struct ExColorTargetState(wgpu::ColorTargetState);

#[verifier::external_type_specification]
#[verifier::external_body]
pub struct ExPrimitiveState(wgpu::PrimitiveState);

#[verifier::external_type_specification]
#[verifier::external_body]
pub struct ExMultisampleState(wgpu::MultisampleState);

/// The size in bytes a buffer was created with, as `wgpu::Buffer::size`
/// returns it.
pub uninterp spec fn buffer_size(b: wgpu::Buffer) -> u64;

/// Whether a texture format is sRGB, as `wgpu::TextureFormat::is_srgb`
/// answers it: a pure function of the format.
pub uninterp spec fn is_srgb_format(f: wgpu::TextureFormat) -> bool;

/// The binding index a bind-group layout entry declares: its `binding`
/// field.
pub uninterp spec fn layout_entry_binding(e: wgpu::BindGroupLayoutEntry) -> u32;

/// The binding index a bind-group entry supplies: its `binding` field.
pub uninterp spec fn group_entry_binding(e: wgpu::BindGroupEntry) -> u32;

/// The kind of binding a bind-group layout entry declares, read from
/// its `ty` field: a uniform buffer, a sampled texture or a sampler.
pub uninterp spec fn layout_entry_kind(e: wgpu::BindGroupLayoutEntry) -> crate::layout::BindingKind;

/// The kind of resource a bind-group entry supplies, read from its
/// `resource` field: a buffer, a texture view or a sampler.
pub uninterp spec fn group_entry_kind(e: wgpu::BindGroupEntry) -> crate::layout::BindingKind;

/// The explicit size bound of a bind-group entry's buffer binding:
/// `Some(n)` where the entry binds a buffer over exactly `n` bytes,
/// `None` where it binds no buffer.
pub uninterp spec fn group_entry_size(e: wgpu::BindGroupEntry) -> Option<u64>;

/// Whether the surface supports a texture format, as
/// `wgpu::Surface::get_capabilities` reports it: configuring the
/// surface with an unsupported format panics.
pub uninterp spec fn surface_format_supported(
    s: wgpu::Surface<'static>,
    f: wgpu::TextureFormat,
) -> bool;

/// Whether the surface supports a present mode, as
/// `wgpu::Surface::get_capabilities` reports it.
pub uninterp spec fn surface_present_mode_supported(
    s: wgpu::Surface<'static>,
    m: wgpu::PresentMode,
) -> bool;

/// Whether the surface supports an alpha mode, as
/// `wgpu::Surface::get_capabilities` reports it.
pub uninterp spec fn surface_alpha_mode_supported(
    s: wgpu::Surface<'static>,
    a: wgpu::CompositeAlphaMode,
) -> bool;

/// The width and height a texture was created with, as
/// `wgpu::Texture::width` and `wgpu::Texture::height` return them.
pub uninterp spec fn texture_size(t: wgpu::Texture) -> (u32, u32);

/// The binding slots a bind-group layout declares, in entry order, each
/// as its binding index and kind.
pub uninterp spec fn layout_plan_of(l: wgpu::BindGroupLayout) -> Seq<crate::layout::BindingSlot>;

/// The indexed draws a render pass has recorded so far, in order, each
/// as `draw_indexed` received it: (first index, end index, base vertex,
/// first instance, end instance).
pub uninterp spec fn pass_draws(p: wgpu::RenderPass<'static>) -> Seq<(u32, u32, i32, u32, u32)>;

/// The bind-group indices a render pass has set so far, in order.
pub uninterp spec fn pass_bindings(p: wgpu::RenderPass<'static>) -> Seq<u32>;

/// How many pipeline selections a render pass has recorded so far.
pub uninterp spec fn pass_pipelines(p: wgpu::RenderPass<'static>) -> nat;

/// Relies on `wgpu::TextureFormat::is_srgb`: a pure function of the
/// format value.
#[verifier::external_body]
pub(crate) fn format_is_srgb(f: &wgpu::TextureFormat) -> (r: bool)
    ensures
        r == is_srgb_format(*f),
{
    f.is_srgb()
}

/// Relies on `wgpu::Surface::get_capabilities`: every format, present
/// mode and alpha mode it hands back is one the surface supports, so
/// configuring the surface with it is accepted. The capabilities are
/// reported against the adapter the context's device was requested
/// from. Empty lists mean the surface is incompatible with the adapter.
#[verifier::external_body]
pub(crate) fn surface_capabilities(surface: &wgpu::Surface<'static>, adapter: &wgpu::Adapter) -> (r:
    (Vec<wgpu::TextureFormat>, Vec<wgpu::PresentMode>, Vec<wgpu::CompositeAlphaMode>))
    ensures
        forall|i: int|
            0 <= i < r.0@.len() ==> #[trigger] surface_format_supported(*surface, r.0@[i]),
        forall|i: int|
            0 <= i < r.1@.len() ==> #[trigger] surface_present_mode_supported(*surface, r.1@[i]),
        forall|i: int|
            0 <= i < r.2@.len() ==> #[trigger] surface_alpha_mode_supported(*surface, r.2@[i]),
{
    let caps = surface.get_capabilities(adapter);
    (caps.formats, caps.present_modes, caps.alpha_modes)
}

/// Relies on `wgpu::Surface::configure`: applies a configuration of the
/// given format, present mode, alpha mode and size, with render-attachment
/// usage and a frame-latency target of 2. Its documented panics are a
/// zero width or height and a format or mode the surface does not
/// support, all excluded here (the automatic color space this body
/// hard-codes is supported for every capability-listed format), and an
/// acquired frame of this surface still alive at the call — a
/// sequencing condition the caller keeps (this crate presents or drops
/// every acquired frame within the call that acquired it).
#[verifier::external_body]
pub(crate) fn configure_surface(
    surface: &wgpu::Surface<'static>,
    device: &wgpu::Device,
    format: &wgpu::TextureFormat,
    present_mode: &wgpu::PresentMode,
    alpha_mode: &wgpu::CompositeAlphaMode,
    width: u32,
    height: u32,
)
    requires
        width > 0,
        height > 0,
        surface_format_supported(*surface, *format),
        surface_present_mode_supported(*surface, *present_mode),
        surface_alpha_mode_supported(*surface, *alpha_mode),
{
    surface.configure(device, &wgpu::SurfaceConfiguration {
        usage: wgpu::TextureUsages::RENDER_ATTACHMENT,
        format: *format, color_space: wgpu::SurfaceColorSpace::Auto,
        width, height, present_mode: *present_mode,
        desired_maximum_frame_latency: 2, alpha_mode: *alpha_mode, view_formats: vec![],
    });
}

/// Relies on `wgpu::Surface::get_current_texture`: either hands back the
/// next presentable texture (also when it reports it as suboptimal) or
/// says why none could be acquired. Which outcome comes back depends on
/// the window system and driver, so nothing more is stated.
#[verifier::external_body]
pub(crate) fn acquire_texture(surface: &wgpu::Surface<'static>) -> (r: Result<
    wgpu::SurfaceTexture,
    FrameError,
>)
{
    match surface.get_current_texture() {
        wgpu::CurrentSurfaceTexture::Success(t) => Ok(t),
        wgpu::CurrentSurfaceTexture::Suboptimal(t) => Ok(t),
        wgpu::CurrentSurfaceTexture::Timeout => Err(FrameError::Timeout),
        wgpu::CurrentSurfaceTexture::Occluded => Err(FrameError::Occluded),
        wgpu::CurrentSurfaceTexture::Outdated => Err(FrameError::Outdated),
        wgpu::CurrentSurfaceTexture::Lost => Err(FrameError::Lost),
        wgpu::CurrentSurfaceTexture::Validation => Err(FrameError::Validation),
    }
}

/// Relies on `wgpu::Device::create_buffer`: the buffer is created with
/// exactly the descriptor's size, which `wgpu::Buffer::size` returns.
/// Usage: vertex data, copy destination.
#[verifier::external_body]
pub(crate) fn create_vertex_buffer(device: &wgpu::Device, size: u64) -> (r: wgpu::Buffer)
    ensures
        buffer_size(r) == size,
{
    device.create_buffer(
        &wgpu::BufferDescriptor {
            label: Some("vertex buffer"),
            size,
            mapped_at_creation: false,
            usage: wgpu::BufferUsages::COPY_DST | wgpu::BufferUsages::VERTEX,
        },
    )
}

/// Relies on `wgpu::Device::create_buffer`: the buffer is created with
/// exactly the descriptor's size, which `wgpu::Buffer::size` returns.
/// Usage: index data, copy destination.
#[verifier::external_body]
pub(crate) fn create_index_buffer(device: &wgpu::Device, size: u64) -> (r: wgpu::Buffer)
    ensures
        buffer_size(r) == size,
{
    device.create_buffer(
        &wgpu::BufferDescriptor {
            label: Some("index buffer"),
            size,
            mapped_at_creation: false,
            usage: wgpu::BufferUsages::COPY_DST | wgpu::BufferUsages::INDEX,
        },
    )
}

/// Relies on `wgpu::Device::create_buffer`: the buffer is created with
/// exactly the descriptor's size, which `wgpu::Buffer::size` returns.
/// Usage: uniform data, copy destination.
#[verifier::external_body]
pub(crate) fn create_uniform_buffer(device: &wgpu::Device, size: u64) -> (r: wgpu::Buffer)
    ensures
        buffer_size(r) == size,
{
    device.create_buffer(
        &wgpu::BufferDescriptor {
            label: Some("uniform buffer"),
            size,
            mapped_at_creation: false,
            usage: wgpu::BufferUsages::COPY_DST | wgpu::BufferUsages::UNIFORM,
        },
    )
}

/// Relies on `wgpu::Queue::write_buffer`: copies `data` into the buffer
/// at `offset`. `wgpu` validates that the write lies fully in bounds and
/// that offset and size are multiples of its copy alignment of 4, so
/// anything else is excluded.
#[verifier::external_body]
pub(crate) fn queue_write_buffer(queue: &wgpu::Queue, buffer: &wgpu::Buffer, offset: u64, data: &[u8])
    requires
        offset % 4 == 0,
        data@.len() % 4 == 0,
        offset + data@.len() <= buffer_size(*buffer),
{
    queue.write_buffer(buffer, offset, data);
}

/// Relies on `wgpu::Device::create_command_encoder`.
#[verifier::external_body]
pub(crate) fn create_command_encoder(device: &wgpu::Device) -> (r: wgpu::CommandEncoder) {
    device.create_command_encoder(&wgpu::CommandEncoderDescriptor { label: Some("render encoder") })
}

/// Relies on `wgpu::Texture::create_view` with the default descriptor,
/// on the texture of an acquired surface frame.
#[verifier::external_body]
pub(crate) fn surface_texture_view(frame: &wgpu::SurfaceTexture) -> (r: wgpu::TextureView) {
    frame.texture.create_view(&wgpu::TextureViewDescriptor::default())
}

/// Relies on `wgpu::CommandEncoder::begin_render_pass`: begins one render
/// pass onto the given color attachment, clearing it to `clear` and
/// storing the result, with no depth attachment. The pass records into
/// the encoder it was begun on and starts with no commands recorded.
#[verifier::external_body]
pub(crate) fn begin_clear_pass(
    encoder: &mut wgpu::CommandEncoder,
    view: &wgpu::TextureView,
    clear: &wgpu::Color,
) -> (r: wgpu::RenderPass<'static>)
    ensures
        pass_draws(r) == Seq::<(u32, u32, i32, u32, u32)>::empty(),
        pass_bindings(r) == Seq::<u32>::empty(),
        pass_pipelines(r) == 0,
{
    let ops = wgpu::Operations { load: wgpu::LoadOp::Clear(*clear), store: wgpu::StoreOp::Store };
    let attachment = wgpu::RenderPassColorAttachment {
        view, depth_slice: None, resolve_target: None, ops,
    };
    let pass = encoder.begin_render_pass(&wgpu::RenderPassDescriptor {
        label: Some("render pass"), color_attachments: &[Some(attachment)],
        depth_stencil_attachment: None, timestamp_writes: None,
        occlusion_query_set: None, multiview_mask: None,
    });
    pass.forget_lifetime()
}

/// Relies on `wgpu::CommandEncoder::finish`.
#[verifier::external_body]
pub(crate) fn encoder_finish(encoder: wgpu::CommandEncoder) -> (r: wgpu::CommandBuffer) {
    encoder.finish()
}

/// Relies on `wgpu::Queue::submit` with the one command buffer.
#[verifier::external_body]
pub(crate) fn queue_submit(queue: &wgpu::Queue, commands: wgpu::CommandBuffer) {
    queue.submit([commands]);
}

/// Relies on `wgpu::Queue::present`: schedules the acquired frame for
/// presentation after the submitted work.
#[verifier::external_body]
pub(crate) fn queue_present(queue: &wgpu::Queue, frame: wgpu::SurfaceTexture) {
    queue.present(frame);
}

/// Relies on `wgpu::RenderPass::set_pipeline`: records one pipeline
/// selection and no draw or bind-group command.
#[verifier::external_body]
pub(crate) fn pass_set_pipeline(pass: &mut wgpu::RenderPass<'static>, pipeline: &wgpu::RenderPipeline)
    ensures
        pass_draws(*final(pass)) == pass_draws(*old(pass)),
        pass_bindings(*final(pass)) == pass_bindings(*old(pass)),
        pass_pipelines(*final(pass)) == pass_pipelines(*old(pass)) + 1,
{
    pass.set_pipeline(pipeline);
}

/// Relies on `wgpu::RenderPass::set_bind_group`, with no dynamic
/// offsets: records that the group was set at `index` and no draw or
/// pipeline command.
#[verifier::external_body]
pub(crate) fn pass_set_bind_group(
    pass: &mut wgpu::RenderPass<'static>,
    index: u32,
    group: &wgpu::BindGroup,
)
    ensures
        pass_draws(*final(pass)) == pass_draws(*old(pass)),
        pass_bindings(*final(pass)) == pass_bindings(*old(pass)).push(index),
        pass_pipelines(*final(pass)) == pass_pipelines(*old(pass)),
{
    pass.set_bind_group(index, group, &[]);
}

/// Relies on `wgpu::RenderPass::set_vertex_buffer`, binding the whole
/// buffer at the given slot; no draw, bind-group or pipeline command is
/// recorded.
#[verifier::external_body]
pub(crate) fn pass_set_vertex_buffer(
    pass: &mut wgpu::RenderPass<'static>,
    slot: u32,
    buffer: &wgpu::Buffer,
)
    ensures
        pass_draws(*final(pass)) == pass_draws(*old(pass)),
        pass_bindings(*final(pass)) == pass_bindings(*old(pass)),
        pass_pipelines(*final(pass)) == pass_pipelines(*old(pass)),
{
    pass.set_vertex_buffer(slot, buffer.slice(..));
}

/// Relies on `wgpu::RenderPass::set_index_buffer`, binding the whole
/// buffer as 16-bit indices; no draw, bind-group or pipeline command is
/// recorded.
#[verifier::external_body]
pub(crate) fn pass_set_index_buffer_u16(pass: &mut wgpu::RenderPass<'static>, buffer: &wgpu::Buffer)
    ensures
        pass_draws(*final(pass)) == pass_draws(*old(pass)),
        pass_bindings(*final(pass)) == pass_bindings(*old(pass)),
        pass_pipelines(*final(pass)) == pass_pipelines(*old(pass)),
{
    pass.set_index_buffer(buffer.slice(..), wgpu::IndexFormat::Uint16);
}

/// Relies on `wgpu::RenderPass::set_index_buffer`, binding the whole
/// buffer as 32-bit indices; no draw, bind-group or pipeline command is
/// recorded.
#[verifier::external_body]
pub(crate) fn pass_set_index_buffer_u32(pass: &mut wgpu::RenderPass<'static>, buffer: &wgpu::Buffer)
    ensures
        pass_draws(*final(pass)) == pass_draws(*old(pass)),
        pass_bindings(*final(pass)) == pass_bindings(*old(pass)),
        pass_pipelines(*final(pass)) == pass_pipelines(*old(pass)),
{
    pass.set_index_buffer(buffer.slice(..), wgpu::IndexFormat::Uint32);
}

/// The shader location a vertex attribute declares: its
/// `shader_location` field.
pub uninterp spec fn vertex_attr_location(a: wgpu::VertexAttribute) -> u32;

/// The byte offset a vertex attribute declares: its `offset` field.
pub uninterp spec fn vertex_attr_offset(a: wgpu::VertexAttribute) -> u64;

/// Relies on the `wgpu::BindGroupLayoutEntry` literal: declares a
/// uniform buffer at the given binding index, visible to the vertex
/// stage, with no dynamic offset and no minimum size.
#[verifier::external_body]
pub(crate) fn uniform_layout_entry(binding: u32) -> (r: wgpu::BindGroupLayoutEntry)
    ensures
        layout_entry_binding(r) == binding,
        layout_entry_kind(r) == crate::layout::BindingKind::UniformBuffer,
{
    wgpu::BindGroupLayoutEntry {
        binding, visibility: wgpu::ShaderStages::VERTEX,
        ty: wgpu::BindingType::Buffer {
            ty: wgpu::BufferBindingType::Uniform,
            has_dynamic_offset: false, min_binding_size: None,
        },
        count: None,
    }
}

/// Relies on the `wgpu::BindGroupLayoutEntry` literal: declares a
/// filterable two-dimensional texture at the given binding index,
/// visible to the fragment stage.
#[verifier::external_body]
pub(crate) fn texture_layout_entry(binding: u32) -> (r: wgpu::BindGroupLayoutEntry)
    ensures
        layout_entry_binding(r) == binding,
        layout_entry_kind(r) == crate::layout::BindingKind::Texture,
{
    wgpu::BindGroupLayoutEntry {
        binding, visibility: wgpu::ShaderStages::FRAGMENT,
        ty: wgpu::BindingType::Texture {
            sample_type: wgpu::TextureSampleType::Float { filterable: true },
            view_dimension: wgpu::TextureViewDimension::D2, multisampled: false,
        },
        count: None,
    }
}

/// Relies on the `wgpu::BindGroupLayoutEntry` literal: declares a
/// filtering sampler at the given binding index, visible to the
/// fragment stage.
#[verifier::external_body]
pub(crate) fn sampler_layout_entry(binding: u32) -> (r: wgpu::BindGroupLayoutEntry)
    ensures
        layout_entry_binding(r) == binding,
        layout_entry_kind(r) == crate::layout::BindingKind::Sampler,
{
    wgpu::BindGroupLayoutEntry {
        binding,
        visibility: wgpu::ShaderStages::FRAGMENT,
        ty: wgpu::BindingType::Sampler(wgpu::SamplerBindingType::Filtering),
        count: None,
    }
}

/// Relies on `wgpu::Device::create_bind_group_layout` with exactly the
/// given entries: the layout declares one slot per entry, in entry
/// order, each with that entry's binding index and kind.
#[verifier::external_body]
pub(crate) fn create_bind_group_layout(
    device: &wgpu::Device,
    entries: &Vec<wgpu::BindGroupLayoutEntry>,
) -> (r: wgpu::BindGroupLayout)
    ensures
        layout_plan_of(r).len() == entries@.len(),
        forall|i: int|
            0 <= i < entries@.len() ==> #[trigger] layout_plan_of(r)[i].binding
                == layout_entry_binding(entries@[i]),
        forall|i: int|
            0 <= i < entries@.len() ==> #[trigger] layout_plan_of(r)[i].kind == layout_entry_kind(
                entries@[i],
            ),
{
    device.create_bind_group_layout(
        &wgpu::BindGroupLayoutDescriptor { label: Some("material bind group layout"), entries },
    )
}

/// Relies on `wgpu::Device::create_pipeline_layout` with the one bind
/// group layout and no immediate data.
#[verifier::external_body]
pub(crate) fn create_pipeline_layout(
    device: &wgpu::Device,
    layout: &wgpu::BindGroupLayout,
) -> (r: wgpu::PipelineLayout) {
    device.create_pipeline_layout(
        &wgpu::PipelineLayoutDescriptor {
            label: Some("material pipeline layout"),
            bind_group_layouts: &[Some(layout)],
            immediate_size: 0,
        },
    )
}

/// Relies on the `wgpu::BindGroupEntry` literal: supplies the first
/// `size` bytes of the uniform buffer at the given binding index, with
/// exactly `size` as the explicit size bound of the binding.
#[verifier::external_body]
pub(crate) fn uniform_group_entry<'a>(binding: u32, buffer: &'a wgpu::Buffer, size: u64) -> (r:
    wgpu::BindGroupEntry<'a>)
    requires
        size > 0,
    ensures
        group_entry_binding(r) == binding,
        group_entry_kind(r) == crate::layout::BindingKind::UniformBuffer,
        group_entry_size(r) == Some(size),
{
    wgpu::BindGroupEntry {
        binding,
        resource: wgpu::BindingResource::Buffer(
            wgpu::BufferBinding { buffer, offset: 0, size: core::num::NonZeroU64::new(size) },
        ),
    }
}

/// Relies on the `wgpu::BindGroupEntry` literal: supplies a texture view
/// at the given binding index.
#[verifier::external_body]
pub(crate) fn texture_group_entry<'a>(binding: u32, view: &'a wgpu::TextureView) -> (r:
    wgpu::BindGroupEntry<'a>)
    ensures
        group_entry_binding(r) == binding,
        group_entry_kind(r) == crate::layout::BindingKind::Texture,
        group_entry_size(r) is None,
{
    wgpu::BindGroupEntry { binding, resource: wgpu::BindingResource::TextureView(view) }
}

/// Relies on the `wgpu::BindGroupEntry` literal: supplies a sampler at
/// the given binding index.
#[verifier::external_body]
pub(crate) fn sampler_group_entry<'a>(binding: u32, sampler: &'a wgpu::Sampler) -> (r:
    wgpu::BindGroupEntry<'a>)
    ensures
        group_entry_binding(r) == binding,
        group_entry_kind(r) == crate::layout::BindingKind::Sampler,
        group_entry_size(r) is None,
{
    wgpu::BindGroupEntry { binding, resource: wgpu::BindingResource::Sampler(sampler) }
}

/// Relies on `wgpu::Device::create_bind_group` with exactly the given
/// entries against the given layout. A mismatch between the supplied
/// bindings and the layout's declared slots is a validation error, so
/// the entries are required to match the layout slot for slot, in
/// index and kind.
#[verifier::external_body]
pub(crate) fn create_bind_group(
    device: &wgpu::Device,
    layout: &wgpu::BindGroupLayout,
    entries: &Vec<wgpu::BindGroupEntry<'_>>,
) -> (r: wgpu::BindGroup)
    requires
        entries@.len() == layout_plan_of(*layout).len(),
        forall|i: int|
            0 <= i < entries@.len() ==> #[trigger] group_entry_binding(entries@[i])
                == layout_plan_of(*layout)[i].binding,
        forall|i: int|
            0 <= i < entries@.len() ==> #[trigger] group_entry_kind(entries@[i]) == layout_plan_of(
                *layout,
            )[i].kind,
{
    device.create_bind_group(
        &wgpu::BindGroupDescriptor { label: Some("material bind group"), layout, entries },
    )
}

/// Relies on `wgpu::Device::create_texture`: a two-dimensional
/// RGBA8 sRGB texture of exactly the given size (which
/// `wgpu::Texture::width` and `height` return thereafter), one mip
/// level, one sample, usable as copy destination and for binding. Zero
/// dimensions are a validation error, so they are excluded.
#[verifier::external_body]
pub(crate) fn create_texture_rgba(device: &wgpu::Device, width: u32, height: u32) -> (r: wgpu::Texture)
    requires
        width > 0,
        height > 0,
    ensures
        texture_size(r) == (width, height),
{
    device.create_texture(&wgpu::TextureDescriptor {
        label: Some("material texture"),
        size: wgpu::Extent3d { width, height, depth_or_array_layers: 1 },
        mip_level_count: 1, sample_count: 1, dimension: wgpu::TextureDimension::D2,
        format: wgpu::TextureFormat::Rgba8UnormSrgb,
        usage: wgpu::TextureUsages::COPY_DST | wgpu::TextureUsages::TEXTURE_BINDING,
        view_formats: &[],
    })
}

/// Relies on `wgpu::Queue::write_texture`: uploads the full RGBA pixel
/// array into mip level 0 of the texture. The call fails when the
/// written extent overruns the texture or the data is too short, so the
/// extent is required to be exactly the texture's own size and the data
/// to cover it, four bytes per texel at a row pitch of exactly one row.
#[verifier::external_body]
pub(crate) fn queue_write_texture(
    queue: &wgpu::Queue,
    texture: &wgpu::Texture,
    width: u32,
    height: u32,
    bytes_per_row: u32,
    data: &[u8],
)
    requires
        width > 0,
        height > 0,
        texture_size(*texture) == (width, height),
        bytes_per_row == 4 * width,
        data@.len() == 4 * width * height,
{
    queue.write_texture(
        wgpu::TexelCopyTextureInfo {
            texture, mip_level: 0,
            origin: wgpu::Origin3d::ZERO, aspect: wgpu::TextureAspect::All,
        },
        data,
        wgpu::TexelCopyBufferLayout {
            offset: 0, bytes_per_row: Some(bytes_per_row), rows_per_image: Some(height),
        },
        wgpu::Extent3d { width, height, depth_or_array_layers: 1 },
    );
}

/// Relies on `wgpu::Texture::create_view` with the default descriptor.
#[verifier::external_body]
pub(crate) fn texture_view(texture: &wgpu::Texture) -> (r: wgpu::TextureView) {
    texture.create_view(&wgpu::TextureViewDescriptor::default())
}

/// Relies on `wgpu::Device::create_sampler`: clamp-to-edge addressing on
/// all axes, linear magnification, nearest minification and mip
/// filtering, defaults otherwise.
#[verifier::external_body]
pub(crate) fn create_sampler(device: &wgpu::Device) -> (r: wgpu::Sampler) {
    device.create_sampler(&wgpu::SamplerDescriptor {
        label: Some("material sampler"),
        address_mode_u: wgpu::AddressMode::ClampToEdge,
        address_mode_v: wgpu::AddressMode::ClampToEdge,
        address_mode_w: wgpu::AddressMode::ClampToEdge,
        mag_filter: wgpu::FilterMode::Linear,
        min_filter: wgpu::FilterMode::Nearest,
        mipmap_filter: wgpu::MipmapFilterMode::Nearest,
        ..Default::default()
    })
}

/// Relies on `wgpu::Device::create_shader_module`, handing the source
/// over as WGSL text.
#[verifier::external_body]
pub(crate) fn create_shader_module(device: &wgpu::Device, source: &str) -> (r: wgpu::ShaderModule) {
    device.create_shader_module(
        wgpu::ShaderModuleDescriptor {
            label: Some("material shader"),
            source: wgpu::ShaderSource::Wgsl(source.into()),
        },
    )
}

/// Relies on the `wgpu::VertexAttribute` literal: a three-component
/// 32-bit float attribute at the given shader location and byte offset.
#[verifier::external_body]
pub(crate) fn vertex_attr_f32x3(location: u32, offset: u64) -> (r: wgpu::VertexAttribute)
    ensures
        vertex_attr_location(r) == location,
        vertex_attr_offset(r) == offset,
{
    wgpu::VertexAttribute {
        format: wgpu::VertexFormat::Float32x3,
        offset,
        shader_location: location,
    }
}

/// Relies on the `wgpu::PrimitiveState` literal: a triangle list with
/// counter-clockwise front faces, back-face culling, filled polygons.
#[verifier::external_body]
pub(crate) fn primitive_state() -> (r: wgpu::PrimitiveState) {
    wgpu::PrimitiveState {
        topology: wgpu::PrimitiveTopology::TriangleList,
        strip_index_format: None,
        front_face: wgpu::FrontFace::Ccw,
        cull_mode: Some(wgpu::Face::Back),
        unclipped_depth: false,
        polygon_mode: wgpu::PolygonMode::Fill,
        conservative: false,
    }
}

/// Relies on the `wgpu::MultisampleState` literal: a single sample, all
/// mask bits set, no alpha-to-coverage.
#[verifier::external_body]
pub(crate) fn multisample_state() -> (r: wgpu::MultisampleState) {
    wgpu::MultisampleState { count: 1, mask: u64::MAX, alpha_to_coverage_enabled: false }
}

/// Relies on the `wgpu::ColorTargetState` literal: rendering into the
/// given color format with replace-mode blending and all channels
/// written.
#[verifier::external_body]
pub(crate) fn color_target_state(format: &wgpu::TextureFormat) -> (r: wgpu::ColorTargetState) {
    wgpu::ColorTargetState {
        format: *format,
        blend: Some(wgpu::BlendState::REPLACE),
        write_mask: wgpu::ColorWrites::ALL,
    }
}

/// Relies on `wgpu::Device::create_render_pipeline`: one vertex buffer
/// of the given stride and attributes, entry points `vs_main` and
/// `fs_main`, the given color target, no depth attachment, and the
/// given primitive and multisample state. `wgpu` requires the stride to
/// be a multiple of its vertex alignment of 4.
#[verifier::external_body]
pub(crate) fn create_render_pipeline(
    device: &wgpu::Device,
    layout: &wgpu::PipelineLayout,
    module: &wgpu::ShaderModule,
    attributes: &Vec<wgpu::VertexAttribute>,
    stride: u64,
    target: wgpu::ColorTargetState,
    primitive: wgpu::PrimitiveState,
    multisample: wgpu::MultisampleState,
) -> (r: wgpu::RenderPipeline)
    requires
        stride % 4 == 0,
{
    let buffers = [Some(wgpu::VertexBufferLayout {
        array_stride: stride, step_mode: wgpu::VertexStepMode::Vertex, attributes,
    })];
    device.create_render_pipeline(&wgpu::RenderPipelineDescriptor {
        label: Some("material pipeline"), layout: Some(layout),
        vertex: wgpu::VertexState {
            module, entry_point: Some("vs_main"),
            compilation_options: Default::default(), buffers: &buffers,
        },
        fragment: Some(wgpu::FragmentState {
            module, entry_point: Some("fs_main"),
            compilation_options: Default::default(), targets: &[Some(target)],
        }),
        primitive, depth_stencil: None, multisample, multiview_mask: None, cache: None,
    })
}

/// Relies on `wgpu::RenderPass::draw_indexed`: records exactly one
/// indexed draw over the index range `first_index..end_index` and the
/// instance range `first_instance..end_instance`, and nothing else.
#[verifier::external_body]
pub(crate) fn pass_draw_indexed(
    pass: &mut wgpu::RenderPass<'static>,
    first_index: u32,
    end_index: u32,
    base_vertex: i32,
    first_instance: u32,
    end_instance: u32,
)
    ensures
        pass_draws(*final(pass)) == pass_draws(*old(pass)).push(
            (first_index, end_index, base_vertex, first_instance, end_instance),
        ),
        pass_bindings(*final(pass)) == pass_bindings(*old(pass)),
        pass_pipelines(*final(pass)) == pass_pipelines(*old(pass)),
{
    pass.draw_indexed(first_index..end_index, base_vertex, first_instance..end_instance);
}

} // verus!
