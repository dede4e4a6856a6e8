//! The graphics context: device, submission queue, presentable surface
//! and the stored surface configuration.
//!
//! The context is created once from an already negotiated device and
//! queue (the one-time asynchronous adapter/device negotiation happens
//! outside this crate) and picks the surface format itself: the first
//! sRGB-capable format the surface offers, else the first offered
//! format. `resize` only updates the stored configuration; the surface
//! is reconfigured on demand by `reconfigure`, so a frame acquired in
//! between must tolerate a transiently stale configuration.

use vstd::prelude::*;

use crate::error::{ContextError, FrameError};
use crate::ext_wgpu::{
    acquire_texture, begin_clear_pass, configure_surface, create_command_encoder, encoder_finish,
    format_is_srgb, is_srgb_format, queue_present, queue_submit, surface_alpha_mode_supported,
    surface_capabilities, surface_format_supported, surface_present_mode_supported,
    surface_texture_view,
};
use crate::material::spec_uniform_bytes;
use crate::object::Object;

verus! {

/// The index of the first sRGB-capable format at or after `i`, if any.
pub open spec fn spec_first_srgb(formats: Seq<wgpu::TextureFormat>, i: int) -> Option<int>
    decreases formats.len() - i,
{
    if i < 0 || i >= formats.len() {
        None
    } else if is_srgb_format(formats[i]) {
        Some(i)
    } else {
        spec_first_srgb(formats, i + 1)
    }
}

/// The surface format the context picks from the formats the surface
/// offers: the first sRGB-capable one, else the first offered.
pub open spec fn spec_select_format(formats: Seq<wgpu::TextureFormat>) -> wgpu::TextureFormat {
    match spec_first_srgb(formats, 0) {
        Some(i) => formats[i],
        None => formats[0],
    }
}

/// Picks the surface format: the first sRGB-capable format, else the
/// first offered one. The pick is always one of the offered formats.
pub fn select_surface_format(formats: &Vec<wgpu::TextureFormat>) -> (r: wgpu::TextureFormat)
    requires
        formats@.len() > 0,
    ensures
        r == spec_select_format(formats@),
        formats@.contains(r),
{
    let mut i: usize = 0;
    while i < formats.len()
        invariant
            0 <= i <= formats@.len(),
            formats@.len() > 0,
            spec_first_srgb(formats@, 0) == spec_first_srgb(formats@, i as int),
        decreases formats@.len() - i,
    {
        if format_is_srgb(&formats[i]) {
            return formats[i];
        }
        i = i + 1;
    }
    formats[0]
}

/// The graphics context: owns the surface, the device, the queue and
/// the stored surface configuration.
pub struct Gpu {
    surface: wgpu::Surface<'static>,
    device: wgpu::Device,
    queue: wgpu::Queue,
    format: wgpu::TextureFormat,
    present_mode: wgpu::PresentMode,
    alpha_mode: wgpu::CompositeAlphaMode,
    width: u32,
    height: u32,
}

impl Gpu {
    /// The stored configuration width.
    pub closed spec fn width_spec(&self) -> u32 {
        self.width
    }

    /// The stored configuration height.
    pub closed spec fn height_spec(&self) -> u32 {
        self.height
    }

    /// The chosen surface format.
    pub closed spec fn format_spec(&self) -> wgpu::TextureFormat {
        self.format
    }

    /// The chosen present mode.
    pub closed spec fn present_mode_spec(&self) -> wgpu::PresentMode {
        self.present_mode
    }

    /// The chosen alpha mode.
    pub closed spec fn alpha_mode_spec(&self) -> wgpu::CompositeAlphaMode {
        self.alpha_mode
    }

    /// The owned device.
    pub closed spec fn device_spec(&self) -> wgpu::Device {
        self.device
    }

    /// The owned queue.
    pub closed spec fn queue_spec(&self) -> wgpu::Queue {
        self.queue
    }

    /// The owned surface.
    pub closed spec fn surface_spec(&self) -> wgpu::Surface<'static> {
        self.surface
    }

    /// A context always holds a nonzero stored size (zero dimensions are
    /// undefined for this layer, the windowing caller clamps to at least
    /// one) and a format, present mode and alpha mode its surface
    /// supports, so the stored configuration can always be applied.
    pub closed spec fn wf(&self) -> bool {
        &&& self.width > 0
        &&& self.height > 0
        &&& surface_format_supported(self.surface, self.format)
        &&& surface_present_mode_supported(self.surface, self.present_mode)
        &&& surface_alpha_mode_supported(self.surface, self.alpha_mode)
    }

    /// Builds the context from an already negotiated surface, device and
    /// queue: asks the surface what it supports against the adapter the
    /// device was requested from, picks the first sRGB-capable format
    /// (else the first offered), the first present mode and the first
    /// alpha mode, and configures the surface at the given size. Fails
    /// with `DeviceUnavailable` exactly when the surface reports no
    /// compatible format, present mode or alpha mode — fatal, as no
    /// compatible device/surface pair exists.
    pub fn new(
        surface: wgpu::Surface<'static>,
        device: wgpu::Device,
        queue: wgpu::Queue,
        adapter: &wgpu::Adapter,
        width: u32,
        height: u32,
    ) -> (r: Result<Gpu, ContextError>)
        requires
            width > 0,
            height > 0,
        ensures
            match r {
                Ok(g) => g.wf() && g.width_spec() == width && g.height_spec() == height
                    && g.surface_spec() == surface && g.device_spec() == device && g.queue_spec()
                    == queue,
                Err(e) => e == ContextError::DeviceUnavailable,
            },
    {
        let (formats, present_modes, alpha_modes) = surface_capabilities(&surface, adapter);
        if formats.len() == 0 || present_modes.len() == 0 || alpha_modes.len() == 0 {
            return Err(ContextError::DeviceUnavailable);
        }
        let format = select_surface_format(&formats);
        let present_mode = present_modes[0];
        let alpha_mode = alpha_modes[0];
        proof {
            let j = choose|j: int| 0 <= j < formats@.len() && formats@[j] == format;
            assert(surface_format_supported(surface, formats@[j]));
        }
        configure_surface(&surface, &device, &format, &present_mode, &alpha_mode, width, height);
        Ok(Gpu { surface, device, queue, format, present_mode, alpha_mode, width, height })
    }

    /// The owned device.
    pub fn device(&self) -> (r: &wgpu::Device)
        ensures
            *r == self.device_spec(),
    {
        &self.device
    }

    /// The owned queue.
    pub fn queue(&self) -> (r: &wgpu::Queue)
        ensures
            *r == self.queue_spec(),
    {
        &self.queue
    }

    /// The stored configuration width.
    pub fn width(&self) -> (r: u32)
        ensures
            r == self.width_spec(),
    {
        self.width
    }

    /// The stored configuration height.
    pub fn height(&self) -> (r: u32)
        ensures
            r == self.height_spec(),
    {
        self.height
    }

    /// The chosen surface format.
    pub fn surface_format(&self) -> (r: wgpu::TextureFormat)
        ensures
            r == self.format_spec(),
    {
        self.format
    }

    /// Updates the stored configuration size and nothing else: no buffer,
    /// pipeline or other resource is touched, and the surface itself is
    /// not reconfigured until `reconfigure` or the next frame demands it.
    pub fn resize(&mut self, width: u32, height: u32)
        requires
            old(self).wf(),
            width > 0,
            height > 0,
        ensures
            final(self).wf(),
            final(self).width_spec() == width,
            final(self).height_spec() == height,
            final(self).format_spec() == old(self).format_spec(),
            final(self).present_mode_spec() == old(self).present_mode_spec(),
            final(self).alpha_mode_spec() == old(self).alpha_mode_spec(),
            final(self).device_spec() == old(self).device_spec(),
            final(self).queue_spec() == old(self).queue_spec(),
            final(self).surface_spec() == old(self).surface_spec(),
    {
        self.width = width;
        self.height = height;
    }

    /// Draws one frame: acquires the next presentable texture, begins
    /// one render pass clearing it to `clear`, records every object in
    /// list order (draw order is list order; nothing is sorted), then
    /// submits the recorded commands and presents the frame.
    ///
    /// If acquisition fails the frame is skipped and the acquisition
    /// error is reported as a value, with no retry inside: the call
    /// returns before any encoder or pass exists, so nothing is
    /// recorded, submitted or presented, the objects are left untouched
    /// (stated below), and the stored configuration — behind `&self` —
    /// cannot change. The caller decides whether to reconfigure and
    /// retry on the next frame.
    pub fn render(
        &self,
        objects: &mut Vec<Object>,
        time_bits: u32,
        clear: &wgpu::Color,
    ) -> (r: Result<(), FrameError>)
        requires
            self.wf(),
            forall|i: int| 0 <= i < old(objects)@.len() ==> (#[trigger] old(objects)@[i]).wf(),
        ensures
            final(objects)@.len() == old(objects)@.len(),
            forall|i: int|
                0 <= i < final(objects)@.len() ==> (#[trigger] final(objects)@[i]).wf()
                    && final(objects)@[i].model_spec() == old(objects)@[i].model_spec()
                    && final(objects)@[i].projection_spec() == old(objects)@[i].projection_spec()
                    && final(objects)@[i].view_spec() == old(objects)@[i].view_spec(),
            r is Err ==> final(objects)@ == old(objects)@,
            r is Ok ==> forall|i: int, j: int|
                0 <= i < final(objects)@.len() && 0 <= j < final(objects)@[i].parts_len_spec()
                    ==> #[trigger] final(objects)@[i].part_material_transform(j)
                    == old(objects)@[i].composed_transform(),
            r is Ok ==> forall|i: int, j: int|
                0 <= i < final(objects)@.len() && 0 <= j < final(objects)@[i].parts_len_spec()
                    ==> #[trigger] final(objects)@[i].part_uploaded(j)
                    == spec_uniform_bytes(old(objects)@[i].composed_transform(), time_bits),
    {
        let frame = match acquire_texture(&self.surface) {
            Ok(f) => f,
            Err(e) => {
                return Err(e);
            },
        };
        let view = surface_texture_view(&frame);
        let mut encoder = create_command_encoder(&self.device);
        {
            let mut pass = begin_clear_pass(&mut encoder, &view, clear);
            let mut i: usize = 0;
            while i < objects.len()
                invariant
                    0 <= i <= objects@.len(),
                    objects@.len() == old(objects)@.len(),
                    forall|k: int|
                        0 <= k < objects@.len() ==> (#[trigger] objects@[k]).wf()
                            && objects@[k].model_spec() == old(objects)@[k].model_spec()
                            && objects@[k].projection_spec() == old(objects)@[k].projection_spec()
                            && objects@[k].view_spec() == old(objects)@[k].view_spec(),
                    forall|k: int, j: int|
                        0 <= k < i && 0 <= j < objects@[k].parts_len_spec()
                            ==> #[trigger] objects@[k].part_material_transform(j)
                            == old(objects)@[k].composed_transform(),
                    forall|k: int, j: int|
                        0 <= k < i && 0 <= j < objects@[k].parts_len_spec()
                            ==> #[trigger] objects@[k].part_uploaded(j)
                            == spec_uniform_bytes(old(objects)@[k].composed_transform(), time_bits),
                decreases objects@.len() - i,
            {
                let obj = &mut objects[i];
                obj.set_render_pass(&mut pass, &self.queue, time_bits);
                i = i + 1;
            }
        }
        let commands = encoder_finish(encoder);
        queue_submit(&self.queue, commands);
        queue_present(&self.queue, frame);
        Ok(())
    }

    /// Applies the stored configuration to the surface, as the caller
    /// does after a resize or after a lost or outdated frame.
    pub fn reconfigure(&self)
        requires
            self.wf(),
    {
        configure_surface(
            &self.surface,
            &self.device,
            &self.format,
            &self.present_mode,
            &self.alpha_mode,
            self.width,
            self.height,
        );
    }
}

} // verus!
