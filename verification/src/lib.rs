//! A minimal real-time rendering core built on `wgpu`.
//!
//! The crate manages a graphics device and presentable surface, uploads
//! mesh and material data into GPU buffers, composes scene objects from
//! transforms, meshes and materials, and drives a per-frame draw loop.
//! The resource-sizing, bind-group layout, transform-composition and
//! frame-orchestration logic is verified; calls into the graphics,
//! linear-algebra and image-decoding crates stand behind small trusted
//! wrappers whose contracts state what those crates document.

pub mod data;
pub mod error;
pub mod ext_glam;
pub mod ext_image;
pub mod ext_wgpu;
pub mod gpu;
pub mod layout;
pub mod material;
pub mod mesh;
pub mod object;
pub mod renderer;
pub mod xform;
