//! A mesh: one drawable's vertex and index buffers.
//!
//! The vertex buffer is sized to exactly the serialized vertex array
//! and the index buffer to exactly the serialized index array; both are
//! uploaded in full at construction and never touched again. The index
//! width — 16-bit or 32-bit — is chosen at construction. Drawing binds
//! the vertex buffer at slot 0 and the index buffer with the matching
//! index format — the width the draw call declares — and issues exactly
//! one indexed draw over the full index range with instance count 1.

use vstd::prelude::*;

use crate::data::{
    indices32_to_bytes, indices_to_bytes, vertices_to_bytes, Vertex, INDEX32_SIZE, INDEX_SIZE,
    VERTEX_SIZE,
};
use crate::ext_wgpu::{
    buffer_size, create_index_buffer, create_vertex_buffer, pass_bindings, pass_draw_indexed,
    pass_draws, pass_pipelines, pass_set_index_buffer_u16, pass_set_index_buffer_u32,
    pass_set_vertex_buffer, queue_write_buffer,
};
use crate::gpu::Gpu;

verus! {

/// The parameters of one indexed draw call.
#[derive(Clone, Copy, Debug, PartialEq, Eq, Structural)]
pub struct DrawCmd {
    /// How many indices the draw consumes.
    pub index_count: u32,
    /// The first index within the bound index buffer.
    pub first_index: u32,
    /// The value added to each index before vertex lookup.
    pub base_vertex: i32,
    /// How many instances are drawn.
    pub instance_count: u32,
}

/// The one draw call a mesh records: the full index range from the
/// start, one instance.
pub open spec fn spec_draw_command(index_count: u32) -> DrawCmd {
    DrawCmd { index_count, first_index: 0, base_vertex: 0, instance_count: 1 }
}

/// The draw call for an index array: all of it, from index 0, one
/// instance.
pub fn draw_command_for(indices: &Vec<u16>) -> (r: DrawCmd)
    requires
        indices@.len() <= u32::MAX,
    ensures
        r == spec_draw_command(indices@.len() as u32),
        r.index_count == indices@.len(),
        r.first_index == 0,
        r.base_vertex == 0,
        r.instance_count == 1,
{
    DrawCmd {
        index_count: indices.len() as u32,
        first_index: 0,
        base_vertex: 0,
        instance_count: 1,
    }
}

/// The draw call for a 32-bit index array: all of it, from index 0,
/// one instance.
pub fn draw_command_for_u32(indices: &Vec<u32>) -> (r: DrawCmd)
    requires
        indices@.len() <= u32::MAX,
    ensures
        r == spec_draw_command(indices@.len() as u32),
        r.index_count == indices@.len(),
        r.first_index == 0,
        r.base_vertex == 0,
        r.instance_count == 1,
{
    DrawCmd {
        index_count: indices.len() as u32,
        first_index: 0,
        base_vertex: 0,
        instance_count: 1,
    }
}

/// One vertex of the debug pyramid: a position, texture coordinate
/// (1.0, 1.0), every other attribute zero. All values are IEEE-754 bit
/// patterns.
pub open spec fn spec_debug_vertex(pos: [u32; 3]) -> Vertex {
    Vertex {
        pos,
        tangent: [0u32, 0u32, 0u32],
        bitangent: [0u32, 0u32, 0u32],
        normal: [0u32, 0u32, 0u32],
        uv: [0x3F800000u32, 0x3F800000u32],
    }
}

/// The debug pyramid's five vertices: a square base of side 1.0
/// (coordinates 0.5 = 0x3F000000 and -0.5 = 0xBF000000) at depth
/// -0.3 (0xBE99999A), and an apex at depth 0.5 over the base's center.
pub open spec fn spec_debug_vertices() -> Seq<Vertex> {
    seq![
        spec_debug_vertex([0xBF000000u32, 0xBF000000u32, 0xBE99999Au32]),
        spec_debug_vertex([0x3F000000u32, 0xBF000000u32, 0xBE99999Au32]),
        spec_debug_vertex([0x3F000000u32, 0x3F000000u32, 0xBE99999Au32]),
        spec_debug_vertex([0xBF000000u32, 0x3F000000u32, 0xBE99999Au32]),
        spec_debug_vertex([0u32, 0u32, 0x3F000000u32]),
    ]
}

/// The debug pyramid's eighteen indices: two triangles for the base,
/// one per side.
pub open spec fn spec_debug_indices() -> Seq<u16> {
    seq![0u16, 1u16, 2u16, 0u16, 2u16, 3u16, 4u16, 1u16, 0u16, 4u16, 2u16, 1u16, 4u16, 3u16, 2u16, 4u16, 0u16, 3u16]
}

/// A mesh's index array, at the width the mesh chose.
enum IndexData {
    U16(Vec<u16>),
    U32(Vec<u32>),
}

/// One drawable's GPU-resident geometry.
pub struct Mesh {
    vertices: Vec<Vertex>,
    indices: IndexData,
    vertex_buffer: wgpu::Buffer,
    index_buffer: wgpu::Buffer,
}

impl Mesh {
    /// The vertices the mesh was built from.
    pub closed spec fn vertices_spec(&self) -> Seq<Vertex> {
        self.vertices@
    }

    /// The indices the mesh was built from, widened to 32 bits.
    pub closed spec fn indices_spec(&self) -> Seq<u32> {
        match self.indices {
            IndexData::U16(v) => v@.map_values(|x: u16| x as u32),
            IndexData::U32(v) => v@,
        }
    }

    /// How many indices the mesh draws.
    pub closed spec fn index_count(&self) -> nat {
        match self.indices {
            IndexData::U16(v) => v@.len(),
            IndexData::U32(v) => v@.len(),
        }
    }

    /// The size of one index in bytes: the width the mesh chose, which
    /// the draw call's index format matches.
    pub closed spec fn index_width(&self) -> u64 {
        match self.indices {
            IndexData::U16(v) => INDEX_SIZE,
            IndexData::U32(v) => INDEX32_SIZE,
        }
    }

    /// The size the vertex buffer was created with.
    pub closed spec fn vertex_buffer_size(&self) -> u64 {
        buffer_size(self.vertex_buffer)
    }

    /// The size the index buffer was created with.
    pub closed spec fn index_buffer_size(&self) -> u64 {
        buffer_size(self.index_buffer)
    }

    /// A mesh's buffers are sized to exactly its arrays, its index count
    /// fits the draw call's 32-bit count, and a 16-bit mesh holds an
    /// even index count (its one exact-size upload must meet the GPU's
    /// copy alignment of 4 bytes).
    pub open spec fn wf(&self) -> bool {
        &&& self.vertex_buffer_size() == VERTEX_SIZE * self.vertices_spec().len()
        &&& self.index_buffer_size() == self.index_width() * self.index_count()
        &&& self.indices_spec().len() == self.index_count()
        &&& self.index_count() <= u32::MAX
        &&& self.index_width() == INDEX_SIZE ==> self.index_count() % 2 == 0
    }

    /// Builds a 16-bit-index mesh: allocates a vertex buffer of exactly
    /// `VERTEX_SIZE * |vertices|` bytes and an index buffer of exactly
    /// `INDEX_SIZE * |indices|` bytes, and uploads both arrays in full.
    ///
    /// The index count must be even: the index buffer is written in one
    /// copy, and the GPU's copy size must be a multiple of its copy
    /// alignment of 4 bytes, which an odd number of 16-bit indices
    /// cannot meet. A mesh of an odd index count (such as one triangle)
    /// chooses the 32-bit width, [`Mesh::new_u32`].
    pub fn new(gpu: &Gpu, vertices: Vec<Vertex>, indices: Vec<u16>) -> (r: Mesh)
        requires
            VERTEX_SIZE * vertices@.len() <= u64::MAX,
            INDEX_SIZE * indices@.len() <= u64::MAX,
            indices@.len() <= u32::MAX,
            indices@.len() % 2 == 0,
        ensures
            r.wf(),
            r.vertices_spec() == vertices@,
            r.indices_spec() == indices@.map_values(|x: u16| x as u32),
            r.index_count() == indices@.len(),
            r.index_width() == INDEX_SIZE,
            r.vertex_buffer_size() == VERTEX_SIZE * vertices@.len(),
            r.index_buffer_size() == INDEX_SIZE * indices@.len(),
    {
        let vertex_bytes = vertices_to_bytes(&vertices);
        let vertex_buffer = create_vertex_buffer(gpu.device(), (vertex_bytes.len() as u64));
        proof {
            assert(VERTEX_SIZE * vertices@.len() % 4 == 0) by (nonlinear_arith);
        }
        queue_write_buffer(gpu.queue(), &vertex_buffer, 0, vertex_bytes.as_slice());

        let index_bytes = indices_to_bytes(&indices);
        let index_buffer = create_index_buffer(gpu.device(), (index_bytes.len() as u64));
        proof {
            assert(INDEX_SIZE * indices@.len() % 4 == 0) by (nonlinear_arith)
                requires
                    indices@.len() % 2 == 0,
            ;
        }
        queue_write_buffer(gpu.queue(), &index_buffer, 0, index_bytes.as_slice());

        Mesh { vertices, indices: IndexData::U16(indices), vertex_buffer, index_buffer }
    }

    /// Builds a 32-bit-index mesh: buffers of exactly
    /// `VERTEX_SIZE * |vertices|` and `INDEX32_SIZE * |indices|` bytes,
    /// both uploaded in full. Every index count is accepted: 32-bit
    /// indices meet the GPU's copy alignment at any count.
    pub fn new_u32(gpu: &Gpu, vertices: Vec<Vertex>, indices: Vec<u32>) -> (r: Mesh)
        requires
            VERTEX_SIZE * vertices@.len() <= u64::MAX,
            INDEX32_SIZE * indices@.len() <= u64::MAX,
            indices@.len() <= u32::MAX,
        ensures
            r.wf(),
            r.vertices_spec() == vertices@,
            r.indices_spec() == indices@,
            r.index_count() == indices@.len(),
            r.index_width() == INDEX32_SIZE,
            r.vertex_buffer_size() == VERTEX_SIZE * vertices@.len(),
            r.index_buffer_size() == INDEX32_SIZE * indices@.len(),
    {
        let vertex_bytes = vertices_to_bytes(&vertices);
        let vertex_buffer = create_vertex_buffer(gpu.device(), (vertex_bytes.len() as u64));
        proof {
            assert(VERTEX_SIZE * vertices@.len() % 4 == 0) by (nonlinear_arith);
        }
        queue_write_buffer(gpu.queue(), &vertex_buffer, 0, vertex_bytes.as_slice());

        let index_bytes = indices32_to_bytes(&indices);
        let index_buffer = create_index_buffer(gpu.device(), (index_bytes.len() as u64));
        proof {
            assert(INDEX32_SIZE * indices@.len() % 4 == 0) by (nonlinear_arith);
        }
        queue_write_buffer(gpu.queue(), &index_buffer, 0, index_bytes.as_slice());

        Mesh { vertices, indices: IndexData::U32(indices), vertex_buffer, index_buffer }
    }

    /// A fixed five-vertex, eighteen-index debug pyramid, exactly
    /// [`spec_debug_vertices`] and [`spec_debug_indices`] (at the 16-bit
    /// width).
    pub fn new_debug(gpu: &Gpu) -> (r: Mesh)
        ensures
            r.wf(),
            r.vertices_spec() == spec_debug_vertices(),
            r.indices_spec() == spec_debug_indices().map_values(|x: u16| x as u32),
            r.index_width() == INDEX_SIZE,
            r.vertices_spec().len() == 5,
            r.index_count() == 18,
    {
        // Bit patterns of the coordinates used: 0.5, -0.5, -0.3, 0.0, 1.0.
        let half: u32 = 0x3F000000;
        let neg_half: u32 = 0xBF000000;
        let neg_point_three: u32 = 0xBE99999A;
        let zero: u32 = 0;
        let one: u32 = 0x3F800000;
        let mut vertices: Vec<Vertex> = Vec::new();
        let mut v = Vertex::zeroed();
        v.uv = [one, one];
        v.pos = [neg_half, neg_half, neg_point_three];
        vertices.push(v);
        v.pos = [half, neg_half, neg_point_three];
        vertices.push(v);
        v.pos = [half, half, neg_point_three];
        vertices.push(v);
        v.pos = [neg_half, half, neg_point_three];
        vertices.push(v);
        v.pos = [zero, zero, half];
        vertices.push(v);
        let mut indices: Vec<u16> = Vec::new();
        // Base.
        indices.push(0);
        indices.push(1);
        indices.push(2);
        indices.push(0);
        indices.push(2);
        indices.push(3);
        // Sides.
        indices.push(4);
        indices.push(1);
        indices.push(0);
        indices.push(4);
        indices.push(2);
        indices.push(1);
        indices.push(4);
        indices.push(3);
        indices.push(2);
        indices.push(4);
        indices.push(0);
        indices.push(3);
        proof {
            assert(vertices@ =~= spec_debug_vertices());
            assert(indices@ =~= spec_debug_indices());
        }
        Mesh::new(gpu, vertices, indices)
    }

    /// The draw call this mesh records: its full index range, one
    /// instance.
    pub fn draw_command(&self) -> (r: DrawCmd)
        requires
            self.wf(),
        ensures
            r == spec_draw_command(self.index_count() as u32),
    {
        match &self.indices {
            IndexData::U16(v) => draw_command_for(v),
            IndexData::U32(v) => draw_command_for_u32(v),
        }
    }

    /// Records this mesh into a render pass: binds the vertex buffer at
    /// slot 0 and the index buffer with the mesh's own index format,
    /// then issues exactly one indexed draw over the full index range,
    /// instance count 1 — the pass records exactly one more draw, with
    /// exactly those parameters, and no bind-group or pipeline command.
    pub fn set_render_pass(&self, pass: &mut wgpu::RenderPass<'static>)
        requires
            self.wf(),
        ensures
            pass_draws(*final(pass)) == pass_draws(*old(pass)).push(
                (0u32, self.index_count() as u32, 0i32, 0u32, 1u32),
            ),
            pass_bindings(*final(pass)) == pass_bindings(*old(pass)),
            pass_pipelines(*final(pass)) == pass_pipelines(*old(pass)),
    {
        pass_set_vertex_buffer(pass, 0, &self.vertex_buffer);
        match &self.indices {
            IndexData::U16(_) => pass_set_index_buffer_u16(pass, &self.index_buffer),
            IndexData::U32(_) => pass_set_index_buffer_u32(pass, &self.index_buffer),
        }
        let cmd = self.draw_command();
        pass_draw_indexed(
            pass,
            cmd.first_index,
            cmd.index_count,
            cmd.base_vertex,
            0,
            cmd.instance_count,
        );
    }
}

} // verus!
