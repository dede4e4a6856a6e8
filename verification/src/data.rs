//! Per-vertex data and its GPU byte layout.
//!
//! A [`Vertex`] is the fixed-layout value uploaded into the vertex
//! buffer. Its attributes are 32-bit floating-point values on the GPU;
//! this crate does not model floating point, so each field holds the
//! IEEE-754 bit pattern of the attribute as a `u32`. The byte layout
//! declared to the pipeline must exactly match the in-memory order and
//! offsets of these fields; [`vertex_bytes`] is that layout, stated
//! byte for byte.

use vstd::bytes::{spec_u16_to_le_bytes, spec_u32_to_le_bytes, u16_to_le_bytes, u32_to_le_bytes};
use vstd::prelude::*;

verus! {

/// The size of one serialized vertex in bytes: fourteen 32-bit
/// attributes (position, tangent, bitangent and normal of three each,
/// and a two-component texture coordinate).
pub const VERTEX_SIZE: u64 = 56;

/// The size of one serialized 16-bit index in bytes.
pub const INDEX_SIZE: u64 = 2;

/// The size of one serialized 32-bit index in bytes.
pub const INDEX32_SIZE: u64 = 4;

/// One vertex. Each field holds the IEEE-754 bit pattern of the
/// corresponding 32-bit floating-point attribute.
#[derive(Clone, Copy, Debug, PartialEq, Default)]
pub struct Vertex {
    pub pos: [u32; 3],
    pub tangent: [u32; 3],
    pub bitangent: [u32; 3],
    pub normal: [u32; 3],
    pub uv: [u32; 2],
}

impl Vertex {
    /// A vertex with every attribute zero (the bit pattern of 0.0).
    pub fn zeroed() -> (r: Vertex)
        ensures
            r.pos == [0u32, 0u32, 0u32],
            r.tangent == [0u32, 0u32, 0u32],
            r.bitangent == [0u32, 0u32, 0u32],
            r.normal == [0u32, 0u32, 0u32],
            r.uv == [0u32, 0u32],
    {
        Vertex {
            pos: [0, 0, 0],
            tangent: [0, 0, 0],
            bitangent: [0, 0, 0],
            normal: [0, 0, 0],
            uv: [0, 0],
        }
    }
}

/// The serialized form of a three-component attribute: each component
/// little-endian, in order.
pub open spec fn vec3_bytes(a: [u32; 3]) -> Seq<u8> {
    spec_u32_to_le_bytes(a[0]) + spec_u32_to_le_bytes(a[1]) + spec_u32_to_le_bytes(a[2])
}

/// The serialized form of a two-component attribute.
pub open spec fn vec2_bytes(a: [u32; 2]) -> Seq<u8> {
    spec_u32_to_le_bytes(a[0]) + spec_u32_to_le_bytes(a[1])
}

/// The serialized form of one vertex: every attribute little-endian,
/// in field order, with no padding.
pub open spec fn vertex_bytes(v: Vertex) -> Seq<u8> {
    vec3_bytes(v.pos) + vec3_bytes(v.tangent) + vec3_bytes(v.bitangent) + vec3_bytes(v.normal)
        + vec2_bytes(v.uv)
}

/// The serialized form of a whole vertex array, in order.
pub open spec fn vertices_bytes(vs: Seq<Vertex>) -> Seq<u8>
    decreases vs.len(),
{
    if vs.len() == 0 {
        Seq::empty()
    } else {
        vertices_bytes(vs.drop_last()) + vertex_bytes(vs.last())
    }
}

/// The serialized form of an index array: each index little-endian.
pub open spec fn indices_bytes(is: Seq<u16>) -> Seq<u8>
    decreases is.len(),
{
    if is.len() == 0 {
        Seq::empty()
    } else {
        indices_bytes(is.drop_last()) + spec_u16_to_le_bytes(is.last())
    }
}

/// The serialized form of a 32-bit index array: each index
/// little-endian.
pub open spec fn indices32_bytes(is: Seq<u32>) -> Seq<u8>
    decreases is.len(),
{
    if is.len() == 0 {
        Seq::empty()
    } else {
        indices32_bytes(is.drop_last()) + spec_u32_to_le_bytes(is.last())
    }
}

/// Every serialized vertex takes exactly [`VERTEX_SIZE`] bytes.
pub proof fn lemma_vertex_bytes_len(v: Vertex)
    ensures
        vertex_bytes(v).len() == VERTEX_SIZE,
{
    vstd::bytes::lemma_auto_spec_u32_to_from_le_bytes();
}

/// Where each attribute stands within one serialized vertex: position
/// at offset 0, tangent at 12, bitangent at 24, normal at 36 and the
/// texture coordinate at 48. These are the offsets a vertex-buffer
/// layout must declare for this vertex type.
pub proof fn lemma_vertex_attr_offsets(v: Vertex)
    ensures
        vertex_bytes(v).subrange(0, 12) == vec3_bytes(v.pos),
        vertex_bytes(v).subrange(12, 24) == vec3_bytes(v.tangent),
        vertex_bytes(v).subrange(24, 36) == vec3_bytes(v.bitangent),
        vertex_bytes(v).subrange(36, 48) == vec3_bytes(v.normal),
        vertex_bytes(v).subrange(48, 56) == vec2_bytes(v.uv),
{
    vstd::bytes::lemma_auto_spec_u32_to_from_le_bytes();
    assert(vertex_bytes(v).subrange(0, 12) =~= vec3_bytes(v.pos));
    assert(vertex_bytes(v).subrange(12, 24) =~= vec3_bytes(v.tangent));
    assert(vertex_bytes(v).subrange(24, 36) =~= vec3_bytes(v.bitangent));
    assert(vertex_bytes(v).subrange(36, 48) =~= vec3_bytes(v.normal));
    assert(vertex_bytes(v).subrange(48, 56) =~= vec2_bytes(v.uv));
}

/// A serialized vertex array takes exactly [`VERTEX_SIZE`] bytes per
/// vertex.
pub proof fn lemma_vertices_bytes_len(vs: Seq<Vertex>)
    ensures
        vertices_bytes(vs).len() == VERTEX_SIZE * vs.len(),
    decreases vs.len(),
{
    if vs.len() > 0 {
        lemma_vertices_bytes_len(vs.drop_last());
        lemma_vertex_bytes_len(vs.last());
    }
}

/// A serialized index array takes exactly [`INDEX_SIZE`] bytes per
/// index.
pub proof fn lemma_indices_bytes_len(is: Seq<u16>)
    ensures
        indices_bytes(is).len() == INDEX_SIZE * is.len(),
    decreases is.len(),
{
    if is.len() > 0 {
        vstd::bytes::lemma_auto_spec_u16_to_from_le_bytes();
        lemma_indices_bytes_len(is.drop_last());
    }
}

/// A serialized 32-bit index array takes exactly [`INDEX32_SIZE`] bytes
/// per index.
pub proof fn lemma_indices32_bytes_len(is: Seq<u32>)
    ensures
        indices32_bytes(is).len() == INDEX32_SIZE * is.len(),
    decreases is.len(),
{
    if is.len() > 0 {
        vstd::bytes::lemma_auto_spec_u32_to_from_le_bytes();
        lemma_indices32_bytes_len(is.drop_last());
    }
}

fn push_u32_le(out: &mut Vec<u8>, x: u32)
    ensures
        final(out)@ == old(out)@ + spec_u32_to_le_bytes(x),
{
    let mut b = u32_to_le_bytes(x);
    out.append(&mut b);
}

fn push_vertex(out: &mut Vec<u8>, v: &Vertex)
    ensures
        final(out)@ == old(out)@ + vertex_bytes(*v),
{
    push_u32_le(out, v.pos[0]);
    push_u32_le(out, v.pos[1]);
    push_u32_le(out, v.pos[2]);
    push_u32_le(out, v.tangent[0]);
    push_u32_le(out, v.tangent[1]);
    push_u32_le(out, v.tangent[2]);
    push_u32_le(out, v.bitangent[0]);
    push_u32_le(out, v.bitangent[1]);
    push_u32_le(out, v.bitangent[2]);
    push_u32_le(out, v.normal[0]);
    push_u32_le(out, v.normal[1]);
    push_u32_le(out, v.normal[2]);
    push_u32_le(out, v.uv[0]);
    push_u32_le(out, v.uv[1]);
    proof {
        assert(out@ =~= old(out)@ + vertex_bytes(*v));
    }
}

/// Serializes a vertex array into the exact byte image that the vertex
/// buffer holds.
pub fn vertices_to_bytes(vs: &Vec<Vertex>) -> (r: Vec<u8>)
    ensures
        r@ == vertices_bytes(vs@),
        r@.len() == VERTEX_SIZE * vs@.len(),
{
    let mut out: Vec<u8> = Vec::new();
    let mut i: usize = 0;
    while i < vs.len()
        invariant
            i <= vs.len(),
            out@ == vertices_bytes(vs@.take(i as int)),
        decreases vs.len() - i,
    {
        push_vertex(&mut out, &vs[i]);
        proof {
            assert(vs@.take(i + 1 as int).drop_last() =~= vs@.take(i as int));
            assert(vs@.take(i + 1 as int).last() == vs@[i as int]);
        }
        i = i + 1;
    }
    proof {
        assert(vs@.take(vs@.len() as int) =~= vs@);
        lemma_vertices_bytes_len(vs@);
    }
    out
}

/// Serializes a 32-bit index array into the exact byte image that the
/// index buffer holds.
pub fn indices32_to_bytes(is: &Vec<u32>) -> (r: Vec<u8>)
    ensures
        r@ == indices32_bytes(is@),
        r@.len() == INDEX32_SIZE * is@.len(),
{
    let mut out: Vec<u8> = Vec::new();
    let mut i: usize = 0;
    while i < is.len()
        invariant
            i <= is.len(),
            out@ == indices32_bytes(is@.take(i as int)),
        decreases is.len() - i,
    {
        let mut b = u32_to_le_bytes(is[i]);
        out.append(&mut b);
        proof {
            assert(is@.take(i + 1 as int).drop_last() =~= is@.take(i as int));
            assert(is@.take(i + 1 as int).last() == is@[i as int]);
        }
        i = i + 1;
    }
    proof {
        assert(is@.take(is@.len() as int) =~= is@);
        lemma_indices32_bytes_len(is@);
    }
    out
}

/// Serializes an index array into the exact byte image that the index
/// buffer holds.
pub fn indices_to_bytes(is: &Vec<u16>) -> (r: Vec<u8>)
    ensures
        r@ == indices_bytes(is@),
        r@.len() == INDEX_SIZE * is@.len(),
{
    let mut out: Vec<u8> = Vec::new();
    let mut i: usize = 0;
    while i < is.len()
        invariant
            i <= is.len(),
            out@ == indices_bytes(is@.take(i as int)),
        decreases is.len() - i,
    {
        let mut b = u16_to_le_bytes(is[i]);
        out.append(&mut b);
        proof {
            assert(is@.take(i + 1 as int).drop_last() =~= is@.take(i as int));
            assert(is@.take(i + 1 as int).last() == is@[i as int]);
        }
        i = i + 1;
    }
    proof {
        assert(is@.take(is@.len() as int) =~= is@);
        lemma_indices_bytes_len(is@);
    }
    out
}

} // verus!
