//! Sizing and binding-layout rules shared by all material variants.
//!
//! A uniform block must be allocated at a size rounded up to the GPU's
//! minimum uniform alignment, and the size bound at the binding slot
//! must equal that rounded size exactly. A material's bind-group layout
//! and its bind group must declare the same binding indices in the same
//! order: the uniform buffer at binding 0, then textures and samplers
//! in declared order.

use vstd::prelude::*;

use crate::data::{vec3_bytes, vertex_bytes, Vertex, VERTEX_SIZE};

verus! {

/// The minimum uniform-buffer alignment this crate packs for.
pub const UNIFORM_ALIGN: u64 = 16;

/// The logical (unpadded) size of the uniform block shared by the
/// material variants: one 4x4 matrix of 64 bytes and a 4-byte time
/// value.
pub const UNIFORM_LOGICAL_SIZE: u64 = 68;

/// [`UNIFORM_LOGICAL_SIZE`] rounded up to [`UNIFORM_ALIGN`]: the size
/// the uniform buffer is allocated with and the size bound at binding 0.
pub const UNIFORM_SIZE: u64 = 80;

/// `logical` rounded up to the next multiple of `align`.
pub open spec fn spec_padded_size(logical: u64, align: u64) -> int {
    if logical as int % align as int == 0 {
        logical as int
    } else {
        logical as int + align as int - logical as int % align as int
    }
}

/// Rounds a logical buffer size up to the next multiple of the
/// alignment: the smallest aligned size that is not smaller than
/// `logical`.
pub fn padded_size(logical: u64, align: u64) -> (r: u64)
    requires
        align > 0,
        logical + align <= u64::MAX,
    ensures
        r == spec_padded_size(logical, align),
        r as int % align as int == 0,
        r >= logical,
        r < logical + align,
{
    let rem = logical % align;
    proof {
        let l = logical as int;
        let a = align as int;
        assert(l % a <= l) by (nonlinear_arith)
            requires
                a > 0 && l >= 0,
        ;
        if l % a != 0 {
            assert((l + a - l % a) % a == 0) by (nonlinear_arith)
                requires
                    a > 0 && l >= 0,
            ;
        }
    }
    if rem == 0 {
        logical
    } else {
        logical - rem + align
    }
}

/// The uniform block's padded size is what [`UNIFORM_SIZE`] says.
pub proof fn lemma_uniform_size_padded()
    ensures
        spec_padded_size(UNIFORM_LOGICAL_SIZE, UNIFORM_ALIGN) == UNIFORM_SIZE,
        UNIFORM_SIZE as int % UNIFORM_ALIGN as int == 0,
        UNIFORM_SIZE >= UNIFORM_LOGICAL_SIZE,
        UNIFORM_SIZE - UNIFORM_LOGICAL_SIZE < UNIFORM_ALIGN,
{
}

/// What one binding slot of a material holds.
#[derive(Clone, Copy, Debug, PartialEq, Eq, Structural)]
pub enum BindingKind {
    /// A uniform buffer, visible to the vertex stage.
    UniformBuffer,
    /// A sampled two-dimensional texture, visible to the fragment stage.
    Texture,
    /// A filtering sampler, visible to the fragment stage.
    Sampler,
}

/// One slot of a material's binding plan: the binding index declared in
/// the bind-group layout and supplied again at bind-group creation.
#[derive(Clone, Copy, Debug, PartialEq, Eq, Structural)]
pub struct BindingSlot {
    pub binding: u32,
    pub kind: BindingKind,
}

/// A well-formed binding plan: slot `i` declares binding index `i`, the
/// uniform buffer sits at binding 0, and every later slot is a texture
/// or sampler.
pub open spec fn plan_well_formed(plan: Seq<BindingSlot>) -> bool {
    &&& plan.len() > 0
    &&& forall|i: int| 0 <= i < plan.len() ==> #[trigger] plan[i].binding == i
    &&& plan[0].kind == BindingKind::UniformBuffer
    &&& forall|i: int|
        1 <= i < plan.len() ==> #[trigger] plan[i].kind == BindingKind::Texture || plan[i].kind
            == BindingKind::Sampler
}

/// The binding plan shared by the bind-group layout and the bind group
/// of the textured material: the uniform buffer at binding 0, the
/// diffuse texture at 1 and its sampler at 2.
pub open spec fn spec_simple_material_plan() -> Seq<BindingSlot> {
    seq![
        BindingSlot { binding: 0, kind: BindingKind::UniformBuffer },
        BindingSlot { binding: 1, kind: BindingKind::Texture },
        BindingSlot { binding: 2, kind: BindingKind::Sampler },
    ]
}

/// The textured material's binding plan, as a value.
pub fn simple_material_plan() -> (r: Vec<BindingSlot>)
    ensures
        r@ == spec_simple_material_plan(),
{
    let mut plan: Vec<BindingSlot> = Vec::new();
    plan.push(BindingSlot { binding: 0, kind: BindingKind::UniformBuffer });
    plan.push(BindingSlot { binding: 1, kind: BindingKind::Texture });
    plan.push(BindingSlot { binding: 2, kind: BindingKind::Sampler });
    proof {
        assert(plan@ =~= spec_simple_material_plan());
    }
    plan
}

/// One vertex attribute as the pipeline declares it: a shader location
/// and the byte offset of the attribute within one serialized vertex.
#[derive(Clone, Copy, Debug, PartialEq, Eq, Structural)]
pub struct VertexAttr {
    pub location: u32,
    pub offset: u64,
}

/// The vertex attributes the material's pipeline declares: two
/// three-component attributes, the position at shader location 0 and
/// byte offset 0, the tangent at location 1 and offset 12, over a
/// stride of one whole vertex.
pub open spec fn spec_simple_vertex_attrs() -> Seq<VertexAttr> {
    seq![VertexAttr { location: 0, offset: 0 }, VertexAttr { location: 1, offset: 12 }]
}

/// The declared vertex attributes, as a value.
pub fn simple_vertex_attrs() -> (r: Vec<VertexAttr>)
    ensures
        r@ == spec_simple_vertex_attrs(),
{
    let mut attrs: Vec<VertexAttr> = Vec::new();
    attrs.push(VertexAttr { location: 0, offset: 0 });
    attrs.push(VertexAttr { location: 1, offset: 12 });
    proof {
        assert(attrs@ =~= spec_simple_vertex_attrs());
    }
    attrs
}

/// The declared attribute offsets match the in-memory byte layout of
/// [`Vertex`]: the attribute at offset 0 reads exactly the serialized
/// position and the attribute at offset 12 exactly the serialized
/// tangent, and both lie within the declared stride of one vertex.
pub proof fn lemma_attrs_match_vertex_layout(v: Vertex)
    ensures
        vertex_bytes(v).subrange(
            spec_simple_vertex_attrs()[0].offset as int,
            spec_simple_vertex_attrs()[0].offset + 12,
        ) == vec3_bytes(v.pos),
        vertex_bytes(v).subrange(
            spec_simple_vertex_attrs()[1].offset as int,
            spec_simple_vertex_attrs()[1].offset + 12,
        ) == vec3_bytes(v.tangent),
        spec_simple_vertex_attrs()[0].offset + 12 <= VERTEX_SIZE,
        spec_simple_vertex_attrs()[1].offset + 12 <= VERTEX_SIZE,
{
    crate::data::lemma_vertex_attr_offsets(v);
}

/// The textured material's plan is well formed: binding indices are
/// exactly 0, 1, .., in order, with the uniform buffer first.
pub proof fn lemma_simple_material_plan_well_formed()
    ensures
        plan_well_formed(spec_simple_material_plan()),
{
    let plan = spec_simple_material_plan();
    assert forall|i: int| 0 <= i < plan.len() implies #[trigger] plan[i].binding == i by {
        if i == 0 {
        } else if i == 1 {
        } else {
            assert(i == 2);
        }
    }
}

} // verus!
