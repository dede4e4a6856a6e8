use render_core::layout::{
    padded_size, simple_material_plan, simple_vertex_attrs, BindingKind, UNIFORM_ALIGN,
    UNIFORM_LOGICAL_SIZE, UNIFORM_SIZE,
};

#[test]
fn uniform_block_of_68_bytes_pads_to_80() {
    // A 4x4 matrix (64 bytes) plus a 4-byte time value is 68 logical
    // bytes; at 16-byte alignment the allocated and bound size is 80.
    assert_eq!(UNIFORM_LOGICAL_SIZE, 68);
    assert_eq!(UNIFORM_ALIGN, 16);
    assert_eq!(padded_size(UNIFORM_LOGICAL_SIZE, UNIFORM_ALIGN), 80);
    assert_eq!(UNIFORM_SIZE, 80);
}

#[test]
fn padded_size_rounds_up_to_the_alignment() {
    assert_eq!(padded_size(0, 16), 0);
    assert_eq!(padded_size(1, 16), 16);
    assert_eq!(padded_size(16, 16), 16);
    assert_eq!(padded_size(17, 16), 32);
    assert_eq!(padded_size(64, 16), 64);
    assert_eq!(padded_size(80, 16), 80);
    assert_eq!(padded_size(5, 4), 8);
}

#[test]
fn binding_plan_is_uniform_then_texture_then_sampler() {
    let plan = simple_material_plan();
    assert_eq!(plan.len(), 3);
    for (i, slot) in plan.iter().enumerate() {
        assert_eq!(slot.binding, i as u32);
    }
    assert_eq!(plan[0].kind, BindingKind::UniformBuffer);
    assert_eq!(plan[1].kind, BindingKind::Texture);
    assert_eq!(plan[2].kind, BindingKind::Sampler);
}

#[test]
fn vertex_attrs_declare_position_and_tangent_offsets() {
    let attrs = simple_vertex_attrs();
    assert_eq!(attrs.len(), 2);
    assert_eq!(attrs[0].location, 0);
    assert_eq!(attrs[0].offset, 0);
    assert_eq!(attrs[1].location, 1);
    assert_eq!(attrs[1].offset, 12);
}
