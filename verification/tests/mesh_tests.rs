use render_core::mesh::{draw_command_for, draw_command_for_u32, DrawCmd};

#[test]
fn three_index_mesh_draws_once_with_count_three() {
    // A mesh of indices [0, 1, 2] issues exactly one indexed draw:
    // indexCount = 3, firstIndex = 0, instanceCount = 1. An odd count
    // takes the 32-bit index width, which accepts any count.
    let cmd = draw_command_for_u32(&vec![0u32, 1, 2]);
    assert_eq!(
        cmd,
        DrawCmd { index_count: 3, first_index: 0, base_vertex: 0, instance_count: 1 },
    );
    let cmd16 = draw_command_for(&vec![0u16, 1, 2]);
    assert_eq!(cmd16, cmd);
}

#[test]
fn draw_covers_the_full_index_range() {
    let indices: Vec<u16> = (0..18).collect();
    let cmd = draw_command_for(&indices);
    assert_eq!(cmd.index_count, 18);
    assert_eq!(cmd.first_index, 0);
    assert_eq!(cmd.instance_count, 1);
}

#[test]
fn empty_mesh_draws_zero_indices() {
    let cmd = draw_command_for(&Vec::new());
    assert_eq!(cmd.index_count, 0);
    assert_eq!(cmd.instance_count, 1);
}
