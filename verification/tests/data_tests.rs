use render_core::data::{indices32_to_bytes, indices_to_bytes, vertices_to_bytes, Vertex};

#[test]
fn indices32_serialize_little_endian() {
    let bytes = indices32_to_bytes(&vec![0x01020304u32, 5]);
    assert_eq!(bytes, vec![0x04, 0x03, 0x02, 0x01, 5, 0, 0, 0]);
    // Three 32-bit indices are 12 bytes: aligned at any count.
    assert_eq!(indices32_to_bytes(&vec![0u32, 1, 2]).len(), 12);
}

#[test]
fn vertex_serializes_to_56_little_endian_bytes() {
    let mut v = Vertex::zeroed();
    v.pos = [0x3F800000, 0xBF000000, 0x00000001];
    v.uv = [0xAABBCCDD, 0x11223344];
    let bytes = vertices_to_bytes(&vec![v]);
    assert_eq!(bytes.len(), 56);
    // Position at offset 0, little-endian per component.
    assert_eq!(&bytes[0..4], &[0x00, 0x00, 0x80, 0x3F]);
    assert_eq!(&bytes[4..8], &[0x00, 0x00, 0x00, 0xBF]);
    assert_eq!(&bytes[8..12], &[0x01, 0x00, 0x00, 0x00]);
    // Tangent, bitangent and normal were left zero.
    assert!(bytes[12..48].iter().all(|&b| b == 0));
    // Texture coordinate at offset 48.
    assert_eq!(&bytes[48..52], &[0xDD, 0xCC, 0xBB, 0xAA]);
    assert_eq!(&bytes[52..56], &[0x44, 0x33, 0x22, 0x11]);
}

#[test]
fn vertices_serialize_in_order_at_fixed_stride() {
    let mut a = Vertex::zeroed();
    a.pos = [1, 2, 3];
    let mut b = Vertex::zeroed();
    b.pos = [4, 5, 6];
    let bytes = vertices_to_bytes(&vec![a, b]);
    assert_eq!(bytes.len(), 112);
    assert_eq!(bytes[0], 1);
    assert_eq!(bytes[56], 4);
    assert_eq!(bytes[60], 5);
}

#[test]
fn indices_serialize_little_endian() {
    let bytes = indices_to_bytes(&vec![0x0102u16, 0xA0B0u16]);
    assert_eq!(bytes, vec![0x02, 0x01, 0xB0, 0xA0]);
}

#[test]
fn empty_arrays_serialize_to_nothing() {
    assert_eq!(vertices_to_bytes(&Vec::new()).len(), 0);
    assert_eq!(indices_to_bytes(&Vec::new()).len(), 0);
}
