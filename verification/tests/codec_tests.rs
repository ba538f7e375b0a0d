//! Tests of the byte codecs: the matrix payload round trip and the
//! packed vertex and index buffers.

use render_core::codec::{matrix_from_bytes, matrix_to_bytes, shorts_to_bytes, words_to_bytes};
use render_core::geometry::{
    check_indices, color_vertices_to_bytes, create_vertices, indexed_triangle_mesh,
    tex_vertices_to_bytes, triangle_vertices, two_triangle_vertices, GeometryStore,
};
use render_core::scalar::{HALF_BITS, NEG_HALF_BITS, ONE_BITS, ZERO_BITS};

#[test]
fn words_serialize_little_endian() {
    let bytes = words_to_bytes(&vec![0x0403_0201, 0xDDCC_BBAA]);
    assert_eq!(bytes, vec![1, 2, 3, 4, 0xAA, 0xBB, 0xCC, 0xDD]);
}

#[test]
fn shorts_serialize_little_endian() {
    let bytes = shorts_to_bytes(&vec![0x0201u16, 0xFFEEu16]);
    assert_eq!(bytes, vec![1, 2, 0xEE, 0xFF]);
}

#[test]
fn matrix_round_trips_bit_for_bit() {
    // all kinds of awkward patterns: zeros, a negative zero, NaNs,
    // infinities, denormals
    let m: [u32; 16] = [
        0x0000_0000,
        0x8000_0000,
        0x7FC0_0001,
        0xFF80_0000,
        0x7F80_0000,
        0x0000_0001,
        0x8000_0001,
        0x3F80_0000,
        0xBF80_0000,
        0x3DCC_CCCD,
        0x42C8_0000,
        0xDEAD_BEEF,
        0x0BAD_F00D,
        0xFFFF_FFFF,
        0x1234_5678,
        0x9ABC_DEF0,
    ];
    let bytes = matrix_to_bytes(&m);
    assert_eq!(bytes.len(), 64);
    let back = matrix_from_bytes(&bytes).expect("64 bytes must parse");
    assert_eq!(back, m);
}

#[test]
fn matrix_parser_rejects_other_lengths() {
    assert!(matrix_from_bytes(&[0u8; 63]).is_none());
    assert!(matrix_from_bytes(&[0u8; 65]).is_none());
    assert!(matrix_from_bytes(&[]).is_none());
}

#[test]
fn serialized_matrix_matches_the_float_payload() {
    // re-interpreting the 64-byte payload as 16 floats reproduces the
    // matrix exactly, as the uniform upload relies on
    let m: [u32; 16] = core::array::from_fn(|i| (0.25_f32 * i as f32).to_bits());
    let bytes = matrix_to_bytes(&m);
    for i in 0..16 {
        let mut word = [0u8; 4];
        word.copy_from_slice(&bytes[4 * i..4 * i + 4]);
        assert_eq!(f32::from_le_bytes(word), 0.25 * i as f32);
    }
}

#[test]
fn triangle_vertices_hold_the_specified_corners() {
    let vs = triangle_vertices();
    assert_eq!(vs.len(), 3);
    let pos: Vec<[f32; 3]> = vs
        .iter()
        .map(|v| v.pos.map(f32::from_bits))
        .collect();
    assert_eq!(pos[0], [0.0, 0.5, 0.0]);
    assert_eq!(pos[1], [-0.5, -0.5, 0.0]);
    assert_eq!(pos[2], [0.5, -0.5, 0.0]);
    let colors: Vec<[f32; 3]> = vs
        .iter()
        .map(|v| v.color.map(f32::from_bits))
        .collect();
    assert_eq!(colors[0], [1.0, 0.0, 0.0]);
    assert_eq!(colors[1], [0.0, 1.0, 0.0]);
    assert_eq!(colors[2], [0.0, 0.0, 1.0]);
}

#[test]
fn color_vertices_pack_to_their_stride() {
    let vs = triangle_vertices();
    let bytes = color_vertices_to_bytes(&vs);
    assert_eq!(bytes.len(), 3 * 24);
    // the first vertex starts with its position: 0.0, 0.5, 0.0
    assert_eq!(&bytes[0..4], &0.0_f32.to_le_bytes());
    assert_eq!(&bytes[4..8], &0.5_f32.to_le_bytes());
    // its color starts at offset 12, as the layout declares
    assert_eq!(&bytes[12..16], &1.0_f32.to_le_bytes());
    // the second vertex starts one stride in
    assert_eq!(&bytes[24..28], &(-0.5_f32).to_le_bytes());
}

#[test]
fn tex_vertices_pack_to_their_stride() {
    let (vs, is) = create_vertices();
    assert_eq!(vs.len(), 4);
    assert_eq!(is, vec![0, 1, 3, 1, 2, 3]);
    let bytes = tex_vertices_to_bytes(&vs);
    assert_eq!(bytes.len(), 4 * 20);
    // texture coordinates start at offset 12 of each 20-byte vertex
    assert_eq!(&bytes[12..16], &0.0_f32.to_le_bytes());
    assert_eq!(&bytes[16..20], &1.0_f32.to_le_bytes());
    assert_eq!(&bytes[20..24], &0.5_f32.to_le_bytes());
}

#[test]
fn quad_corners_are_the_specified_ones() {
    let (vs, _) = create_vertices();
    assert_eq!(vs[0].pos, [NEG_HALF_BITS, NEG_HALF_BITS, ZERO_BITS]);
    assert_eq!(vs[0].tex_coord, [ZERO_BITS, ONE_BITS]);
    assert_eq!(vs[2].pos, [HALF_BITS, HALF_BITS, ZERO_BITS]);
    assert_eq!(vs[2].tex_coord, [ONE_BITS, ZERO_BITS]);
}

#[test]
fn indexed_triangle_mesh_is_in_order() {
    let (vs, is) = indexed_triangle_mesh();
    assert_eq!(vs.len(), 3);
    assert_eq!(is, vec![0, 1, 2]);
    assert_eq!(vs[0].pos.map(f32::from_bits), [-1.0, -1.0, 0.0]);
    assert_eq!(vs[2].pos.map(f32::from_bits), [0.0, 1.0, 0.0]);
}

#[test]
fn two_triangle_mesh_has_twelve_vertices() {
    let vs = two_triangle_vertices();
    assert_eq!(vs.len(), 12);
    assert_eq!(vs[3].pos.map(f32::from_bits), [0.25, 0.5, 0.0]);
}

#[test]
fn uploaded_mesh_counts_match() {
    let (vs, is) = create_vertices();
    let store = GeometryStore::upload_tex_mesh(&vs, &is);
    assert_eq!(store.vertex_count, 4);
    assert_eq!(store.index_count, 6);
    assert_eq!(store.vertex_data.len(), 80);
    // indices serialize little-endian, two bytes each
    assert_eq!(store.index_data, vec![0, 0, 1, 0, 3, 0, 1, 0, 2, 0, 3, 0]);
}

#[test]
fn index_range_check_catches_out_of_range_indices() {
    assert!(check_indices(&vec![0, 1, 3, 1, 2, 3], 4));
    assert!(!check_indices(&vec![0, 1, 4], 4));
    assert!(check_indices(&vec![], 0));
}
