use renderer_backend::layout::{halves_to_bytes, words_to_bytes, MATRIX_SIZE};
use renderer_backend::mesh_builder::{quad_bytes, triangle_bytes, vertices_to_bytes, Float3Attribute, Vertex, VERTEX_STRIDE};
use renderer_backend::ubo::uniform_alignment;

fn floats_of(bytes: &[u8]) -> Vec<f32> {
    bytes.chunks(4).map(|c| f32::from_le_bytes([c[0], c[1], c[2], c[3]])).collect()
}

#[test]
fn alignment_is_the_larger_of_device_and_matrix() {
    assert_eq!(uniform_alignment(256), 256);
    assert_eq!(uniform_alignment(64), 64);
    assert_eq!(uniform_alignment(16), 64);
    assert_eq!(uniform_alignment(1), 64);
    assert_eq!(uniform_alignment(0), 64);
    assert_eq!(uniform_alignment(1024), 1024);
    assert_eq!(MATRIX_SIZE, 64);
}

#[test]
fn alignment_is_a_multiple_of_powers_of_two() {
    for k in 0..31 {
        let a: u32 = 1 << k;
        let r = uniform_alignment(a);
        assert!(r > 0);
        assert_eq!(r % a as u64, 0);
        assert_eq!(r % 64, 0);
        assert_eq!(r, std::cmp::max(a as u64, 64));
    }
}

#[test]
fn words_serialise_little_endian() {
    assert_eq!(words_to_bytes(&[0x0403_0201, 0xdead_beef]), vec![1, 2, 3, 4, 0xef, 0xbe, 0xad, 0xde]);
    assert!(words_to_bytes(&[]).is_empty());
}

#[test]
fn matrix_bytes_read_back_as_floats() {
    let m: Vec<f32> = (0..16).map(|k| k as f32 * 0.5 - 3.0).collect();
    let bits: Vec<u32> = m.iter().map(|f| f.to_bits()).collect();
    let bytes = words_to_bytes(&bits);
    assert_eq!(bytes.len(), 64);
    assert_eq!(floats_of(&bytes), m);
}

#[test]
fn halves_serialise_little_endian() {
    assert_eq!(halves_to_bytes(&[0x0201, 3]), vec![1, 2, 3, 0]);
}

#[test]
fn vertex_layout_matches_encoding() {
    let l = Vertex::get_layout();
    assert_eq!(l.stride, 24);
    assert_eq!(VERTEX_STRIDE, 24);
    assert_eq!(l.attributes, vec![Float3Attribute { location: 0, offset: 0 }, Float3Attribute { location: 1, offset: 12 }]);
}

#[test]
fn vertex_is_position_then_color() {
    let v = Vertex {
        position: [1.0f32.to_bits(), 2.0f32.to_bits(), 3.0f32.to_bits()],
        color: [0.25f32.to_bits(), 0.5f32.to_bits(), 0.75f32.to_bits()],
    };
    let bytes = vertices_to_bytes(&[v, v]);
    assert_eq!(bytes.len(), 48);
    assert_eq!(floats_of(&bytes), vec![1.0, 2.0, 3.0, 0.25, 0.5, 0.75, 1.0, 2.0, 3.0, 0.25, 0.5, 0.75]);
}

#[test]
fn triangle_vertices_are_the_fixed_corners() {
    let bytes = triangle_bytes();
    assert_eq!(bytes.len(), 72);
    assert_eq!(
        floats_of(&bytes),
        vec![
            -0.75, -0.75, 0.0, 1.0, 0.0, 0.0,
            0.75, -0.75, 0.0, 0.0, 1.0, 0.0,
            0.0, 0.75, 0.0, 0.0, 0.0, 1.0,
        ]
    );
}

#[test]
fn quad_indices_start_after_four_vertices() {
    let (bytes, offset) = quad_bytes();
    assert_eq!(offset, 96);
    assert_eq!(offset, 4 * 24);
    assert_eq!(bytes.len(), 108);
    assert_eq!(&bytes[96..], &[0, 0, 1, 0, 2, 0, 2, 0, 3, 0, 0, 0]);
    assert_eq!(
        floats_of(&bytes[..96]),
        vec![
            -0.75, -0.75, 0.0, 1.0, 0.0, 0.0,
            0.75, -0.75, 0.0, 0.0, 1.0, 0.0,
            0.75, 0.75, 0.0, 0.0, 0.0, 1.0,
            -0.75, 0.75, 0.0, 0.0, 1.0, 1.0,
        ]
    );
}
