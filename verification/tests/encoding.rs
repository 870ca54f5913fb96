use wgpu_playaround::consts::pentagon_indices;
use wgpu_playaround::consts::pentagon_vertices;
use wgpu_playaround::consts::star_indices;
use wgpu_playaround::consts::star_vertices;
use wgpu_playaround::vertex::index_buffer_bytes;
use wgpu_playaround::vertex::vertex_buffer_bytes;
use wgpu_playaround::vertex::Vec3Bits;
use wgpu_playaround::vertex::Vertex;
use wgpu_playaround::vertex::VertexFormat;
use wgpu_playaround::vertex::VertexStepMode;
use wgpu_playaround::vertex::COLOR_OFFSET;
use wgpu_playaround::vertex::VERTEX_STRIDE;

#[test]
fn one_vertex_encodes_to_24_little_endian_bytes() {
    let v = Vertex {
        position: Vec3Bits {
            x: 1.0f32.to_bits(),
            y: (-2.5f32).to_bits(),
            z: 0.0f32.to_bits(),
        },
        color: Vec3Bits {
            x: 0.25f32.to_bits(),
            y: 0.5f32.to_bits(),
            z: 1.0f32.to_bits(),
        },
    };
    let bytes = vertex_buffer_bytes(&vec![v]);
    assert_eq!(bytes.len(), 24);
    let mut expected = Vec::new();
    for f in [1.0f32, -2.5, 0.0, 0.25, 0.5, 1.0] {
        expected.extend_from_slice(&f.to_le_bytes());
    }
    assert_eq!(bytes, expected);
}

#[test]
fn pentagon_vertex_buffer_matches_the_float_wire_image() {
    let vertices = pentagon_vertices();
    let bytes = vertex_buffer_bytes(&vertices);
    assert_eq!(bytes.len(), 24 * 5);
    // The first four bytes are the little-endian image of the first
    // vertex's x coordinate.
    assert_eq!(&bytes[0..4], &(-0.0868241f32).to_le_bytes());
    // The color triple of each vertex starts 12 bytes into its record.
    for i in 0..5 {
        let at = 24 * i + 12;
        assert_eq!(&bytes[at..at + 4], &0.5f32.to_le_bytes());
    }
}

#[test]
fn star_vertex_buffer_has_the_right_stride() {
    let vertices = star_vertices();
    let bytes = vertex_buffer_bytes(&vertices);
    assert_eq!(bytes.len(), 24 * 11);
    // Record 10 is the white center vertex at the origin.
    let at = 24 * 10;
    assert_eq!(&bytes[at..at + 4], &0.0f32.to_le_bytes());
    assert_eq!(&bytes[at + 12..at + 16], &1.0f32.to_le_bytes());
}

#[test]
fn index_buffers_encode_as_16_bit_little_endian() {
    let pentagon = index_buffer_bytes(&pentagon_indices());
    assert_eq!(pentagon.len(), 18);
    assert_eq!(
        pentagon,
        vec![0u8, 0, 1, 0, 4, 0, 1, 0, 2, 0, 4, 0, 2, 0, 3, 0, 4, 0]
    );
    let star = index_buffer_bytes(&star_indices());
    assert_eq!(star.len(), 60);
    assert_eq!(&star[0..6], &[0u8, 0, 9, 0, 5, 0]);
    // Index 10 (the center) appears as 0x000a little-endian.
    assert_eq!(&star[30..32], &[10u8, 0]);
}

#[test]
fn vertex_layout_describes_two_packed_float_triples() {
    let layout = Vertex::desc();
    assert_eq!(layout.array_stride, VERTEX_STRIDE);
    assert_eq!(layout.array_stride, 24);
    assert_eq!(layout.step_mode, VertexStepMode::Vertex);
    assert_eq!(layout.attributes.len(), 2);
    assert_eq!(layout.attributes[0].offset, 0);
    assert_eq!(layout.attributes[0].shader_location, 0);
    assert_eq!(layout.attributes[0].format, VertexFormat::Float32x3);
    assert_eq!(layout.attributes[1].offset, COLOR_OFFSET);
    assert_eq!(layout.attributes[1].offset, 12);
    assert_eq!(layout.attributes[1].shader_location, 1);
    assert_eq!(layout.attributes[1].format, VertexFormat::Float32x3);
}
