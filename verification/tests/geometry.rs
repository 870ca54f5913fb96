use wgpu_playaround::consts::pentagon_indices;
use wgpu_playaround::consts::pentagon_mesh;
use wgpu_playaround::consts::pentagon_vertices;
use wgpu_playaround::consts::star_indices;
use wgpu_playaround::consts::star_mesh;
use wgpu_playaround::consts::star_vertices;

#[test]
fn pentagon_has_five_vertices_and_three_triangles() {
    let m = pentagon_mesh();
    assert_eq!(m.vertices.len(), 5);
    assert_eq!(m.indices.len(), 9);
    assert_eq!(m.indices.len() % 3, 0);
}

#[test]
fn star_has_eleven_vertices_and_ten_triangles() {
    let m = star_mesh();
    assert_eq!(m.vertices.len(), 11);
    assert_eq!(m.indices.len(), 30);
    assert_eq!(m.indices.len() % 3, 0);
}

#[test]
fn every_pentagon_index_addresses_a_vertex() {
    let vertices = pentagon_vertices();
    let indices = pentagon_indices();
    for &i in indices.iter() {
        assert!((i as usize) < vertices.len());
    }
}

#[test]
fn every_star_index_addresses_a_vertex() {
    let vertices = star_vertices();
    let indices = star_indices();
    for &i in indices.iter() {
        assert!((i as usize) < vertices.len());
    }
}

#[test]
fn pentagon_index_list_is_exact() {
    let indices = pentagon_indices();
    assert_eq!(indices, vec![0, 1, 4, 1, 2, 4, 2, 3, 4]);
}

#[test]
fn star_index_list_is_exact() {
    let indices = star_indices();
    assert_eq!(
        indices,
        vec![
            0, 9, 5, 1, 5, 6, 2, 6, 7, 3, 7, 8, 4, 8, 9, 10, 9, 5, 10, 5, 6, 10, 6, 7, 10, 7, 8,
            10, 8, 9,
        ]
    );
}

#[test]
fn pentagon_vertex_bits_decode_to_expected_floats() {
    let vertices = pentagon_vertices();
    let a = vertices[0];
    assert_eq!(f32::from_bits(a.position.x), -0.0868241);
    assert_eq!(f32::from_bits(a.position.y), 0.49240386);
    assert_eq!(f32::from_bits(a.position.z), 0.0);
    assert_eq!(f32::from_bits(a.color.x), 0.5);
    assert_eq!(f32::from_bits(a.color.y), 0.0);
    assert_eq!(f32::from_bits(a.color.z), 0.5);
    let e = vertices[4];
    assert_eq!(f32::from_bits(e.position.x), 0.44147372);
    assert_eq!(f32::from_bits(e.position.y), 0.2347359);
    // All pentagon vertices share the one solid purple tone.
    for v in vertices.iter() {
        assert_eq!(f32::from_bits(v.color.x), 0.5);
        assert_eq!(f32::from_bits(v.color.y), 0.0);
        assert_eq!(f32::from_bits(v.color.z), 0.5);
    }
}

#[test]
fn star_vertex_bits_decode_to_expected_floats() {
    let vertices = star_vertices();
    let top = vertices[0];
    assert_eq!(f32::from_bits(top.position.x), 0.0);
    assert_eq!(f32::from_bits(top.position.y), 0.5);
    assert_eq!(f32::from_bits(top.color.x), 1.0);
    assert_eq!(f32::from_bits(top.color.y), 0.0);
    let valley = vertices[7];
    assert_eq!(f32::from_bits(valley.position.y), -0.2);
    let center = vertices[10];
    assert_eq!(f32::from_bits(center.position.x), 0.0);
    assert_eq!(f32::from_bits(center.position.y), 0.0);
    assert_eq!(f32::from_bits(center.color.x), 1.0);
    assert_eq!(f32::from_bits(center.color.y), 1.0);
    assert_eq!(f32::from_bits(center.color.z), 1.0);
}
