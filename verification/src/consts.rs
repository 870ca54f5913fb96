//! The two static shapes: a pentagon and a five-pointed star.
//!
//! Each shape is a fixed vertex list and a fixed triangle-list index list.
//! Vertex components are carried as IEEE-754 bit patterns; the values are
//! fixed for the process lifetime and uploaded to the GPU once. Every index
//! is proved to address an existing vertex, and every index list is proved
//! to be a whole number of triangles.

use vstd::prelude::*;

use crate::vertex::Vec3Bits;
use crate::vertex::Vertex;

verus! {

/// Every index addresses a vertex: each entry is strictly below `vcount`.
pub open spec fn indices_in_bounds(indices: Seq<u16>, vcount: int) -> bool {
    forall|i: int| 0 <= i < indices.len() ==> (indices[i] as int) < vcount
}

/// A shape: a vertex list and a triangle-list index list over it.
pub struct Mesh {
    pub vertices: Vec<Vertex>,
    pub indices: Vec<u16>,
}

/// A well-formed shape: the index list is a whole number of triangles and
/// every index addresses an existing vertex.
pub open spec fn mesh_wf(m: Mesh) -> bool {
    &&& m.indices@.len() % 3 == 0
    &&& indices_in_bounds(m.indices@, m.vertices@.len() as int)
}

/// The pentagon's five vertices, all in one solid purple tone.
pub open spec fn pentagon_vertex_seq() -> Seq<Vertex> {
    seq![
        (Vertex {
            position: Vec3Bits { x: 0xbdb1d0d5, y: 0x3efc1c5c, z: 0 },
            color: Vec3Bits { x: 0x3f000000, y: 0, z: 0x3f000000 },
        }),
        (Vertex {
            position: Vec3Bits { x: 0xbefd8236, y: 0x3d8e835a, z: 0 },
            color: Vec3Bits { x: 0x3f000000, y: 0, z: 0x3f000000 },
        }),
        (Vertex {
            position: Vec3Bits { x: 0xbe607229, y: 0xbee6175f, z: 0 },
            color: Vec3Bits { x: 0x3f000000, y: 0, z: 0x3f000000 },
        }),
        (Vertex {
            position: Vec3Bits { x: 0x3eb826aa, y: 0xbeb1d51f, z: 0 },
            color: Vec3Bits { x: 0x3f000000, y: 0, z: 0x3f000000 },
        }),
        (Vertex {
            position: Vec3Bits { x: 0x3ee208d8, y: 0x3e705e9c, z: 0 },
            color: Vec3Bits { x: 0x3f000000, y: 0, z: 0x3f000000 },
        }),
    ]
}

/// The pentagon's three triangles, fanned out from the last vertex.
pub open spec fn pentagon_index_seq() -> Seq<u16> {
    seq![0u16, 1, 4, 1, 2, 4, 2, 3, 4]
}

/// The star's eleven vertices: five tips, five valleys, one center, each in
/// its own color.
pub open spec fn star_vertex_seq() -> Seq<Vertex> {
    seq![
        (Vertex {
            position: Vec3Bits { x: 0, y: 0x3f000000, z: 0 },
            color: Vec3Bits { x: 0x3f800000, y: 0, z: 0 },
        }),
        (Vertex {
            position: Vec3Bits { x: 0x3ef37868, y: 0x3e1e379b, z: 0 },
            color: Vec3Bits { x: 0, y: 0x3f800000, z: 0 },
        }),
        (Vertex {
            position: Vec3Bits { x: 0x3e967925, y: 0xbecf1bce, z: 0 },
            color: Vec3Bits { x: 0, y: 0, z: 0x3f800000 },
        }),
        (Vertex {
            position: Vec3Bits { x: 0xbe967925, y: 0xbecf1bce, z: 0 },
            color: Vec3Bits { x: 0x3f800000, y: 0, z: 0x3f800000 },
        }),
        (Vertex {
            position: Vec3Bits { x: 0xbef37868, y: 0x3e1e379b, z: 0 },
            color: Vec3Bits { x: 0, y: 0x3f800000, z: 0x3f800000 },
        }),
        (Vertex {
            position: Vec3Bits { x: 0x3e25afb0, y: 0x3df0c1b9, z: 0 },
            color: Vec3Bits { x: 0x3f800000, y: 0x3f800000, z: 0 },
        }),
        (Vertex {
            position: Vec3Bits { x: 0x3d7d2524, y: 0xbe42c6ac, z: 0 },
            color: Vec3Bits { x: 0x3f800000, y: 0x3f000000, z: 0 },
        }),
        (Vertex {
            position: Vec3Bits { x: 0, y: 0xbe4ccccd, z: 0 },
            color: Vec3Bits { x: 0x3f000000, y: 0x3f800000, z: 0 },
        }),
        (Vertex {
            position: Vec3Bits { x: 0xbd7d2524, y: 0xbe42c6ac, z: 0 },
            color: Vec3Bits { x: 0, y: 0x3f800000, z: 0x3f000000 },
        }),
        (Vertex {
            position: Vec3Bits { x: 0xbe25afb0, y: 0x3df0c1b9, z: 0 },
            color: Vec3Bits { x: 0x3f000000, y: 0, z: 0x3f800000 },
        }),
        (Vertex {
            position: Vec3Bits { x: 0, y: 0, z: 0 },
            color: Vec3Bits { x: 0x3f800000, y: 0x3f800000, z: 0x3f800000 },
        }),
    ]
}

/// The star's ten triangles: one per tip over its two valleys, and one per
/// valley pair over the center.
pub open spec fn star_index_seq() -> Seq<u16> {
    seq![
        0u16, 9, 5,
        1, 5, 6,
        2, 6, 7,
        3, 7, 8,
        4, 8, 9,
        10, 9, 5,
        10, 5, 6,
        10, 6, 7,
        10, 7, 8,
        10, 8, 9,
    ]
}

/// The pentagon's vertex list, ready for upload.
pub fn pentagon_vertices() -> (r: Vec<Vertex>)
    ensures
        r@ == pentagon_vertex_seq(),
{
    let r: Vec<Vertex> = vec![
        Vertex {
            position: Vec3Bits { x: 0xbdb1d0d5, y: 0x3efc1c5c, z: 0 },
            color: Vec3Bits { x: 0x3f000000, y: 0, z: 0x3f000000 },
        },
        Vertex {
            position: Vec3Bits { x: 0xbefd8236, y: 0x3d8e835a, z: 0 },
            color: Vec3Bits { x: 0x3f000000, y: 0, z: 0x3f000000 },
        },
        Vertex {
            position: Vec3Bits { x: 0xbe607229, y: 0xbee6175f, z: 0 },
            color: Vec3Bits { x: 0x3f000000, y: 0, z: 0x3f000000 },
        },
        Vertex {
            position: Vec3Bits { x: 0x3eb826aa, y: 0xbeb1d51f, z: 0 },
            color: Vec3Bits { x: 0x3f000000, y: 0, z: 0x3f000000 },
        },
        Vertex {
            position: Vec3Bits { x: 0x3ee208d8, y: 0x3e705e9c, z: 0 },
            color: Vec3Bits { x: 0x3f000000, y: 0, z: 0x3f000000 },
        },
    ];
    proof {
        assert(r@ =~= pentagon_vertex_seq());
    }
    r
}

/// The pentagon's index list, ready for upload.
pub fn pentagon_indices() -> (r: Vec<u16>)
    ensures
        r@ == pentagon_index_seq(),
{
    let r: Vec<u16> = vec![0u16, 1, 4, 1, 2, 4, 2, 3, 4];
    proof {
        assert(r@ =~= pentagon_index_seq());
    }
    r
}

/// The star's vertex list, ready for upload.
pub fn star_vertices() -> (r: Vec<Vertex>)
    ensures
        r@ == star_vertex_seq(),
{
    let r: Vec<Vertex> = vec![
        Vertex {
            position: Vec3Bits { x: 0, y: 0x3f000000, z: 0 },
            color: Vec3Bits { x: 0x3f800000, y: 0, z: 0 },
        },
        Vertex {
            position: Vec3Bits { x: 0x3ef37868, y: 0x3e1e379b, z: 0 },
            color: Vec3Bits { x: 0, y: 0x3f800000, z: 0 },
        },
        Vertex {
            position: Vec3Bits { x: 0x3e967925, y: 0xbecf1bce, z: 0 },
            color: Vec3Bits { x: 0, y: 0, z: 0x3f800000 },
        },
        Vertex {
            position: Vec3Bits { x: 0xbe967925, y: 0xbecf1bce, z: 0 },
            color: Vec3Bits { x: 0x3f800000, y: 0, z: 0x3f800000 },
        },
        Vertex {
            position: Vec3Bits { x: 0xbef37868, y: 0x3e1e379b, z: 0 },
            color: Vec3Bits { x: 0, y: 0x3f800000, z: 0x3f800000 },
        },
        Vertex {
            position: Vec3Bits { x: 0x3e25afb0, y: 0x3df0c1b9, z: 0 },
            color: Vec3Bits { x: 0x3f800000, y: 0x3f800000, z: 0 },
        },
        Vertex {
            position: Vec3Bits { x: 0x3d7d2524, y: 0xbe42c6ac, z: 0 },
            color: Vec3Bits { x: 0x3f800000, y: 0x3f000000, z: 0 },
        },
        Vertex {
            position: Vec3Bits { x: 0, y: 0xbe4ccccd, z: 0 },
            color: Vec3Bits { x: 0x3f000000, y: 0x3f800000, z: 0 },
        },
        Vertex {
            position: Vec3Bits { x: 0xbd7d2524, y: 0xbe42c6ac, z: 0 },
            color: Vec3Bits { x: 0, y: 0x3f800000, z: 0x3f000000 },
        },
        Vertex {
            position: Vec3Bits { x: 0xbe25afb0, y: 0x3df0c1b9, z: 0 },
            color: Vec3Bits { x: 0x3f000000, y: 0, z: 0x3f800000 },
        },
        Vertex {
            position: Vec3Bits { x: 0, y: 0, z: 0 },
            color: Vec3Bits { x: 0x3f800000, y: 0x3f800000, z: 0x3f800000 },
        },
    ];
    proof {
        assert(r@ =~= star_vertex_seq());
    }
    r
}

/// The star's index list, ready for upload.
pub fn star_indices() -> (r: Vec<u16>)
    ensures
        r@ == star_index_seq(),
{
    let r: Vec<u16> = vec![
        0u16, 9, 5,
        1, 5, 6,
        2, 6, 7,
        3, 7, 8,
        4, 8, 9,
        10, 9, 5,
        10, 5, 6,
        10, 6, 7,
        10, 7, 8,
        10, 8, 9,
    ];
    proof {
        assert(r@ =~= star_index_seq());
    }
    r
}

/// The pentagon shape, proved well-formed.
pub fn pentagon_mesh() -> (m: Mesh)
    ensures
        m.vertices@ == pentagon_vertex_seq(),
        m.indices@ == pentagon_index_seq(),
        m.vertices@.len() == 5,
        m.indices@.len() == 9,
        mesh_wf(m),
{
    let m = Mesh { vertices: pentagon_vertices(), indices: pentagon_indices() };
    proof {
        lemma_pentagon_indices_wf();
    }
    m
}

/// The star shape, proved well-formed.
pub fn star_mesh() -> (m: Mesh)
    ensures
        m.vertices@ == star_vertex_seq(),
        m.indices@ == star_index_seq(),
        m.vertices@.len() == 11,
        m.indices@.len() == 30,
        mesh_wf(m),
{
    let m = Mesh { vertices: star_vertices(), indices: star_indices() };
    proof {
        lemma_star_indices_wf();
    }
    m
}

/// The pentagon's index list is three whole triangles over its five vertices.
pub proof fn lemma_pentagon_indices_wf()
    ensures
        pentagon_index_seq().len() == 9,
        pentagon_index_seq().len() % 3 == 0,
        indices_in_bounds(pentagon_index_seq(), 5),
{
    assert forall|i: int| 0 <= i < pentagon_index_seq().len() implies (pentagon_index_seq()[i]
        as int) < 5 by {}
}

/// The star's index list is ten whole triangles over its eleven vertices.
pub proof fn lemma_star_indices_wf()
    ensures
        star_index_seq().len() == 30,
        star_index_seq().len() % 3 == 0,
        indices_in_bounds(star_index_seq(), 11),
{
    assert forall|i: int| 0 <= i < star_index_seq().len() implies (star_index_seq()[i] as int)
        < 11 by {}
}

} // verus!
