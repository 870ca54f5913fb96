//! The vertex record and its GPU wire layout.
//!
//! A vertex is a pair of packed 32-bit-float triples (position, color). The
//! library never computes with the floats themselves: it carries their IEEE-754
//! bit patterns and proves the exact byte layout of the vertex and index
//! buffers that the GPU consumes — 24 bytes per vertex, two tightly packed
//! triples in little-endian order, and 2 bytes per index.

use vstd::prelude::*;

verus! {

/// Bit patterns of a packed triple of 32-bit floats.
#[derive(Clone, Copy, PartialEq, Eq, Structural, Debug)]
pub struct Vec3Bits {
    pub x: u32,
    pub y: u32,
    pub z: u32,
}

/// One vertex: a position triple and a color triple, both as float bit
/// patterns. Matches the GPU attribute layout exactly: two 3-float
/// attributes, tightly packed, stride 24 bytes.
#[derive(Clone, Copy, PartialEq, Eq, Structural, Debug)]
pub struct Vertex {
    pub position: Vec3Bits,
    pub color: Vec3Bits,
}

/// Byte distance between consecutive vertices in the vertex buffer.
pub const VERTEX_STRIDE: u64 = 24;

/// Byte offset of the color attribute inside one vertex record.
pub const COLOR_OFFSET: u64 = 12;

/// The little-endian bytes of a 32-bit value.
pub open spec fn u32_le_bytes(x: u32) -> Seq<u8> {
    seq![
        (x & 0xff) as u8,
        ((x >> 8) & 0xff) as u8,
        ((x >> 16) & 0xff) as u8,
        ((x >> 24) & 0xff) as u8,
    ]
}

/// The little-endian bytes of a 16-bit value.
pub open spec fn u16_le_bytes(x: u16) -> Seq<u8> {
    seq![(x & 0xff) as u8, ((x >> 8) & 0xff) as u8]
}

/// The 24 wire bytes of one vertex: position then color, each component
/// little-endian, no padding.
pub open spec fn vertex_bytes(v: Vertex) -> Seq<u8> {
    u32_le_bytes(v.position.x) + u32_le_bytes(v.position.y) + u32_le_bytes(v.position.z)
        + u32_le_bytes(v.color.x) + u32_le_bytes(v.color.y) + u32_le_bytes(v.color.z)
}

/// The wire bytes of a whole vertex list, in order.
pub open spec fn vertices_bytes(vs: Seq<Vertex>) -> Seq<u8>
    decreases vs.len(),
{
    if vs.len() == 0 {
        Seq::empty()
    } else {
        vertices_bytes(vs.drop_last()) + vertex_bytes(vs.last())
    }
}

/// The wire bytes of a whole index list: each index as two little-endian
/// bytes, in order.
pub open spec fn indices_bytes(is: Seq<u16>) -> Seq<u8>
    decreases is.len(),
{
    if is.len() == 0 {
        Seq::empty()
    } else {
        indices_bytes(is.drop_last()) + u16_le_bytes(is.last())
    }
}

/// Each vertex occupies exactly `VERTEX_STRIDE` bytes on the wire.
pub proof fn lemma_vertices_bytes_len(vs: Seq<Vertex>)
    ensures
        vertices_bytes(vs).len() == 24 * vs.len(),
    decreases vs.len(),
{
    if vs.len() > 0 {
        lemma_vertices_bytes_len(vs.drop_last());
    }
}

/// Each index occupies exactly two bytes on the wire.
pub proof fn lemma_indices_bytes_len(is: Seq<u16>)
    ensures
        indices_bytes(is).len() == 2 * is.len(),
    decreases is.len(),
{
    if is.len() > 0 {
        lemma_indices_bytes_len(is.drop_last());
    }
}

/// Append the four little-endian bytes of `x`.
fn push_u32_le(out: &mut Vec<u8>, x: u32)
    ensures
        final(out)@ == old(out)@ + u32_le_bytes(x),
{
    out.push((x & 0xff) as u8);
    out.push(((x >> 8) & 0xff) as u8);
    out.push(((x >> 16) & 0xff) as u8);
    out.push(((x >> 24) & 0xff) as u8);
    assert(out@ =~= old(out)@ + u32_le_bytes(x));
}

/// Append the two little-endian bytes of `x`.
fn push_u16_le(out: &mut Vec<u8>, x: u16)
    ensures
        final(out)@ == old(out)@ + u16_le_bytes(x),
{
    out.push((x & 0xff) as u8);
    out.push(((x >> 8) & 0xff) as u8);
    assert(out@ =~= old(out)@ + u16_le_bytes(x));
}

/// Encode a vertex list into the exact byte image of the GPU vertex buffer.
pub fn vertex_buffer_bytes(vs: &Vec<Vertex>) -> (r: Vec<u8>)
    ensures
        r@ == vertices_bytes(vs@),
        r@.len() == 24 * vs@.len(),
{
    let mut out: Vec<u8> = Vec::new();
    let mut i: usize = 0;
    while i < vs.len()
        invariant
            i <= vs@.len(),
            out@ == vertices_bytes(vs@.take(i as int)),
        decreases vs@.len() - i,
    {
        let v = vs[i];
        push_u32_le(&mut out, v.position.x);
        push_u32_le(&mut out, v.position.y);
        push_u32_le(&mut out, v.position.z);
        push_u32_le(&mut out, v.color.x);
        push_u32_le(&mut out, v.color.y);
        push_u32_le(&mut out, v.color.z);
        proof {
            assert(vs@.take(i + 1).drop_last() =~= vs@.take(i as int));
            assert(vs@.take(i + 1).last() == vs@[i as int]);
            assert(out@ =~= vertices_bytes(vs@.take(i as int)) + vertex_bytes(vs@[i as int]));
        }
        i = i + 1;
    }
    proof {
        assert(vs@.take(vs@.len() as int) =~= vs@);
        lemma_vertices_bytes_len(vs@);
    }
    out
}

/// Encode an index list into the exact byte image of the GPU index buffer.
pub fn index_buffer_bytes(is: &Vec<u16>) -> (r: Vec<u8>)
    ensures
        r@ == indices_bytes(is@),
        r@.len() == 2 * is@.len(),
{
    let mut out: Vec<u8> = Vec::new();
    let mut i: usize = 0;
    while i < is.len()
        invariant
            i <= is@.len(),
            out@ == indices_bytes(is@.take(i as int)),
        decreases is@.len() - i,
    {
        push_u16_le(&mut out, is[i]);
        proof {
            assert(is@.take(i + 1).drop_last() =~= is@.take(i as int));
            assert(is@.take(i + 1).last() == is@[i as int]);
        }
        i = i + 1;
    }
    proof {
        assert(is@.take(is@.len() as int) =~= is@);
        lemma_indices_bytes_len(is@);
    }
    out
}

/// The step rate of the vertex buffer: one record per vertex.
#[derive(Clone, Copy, PartialEq, Eq, Structural, Debug)]
pub enum VertexStepMode {
    Vertex,
}

/// The packed format of one vertex attribute.
#[derive(Clone, Copy, PartialEq, Eq, Structural, Debug)]
pub enum VertexFormat {
    Float32x3,
}

/// One attribute of the vertex record: where it starts inside the record,
/// which shader input slot it feeds, and its packed format.
#[derive(Clone, Copy, PartialEq, Eq, Structural, Debug)]
pub struct VertexAttributeDesc {
    pub offset: u64,
    pub shader_location: u32,
    pub format: VertexFormat,
}

/// How a vertex record maps to GPU buffer attributes: the stride between
/// records, the step rate, and the attribute list.
pub struct VertexBufferLayoutDesc {
    pub array_stride: u64,
    pub step_mode: VertexStepMode,
    pub attributes: Vec<VertexAttributeDesc>,
}

impl Vertex {
    /// The buffer layout of this vertex record: stride 24, per-vertex
    /// stepping, the position triple at offset 0 feeding shader input 0 and
    /// the color triple at offset 12 feeding shader input 1.
    pub fn desc() -> (r: VertexBufferLayoutDesc)
        ensures
            r.array_stride == VERTEX_STRIDE,
            r.step_mode == VertexStepMode::Vertex,
            r.attributes@.len() == 2,
            r.attributes@[0] == (VertexAttributeDesc {
                offset: 0,
                shader_location: 0,
                format: VertexFormat::Float32x3,
            }),
            r.attributes@[1] == (VertexAttributeDesc {
                offset: COLOR_OFFSET,
                shader_location: 1,
                format: VertexFormat::Float32x3,
            }),
    {
        let mut attributes: Vec<VertexAttributeDesc> = Vec::new();
        attributes.push(VertexAttributeDesc {
            offset: 0,
            shader_location: 0,
            format: VertexFormat::Float32x3,
        });
        attributes.push(VertexAttributeDesc {
            offset: COLOR_OFFSET,
            shader_location: 1,
            format: VertexFormat::Float32x3,
        });
        VertexBufferLayoutDesc { array_stride: VERTEX_STRIDE, step_mode: VertexStepMode::Vertex, attributes }
    }
}

} // verus!
