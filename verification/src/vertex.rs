//! The static triangle geometry and the exact byte image of its vertex
//! buffer.
//!
//! A vertex position is a pair of IEEE-754 single-precision values; the
//! library carries each as its 32-bit pattern, and the buffer image is the
//! little-endian serialization of those patterns, tightly packed.

use vstd::prelude::*;

verus! {

/// Bit pattern of 1.0f32.
pub const F32_ONE_BITS: u32 = 0x3F80_0000;

/// Bit pattern of -1.0f32.
pub const F32_NEG_ONE_BITS: u32 = 0xBF80_0000;

/// Bit pattern of 0.0f32.
pub const F32_ZERO_BITS: u32 = 0;

/// Size in bytes of one vertex record: two 32-bit positions, tightly packed.
pub const VERTEX_SIZE: u64 = 8;

/// One vertex: a 2D clip-space position, each coordinate held as the bit
/// pattern of a 32-bit float.
#[derive(Clone, Copy, PartialEq, Eq, Debug)]
pub struct Vertex {
    pub x_bits: u32,
    pub y_bits: u32,
}

/// The one triangle the program ever draws: (-1,-1), (0,1), (1,-1).
pub open spec fn spec_triangle_vertices() -> Seq<Vertex> {
    seq![
        Vertex { x_bits: F32_NEG_ONE_BITS, y_bits: F32_NEG_ONE_BITS },
        Vertex { x_bits: F32_ZERO_BITS, y_bits: F32_ONE_BITS },
        Vertex { x_bits: F32_ONE_BITS, y_bits: F32_NEG_ONE_BITS },
    ]
}

/// The four bytes of `x`, least significant first.
pub open spec fn spec_u32_le_bytes(x: u32) -> Seq<u8> {
    seq![
        (x % 0x100) as u8,
        ((x / 0x100) % 0x100) as u8,
        ((x / 0x10000) % 0x100) as u8,
        ((x / 0x1000000) % 0x100) as u8,
    ]
}

/// The eight bytes of one vertex record: x then y, each little-endian.
pub open spec fn spec_vertex_bytes(v: Vertex) -> Seq<u8> {
    spec_u32_le_bytes(v.x_bits) + spec_u32_le_bytes(v.y_bits)
}

/// The byte image of a whole vertex sequence, records in order, tightly
/// packed.
pub open spec fn spec_vertices_bytes(vs: Seq<Vertex>) -> Seq<u8>
    decreases vs.len(),
{
    if vs.len() == 0 {
        Seq::empty()
    } else {
        spec_vertex_bytes(vs[0]) + spec_vertices_bytes(vs.subrange(1, vs.len() as int))
    }
}

/// The byte image of the triangle's vertex buffer.
pub open spec fn spec_triangle_bytes() -> Seq<u8> {
    spec_vertices_bytes(spec_triangle_vertices())
}

pub proof fn lemma_vertices_bytes_snoc(vs: Seq<Vertex>, v: Vertex)
    ensures
        spec_vertices_bytes(vs.push(v)) == spec_vertices_bytes(vs) + spec_vertex_bytes(v),
    decreases vs.len(),
{
    let whole = vs.push(v);
    if vs.len() == 0 {
        assert(whole[0] == v);
        let rest = whole.subrange(1, whole.len() as int);
        assert(rest =~= Seq::<Vertex>::empty());
        assert(spec_vertices_bytes(rest) == Seq::<u8>::empty());
        assert(spec_vertices_bytes(vs) == Seq::<u8>::empty());
        assert(spec_vertices_bytes(whole) == spec_vertex_bytes(v) + spec_vertices_bytes(rest));
        assert(spec_vertices_bytes(whole) =~= spec_vertices_bytes(vs) + spec_vertex_bytes(v));
    } else {
        assert(whole[0] == vs[0]);
        assert(whole.subrange(1, whole.len() as int) =~= vs.subrange(1, vs.len() as int).push(
            v,
        ));
        lemma_vertices_bytes_snoc(vs.subrange(1, vs.len() as int), v);
        assert(spec_vertices_bytes(whole) =~= spec_vertices_bytes(vs) + spec_vertex_bytes(v));
    }
}

pub proof fn lemma_vertices_bytes_len(vs: Seq<Vertex>)
    ensures
        spec_vertices_bytes(vs).len() == 8 * vs.len(),
    decreases vs.len(),
{
    if vs.len() > 0 {
        lemma_vertices_bytes_len(vs.subrange(1, vs.len() as int));
    }
}

fn push_u32_le(out: &mut Vec<u8>, x: u32)
    ensures
        final(out)@ == old(out)@ + spec_u32_le_bytes(x),
{
    out.push((x % 0x100) as u8);
    out.push(((x / 0x100) % 0x100) as u8);
    out.push(((x / 0x10000) % 0x100) as u8);
    out.push(((x / 0x1000000) % 0x100) as u8);
    proof {
        assert(out@ =~= old(out)@ + spec_u32_le_bytes(x));
    }
}

/// Serialize a vertex sequence into the byte image a GPU vertex buffer
/// holds: records in order, each two little-endian 32-bit values.
pub fn vertex_bytes_of(vs: &Vec<Vertex>) -> (b: Vec<u8>)
    ensures
        b@ == spec_vertices_bytes(vs@),
        b@.len() == 8 * vs@.len(),
{
    let mut b: Vec<u8> = Vec::new();
    let mut i: usize = 0;
    while i < vs.len()
        invariant
            i <= vs@.len(),
            b@ == spec_vertices_bytes(vs@.subrange(0, i as int)),
        decreases vs@.len() - i,
    {
        let ghost prefix = vs@.subrange(0, i as int);
        let ghost v = vs@[i as int];
        push_u32_le(&mut b, vs[i].x_bits);
        push_u32_le(&mut b, vs[i].y_bits);
        proof {
            lemma_vertices_bytes_snoc(prefix, v);
            assert(vs@.subrange(0, i + 1 as int) =~= prefix.push(v));
            assert(b@ =~= spec_vertices_bytes(vs@.subrange(0, i + 1 as int)));
        }
        i = i + 1;
    }
    proof {
        assert(vs@.subrange(0, vs@.len() as int) =~= vs@);
        lemma_vertices_bytes_len(vs@);
    }
    b
}

/// The triangle's three vertices, in draw order.
pub fn triangle_vertices() -> (v: Vec<Vertex>)
    ensures
        v@ == spec_triangle_vertices(),
{
    let mut v: Vec<Vertex> = Vec::new();
    v.push(Vertex { x_bits: F32_NEG_ONE_BITS, y_bits: F32_NEG_ONE_BITS });
    v.push(Vertex { x_bits: F32_ZERO_BITS, y_bits: F32_ONE_BITS });
    v.push(Vertex { x_bits: F32_ONE_BITS, y_bits: F32_NEG_ONE_BITS });
    proof {
        assert(v@ =~= spec_triangle_vertices());
    }
    v
}

/// The exact contents uploaded into the vertex buffer at renderer
/// construction: three records of two little-endian 32-bit values each.
pub fn vertex_buffer_contents() -> (b: Vec<u8>)
    ensures
        b@ == spec_triangle_bytes(),
        b@.len() == 24,
{
    let vs = triangle_vertices();
    let b = vertex_bytes_of(&vs);
    proof {
        lemma_vertices_bytes_len(spec_triangle_vertices());
    }
    b
}

} // verus!
