//! The triangle's geometry: a fixed-layout vertex record, the three host
//! vertices, the vertex buffer layout the pipeline binds, and the exact
//! bytes uploaded to the GPU. Component values are carried as the bit
//! patterns of 32-bit floats, so the model states the buffer's contents
//! byte for byte.

use vstd::prelude::*;

verus! {

/// Bit pattern of the 32-bit float 0.0.
pub const FLOAT_ZERO_BITS: u32 = 0x0000_0000;

/// Bit pattern of the 32-bit float 0.5.
pub const FLOAT_HALF_BITS: u32 = 0x3F00_0000;

/// Bit pattern of the 32-bit float -0.5.
pub const FLOAT_NEG_HALF_BITS: u32 = 0xBF00_0000;

/// Bit pattern of the 32-bit float 1.0.
pub const FLOAT_ONE_BITS: u32 = 0x3F80_0000;

/// One vertex: a two-component position followed by a three-component
/// color, each component the bit pattern of a 32-bit float. The record is
/// tightly packed: position at byte offset 0, color at byte offset 8,
/// twenty bytes in all.
#[derive(Clone, Copy, PartialEq, Eq, Structural, Debug)]
pub struct Vertex {
    pub position_x: u32,
    pub position_y: u32,
    pub color_r: u32,
    pub color_g: u32,
    pub color_b: u32,
}

/// Size in bytes of one vertex record.
pub const VERTEX_STRIDE: u64 = 20;

/// Byte offset of the position attribute within a vertex record.
pub const POSITION_OFFSET: u64 = 0;

/// Byte offset of the color attribute within a vertex record.
pub const COLOR_OFFSET: u64 = 8;

/// The three vertices of the triangle, in draw order: apex, lower right,
/// lower left, all white.
pub open spec fn triangle() -> Seq<Vertex> {
    seq![
        Vertex {
            position_x: FLOAT_ZERO_BITS,
            position_y: FLOAT_HALF_BITS,
            color_r: FLOAT_ONE_BITS,
            color_g: FLOAT_ONE_BITS,
            color_b: FLOAT_ONE_BITS,
        },
        Vertex {
            position_x: FLOAT_HALF_BITS,
            position_y: FLOAT_NEG_HALF_BITS,
            color_r: FLOAT_ONE_BITS,
            color_g: FLOAT_ONE_BITS,
            color_b: FLOAT_ONE_BITS,
        },
        Vertex {
            position_x: FLOAT_NEG_HALF_BITS,
            position_y: FLOAT_NEG_HALF_BITS,
            color_r: FLOAT_ONE_BITS,
            color_g: FLOAT_ONE_BITS,
            color_b: FLOAT_ONE_BITS,
        },
    ]
}

/// Build the triangle's host-side vertex data.
pub fn triangle_vertices() -> (vs: Vec<Vertex>)
    ensures
        vs@ == triangle(),
{
    let mut vs: Vec<Vertex> = Vec::new();
    vs.push(Vertex {
        position_x: FLOAT_ZERO_BITS,
        position_y: FLOAT_HALF_BITS,
        color_r: FLOAT_ONE_BITS,
        color_g: FLOAT_ONE_BITS,
        color_b: FLOAT_ONE_BITS,
    });
    vs.push(Vertex {
        position_x: FLOAT_HALF_BITS,
        position_y: FLOAT_NEG_HALF_BITS,
        color_r: FLOAT_ONE_BITS,
        color_g: FLOAT_ONE_BITS,
        color_b: FLOAT_ONE_BITS,
    });
    vs.push(Vertex {
        position_x: FLOAT_NEG_HALF_BITS,
        position_y: FLOAT_NEG_HALF_BITS,
        color_r: FLOAT_ONE_BITS,
        color_g: FLOAT_ONE_BITS,
        color_b: FLOAT_ONE_BITS,
    });
    proof {
        assert(vs@ =~= triangle());
    }
    vs
}

/// The component type of one vertex attribute.
#[derive(Clone, Copy, PartialEq, Eq, Structural, Debug)]
pub enum VertexFormat {
    Float32x2,
    Float32x3,
}

impl VertexFormat {
    /// Size in bytes of one attribute of this format.
    pub open spec fn size(self) -> u64 {
        match self {
            VertexFormat::Float32x2 => 8,
            VertexFormat::Float32x3 => 12,
        }
    }
}

/// One attribute of the vertex record, as the pipeline declares it.
#[derive(Clone, Copy, PartialEq, Eq, Structural, Debug)]
pub struct VertexAttribute {
    pub shader_location: u32,
    pub offset: u64,
    pub format: VertexFormat,
}

/// The layout of one vertex buffer binding, advanced per vertex.
pub struct VertexBufferLayout {
    pub array_stride: u64,
    pub attributes: Vec<VertexAttribute>,
}

/// A layout is tightly packed when its first attribute sits at offset 0,
/// every further attribute follows the one before it immediately, and the
/// stride is exactly the bytes the attributes cover.
pub open spec fn tightly_packed(l: VertexBufferLayout) -> bool {
    &&& l.attributes@.len() > 0
    &&& l.attributes@[0].offset == 0
    &&& forall|i: int|
        0 < i < l.attributes@.len() ==> (#[trigger] l.attributes@[i]).offset == l.attributes@[i
            - 1].offset + l.attributes@[i - 1].format.size()
    &&& l.array_stride == l.attributes@.last().offset + l.attributes@.last().format.size()
}

/// The layout every triangle pipeline binds: attribute 0 a two-component
/// float position at offset 0, attribute 1 a three-component float color at
/// offset 8, stride twenty bytes.
pub open spec fn triangle_layout_spec() -> Seq<VertexAttribute> {
    seq![
        VertexAttribute { shader_location: 0, offset: POSITION_OFFSET, format: VertexFormat::Float32x2 },
        VertexAttribute { shader_location: 1, offset: COLOR_OFFSET, format: VertexFormat::Float32x3 },
    ]
}

/// Build the vertex buffer layout for the triangle pipeline.
pub fn triangle_vertex_layout() -> (l: VertexBufferLayout)
    ensures
        l.array_stride == VERTEX_STRIDE,
        l.attributes@ == triangle_layout_spec(),
        tightly_packed(l),
{
    let mut attributes: Vec<VertexAttribute> = Vec::new();
    attributes.push(VertexAttribute {
        shader_location: 0,
        offset: POSITION_OFFSET,
        format: VertexFormat::Float32x2,
    });
    attributes.push(VertexAttribute {
        shader_location: 1,
        offset: COLOR_OFFSET,
        format: VertexFormat::Float32x3,
    });
    let l = VertexBufferLayout { array_stride: VERTEX_STRIDE, attributes };
    proof {
        assert(l.attributes@ =~= triangle_layout_spec());
    }
    l
}

/// The four bytes of a 32-bit value, least significant first.
pub open spec fn le_bytes_u32(x: u32) -> Seq<u8> {
    seq![
        (x & 0xff) as u8,
        ((x >> 8) & 0xff) as u8,
        ((x >> 16) & 0xff) as u8,
        ((x >> 24) & 0xff) as u8,
    ]
}

/// The 32-bit value read from four bytes, least significant first.
pub open spec fn u32_from_le(b: Seq<u8>) -> u32
    recommends
        b.len() == 4,
{
    (b[0] as u32) | ((b[1] as u32) << 8) | ((b[2] as u32) << 16) | ((b[3] as u32) << 24)
}

/// Reading back the four little-endian bytes of a value yields the value.
pub proof fn lemma_le_roundtrip(x: u32)
    ensures
        u32_from_le(le_bytes_u32(x)) == x,
{
    assert((x & 0xff) < 256 && ((x >> 8) & 0xff) < 256 && ((x >> 16) & 0xff) < 256 && ((x >> 24)
        & 0xff) < 256) by (bit_vector);
    assert((x & 0xff) | (((x >> 8) & 0xff) << 8) | (((x >> 16) & 0xff) << 16) | (((x >> 24) & 0xff)
        << 24) == x) by (bit_vector);
}

/// The twenty bytes of one vertex record: position components at offsets 0
/// and 4, color components at offsets 8, 12 and 16, each little-endian.
pub open spec fn vertex_bytes(v: Vertex) -> Seq<u8> {
    le_bytes_u32(v.position_x) + le_bytes_u32(v.position_y) + le_bytes_u32(v.color_r)
        + le_bytes_u32(v.color_g) + le_bytes_u32(v.color_b)
}

/// The bytes of a whole vertex buffer: the records one after another.
pub open spec fn buffer_bytes(vs: Seq<Vertex>) -> Seq<u8>
    decreases vs.len(),
{
    if vs.len() == 0 {
        Seq::empty()
    } else {
        buffer_bytes(vs.drop_last()) + vertex_bytes(vs.last())
    }
}

/// Each vertex record is twenty bytes, so the buffer's length is twenty
/// bytes per vertex.
pub proof fn lemma_buffer_bytes_len(vs: Seq<Vertex>)
    ensures
        buffer_bytes(vs).len() == 20 * vs.len(),
    decreases vs.len(),
{
    if vs.len() > 0 {
        lemma_buffer_bytes_len(vs.drop_last());
    }
}

/// Append the four little-endian bytes of `x` to `out`.
fn push_u32_le(out: &mut Vec<u8>, x: u32)
    ensures
        final(out)@ == old(out)@ + le_bytes_u32(x),
{
    proof {
        assert((x & 0xff) < 256 && ((x >> 8) & 0xff) < 256 && ((x >> 16) & 0xff) < 256 && ((x
            >> 24) & 0xff) < 256) by (bit_vector);
    }
    out.push((x & 0xff) as u8);
    out.push(((x >> 8) & 0xff) as u8);
    out.push(((x >> 16) & 0xff) as u8);
    out.push(((x >> 24) & 0xff) as u8);
    proof {
        assert(out@ =~= old(out)@ + le_bytes_u32(x));
    }
}

/// Encode host vertices as the bytes the GPU buffer holds: the records in
/// order, each component little-endian.
pub fn encode_vertices(vs: &Vec<Vertex>) -> (b: Vec<u8>)
    ensures
        b@ == buffer_bytes(vs@),
{
    let mut b: Vec<u8> = Vec::new();
    let mut i: usize = 0;
    while i < vs.len()
        invariant
            i <= vs@.len(),
            b@ == buffer_bytes(vs@.take(i as int)),
        decreases vs@.len() - i,
    {
        let v = vs[i];
        push_u32_le(&mut b, v.position_x);
        push_u32_le(&mut b, v.position_y);
        push_u32_le(&mut b, v.color_r);
        push_u32_le(&mut b, v.color_g);
        push_u32_le(&mut b, v.color_b);
        proof {
            assert(vs@.take(i + 1).drop_last() =~= vs@.take(i as int));
            assert(vs@.take(i + 1).last() == vs@[i as int]);
            assert(b@ =~= buffer_bytes(vs@.take(i + 1)));
        }
        i = i + 1;
    }
    proof {
        assert(vs@.take(vs@.len() as int) =~= vs@);
    }
    b
}

/// The bytes of vertex `i` within a buffer are exactly its record: the
/// twenty bytes starting at twenty times its index.
pub proof fn lemma_buffer_record(vs: Seq<Vertex>, i: int)
    requires
        0 <= i < vs.len(),
    ensures
        buffer_bytes(vs).subrange(20 * i, 20 * i + 20) == vertex_bytes(vs[i]),
    decreases vs.len(),
{
    lemma_buffer_bytes_len(vs);
    lemma_buffer_bytes_len(vs.drop_last());
    if i == vs.len() - 1 {
        assert(buffer_bytes(vs).subrange(20 * i, 20 * i + 20) =~= vertex_bytes(vs.last()));
    } else {
        lemma_buffer_record(vs.drop_last(), i);
        assert(vs.drop_last()[i] == vs[i]);
        assert(buffer_bytes(vs).subrange(20 * i, 20 * i + 20) =~= buffer_bytes(
            vs.drop_last(),
        ).subrange(20 * i, 20 * i + 20));
    }
}

/// Within one record, the four bytes at each component's offset read back
/// as that component: the position components at offsets 0 and 4, the
/// color components at offsets 8, 12 and 16.
pub proof fn lemma_vertex_record_decode(v: Vertex)
    ensures
        u32_from_le(vertex_bytes(v).subrange(0, 4)) == v.position_x,
        u32_from_le(vertex_bytes(v).subrange(4, 8)) == v.position_y,
        u32_from_le(vertex_bytes(v).subrange(8, 12)) == v.color_r,
        u32_from_le(vertex_bytes(v).subrange(12, 16)) == v.color_g,
        u32_from_le(vertex_bytes(v).subrange(16, 20)) == v.color_b,
{
    assert(vertex_bytes(v).subrange(0, 4) =~= le_bytes_u32(v.position_x));
    assert(vertex_bytes(v).subrange(4, 8) =~= le_bytes_u32(v.position_y));
    assert(vertex_bytes(v).subrange(8, 12) =~= le_bytes_u32(v.color_r));
    assert(vertex_bytes(v).subrange(12, 16) =~= le_bytes_u32(v.color_g));
    assert(vertex_bytes(v).subrange(16, 20) =~= le_bytes_u32(v.color_b));
    lemma_le_roundtrip(v.position_x);
    lemma_le_roundtrip(v.position_y);
    lemma_le_roundtrip(v.color_r);
    lemma_le_roundtrip(v.color_g);
    lemma_le_roundtrip(v.color_b);
}

/// The uploaded vertex buffer: created once from host data, read only as a
/// vertex source, never changed afterwards. `bytes` is the exact device
/// content, `vertex_count` how many records it holds.
pub struct GeometryBuffer {
    pub bytes: Vec<u8>,
    pub vertex_count: usize,
}

impl GeometryBuffer {
    /// One-shot upload of host vertices: the buffer holds their records in
    /// order, each component little-endian.
    pub fn upload(vs: &Vec<Vertex>) -> (b: GeometryBuffer)
        ensures
            b.bytes@ == buffer_bytes(vs@),
            b.vertex_count == vs@.len(),
    {
        let bytes = encode_vertices(vs);
        GeometryBuffer { bytes, vertex_count: vs.len() }
    }
}

} // verus!
