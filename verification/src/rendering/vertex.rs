//! The fixed triangle geometry and its GPU memory layout.

use crate::math::push_word_bytes;
use crate::math::spec_word_bytes;
use crate::math::Vec3Bits;
use crate::math::F32_HALF_BITS;
use crate::math::F32_NEG_HALF_BITS;
use crate::math::F32_ONE_BITS;
use vstd::prelude::*;

verus! {

/// How many vertices the fixed triangle has.
pub const TRIANGLE_VERTEX_COUNT: u32 = 3;

/// One vertex as the shader consumes it: a position and a color, three
/// 32-bit floats each, packed position first.  Held here as bit patterns.
#[derive(Clone, Copy, Debug, PartialEq, Eq, Structural)]
pub struct Vertex {
    pub position: Vec3Bits,
    pub color: Vec3Bits,
}

/// The fixed triangle, in counter-clockwise order: a red vertex at the
/// top, a green one at the bottom left, a blue one at the bottom right.
pub open spec fn spec_triangle_vertices() -> Seq<Vertex> {
    seq![
        Vertex {
            position: Vec3Bits { x: 0u32, y: F32_HALF_BITS, z: 0u32 },
            color: Vec3Bits { x: F32_ONE_BITS, y: 0u32, z: 0u32 },
        },
        Vertex {
            position: Vec3Bits { x: F32_NEG_HALF_BITS, y: F32_NEG_HALF_BITS, z: 0u32 },
            color: Vec3Bits { x: 0u32, y: F32_ONE_BITS, z: 0u32 },
        },
        Vertex {
            position: Vec3Bits { x: F32_HALF_BITS, y: F32_NEG_HALF_BITS, z: 0u32 },
            color: Vec3Bits { x: 0u32, y: 0u32, z: F32_ONE_BITS },
        },
    ]
}

/// The fixed triangle geometry.
pub fn triangle_vertices() -> (r: Vec<Vertex>)
    ensures
        r@ == spec_triangle_vertices(),
{
    let mut r: Vec<Vertex> = Vec::new();
    r.push(Vertex {
        position: Vec3Bits { x: 0, y: F32_HALF_BITS, z: 0 },
        color: Vec3Bits { x: F32_ONE_BITS, y: 0, z: 0 },
    });
    r.push(Vertex {
        position: Vec3Bits { x: F32_NEG_HALF_BITS, y: F32_NEG_HALF_BITS, z: 0 },
        color: Vec3Bits { x: 0, y: F32_ONE_BITS, z: 0 },
    });
    r.push(Vertex {
        position: Vec3Bits { x: F32_HALF_BITS, y: F32_NEG_HALF_BITS, z: 0 },
        color: Vec3Bits { x: 0, y: 0, z: F32_ONE_BITS },
    });
    proof {
        assert(r@ =~= spec_triangle_vertices());
    }
    r
}

impl Vertex {
    /// Relies on wgpu's `VertexBufferLayout`: describes this vertex type
    /// to the render pipeline — a stride of twenty-four bytes per vertex,
    /// the position at byte offset zero in shader location zero, the color
    /// at byte offset twelve in shader location one, each three 32-bit
    /// floats.
    #[verifier::external_body]
    pub fn describe_vertex_buffer_layout() -> (r: wgpu::VertexBufferLayout<'static>) {
        wgpu::VertexBufferLayout {
            array_stride: 24,
            step_mode: wgpu::VertexStepMode::Vertex,
            attributes: &[
                wgpu::VertexAttribute { offset: 0, shader_location: 0, format: wgpu::VertexFormat::Float32x3 },
                wgpu::VertexAttribute { offset: 12, shader_location: 1, format: wgpu::VertexFormat::Float32x3 },
            ],
        }
    }
}

/// One vertex serialized: the three position words, then the three color
/// words, each as little-endian bytes.  The position starts at byte offset
/// zero and the color at byte offset twelve.
pub open spec fn spec_vertex_bytes(v: Vertex) -> Seq<u8> {
    spec_word_bytes(v.position.x) + spec_word_bytes(v.position.y) + spec_word_bytes(v.position.z)
        + spec_word_bytes(v.color.x) + spec_word_bytes(v.color.y) + spec_word_bytes(v.color.z)
}

/// A vertex list serialized vertex by vertex, twenty-four bytes each.
pub open spec fn spec_vertices_bytes(vs: Seq<Vertex>) -> Seq<u8>
    decreases vs.len(),
{
    if vs.len() == 0 {
        Seq::<u8>::empty()
    } else {
        spec_vertex_bytes(vs[0]) + spec_vertices_bytes(vs.drop_first())
    }
}

/// Serializes vertices to the bytes the GPU vertex buffer holds.
pub fn vertex_bytes(vertices: &Vec<Vertex>) -> (r: Vec<u8>)
    ensures
        r@ == spec_vertices_bytes(vertices@),
{
    let n = vertices.len();
    let mut out: Vec<u8> = Vec::new();
    let mut i: usize = 0;
    while i < n
        invariant
            n == vertices@.len(),
            i <= n,
            out@ == spec_vertices_bytes(vertices@.take(i as int)),
        decreases n - i,
    {
        proof {
            lemma_vertices_bytes_take_step(vertices@, i as int);
        }
        let ghost before = out@;
        let v = vertices[i];
        push_word_bytes(&mut out, v.position.x);
        push_word_bytes(&mut out, v.position.y);
        push_word_bytes(&mut out, v.position.z);
        push_word_bytes(&mut out, v.color.x);
        push_word_bytes(&mut out, v.color.y);
        push_word_bytes(&mut out, v.color.z);
        proof {
            assert(out@ =~= before + spec_vertex_bytes(v));
            assert(out@ =~= spec_vertices_bytes(vertices@.take(i + 1)));
        }
        i = i + 1;
    }
    proof {
        assert(vertices@.take(n as int) =~= vertices@);
    }
    out
}

/// Serializing one more vertex appends that vertex's bytes.
proof fn lemma_vertices_bytes_take_step(vs: Seq<Vertex>, i: int)
    requires
        0 <= i < vs.len(),
    ensures
        spec_vertices_bytes(vs.take(i + 1)) == spec_vertices_bytes(vs.take(i)) + spec_vertex_bytes(
            vs[i],
        ),
    decreases i,
{
    let a = vs.take(i + 1);
    let b = vs.take(i);
    assert(a.len() == i + 1);
    assert(spec_vertices_bytes(Seq::<Vertex>::empty()) == Seq::<u8>::empty());
    if i == 0 {
        assert(b.len() == 0);
        assert(b =~= Seq::<Vertex>::empty());
        assert(a.drop_first() =~= Seq::<Vertex>::empty());
        assert(spec_vertices_bytes(a) == spec_vertex_bytes(a[0]) + spec_vertices_bytes(
            a.drop_first(),
        ));
        assert(a[0] == vs[0]);
        assert(spec_vertices_bytes(a) =~= spec_vertices_bytes(b) + spec_vertex_bytes(vs[0]));
    } else {
        let d = vs.drop_first();
        lemma_vertices_bytes_take_step(d, i - 1);
        assert(a.drop_first() =~= d.take(i));
        assert(b.drop_first() =~= d.take(i - 1));
        assert(spec_vertices_bytes(a) == spec_vertex_bytes(a[0]) + spec_vertices_bytes(d.take(i)));
        assert(spec_vertices_bytes(b) == spec_vertex_bytes(b[0]) + spec_vertices_bytes(
            d.take(i - 1),
        ));
        assert(d[i - 1] == vs[i]);
        assert(a[0] == vs[0] && b[0] == vs[0]);
        assert(spec_vertices_bytes(d.take(i)) == spec_vertices_bytes(d.take(i - 1))
            + spec_vertex_bytes(d[i - 1]));
        assert(spec_vertices_bytes(a) =~= spec_vertices_bytes(b) + spec_vertex_bytes(vs[i]));
    }
}

} // verus!
