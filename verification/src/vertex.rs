//! Vertices, and how a vertex buffer holds them.

use vstd::prelude::*;

use crate::bytes::{
    cast_words, law_memory_holds_words, lemma_memory_of_subrange, machine_is_big_endian, memory_of,
    word_at, words,
};
use crate::scalar::Scalar;

verus! {

/// A point of the mesh and its colour.
#[derive(Clone, Copy, Debug, PartialEq, Eq)]
pub struct Vertex {
    pub position: [Scalar; 2],
    pub color: [Scalar; 3],
}

/// The format of one vertex attribute.
#[derive(Clone, Copy, Debug, PartialEq, Eq, Structural)]
pub enum VertexFormat {
    Float32x2,
    Float32x3,
}

/// What a vertex buffer advances by: each vertex or each instance.
#[derive(Clone, Copy, Debug, PartialEq, Eq, Structural)]
pub enum VertexStepMode {
    Vertex,
    Instance,
}

/// One attribute of a vertex, and where the shader finds it.
#[derive(Clone, Copy, Debug, PartialEq, Eq, Structural)]
pub struct VertexAttribute {
    pub format: VertexFormat,
    pub offset: u64,
    pub shader_location: u32,
}

/// How a vertex buffer is to be read.
#[derive(Clone, Copy, Debug, PartialEq, Eq)]
pub struct VertexBufferLayout {
    pub array_stride: u64,
    pub step_mode: VertexStepMode,
    pub attributes: [VertexAttribute; 2],
}

/// The number of components of a format.
pub open spec fn component_count(format: VertexFormat) -> int {
    match format {
        VertexFormat::Float32x2 => 2,
        VertexFormat::Float32x3 => 3,
    }
}

/// Calls `wgpu::VertexFormat::size`: the bytes that one attribute of the format takes, four
/// for each component.
#[verifier::external_body]
fn format_size(format: VertexFormat) -> (size: u64)
    ensures
        size == 4 * component_count(format),
{
    match format {
        VertexFormat::Float32x2 => wgpu::VertexFormat::Float32x2.size(),
        VertexFormat::Float32x3 => wgpu::VertexFormat::Float32x3.size(),
    }
}

/// The components of a vertex in the order in which a buffer holds them.
pub open spec fn components(vertex: Vertex) -> Seq<u32> {
    seq![
        vertex.position[0].bits,
        vertex.position[1].bits,
        vertex.color[0].bits,
        vertex.color[1].bits,
        vertex.color[2].bits,
    ]
}

/// The components of all vertices, vertex by vertex.
pub open spec fn all_components(vertices: Seq<Vertex>) -> Seq<u32> {
    Seq::new((5 * vertices.len()) as nat, |k: int| components(vertices[k / 5])[k % 5])
}

/// How a vertex buffer of [`Vertex`] is laid out: the position at location 0, the colour
/// behind it at location 1, and nothing between one vertex and the next.
pub open spec fn vertex_layout() -> VertexBufferLayout {
    VertexBufferLayout {
        array_stride: 20,
        step_mode: VertexStepMode::Vertex,
        attributes: [
            VertexAttribute { format: VertexFormat::Float32x2, offset: 0, shader_location: 0 },
            VertexAttribute { format: VertexFormat::Float32x3, offset: 8, shader_location: 1 },
        ],
    }
}

impl Vertex {
    /// The layout of a buffer of vertices. Each attribute starts where the one before it ends.
    pub fn desc() -> (layout: VertexBufferLayout)
        ensures
            layout == vertex_layout(),
    {
        let position_size: u64 = format_size(VertexFormat::Float32x2);
        let color_size: u64 = format_size(VertexFormat::Float32x3);
        VertexBufferLayout {
            array_stride: position_size + color_size,
            step_mode: VertexStepMode::Vertex,
            attributes: [
                VertexAttribute { format: VertexFormat::Float32x2, offset: 0, shader_location: 0 },
                VertexAttribute {
                    format: VertexFormat::Float32x3,
                    offset: position_size,
                    shader_location: 1,
                },
            ],
        }
    }
}

/// The bytes of a vertex buffer that holds `vertices`.
pub fn vertex_bytes(vertices: &Vec<Vertex>) -> (bytes: Vec<u8>)
    ensures
        bytes@ == memory_of(words(all_components(vertices@)), 4),
{
    let mut numbers: Vec<u32> = Vec::new();
    let mut i: usize = 0;
    while i < vertices.len()
        invariant
            i <= vertices@.len(),
            numbers@ == all_components(vertices@.take(i as int)),
        decreases vertices@.len() - i,
    {
        let vertex = vertices[i];
        numbers.push(vertex.position[0].bits);
        numbers.push(vertex.position[1].bits);
        numbers.push(vertex.color[0].bits);
        numbers.push(vertex.color[1].bits);
        numbers.push(vertex.color[2].bits);
        i = i + 1;
        assert(numbers@ =~= all_components(vertices@.take(i as int)));
    }
    assert(vertices@.take(i as int) =~= vertices@);
    cast_words(&numbers)
}

/// The components that attribute `a` of the layout stands for.
pub open spec fn attribute_components(vertex: Vertex, a: int) -> Seq<u32> {
    if a == 0 {
        seq![vertex.position[0].bits, vertex.position[1].bits]
    } else {
        seq![vertex.color[0].bits, vertex.color[1].bits, vertex.color[2].bits]
    }
}

/// The layout finds in the buffer what the vertices hold. The bytes of attribute `a` of vertex
/// `v`, which start at the attribute's offset within the stride of that vertex and are as many
/// as its format takes, are the memory of the vertex's own components; and the strides of all
/// vertices fill the buffer.
pub proof fn law_layout_reads_back_vertices(vertices: Seq<Vertex>, v: int, a: int)
    requires
        0 <= v < vertices.len(),
        0 <= a < 2,
    ensures
        ({
            let layout = vertex_layout();
            let attribute = layout.attributes[a];
            let buffer = memory_of(words(all_components(vertices)), 4);
            let start = layout.array_stride * v + attribute.offset;
            let end = start + 4 * component_count(attribute.format);
            &&& buffer.len() == layout.array_stride * vertices.len()
            &&& 0 <= start <= end <= layout.array_stride * (v + 1) <= buffer.len()
            &&& attribute.shader_location == a
            &&& buffer.subrange(start, end) == memory_of(
                words(attribute_components(vertices[v], a)),
                4,
            )
        }),
{
    let numbers = words(all_components(vertices));
    let first: int = if a == 0 { 5 * v } else { 5 * v + 2 };
    let end: int = if a == 0 { 5 * v + 2 } else { 5 * v + 5 };
    lemma_memory_of_subrange(numbers, 4, machine_is_big_endian(), first, end);
    assert(numbers.subrange(first, end) =~= words(attribute_components(vertices[v], a)));
}

/// Component `k` of vertex `v` lies in memory where it should.
proof fn lemma_component_in_memory(vertices: Seq<Vertex>, v: int, k: int)
    requires
        0 <= v < vertices.len(),
        0 <= k < 5,
    ensures
        memory_of(words(all_components(vertices)), 4).len() == 20 * vertices.len(),
        word_at(memory_of(words(all_components(vertices)), 4), 20 * v + 4 * k) == components(
            vertices[v],
        )[k],
{
    let numbers = all_components(vertices);
    assert(numbers[5 * v + k] == components(vertices[v])[k]);
    law_memory_holds_words(numbers, 5 * v + k);
    assert(4 * (5 * v + k) == 20 * v + 4 * k);
}

/// A vertex buffer holds every vertex it is made from, whole and in its place: it has twenty bytes
/// for each, and at the bytes of vertex `v` the machine reads its position and then its colour.
#[verifier::spinoff_prover]
pub proof fn law_vertex_bytes_hold_every_vertex(vertices: Seq<Vertex>, v: int)
    requires
        0 <= v < vertices.len(),
    ensures
        ({
            let buffer = memory_of(words(all_components(vertices)), 4);
            &&& buffer.len() == 20 * vertices.len()
            &&& word_at(buffer, 20 * v) == vertices[v].position[0].bits
            &&& word_at(buffer, 20 * v + 4) == vertices[v].position[1].bits
            &&& word_at(buffer, 20 * v + 8) == vertices[v].color[0].bits
            &&& word_at(buffer, 20 * v + 12) == vertices[v].color[1].bits
            &&& word_at(buffer, 20 * v + 16) == vertices[v].color[2].bits
        }),
{
    lemma_component_in_memory(vertices, v, 0);
    lemma_component_in_memory(vertices, v, 1);
    lemma_component_in_memory(vertices, v, 2);
    lemma_component_in_memory(vertices, v, 3);
    lemma_component_in_memory(vertices, v, 4);
}

} // verus!
