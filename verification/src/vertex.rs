//! Vertex records of the two layouts the back-end batches, and the reading
//! of a flat triangle list as a sequence of such records.

use vstd::prelude::*;

verus! {

/// One corner of a flat-coloured triangle.
///
/// The back-end moves the components and never computes on them, so the
/// scalar type `S` is left to the caller.
#[derive(Clone, Copy, Debug, PartialEq)]
pub struct Vertex<S> {
    /// Position, `[x, y]`.
    pub pos: [S; 2],
    /// Colour, `[r, g, b, a]`.
    pub color: [S; 4],
}

impl<S> Vertex<S> {
    /// Builds a vertex from its position and colour.
    pub fn new(pos: [S; 2], color: [S; 4]) -> (v: Vertex<S>)
        ensures
            v == (Vertex { pos, color }),
    {
        Vertex { pos, color }
    }
}

/// One corner of a textured triangle: the fields of a [`Vertex`] and the
/// coordinate at which the texture is sampled.
#[derive(Clone, Copy, Debug, PartialEq)]
pub struct VertexUV<S> {
    /// Position, `[x, y]`.
    pub pos: [S; 2],
    /// Colour, `[r, g, b, a]`.
    pub color: [S; 4],
    /// Texture coordinate, `[u, v]`.
    pub uv: [S; 2],
}

impl<S> VertexUV<S> {
    /// Builds a textured vertex from its position, colour and texture
    /// coordinate.
    pub fn new(pos: [S; 2], color: [S; 4], uv: [S; 2]) -> (v: VertexUV<S>)
        ensures
            v == (VertexUV { pos, color, uv }),
    {
        VertexUV { pos, color, uv }
    }
}

/// How many vertices a flat position array of length `len` describes: two
/// scalars each, an odd one at the end left over.
pub open spec fn vertex_count(len: nat) -> nat {
    len / 2
}

/// Whether a colour array has the length that goes with a position array:
/// four scalars for each vertex.
pub open spec fn colors_match(vertices: nat, colors: nat) -> bool {
    colors == 4 * vertex_count(vertices)
}

/// The vertex that entry `i` of a flat triangle list describes.
pub open spec fn flat_vertex<S>(vertices: Seq<S>, colors: Seq<S>, i: int) -> Vertex<S> {
    Vertex {
        pos: [vertices[2 * i], vertices[2 * i + 1]],
        color: [colors[4 * i], colors[4 * i + 1], colors[4 * i + 2], colors[4 * i + 3]],
    }
}

/// The vertices that a flat triangle list describes, in the order given.
pub open spec fn flat_vertices<S>(vertices: Seq<S>, colors: Seq<S>) -> Seq<Vertex<S>> {
    Seq::new(vertex_count(vertices.len()), |i: int| flat_vertex(vertices, colors, i))
}

/// Entry `i` of a flat triangle list has the position `vertices[2i..2i+2]`
/// and the colour `colors[4i..4i+4]`.
pub proof fn lemma_flat_vertex_slices<S>(vertices: Seq<S>, colors: Seq<S>, i: int)
    requires
        colors_match(vertices.len(), colors.len()),
        0 <= i < vertex_count(vertices.len()),
    ensures
        flat_vertices(vertices, colors)[i].pos@ == vertices.subrange(2 * i, 2 * i + 2),
        flat_vertices(vertices, colors)[i].color@ == colors.subrange(4 * i, 4 * i + 4),
{
}

} // verus!
