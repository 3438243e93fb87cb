//! The output vertex layout and the growable vertex/index buffer pair that
//! accumulates tessellation output, together with the winding adapter that
//! flips each emitted triangle from the tessellator's native clockwise order
//! to the counter-clockwise order the renderer expects.

use vstd::prelude::*;

verus! {

/// One output vertex: a 2D position (as `f32` bit patterns) and a packed
/// RGBA color. Produced only by the tessellation drivers.
#[derive(Clone, Copy, Debug, PartialEq, Eq, Structural)]
pub struct Vertex {
    /// X coordinate, as an `f32` bit pattern.
    pub x: u32,
    /// Y coordinate, as an `f32` bit pattern.
    pub y: u32,
    /// Packed RGBA color.
    pub color: u32,
}

/// Mathematical view of a buffer pair.
pub struct BuffersView {
    /// Vertices in emission order.
    pub vertices: Seq<Vertex>,
    /// Indices, in triples, each triple one counter-clockwise triangle.
    pub indices: Seq<u32>,
}

/// A growable pair of vertex and index sequences. During one tessellation
/// pass it is append-only; an `Outlined` style appends a fill pass and a
/// stroke pass into the same instance.
pub struct VertexBuffers {
    /// Vertices in emission order.
    pub vertices: Vec<Vertex>,
    /// Index triples referencing `vertices` by offset.
    pub indices: Vec<u32>,
}

impl View for VertexBuffers {
    type V = BuffersView;

    open spec fn view(&self) -> BuffersView {
        BuffersView { vertices: self.vertices@, indices: self.indices@ }
    }
}

/// The empty buffer pair.
pub open spec fn empty_buffers() -> BuffersView {
    BuffersView { vertices: Seq::<Vertex>::empty(), indices: Seq::<u32>::empty() }
}

/// Buffer invariant: indices come in triples, every index addresses an
/// existing vertex, and the vertex count fits the `u32` index type.
pub open spec fn buffers_wf(b: BuffersView) -> bool {
    b.indices.len() % 3 == 0 && b.vertices.len() <= u32::MAX && (forall|i: int|
        0 <= i < b.indices.len() ==> (b.indices[i] as int) < b.vertices.len())
}

impl VertexBuffers {
    /// A fresh, empty buffer pair.
    pub fn new() -> (r: Self)
        ensures
            r@ == empty_buffers(),
            buffers_wf(r@),
    {
        let r = VertexBuffers { vertices: Vec::new(), indices: Vec::new() };
        proof {
            assert(r@.vertices =~= empty_buffers().vertices);
            assert(r@.indices =~= empty_buffers().indices);
            assert(r@ == empty_buffers());
        }
        r
    }
}

/// Adapter between the tessellator's geometry stream and a [`VertexBuffers`].
///
/// The tessellator's native triangle emission order is clockwise; the
/// renderer wants counter-clockwise front faces. This adapter forwards each
/// triangle `(a, b, c)` as `(a, c, b)` — one index swap per triangle, applied
/// uniformly — and passes vertex registration through unchanged. The swap is
/// a compatibility shim for the tessellation library's current convention,
/// not a geometric law.
///
/// `base` is the number of vertices already in the buffer when this pass
/// began; emitted indices are relative to it. `color` is stamped on every
/// vertex this pass registers.
pub struct CcwBuffersBuilder {
    /// Vertex offset of the current pass.
    pub base: u32,
    /// Color stamped on every vertex of the current pass.
    pub color: u32,
}

impl CcwBuffersBuilder {
    /// An adapter whose pass starts at the buffer's current vertex count.
    pub fn new(buffers: &VertexBuffers, color: u32) -> (r: Self)
        requires
            buffers@.vertices.len() <= u32::MAX,
        ensures
            r.base == buffers@.vertices.len(),
            r.color == color,
    {
        CcwBuffersBuilder { base: buffers.vertices.len() as u32, color }
    }

    /// Register one vertex, stamped with this pass's color. Pass-through:
    /// exactly one vertex is appended, with the given position, and the
    /// indices are untouched.
    pub fn add_vertex(&self, buffers: &mut VertexBuffers, x: u32, y: u32)
        ensures
            final(buffers)@.vertices == old(buffers)@.vertices.push(
                Vertex { x, y, color: self.color }
            ),
            final(buffers)@.indices == old(buffers)@.indices,
    {
        buffers.vertices.push(Vertex { x, y, color: self.color });
    }

    /// Forward one triangle submitted as `(a, b, c)`, emitting it as
    /// `(a, c, b)` — the winding flip — offset by this pass's vertex base.
    pub fn add_triangle(&self, buffers: &mut VertexBuffers, a: u32, b: u32, c: u32)
        requires
            self.base + a <= u32::MAX,
            self.base + b <= u32::MAX,
            self.base + c <= u32::MAX,
        ensures
            final(buffers)@.indices == old(buffers)@.indices.push(
                (self.base + a) as u32
            ).push((self.base + c) as u32).push((self.base + b) as u32),
            final(buffers)@.vertices == old(buffers)@.vertices,
    {
        buffers.indices.push(self.base + a);
        buffers.indices.push(self.base + c);
        buffers.indices.push(self.base + b);
    }
}

} // verus!
