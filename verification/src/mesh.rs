//! Building an immutable triangle-list mesh resource from accumulated
//! vertex buffers.

use vstd::prelude::*;
use crate::vertex::{BuffersView, VertexBuffers};

verus! {

/// A 3D position: the 2D tessellation position widened with a zero third
/// component. Components are `f32` bit patterns; the bit pattern of `0.0`
/// is `0`.
#[derive(Clone, Copy, Debug, PartialEq, Eq, Structural)]
pub struct Pos3 {
    /// X coordinate, as an `f32` bit pattern.
    pub x: u32,
    /// Y coordinate, as an `f32` bit pattern.
    pub y: u32,
    /// Z coordinate, as an `f32` bit pattern; always `0` here.
    pub z: u32,
}

/// Mathematical view of a mesh resource.
pub struct MeshView {
    /// Per-vertex positions.
    pub positions: Seq<Pos3>,
    /// Per-vertex packed colors.
    pub colors: Seq<u32>,
    /// Triangle-list indices.
    pub indices: Seq<u32>,
}

/// An immutable triangle-list mesh: a position attribute (3 components,
/// z = 0), a color attribute, and an index list. Built fresh from a
/// [`VertexBuffers`] each time a shape is (re)meshed.
pub struct MeshData {
    /// Per-vertex positions.
    pub positions: Vec<Pos3>,
    /// Per-vertex packed colors.
    pub colors: Vec<u32>,
    /// Triangle-list indices.
    pub indices: Vec<u32>,
}

impl View for MeshData {
    type V = MeshView;

    open spec fn view(&self) -> MeshView {
        MeshView { positions: self.positions@, colors: self.colors@, indices: self.indices@ }
    }
}

/// The mesh a buffer pair describes: each vertex position widened with
/// z = 0, colors taken as they are, indices as accumulated.
pub open spec fn mesh_of(b: BuffersView) -> MeshView {
    MeshView {
        positions: b.vertices.map(|_i: int, v: crate::vertex::Vertex| Pos3 { x: v.x, y: v.y, z: 0 }),
        colors: b.vertices.map(|_i: int, v: crate::vertex::Vertex| v.color),
        indices: b.indices,
    }
}

/// Build the triangle-list mesh for the accumulated buffers.
pub fn build_mesh(buffers: &VertexBuffers) -> (m: MeshData)
    ensures
        m@ == mesh_of(buffers@),
{
    let mut positions: Vec<Pos3> = Vec::new();
    let mut colors: Vec<u32> = Vec::new();
    let mut i: usize = 0;
    while i < buffers.vertices.len()
        invariant
            i <= buffers@.vertices.len(),
            positions@ == mesh_of(buffers@).positions.take(i as int),
            colors@ == mesh_of(buffers@).colors.take(i as int),
        decreases buffers@.vertices.len() - i,
    {
        let v = buffers.vertices[i];
        positions.push(Pos3 { x: v.x, y: v.y, z: 0 });
        colors.push(v.color);
        proof {
            assert(positions@ =~= mesh_of(buffers@).positions.take(i + 1));
            assert(colors@ =~= mesh_of(buffers@).colors.take(i + 1));
        }
        i = i + 1;
    }
    let mut indices: Vec<u32> = Vec::new();
    let mut j: usize = 0;
    while j < buffers.indices.len()
        invariant
            j <= buffers@.indices.len(),
            indices@ == buffers@.indices.take(j as int),
        decreases buffers@.indices.len() - j,
    {
        indices.push(buffers.indices[j]);
        proof {
            assert(indices@ =~= buffers@.indices.take(j + 1));
        }
        j = j + 1;
    }
    let m = MeshData { positions, colors, indices };
    proof {
        assert(m@.positions =~= mesh_of(buffers@).positions);
        assert(m@.colors =~= mesh_of(buffers@).colors);
        assert(m@.indices =~= mesh_of(buffers@).indices);
    }
    m
}

} // verus!
