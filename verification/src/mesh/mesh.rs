//! The mesh capability.

use vstd::prelude::*;
use crate::mesh::cursor::Cursor;
use crate::mesh::triangle::{triangles_of, TriangleMeshIter};

verus! {

/// Implemented by types that represent triangle meshes.
///
/// They must at least provide a way of iterating over their vertices and the
/// number of those. Each three successive vertices are taken to form a
/// triangle; up to two vertices at the end that form none are counted as
/// vertices and left out of the triangles.
pub trait Mesh<'a> {
    type Vertex;

    type VertexIter: Cursor<Item = Self::Vertex>;

    /// Whether the mesh keeps its own invariant, so that its vertices can be
    /// read.
    spec fn well_formed(&self) -> bool;

    /// The vertices of the mesh, in order.
    spec fn vertex_seq(&self) -> Seq<Self::Vertex>;

    /// A fresh cursor over the vertices. It borrows the mesh and leaves it
    /// unchanged, so any number of cursors may be at work at once.
    fn vertices(&'a self) -> (iter: Self::VertexIter)
        requires
            self.well_formed(),
        ensures
            iter.remaining() == self.vertex_seq(),
    ;

    fn vertex_count(&'a self) -> (count: usize)
        ensures
            count == self.vertex_seq().len(),
    ;

    /// Yields successive triangles in the mesh.
    ///
    /// Each three consecutive vertices form a `TupleTriangle`.
    fn triangles(&'a self) -> (iter: TriangleMeshIter<Self::Vertex, Self::VertexIter>)
        requires
            self.well_formed(),
        ensures
            iter.remaining_vertices() == self.vertex_seq(),
            iter.remaining() == triangles_of(self.vertex_seq()),
    {
        TriangleMeshIter::new(self.vertices())
    }

    /// The number of whole triangles: a third of the vertex count, rounded
    /// down.
    fn triangle_count(&'a self) -> (count: usize)
        ensures
            count == self.vertex_seq().len() / 3,
            count == triangles_of(self.vertex_seq()).len(),
    {
        self.vertex_count() / 3
    }
}

} // verus!
