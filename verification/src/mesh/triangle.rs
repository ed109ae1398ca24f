//! Grouping a vertex stream into triangles.

use vstd::prelude::*;
use crate::mesh::cursor::Cursor;

verus! {

/// A triangle given by its three corners, in order.
#[derive(Clone, Copy, Debug, PartialEq)]
pub struct TupleTriangle<V>(pub V, pub V, pub V);

impl<V> TupleTriangle<V> {
    pub fn new(v0: V, v1: V, v2: V) -> (tri: Self)
        ensures
            tri == TupleTriangle(v0, v1, v2),
    {
        TupleTriangle(v0, v1, v2)
    }

    /// The three corners, in order.
    pub fn vertices(&self) -> (corners: (&V, &V, &V))
        ensures
            *corners.0 == self.0,
            *corners.1 == self.1,
            *corners.2 == self.2,
    {
        (&self.0, &self.1, &self.2)
    }
}

/// The triangles that a vertex sequence holds: each three successive vertices
/// form one, and up to two vertices at the end belong to none.
pub open spec fn triangles_of<V>(vs: Seq<V>) -> Seq<TupleTriangle<V>> {
    Seq::new(
        (vs.len() / 3) as nat,
        |k: int| TupleTriangle(vs[3 * k], vs[3 * k + 1], vs[3 * k + 2]),
    )
}

/// The corners of the triangles of `ts`, three per triangle, in order.
pub open spec fn corners_of<V>(ts: Seq<TupleTriangle<V>>) -> Seq<V> {
    Seq::new(
        3 * ts.len(),
        |j: int|
            if j % 3 == 0 {
                ts[j / 3].0
            } else if j % 3 == 1 {
                ts[j / 3].1
            } else {
                ts[j / 3].2
            },
    )
}

/// A vertex sequence holds a third as many triangles as vertices, rounded
/// down.
pub proof fn lemma_triangle_count<V>(vs: Seq<V>)
    ensures
        triangles_of(vs).len() == vs.len() / 3,
{
}

/// The triangles of a vertex sequence use its vertices in order and leave out
/// only what is left at the end after the last whole triple: nothing at all
/// where the number of vertices is a multiple of 3.
pub proof fn lemma_triangles_use_vertices<V>(vs: Seq<V>)
    ensures
        corners_of(triangles_of(vs)) == vs.take(vs.len() - vs.len() % 3),
        vs.len() % 3 == 0 ==> corners_of(triangles_of(vs)) == vs,
{
    let used = vs.take(vs.len() - vs.len() % 3);
    assert(corners_of(triangles_of(vs)) =~= used);
    if vs.len() % 3 == 0 {
        assert(used =~= vs);
    }
}

/// Iterates over a vertex stream where each three consecutive vertices form
/// a triangle.
#[verifier::reject_recursive_types(V)]
pub struct TriangleMeshIter<V, I> where I: Cursor<Item = V> {
    vertex_iter: I,
}

impl<V, I> TriangleMeshIter<V, I> where I: Cursor<Item = V> {
    /// The vertices that the wrapped stream has yet to yield.
    pub closed spec fn remaining_vertices(&self) -> Seq<V> {
        self.vertex_iter.remaining()
    }

    pub fn new(vertex_iter: I) -> (iter: Self)
        ensures
            iter.remaining_vertices() == vertex_iter.remaining(),
            iter.remaining() == triangles_of(vertex_iter.remaining()),
    {
        TriangleMeshIter { vertex_iter }
    }
}

impl<V, I> Cursor for TriangleMeshIter<V, I> where I: Cursor<Item = V> {
    type Item = TupleTriangle<V>;

    /// The triangles of the vertices that are left.
    open spec fn remaining(&self) -> Seq<TupleTriangle<V>> {
        triangles_of(self.remaining_vertices())
    }

    /// Pulls three vertices from the wrapped stream and yields them as a
    /// triangle. If the stream ends before the third, the vertices pulled are
    /// dropped and the stream stays exhausted.
    fn next(&mut self) -> (item: Option<TupleTriangle<V>>)
        ensures
            old(self).remaining_vertices().len() >= 3 ==> final(self).remaining_vertices() == old(
                self,
            ).remaining_vertices().skip(3),
            old(self).remaining_vertices().len() < 3 ==> final(self).remaining_vertices().len()
                == 0,
    {
        let ghost before = self.vertex_iter.remaining();
        let first = self.vertex_iter.next();
        let second = self.vertex_iter.next();
        let third = self.vertex_iter.next();
        if let (Some(v0), Some(v1), Some(v2)) = (first, second, third) {
            proof {
                let after = self.vertex_iter.remaining();
                assert(after =~= before.skip(3));
                assert(triangles_of(after) =~= triangles_of(before).skip(1));
            }
            Some(TupleTriangle::new(v0, v1, v2))
        } else {
            None
        }
    }
}

} // verus!
