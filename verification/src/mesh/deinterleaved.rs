//! The de-interleaved indexed mesh buffer.

use vstd::prelude::*;
use crate::mesh::cursor::Cursor;
use crate::mesh::mesh::Mesh;
use crate::vertex::{vertex_of, Normal, Position, Texcoords, Vec2, Vec3, Vertex};

verus! {

/// The scalars of `vs`, three per vector, in order.
pub open spec fn flatten3<S>(vs: Seq<Vec3<S>>) -> Seq<S> {
    Seq::new(
        3 * vs.len(),
        |j: int|
            if j % 3 == 0 {
                vs[j / 3].x
            } else if j % 3 == 1 {
                vs[j / 3].y
            } else {
                vs[j / 3].z
            },
    )
}

/// The scalars of `vs`, two per vector, in order.
pub open spec fn flatten2<S>(vs: Seq<Vec2<S>>) -> Seq<S> {
    Seq::new(
        2 * vs.len(),
        |j: int|
            if j % 2 == 0 {
                vs[j / 2].x
            } else {
                vs[j / 2].y
            },
    )
}

/// An indexed triangle mesh with de-interleaved vertices: each attribute has
/// its own vector, and `indices` selects one stored attribute set per vertex.
///
/// Attribute set `k` is `positions[3k..3k+3]`, `normals[3k..3k+3]` and
/// `texcoords[2k..2k+2]`. Each three successive indices form a triangle.
#[derive(Clone)]
pub struct DeinterleavedIndexedMeshBuf<S> {
    pub positions: Vec<S>,
    pub normals: Vec<S>,
    pub texcoords: Vec<S>,
    pub indices: Vec<u32>,
}

impl<S> DeinterleavedIndexedMeshBuf<S> {
    /// Whether attribute set `idx` lies inside all three attribute vectors.
    pub open spec fn has_attributes(&self, idx: int) -> bool {
        &&& 0 <= idx
        &&& 3 * (idx + 1) <= self.positions@.len()
        &&& 3 * (idx + 1) <= self.normals@.len()
        &&& 2 * (idx + 1) <= self.texcoords@.len()
    }

    /// The vertex stored as attribute set `idx`.
    pub open spec fn attributes(&self, idx: int) -> Vertex<S> {
        Vertex {
            position: Vec3 {
                x: self.positions@[3 * idx],
                y: self.positions@[3 * idx + 1],
                z: self.positions@[3 * idx + 2],
            },
            normal: Vec3 {
                x: self.normals@[3 * idx],
                y: self.normals@[3 * idx + 1],
                z: self.normals@[3 * idx + 2],
            },
            texcoords: Vec2 { x: self.texcoords@[2 * idx], y: self.texcoords@[2 * idx + 1] },
        }
    }

    /// Resolves the vertex at place `index_index` of the index sequence: the
    /// stored attribute set that the index there selects.
    pub fn vertex_at(&self, index_index: usize) -> (vertex: Vertex<S>) where S: Copy
        requires
            index_index < self.indices@.len(),
            self.has_attributes(self.indices@[index_index as int] as int),
        ensures
            vertex == self.attributes(self.indices@[index_index as int] as int),
    {
        let idx = self.indices[index_index] as usize;
        assert(3 * (idx + 1) <= self.positions.len() && 2 * (idx + 1) <= self.texcoords.len());

        Vertex {
            position: Vec3::new(
                self.positions[idx * 3],
                self.positions[idx * 3 + 1],
                self.positions[idx * 3 + 2],
            ),
            normal: Vec3::new(
                self.normals[idx * 3],
                self.normals[idx * 3 + 1],
                self.normals[idx * 3 + 2],
            ),
            texcoords: Vec2::new(self.texcoords[idx * 2], self.texcoords[idx * 2 + 1]),
        }
    }

    /// Whether this buffer is the one that collecting `vs` builds: one stored
    /// attribute set per vertex, in order, and the indices counting up from 0.
    ///
    /// An index is the count of the vertices before it, cut to 32 bits.
    pub open spec fn collects(&self, vs: Seq<Vertex<S>>) -> bool {
        &&& self.positions@ == flatten3(vs.map_values(|v: Vertex<S>| v.position))
        &&& self.normals@ == flatten3(vs.map_values(|v: Vertex<S>| v.normal))
        &&& self.texcoords@ == flatten2(vs.map_values(|v: Vertex<S>| v.texcoords))
        &&& self.indices@ == Seq::new(vs.len(), |i: int| i as u32)
    }

    /// Builds a buffer from a stream of vertex-like values.
    ///
    /// Each value of the stream becomes one stored attribute set and gets the
    /// next index, so the indices count up from 0. Equal vertices are stored
    /// again: nothing is deduplicated.
    pub fn from_iter<V, I>(iter: I) -> (buf: Self) where
        V: Position<S> + Normal<S> + Texcoords<S>,
        I: Cursor<Item = V>,

        ensures
            buf.collects(iter.remaining().map_values(|v: V| vertex_of::<S, V>(v))),
    {
        let mut iter = iter;
        let mut buf = DeinterleavedIndexedMeshBuf {
            positions: Vec::new(),
            normals: Vec::new(),
            texcoords: Vec::new(),
            indices: Vec::new(),
        };
        let ghost all = iter.remaining().map_values(|v: V| vertex_of::<S, V>(v));
        let ghost mut done: Seq<Vertex<S>> = Seq::empty();
        assert(buf.positions@ =~= flatten3(done.map_values(|v: Vertex<S>| v.position)));
        assert(buf.normals@ =~= flatten3(done.map_values(|v: Vertex<S>| v.normal)));
        assert(buf.texcoords@ =~= flatten2(done.map_values(|v: Vertex<S>| v.texcoords)));
        assert(buf.indices@ =~= Seq::new(done.len(), |i: int| i as u32));
        loop
            invariant_except_break
                buf.collects(done),
                all == done + iter.remaining().map_values(|v: V| vertex_of::<S, V>(v)),
            ensures
                buf.collects(all),
            decreases iter.remaining().len(),
        {
            match iter.next() {
                None => {
                    assert(all =~= done);
                    break ;
                },
                Some(vtx) => {
                    let Vec3 { x: pos_x, y: pos_y, z: pos_z } = vtx.position();
                    let Vec3 { x: normal_x, y: normal_y, z: normal_z } = vtx.normal();
                    let Vec2 { x: tex_x, y: tex_y } = vtx.texcoords();
                    let idx = #[verifier::truncate] (buf.indices.len() as u32);

                    buf.positions.push(pos_x);
                    buf.positions.push(pos_y);
                    buf.positions.push(pos_z);
                    buf.normals.push(normal_x);
                    buf.normals.push(normal_y);
                    buf.normals.push(normal_z);
                    buf.texcoords.push(tex_x);
                    buf.texcoords.push(tex_y);
                    buf.indices.push(idx);

                    proof {
                        let ghost grown = done.push(vertex_of::<S, V>(vtx));
                        assert(buf.positions@ =~= flatten3(
                            grown.map_values(|v: Vertex<S>| v.position),
                        ));
                        assert(buf.normals@ =~= flatten3(
                            grown.map_values(|v: Vertex<S>| v.normal),
                        ));
                        assert(buf.texcoords@ =~= flatten2(
                            grown.map_values(|v: Vertex<S>| v.texcoords),
                        ));
                        assert(buf.indices@ =~= Seq::new(grown.len(), |i: int| i as u32));
                        assert(all =~= grown + iter.remaining().map_values(
                            |v: V| vertex_of::<S, V>(v),
                        ));
                        done = grown;
                    }
                },
            }
        }
        buf
    }
}

/// A cursor over the vertices of a buffer, in the order of its indices.
pub struct DeinterleavedIndexedMeshBufIter<'a, S> {
    mesh: &'a DeinterleavedIndexedMeshBuf<S>,
    next_indices_idx: usize,
}

impl<'a, S> Clone for DeinterleavedIndexedMeshBufIter<'a, S> {
    fn clone(&self) -> (copy: Self)
        ensures
            copy == *self,
    {
        *self
    }
}

impl<'a, S> Copy for DeinterleavedIndexedMeshBufIter<'a, S> {

}

impl<'a, S> DeinterleavedIndexedMeshBufIter<'a, S> {
    #[verifier::type_invariant]
    spec fn inv(self) -> bool {
        &&& self.next_indices_idx <= self.mesh.indices@.len()
        &&& forall|i: int|
            0 <= i < self.mesh.indices@.len() ==> self.mesh.has_attributes(
                #[trigger] self.mesh.indices@[i] as int,
            )
    }
}

impl<'a, S: Copy> Cursor for DeinterleavedIndexedMeshBufIter<'a, S> {
    type Item = Vertex<S>;

    closed spec fn remaining(&self) -> Seq<Vertex<S>> {
        self.mesh.vertex_seq().skip(self.next_indices_idx as int)
    }

    fn next(&mut self) -> (item: Option<Vertex<S>>) {
        proof {
            use_type_invariant(&*self);
        }
        let idx = self.next_indices_idx;

        if idx >= self.mesh.indices.len() {
            None
        } else {
            self.next_indices_idx += 1;
            let vtx = self.mesh.vertex_at(idx);
            assert(self.remaining() =~= old(self).remaining().skip(1));
            Some(vtx)
        }
    }
}

impl<S: Copy> DeinterleavedIndexedMeshBuf<S> {
    /// Tests the invariant that reading the vertices asks of a buffer: every
    /// index selects a stored attribute set.
    pub fn is_well_formed(&self) -> (ok: bool)
        ensures
            ok == self.well_formed(),
    {
        let position_sets = self.positions.len() / 3;
        let normal_sets = self.normals.len() / 3;
        let texcoord_sets = self.texcoords.len() / 2;
        let mut i: usize = 0;
        while i < self.indices.len()
            invariant
                i <= self.indices@.len(),
                position_sets == self.positions@.len() / 3,
                normal_sets == self.normals@.len() / 3,
                texcoord_sets == self.texcoords@.len() / 2,
                forall|j: int|
                    0 <= j < i ==> self.has_attributes(#[trigger] self.indices@[j] as int),
            decreases self.indices@.len() - i,
        {
            let idx = self.indices[i] as usize;
            if idx >= position_sets || idx >= normal_sets || idx >= texcoord_sets {
                assert(!self.has_attributes(self.indices@[i as int] as int));
                return false;
            }
            i = i + 1;
        }
        true
    }

    /// A cursor at the first vertex. The buffer is only borrowed: it stays as
    /// it is, and several cursors can read it at once.
    pub fn into_iter<'a>(&'a self) -> (iter: DeinterleavedIndexedMeshBufIter<'a, S>)
        requires
            self.well_formed(),
        ensures
            iter.remaining() == self.vertex_seq(),
    {
        let iter = DeinterleavedIndexedMeshBufIter { mesh: self, next_indices_idx: 0 };
        assert(iter.remaining() =~= self.vertex_seq());
        iter
    }
}

impl<S: Copy> DeinterleavedIndexedMeshBuf<S> {
    /// Whether the three attribute vectors hold the same scalars as those of
    /// `other`.
    pub open spec fn same_attributes(&self, other: &Self) -> bool {
        &&& self.positions@ == other.positions@
        &&& self.normals@ == other.normals@
        &&& self.texcoords@ == other.texcoords@
    }

    /// Whether the indices are `0, 1, 2, ...`, each index its own place.
    pub open spec fn indices_in_order(&self) -> bool {
        forall|i: int| 0 <= i < self.indices@.len() ==> #[trigger] self.indices@[i] == i
    }

    /// Whether the attribute vectors hold one attribute set per index and
    /// nothing more.
    pub open spec fn is_compact(&self) -> bool {
        &&& self.positions@.len() == 3 * self.indices@.len()
        &&& self.normals@.len() == 3 * self.indices@.len()
        &&& self.texcoords@.len() == 2 * self.indices@.len()
    }

    /// Whether no two stored attribute sets hold the same vertex.
    pub open spec fn attribute_sets_differ(&self) -> bool {
        forall|i: int, j: int|
            0 <= i < j && self.has_attributes(j) ==> #[trigger] self.attributes(i)
                != #[trigger] self.attributes(j)
    }

    /// Collecting the vertices of `mesh` stores one attribute set per index of
    /// `mesh`, in the order of its indices: an attribute set that several
    /// indices select is stored once for each of them. As long as the indices
    /// fit in 32 bits, the copy yields the vertices that `mesh` yields.
    pub proof fn lemma_round_trip_entries(mesh: &Self, copy: &Self)
        requires
            mesh.well_formed(),
            copy.collects(mesh.vertex_seq()),
        ensures
            copy.indices@.len() == mesh.indices@.len(),
            copy.is_compact(),
            copy.well_formed(),
            forall|i: int|
                0 <= i < mesh.indices@.len() ==> #[trigger] copy.attributes(i)
                    == mesh.attributes(mesh.indices@[i] as int),
            mesh.indices@.len() <= u32::MAX + 1 ==> copy.indices_in_order()
                && copy.vertex_seq() == mesh.vertex_seq(),
    {
        let vs = mesh.vertex_seq();
        let n = mesh.indices@.len() as int;
        assert forall|i: int| 0 <= i < n implies #[trigger] copy.attributes(i)
            == mesh.attributes(mesh.indices@[i] as int) by {
            let ps = vs.map_values(|v: Vertex<S>| v.position);
            let ns = vs.map_values(|v: Vertex<S>| v.normal);
            let ts = vs.map_values(|v: Vertex<S>| v.texcoords);
            assert(copy.positions@[3 * i] == ps[i].x);
            assert(copy.positions@[3 * i + 1] == ps[i].y);
            assert(copy.positions@[3 * i + 2] == ps[i].z);
            assert(copy.normals@[3 * i] == ns[i].x);
            assert(copy.normals@[3 * i + 1] == ns[i].y);
            assert(copy.normals@[3 * i + 2] == ns[i].z);
            assert(copy.texcoords@[2 * i] == ts[i].x);
            assert(copy.texcoords@[2 * i + 1] == ts[i].y);
        }
        assert forall|i: int| 0 <= i < n implies copy.has_attributes(
            #[trigger] copy.indices@[i] as int,
        ) by {
            if i <= u32::MAX {
                assert(i as u32 == i);
            }
        }
        if n <= u32::MAX + 1 {
            assert forall|i: int| 0 <= i < n implies #[trigger] copy.indices@[i] == i by {
                assert(i as u32 == i);
            }
            assert(copy.vertex_seq() =~= vs);
        }
    }

    /// Collecting the vertices of a buffer whose indices are `0, 1, 2, ...`
    /// gives back its attribute vectors, provided that it stores no attribute
    /// set beyond those that the indices select. And only such a buffer gets
    /// its attribute vectors back, provided that no two of its stored
    /// attribute sets are equal.
    pub proof fn lemma_round_trip_identity(mesh: &Self, copy: &Self)
        requires
            mesh.well_formed(),
            copy.collects(mesh.vertex_seq()),
        ensures
            mesh.indices_in_order() ==> (copy.same_attributes(mesh)
                <==> mesh.is_compact()),
            mesh.attribute_sets_differ() ==> (copy.same_attributes(mesh)
                ==> mesh.indices_in_order()),
            mesh.is_compact() && mesh.attribute_sets_differ() ==> (copy.same_attributes(mesh)
                <==> mesh.indices_in_order()),
    {
        Self::lemma_round_trip_entries(mesh, copy);
        let n = mesh.indices@.len() as int;
        if mesh.indices_in_order() && mesh.is_compact() {
            assert forall|i: int| 0 <= i < n implies #[trigger] copy.attributes(i)
                == mesh.attributes(i) by {
                assert(mesh.indices@[i] == i);
            }
            Self::lemma_equal_sets_equal_vectors(copy, mesh);
        }
        if copy.same_attributes(mesh) && mesh.attribute_sets_differ() {
            assert forall|i: int| 0 <= i < n implies #[trigger] mesh.indices@[i] == i by {
                let idx = mesh.indices@[i] as int;
                assert(mesh.has_attributes(idx));
                assert(mesh.has_attributes(i));
                assert(copy.attributes(i) == mesh.attributes(idx));
                assert(copy.attributes(i) == mesh.attributes(i));
                if idx < i {
                    assert(mesh.attributes(idx) != mesh.attributes(i));
                } else if i < idx {
                    assert(mesh.attributes(i) != mesh.attributes(idx));
                }
            }
        }
    }

    /// Two compact buffers of one size that agree on every stored attribute
    /// set hold the same attribute vectors.
    proof fn lemma_equal_sets_equal_vectors(a: &Self, b: &Self)
        requires
            a.is_compact(),
            b.is_compact(),
            a.indices@.len() == b.indices@.len(),
            forall|i: int|
                0 <= i < a.indices@.len() ==> #[trigger] a.attributes(i) == b.attributes(i),
        ensures
            a.same_attributes(b),
    {
        let n = a.indices@.len() as int;
        assert forall|j: int| 0 <= j < 3 * n implies a.positions@[j] == b.positions@[j] by {
            let i = j / 3;
            assert(a.attributes(i).position == b.attributes(i).position);
        }
        assert forall|j: int| 0 <= j < 3 * n implies a.normals@[j] == b.normals@[j] by {
            let i = j / 3;
            assert(a.attributes(i).normal == b.attributes(i).normal);
        }
        assert forall|j: int| 0 <= j < 2 * n implies a.texcoords@[j] == b.texcoords@[j] by {
            let i = j / 2;
            assert(a.attributes(i).texcoords == b.attributes(i).texcoords);
        }
        assert(a.positions@ =~= b.positions@);
        assert(a.normals@ =~= b.normals@);
        assert(a.texcoords@ =~= b.texcoords@);
    }
}

impl<'a, S: Copy + 'a> Mesh<'a> for DeinterleavedIndexedMeshBuf<S> {
    type Vertex = Vertex<S>;

    type VertexIter = DeinterleavedIndexedMeshBufIter<'a, S>;

    /// Every index selects a stored attribute set.
    open spec fn well_formed(&self) -> bool {
        forall|i: int|
            0 <= i < self.indices@.len() ==> self.has_attributes(
                #[trigger] self.indices@[i] as int,
            )
    }

    /// One vertex per index: the attribute set that the index selects.
    open spec fn vertex_seq(&self) -> Seq<Vertex<S>> {
        Seq::new(self.indices@.len(), |i: int| self.attributes(self.indices@[i] as int))
    }

    fn vertices(&'a self) -> (iter: DeinterleavedIndexedMeshBufIter<'a, S>) {
        self.into_iter()
    }

    fn vertex_count(&'a self) -> (count: usize) {
        self.indices.len()
    }
}

} // verus!
