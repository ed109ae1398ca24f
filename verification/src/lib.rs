//! In-memory scene geometry: named entities, each with a shared material
//! and a triangle mesh held in de-interleaved attribute buffers.
//!
//! * [`Mesh`] is implemented by types that represent triangle meshes,
//! * [`Material`] and [`MaterialBuilder`] describe OBJ-compatible materials,
//! * [`Entity`] is a named mesh with a referenced material.
//!
//! The scalar of the vertex attributes is a type parameter throughout: the
//! library moves scalars around and never computes with them.

pub mod entity;
pub mod material;
pub mod mesh;
pub mod vertex;

pub use entity::Entity;
pub use material::{Material, MaterialBuilder, MaterialView};
pub use mesh::{
    collect, Cursor, DeinterleavedIndexedMeshBuf, DeinterleavedIndexedMeshBufIter, Mesh,
    SliceCursor, TriangleMeshIter, TupleTriangle,
};
pub use vertex::{Normal, Position, Texcoords, Vec2, Vec3, Vertex};
