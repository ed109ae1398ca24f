//! Triangle meshes: the mesh capability, the de-interleaved indexed buffer
//! and the cursor that groups vertices into triangles.

pub mod cursor;
pub mod deinterleaved;
pub mod mesh;
pub mod triangle;

pub use self::cursor::{collect, Cursor, SliceCursor};
pub use self::deinterleaved::{DeinterleavedIndexedMeshBuf, DeinterleavedIndexedMeshBufIter};
pub use self::mesh::Mesh;
pub use self::triangle::{TriangleMeshIter, TupleTriangle};
