use aitios_scene::{
    collect, Cursor, DeinterleavedIndexedMeshBuf, Mesh, Normal, Position, SliceCursor, Texcoords,
    TriangleMeshIter, TupleTriangle, Vec2, Vec3, Vertex,
};

fn six_attribute_sets(indices: Vec<u32>) -> DeinterleavedIndexedMeshBuf<f32> {
    DeinterleavedIndexedMeshBuf {
        positions: vec![
            1.0, 1.0, 1.0, 10.0, 10.0, 10.0, 100.0, 100.0, 100.0, -1.0, -1.0, -1.0, -10.0, -10.0,
            -10.0, -100.0, -100.0, -100.0,
        ],
        normals: vec![
            1.0, 0.0, 0.0, 1.0, 0.0, 0.0, 1.0, 0.0, 0.0, 0.0, 0.0, 1.0, 0.0, 0.0, 1.0, 0.0, 0.0,
            1.0,
        ],
        texcoords: vec![0.0, 0.0, 1.0, 1.0, 0.0, 1.0, 0.7, 0.7, 0.7, 0.7, 0.7, 0.7],
        indices,
    }
}

fn empty_mesh() -> DeinterleavedIndexedMeshBuf<f32> {
    DeinterleavedIndexedMeshBuf {
        positions: vec![],
        normals: vec![],
        texcoords: vec![],
        indices: vec![],
    }
}

fn line_vertex(n: f32) -> Vertex<f32> {
    Vertex {
        position: Vec3::new(n, n, n),
        normal: Vec3::new(0.0, 1.0, 0.0),
        texcoords: Vec2::new(n / 102.0, n / 102.0),
    }
}

#[test]
fn triangle_count_is_a_third_of_the_vertex_count_rounded_down() {
    for len in 0..10usize {
        let indices: Vec<u32> = (0..len).map(|i| (i % 6) as u32).collect();
        let mesh = six_attribute_sets(indices);

        assert_eq!(mesh.vertex_count(), len);
        assert_eq!(mesh.triangle_count(), len / 3);
        assert_eq!(collect(mesh.triangles()).len(), mesh.triangle_count());
        assert_eq!(collect(mesh.vertices()).len(), mesh.vertex_count());
    }
}

#[test]
fn triangles_of_a_full_mesh_leave_no_vertex_over() {
    let mesh = six_attribute_sets(vec![3, 4, 5, 0, 1, 2, 2, 1, 0]);
    let vertices = collect(mesh.vertices());
    let triangles = collect(mesh.triangles());

    assert_eq!(triangles.len(), 3);
    let mut corners = Vec::new();
    for tri in &triangles {
        let (v0, v1, v2) = tri.vertices();
        corners.push(*v0);
        corners.push(*v1);
        corners.push(*v2);
    }
    assert_eq!(corners, vertices);
}

#[test]
fn triangles_drop_the_vertices_after_the_last_whole_triple() {
    let mesh = six_attribute_sets(vec![3, 4, 5, 0, 1, 2, 2, 1]);
    let vertices = collect(mesh.vertices());
    let triangles = collect(mesh.triangles());

    assert_eq!(vertices.len(), 8);
    assert_eq!(triangles.len(), 2);
    assert_eq!(triangles[1], TupleTriangle::new(vertices[3], vertices[4], vertices[5]));
}

#[test]
fn triangle_iterator_stays_exhausted() {
    let mesh = six_attribute_sets(vec![0, 1, 2, 3]);
    let mut iter = mesh.triangles();

    assert!(iter.next().is_some());
    assert!(iter.next().is_none());
    assert!(iter.next().is_none());
    assert!(iter.next().is_none());
}

#[test]
fn a_partial_triple_exhausts_the_wrapped_stream() {
    let vertices: Vec<Vertex<f32>> = (0..2).map(|n| line_vertex(n as f32)).collect();
    let mut iter = TriangleMeshIter::new(SliceCursor::new(&vertices));

    assert!(iter.next().is_none());
    assert!(iter.next().is_none());
}

#[test]
fn worked_example_counts_and_first_vertex() {
    let mesh = six_attribute_sets(vec![3, 4, 5, 0, 1, 2]);

    assert_eq!(mesh.vertex_count(), 6);
    assert_eq!(mesh.triangle_count(), 2);
    let first = mesh.vertices().next().unwrap();
    assert_eq!(first.position(), Vec3::new(-1.0, -1.0, -1.0));
    assert_eq!(first.normal(), Vec3::new(0.0, 0.0, 1.0));
    assert_eq!(first.texcoords(), Vec2::new(0.7, 0.7));
}

#[test]
fn vertex_at_resolves_the_index_into_all_three_attributes() {
    let mesh = six_attribute_sets(vec![3, 4, 5, 0, 1, 2]);

    assert_eq!(
        mesh.vertex_at(4),
        Vertex {
            position: Vec3::new(10.0, 10.0, 10.0),
            normal: Vec3::new(1.0, 0.0, 0.0),
            texcoords: Vec2::new(1.0, 1.0),
        }
    );
    assert_eq!(
        mesh.vertex_at(5),
        Vertex {
            position: Vec3::new(100.0, 100.0, 100.0),
            normal: Vec3::new(1.0, 0.0, 0.0),
            texcoords: Vec2::new(0.0, 1.0),
        }
    );
    assert_eq!(mesh.vertex_at(0).position(), Vec3::new(-1.0, -1.0, -1.0));
}

#[test]
fn vertices_come_in_the_order_of_the_indices() {
    let mesh = six_attribute_sets(vec![5, 5, 0]);
    let xs: Vec<f32> = collect(mesh.vertices())
        .iter()
        .map(|v| v.position.x)
        .collect();

    assert_eq!(xs, vec![-100.0, -100.0, 1.0]);
}

#[test]
fn cursors_restart_and_do_not_disturb_each_other() {
    let mesh = six_attribute_sets(vec![3, 4, 5, 0, 1, 2]);
    let mut one = mesh.vertices();
    let mut other = mesh.vertices();

    assert_eq!(one.next().unwrap().position.x, -1.0);
    assert_eq!(one.next().unwrap().position.x, -10.0);
    assert_eq!(other.next().unwrap().position.x, -1.0);
    let mut copy = one;
    assert_eq!(copy.next().unwrap().position.x, -100.0);
    assert_eq!(one.next().unwrap().position.x, -100.0);
    assert_eq!(collect(mesh.vertices()).len(), 6);
    assert_eq!(mesh.indices, vec![3, 4, 5, 0, 1, 2]);
}

#[test]
fn round_trip_of_ordered_indices_gives_the_same_attributes() {
    let mesh = six_attribute_sets(vec![0, 1, 2, 3, 4, 5]);
    let copy = DeinterleavedIndexedMeshBuf::from_iter(mesh.vertices());

    assert_eq!(copy.positions, mesh.positions);
    assert_eq!(copy.normals, mesh.normals);
    assert_eq!(copy.texcoords, mesh.texcoords);
    assert_eq!(copy.indices, mesh.indices);
}

#[test]
fn round_trip_of_other_indices_stores_one_set_per_index() {
    let mesh = six_attribute_sets(vec![3, 3, 0, 5]);
    let copy = DeinterleavedIndexedMeshBuf::from_iter(mesh.vertices());

    assert_eq!(copy.indices, vec![0, 1, 2, 3]);
    assert_eq!(
        copy.positions,
        vec![-1.0, -1.0, -1.0, -1.0, -1.0, -1.0, 1.0, 1.0, 1.0, -100.0, -100.0, -100.0]
    );
    assert_eq!(
        copy.normals,
        vec![0.0, 0.0, 1.0, 0.0, 0.0, 1.0, 1.0, 0.0, 0.0, 0.0, 0.0, 1.0]
    );
    assert_eq!(copy.texcoords, vec![0.7, 0.7, 0.7, 0.7, 0.0, 0.0, 0.7, 0.7]);
    assert_ne!(copy.positions, mesh.positions);
    assert_eq!(collect(copy.vertices()), collect(mesh.vertices()));
}

#[test]
fn round_trip_of_ordered_indices_drops_unused_attribute_sets() {
    let mesh = six_attribute_sets(vec![0, 1, 2]);
    let copy = DeinterleavedIndexedMeshBuf::from_iter(mesh.vertices());

    assert_eq!(copy.indices, vec![0, 1, 2]);
    assert_eq!(copy.positions, mesh.positions[..9].to_vec());
    assert_ne!(copy.positions, mesh.positions);
}

#[test]
fn round_trip_of_swapped_twins_gives_the_same_attributes() {
    let mesh = DeinterleavedIndexedMeshBuf::<f32> {
        positions: vec![2.0, 2.0, 2.0, 2.0, 2.0, 2.0],
        normals: vec![0.0, 1.0, 0.0, 0.0, 1.0, 0.0],
        texcoords: vec![0.5, 0.5, 0.5, 0.5],
        indices: vec![1, 0],
    };
    let copy = DeinterleavedIndexedMeshBuf::from_iter(mesh.vertices());

    assert_eq!(copy.positions, mesh.positions);
    assert_eq!(copy.normals, mesh.normals);
    assert_eq!(copy.texcoords, mesh.texcoords);
    assert_eq!(copy.indices, vec![0, 1]);
}

#[test]
fn empty_mesh_has_no_vertices_and_no_triangles() {
    let mesh = empty_mesh();

    assert!(mesh.is_well_formed());
    assert_eq!(mesh.vertex_count(), 0);
    assert_eq!(mesh.triangle_count(), 0);
    assert!(mesh.vertices().next().is_none());
    assert!(mesh.triangles().next().is_none());
    assert!(collect(mesh.vertices()).is_empty());
    assert!(collect(mesh.triangles()).is_empty());
}

#[test]
fn collecting_an_empty_stream_gives_an_empty_mesh() {
    let none: Vec<Vertex<f32>> = Vec::new();
    let mesh = DeinterleavedIndexedMeshBuf::from_iter(SliceCursor::new(&none));

    assert!(mesh.positions.is_empty());
    assert!(mesh.normals.is_empty());
    assert!(mesh.texcoords.is_empty());
    assert!(mesh.indices.is_empty());
}

#[test]
fn collecting_a_line_of_vertices_counts_the_indices_up() {
    let vertices: Vec<Vertex<f32>> = (0..102).map(|n| line_vertex(n as f32)).collect();
    let mesh = DeinterleavedIndexedMeshBuf::from_iter(SliceCursor::new(&vertices));

    assert_eq!(mesh.vertex_count(), 102);
    assert_eq!(mesh.triangle_count(), 34);
    assert_eq!(mesh.indices, (0..102).collect::<Vec<u32>>());
    assert_eq!(mesh.positions.len(), 306);
    assert_eq!(mesh.normals.len(), 306);
    assert_eq!(mesh.texcoords.len(), 204);
    assert!(mesh.is_well_formed());
    assert_eq!(collect(mesh.vertices()), vertices);
}

#[test]
fn collecting_lays_each_vertex_out_attribute_by_attribute() {
    let vertices = vec![
        Vertex {
            position: Vec3::new(1.0, 2.0, 3.0),
            normal: Vec3::new(4.0, 5.0, 6.0),
            texcoords: Vec2::new(7.0, 8.0),
        },
        Vertex {
            position: Vec3::new(11.0, 12.0, 13.0),
            normal: Vec3::new(14.0, 15.0, 16.0),
            texcoords: Vec2::new(17.0, 18.0),
        },
    ];
    let mesh = DeinterleavedIndexedMeshBuf::from_iter(SliceCursor::new(&vertices));

    assert_eq!(mesh.positions, vec![1.0, 2.0, 3.0, 11.0, 12.0, 13.0]);
    assert_eq!(mesh.normals, vec![4.0, 5.0, 6.0, 14.0, 15.0, 16.0]);
    assert_eq!(mesh.texcoords, vec![7.0, 8.0, 17.0, 18.0]);
    assert_eq!(mesh.indices, vec![0, 1]);
}

#[test]
fn collecting_does_not_deduplicate() {
    let vertices = vec![line_vertex(1.0), line_vertex(1.0), line_vertex(1.0)];
    let mesh = DeinterleavedIndexedMeshBuf::from_iter(SliceCursor::new(&vertices));

    assert_eq!(mesh.indices, vec![0, 1, 2]);
    assert_eq!(mesh.positions, vec![1.0; 9]);
}

#[test]
fn well_formedness_is_that_every_index_has_its_attribute_set() {
    assert!(six_attribute_sets(vec![0, 5, 5, 3]).is_well_formed());
    assert!(!six_attribute_sets(vec![0, 6]).is_well_formed());
    assert!(!six_attribute_sets(vec![u32::MAX]).is_well_formed());

    let mut short_normals = six_attribute_sets(vec![5]);
    short_normals.normals.pop();
    assert!(!short_normals.is_well_formed());

    let mut short_texcoords = six_attribute_sets(vec![5]);
    short_texcoords.texcoords.pop();
    assert!(!short_texcoords.is_well_formed());
    short_texcoords.indices = vec![4];
    assert!(short_texcoords.is_well_formed());

    let mut short_positions = six_attribute_sets(vec![5]);
    short_positions.positions.truncate(15);
    assert!(!short_positions.is_well_formed());
}

#[test]
fn slice_cursor_yields_the_slice_and_then_nothing() {
    let items = [7u8, 8, 9];
    let mut cursor = SliceCursor::new(&items);

    assert_eq!(cursor.next(), Some(7));
    assert_eq!(cursor.next(), Some(8));
    assert_eq!(cursor.next(), Some(9));
    assert_eq!(cursor.next(), None);
    assert_eq!(cursor.next(), None);
    assert_eq!(collect(SliceCursor::new(&items)), vec![7, 8, 9]);
}

#[test]
fn vectors_and_triangles_keep_their_components_in_order() {
    let v2 = Vec2::new(1, 2);
    let v3 = Vec3::new(1, 2, 3);
    let tri = TupleTriangle::new('a', 'b', 'c');

    assert_eq!((v2.x, v2.y), (1, 2));
    assert_eq!((v3.x, v3.y, v3.z), (1, 2, 3));
    assert_eq!(tri.vertices(), (&'a', &'b', &'c'));
    assert_eq!((tri.0, tri.1, tri.2), ('a', 'b', 'c'));
}

#[test]
fn meshes_of_other_scalars_work_alike() {
    let mesh = DeinterleavedIndexedMeshBuf::<i64> {
        positions: vec![1, 2, 3, 4, 5, 6],
        normals: vec![0, 0, 1, 0, 1, 0],
        texcoords: vec![10, 20, 30, 40],
        indices: vec![1, 0, 1],
    };

    assert!(mesh.is_well_formed());
    assert_eq!(mesh.triangle_count(), 1);
    let tri = mesh.triangles().next().unwrap();
    assert_eq!(tri.0.position, Vec3::new(4, 5, 6));
    assert_eq!(tri.1.texcoords, Vec2::new(10, 20));
    assert_eq!(tri.2.normal, Vec3::new(0, 1, 0));
}
