use flycam::terrain::{build_strip_mesh, HeightGrid};
use flycam::vec3::Vec3i;

#[test]
fn flat_five_by_five_strip() {
    let grid = HeightGrid::new(5, 5, vec![0i64; 25]);
    let mesh = build_strip_mesh(&grid);
    assert_eq!(mesh.vertices.len(), 40);
    assert_eq!(mesh.indices.len(), 40);
    for v in &mesh.vertices {
        assert_eq!(v.z, 0);
    }
    for (i, ix) in mesh.indices.iter().enumerate() {
        assert_eq!(*ix as usize, i);
    }
}

#[test]
fn vertex_layout_of_small_grid() {
    let grid = HeightGrid::new(3, 2, vec![1, 2, 3, 4, 5, 6]);
    let mesh = build_strip_mesh(&grid);
    assert_eq!(mesh.vertices.len(), 6);
    assert_eq!(mesh.indices.len(), 6);
    let expected = [
        Vec3i { x: 0, y: 0, z: 1 },
        Vec3i { x: 0, y: 1, z: 4 },
        Vec3i { x: 1, y: 0, z: 2 },
        Vec3i { x: 1, y: 1, z: 5 },
        Vec3i { x: 2, y: 0, z: 3 },
        Vec3i { x: 2, y: 1, z: 6 },
    ];
    for (i, v) in mesh.vertices.iter().enumerate() {
        assert_eq!(*v, expected[i]);
    }
    assert_eq!(mesh.indices, vec![0, 1, 2, 3, 4, 5]);
}

#[test]
fn vertex_count_matches_formula() {
    let grid = HeightGrid::new(7, 4, vec![0i64; 28]);
    let mesh = build_strip_mesh(&grid);
    assert_eq!(mesh.vertices.len(), 2 * 7 * 3);
    assert_eq!(mesh.indices.len(), mesh.vertices.len());
}

#[test]
fn empty_grid_gives_empty_mesh() {
    let grid = HeightGrid::new(0, 0, vec![]);
    let mesh = build_strip_mesh(&grid);
    assert_eq!(mesh.vertices.len(), 0);
    assert_eq!(mesh.indices.len(), 0);
}

#[test]
fn single_row_gives_empty_mesh() {
    let grid = HeightGrid::new(4, 1, vec![9, 9, 9, 9]);
    let mesh = build_strip_mesh(&grid);
    assert_eq!(mesh.vertices.len(), 0);
    assert_eq!(mesh.indices.len(), 0);
}

#[test]
fn zero_width_gives_empty_mesh() {
    let grid = HeightGrid::new(0, 3, vec![]);
    let mesh = build_strip_mesh(&grid);
    assert_eq!(mesh.vertices.len(), 0);
    assert_eq!(mesh.indices.len(), 0);
}

#[test]
fn sample_reads_row_major() {
    let grid = HeightGrid::new(3, 2, vec![10, 11, 12, 20, 21, 22]);
    assert_eq!(grid.sample(0, 0), 10);
    assert_eq!(grid.sample(2, 0), 12);
    assert_eq!(grid.sample(0, 1), 20);
    assert_eq!(grid.sample(2, 1), 22);
}

#[test]
fn uneven_heights_land_in_vertices() {
    let grid = HeightGrid::new(2, 3, vec![0, 1, 6, 3, 1, 6]);
    let mesh = build_strip_mesh(&grid);
    assert_eq!(mesh.vertices.len(), 8);
    assert_eq!(mesh.vertices[0], Vec3i { x: 0, y: 0, z: 0 });
    assert_eq!(mesh.vertices[1], Vec3i { x: 0, y: 1, z: 6 });
    assert_eq!(mesh.vertices[2], Vec3i { x: 1, y: 0, z: 1 });
    assert_eq!(mesh.vertices[3], Vec3i { x: 1, y: 1, z: 3 });
    assert_eq!(mesh.vertices[4], Vec3i { x: 0, y: 1, z: 6 });
    assert_eq!(mesh.vertices[5], Vec3i { x: 0, y: 2, z: 1 });
    assert_eq!(mesh.vertices[6], Vec3i { x: 1, y: 1, z: 3 });
    assert_eq!(mesh.vertices[7], Vec3i { x: 1, y: 2, z: 6 });
}
