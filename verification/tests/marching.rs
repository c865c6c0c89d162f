use std::collections::HashMap;
use voxel_terrain::map_generator::density::Density;
use voxel_terrain::map_generator::endless_terrain::ChunkCoordinate;
use voxel_terrain::map_generator::map_display::{
    get_triangulation, march_cube, march_cubes, mesh_grid, triangle_indices, EdgeVertex,
    LatticePoint, RenderChunk, RenderMode,
};
use voxel_terrain::map_generator::marching_table::{
    triangulation, unpack_row, CORNER_WEIGHTS, EDGES, TRIANGULATIONS, VERTICES,
};
use voxel_terrain::map_generator::noise_generator::VoxelGrid;
use voxel_terrain::map_generator::MapGenerator;

fn density(value: f32) -> Density {
    Density::from_bits(value.to_bits())
}

fn value(density: Density) -> f32 {
    f32::from_bits(density.to_bits())
}

fn grid_of(
    size: usize,
    coord: ChunkCoordinate,
    field: &dyn Fn(usize, usize, usize) -> f32,
) -> VoxelGrid {
    let mut grid = VoxelGrid::new(size, coord);
    for z in 0..size {
        for y in 0..size {
            for x in 0..size {
                grid.push(density(field(x, y, z)));
            }
        }
    }
    grid
}

fn sphere(x: usize, y: usize, z: usize) -> f32 {
    let dx = x as f32 - 8.0;
    let dy = y as f32 - 8.0;
    let dz = z as f32 - 8.0;
    (dx * dx + dy * dy + dz * dz).sqrt() - 5.0
}

fn position(vertex: &EdgeVertex) -> [f32; 3] {
    let s1 = value(vertex.density_a);
    let s2 = value(vertex.density_b);
    let t = (0.0 - s1) / (s2 - s1);
    let a = [vertex.corner_a.x as f32, vertex.corner_a.y as f32, vertex.corner_a.z as f32];
    let b = [vertex.corner_b.x as f32, vertex.corner_b.y as f32, vertex.corner_b.z as f32];
    [a[0] + t * (b[0] - a[0]), a[1] + t * (b[1] - a[1]), a[2] + t * (b[2] - a[2])]
}

fn edge_key(vertex: &EdgeVertex) -> (LatticePoint, LatticePoint) {
    let a = vertex.corner_a;
    let b = vertex.corner_b;
    if (a.x, a.y, a.z) <= (b.x, b.y, b.z) {
        (a, b)
    } else {
        (b, a)
    }
}

fn point_key(p: LatticePoint) -> (usize, usize, usize) {
    (p.x, p.y, p.z)
}

#[test]
fn tables_have_the_shape_of_a_cube() {
    assert_eq!(VERTICES.len(), 8);
    assert_eq!(EDGES.len(), 12);
    assert_eq!(TRIANGULATIONS.len(), 256);
    assert_eq!(CORNER_WEIGHTS, [1, 2, 4, 8, 16, 32, 64, 128]);
    for (a, b) in EDGES {
        let (pa, pb) = (VERTICES[a], VERTICES[b]);
        let apart = (pa.0 as i32 - pb.0 as i32).abs()
            + (pa.1 as i32 - pb.1 as i32).abs()
            + (pa.2 as i32 - pb.2 as i32).abs();
        assert_eq!(apart, 1);
    }
}

#[test]
fn rows_of_the_uniform_configurations_are_empty() {
    assert_eq!(triangulation(0), [-1; 15]);
    assert_eq!(triangulation(255), [-1; 15]);
}

#[test]
fn rows_of_some_configurations() {
    assert_eq!(triangulation(1), [0, 8, 3, -1, -1, -1, -1, -1, -1, -1, -1, -1, -1, -1, -1]);
    assert_eq!(triangulation(2), [0, 1, 9, -1, -1, -1, -1, -1, -1, -1, -1, -1, -1, -1, -1]);
    assert_eq!(triangulation(3), [1, 8, 3, 9, 8, 1, -1, -1, -1, -1, -1, -1, -1, -1, -1]);
    assert_eq!(triangulation(128), [7, 6, 11, -1, -1, -1, -1, -1, -1, -1, -1, -1, -1, -1, -1]);
    assert_eq!(triangulation(254), [0, 3, 8, -1, -1, -1, -1, -1, -1, -1, -1, -1, -1, -1, -1]);
    assert_eq!(triangulation(61), [5, 7, 0, 5, 0, 9, 7, 11, 0, 1, 0, 10, 11, 10, 0]);
    assert_eq!(triangulation(15), [9, 8, 10, 10, 8, 11, -1, -1, -1, -1, -1, -1, -1, -1, -1]);
}

#[test]
fn unpack_row_reads_four_bits_to_an_entry() {
    assert_eq!(unpack_row(0xfff_ffff_ffff_ffff), [-1; 15]);
    assert_eq!(
        unpack_row(0xedc_ba98_7654_3210),
        [0, 1, 2, 3, 4, 5, 6, 7, 8, 9, 10, 11, 12, 13, 14]
    );
    assert_eq!(
        unpack_row(0xffff_ffff_ffff_f380),
        [0, 8, 3, -1, -1, -1, -1, -1, -1, -1, -1, -1, -1, -1, -1]
    );
}

#[test]
fn every_row_triangulates_its_configuration() {
    for config in 0..=255u8 {
        let row = triangulation(config);
        let count = row.iter().position(|edge| *edge < 0).unwrap_or(15);
        assert_eq!(count % 3, 0);
        assert!(row[count..].iter().all(|edge| *edge == -1));
        let inside = |corner: usize| (config >> corner) & 1 == 1;
        for edge in &row[..count] {
            let (a, b) = EDGES[*edge as usize];
            assert_ne!(inside(a), inside(b), "configuration {}", config);
        }
        for (edge, (a, b)) in EDGES.iter().enumerate() {
            if inside(*a) != inside(*b) {
                assert!(row[..count].contains(&(edge as i8)), "configuration {}", config);
            }
        }
    }
}

#[test]
fn configuration_sets_a_bit_for_each_negative_corner() {
    for corner in 0..8 {
        let target = VERTICES[corner];
        let grid = grid_of(2, ChunkCoordinate::new(0, 0, 0), &|x, y, z| {
            if (x, y, z) == target {
                -1.0
            } else {
                1.0
            }
        });
        assert_eq!(get_triangulation((0, 0, 0), &grid), triangulation(1 << corner));
    }
}

#[test]
fn negative_zero_counts_as_inside() {
    let grid = grid_of(2, ChunkCoordinate::new(0, 0, 0), &|x, y, z| {
        if (x, y, z) == (0, 0, 0) {
            -0.0
        } else {
            0.0
        }
    });
    assert_eq!(get_triangulation((0, 0, 0), &grid), triangulation(1));
}

#[test]
fn march_cube_with_one_corner_inside() {
    let grid = grid_of(2, ChunkCoordinate::new(0, 0, 0), &|x, y, z| {
        if (x, y, z) == (0, 0, 0) {
            -1.0
        } else {
            3.0
        }
    });
    let mut positions = Vec::new();
    march_cube((0, 0, 0), &grid, &mut positions);
    let origin = LatticePoint { x: 0, y: 0, z: 0 };
    assert_eq!(
        positions,
        vec![
            EdgeVertex {
                corner_a: origin,
                corner_b: LatticePoint { x: 0, y: 0, z: 1 },
                density_a: density(-1.0),
                density_b: density(3.0),
            },
            EdgeVertex {
                corner_a: origin,
                corner_b: LatticePoint { x: 0, y: 1, z: 0 },
                density_a: density(-1.0),
                density_b: density(3.0),
            },
            EdgeVertex {
                corner_a: LatticePoint { x: 1, y: 0, z: 0 },
                corner_b: origin,
                density_a: density(3.0),
                density_b: density(-1.0),
            },
        ]
    );
    assert_eq!(position(&positions[0]), [0.0, 0.0, 0.25]);
    assert_eq!(position(&positions[1]), [0.0, 0.25, 0.0]);
    assert_eq!(position(&positions[2]), [0.25, 0.0, 0.0]);
}

#[test]
fn march_cube_appends_to_what_is_there() {
    let grid = grid_of(3, ChunkCoordinate::new(0, 0, 0), &|x, y, z| {
        if (x, y, z) == (1, 1, 1) {
            -1.0
        } else {
            1.0
        }
    });
    let mut positions = Vec::new();
    march_cube((0, 0, 0), &grid, &mut positions);
    assert_eq!(positions.len(), 3);
    let first = positions.clone();
    march_cube((1, 1, 1), &grid, &mut positions);
    assert_eq!(positions.len(), 6);
    assert_eq!(&positions[..3], &first[..]);
    for vertex in &positions {
        let inner = LatticePoint { x: 1, y: 1, z: 1 };
        assert!(vertex.corner_a == inner || vertex.corner_b == inner);
    }
}

#[test]
fn uniform_grids_have_no_vertices() {
    let above = grid_of(5, ChunkCoordinate::new(0, 0, 0), &|x, _, _| 1.0 + x as f32);
    let below = grid_of(5, ChunkCoordinate::new(0, 0, 0), &|_, y, _| -1.0 - y as f32);
    for grid in [&above, &below] {
        for z in 0..4 {
            for y in 0..4 {
                for x in 0..4 {
                    let mut positions = Vec::new();
                    march_cube((x, y, z), grid, &mut positions);
                    assert!(positions.is_empty());
                }
            }
        }
        assert!(march_cubes(grid).is_empty());
        let mesh = mesh_grid(grid);
        assert!(mesh.vertices.is_empty());
        assert!(mesh.indices.is_empty());
    }
}

#[test]
fn grid_of_one_sample_has_no_cubes() {
    let grid = grid_of(1, ChunkCoordinate::new(0, 0, 0), &|_, _, _| -1.0);
    assert!(march_cubes(&grid).is_empty());
}

#[test]
fn march_cubes_walks_x_fastest() {
    let grid = grid_of(17, ChunkCoordinate::new(0, 0, 0), &sphere);
    let mut expected = Vec::new();
    for z in 0..16 {
        for y in 0..16 {
            for x in 0..16 {
                march_cube((x, y, z), &grid, &mut expected);
            }
        }
    }
    assert_eq!(march_cubes(&grid), expected);
}

#[test]
fn sphere_mesh_lies_on_the_sphere() {
    let grid = grid_of(17, ChunkCoordinate::new(0, 0, 0), &sphere);
    let mesh = mesh_grid(&grid);
    assert_eq!(mesh.vertices.len() % 3, 0);
    let triangles = mesh.vertices.len() / 3;
    assert!(triangles > 400 && triangles < 1400, "{} triangles", triangles);
    for vertex in &mesh.vertices {
        assert_ne!(vertex.density_a.is_sign_negative(), vertex.density_b.is_sign_negative());
        let p = position(vertex);
        let radius =
            ((p[0] - 8.0).powi(2) + (p[1] - 8.0).powi(2) + (p[2] - 8.0).powi(2)).sqrt();
        assert!((radius - 5.0).abs() < 0.1, "radius {}", radius);
    }
}

#[test]
fn sphere_mesh_is_closed() {
    let grid = grid_of(17, ChunkCoordinate::new(0, 0, 0), &sphere);
    let mesh = mesh_grid(&grid);
    let mut sides: HashMap<[(usize, usize, usize); 4], i32> = HashMap::new();
    for triangle in mesh.vertices.chunks(3) {
        for i in 0..3 {
            let from = edge_key(&triangle[i]);
            let to = edge_key(&triangle[(i + 1) % 3]);
            assert_ne!(from, to);
            let forward = [point_key(from.0), point_key(from.1), point_key(to.0), point_key(to.1)];
            let backward = [point_key(to.0), point_key(to.1), point_key(from.0), point_key(from.1)];
            *sides.entry(forward).or_insert(0) += 1;
            *sides.entry(backward).or_insert(0) -= 1;
        }
    }
    assert!(sides.values().all(|balance| *balance == 0));
}

#[test]
fn sphere_mesh_faces_outwards() {
    let grid = grid_of(17, ChunkCoordinate::new(0, 0, 0), &sphere);
    let mesh = mesh_grid(&grid);
    for triangle in mesh.indices.chunks(3) {
        let first = position(&mesh.vertices[triangle[0] as usize]);
        let second = position(&mesh.vertices[triangle[1] as usize]);
        let third = position(&mesh.vertices[triangle[2] as usize]);
        let a = [second[0] - first[0], second[1] - first[1], second[2] - first[2]];
        let b = [third[0] - first[0], third[1] - first[1], third[2] - first[2]];
        let normal = [
            a[1] * b[2] - a[2] * b[1],
            a[2] * b[0] - a[0] * b[2],
            a[0] * b[1] - a[1] * b[0],
        ];
        let out = [
            (first[0] + second[0] + third[0]) / 3.0 - 8.0,
            (first[1] + second[1] + third[1]) / 3.0 - 8.0,
            (first[2] + second[2] + third[2]) / 3.0 - 8.0,
        ];
        let facing = normal[0] * out[0] + normal[1] * out[1] + normal[2] * out[2];
        assert!(facing >= 0.0, "facing {}", facing);
    }
}

#[test]
fn triangle_indices_reverse_each_triangle() {
    assert_eq!(triangle_indices(0), Vec::<u32>::new());
    assert_eq!(triangle_indices(2), Vec::<u32>::new());
    assert_eq!(triangle_indices(3), vec![2, 1, 0]);
    assert_eq!(triangle_indices(6), vec![2, 1, 0, 5, 4, 3]);
    assert_eq!(triangle_indices(8), vec![2, 1, 0, 5, 4, 3]);
    let many = triangle_indices(3000);
    assert_eq!(many.len(), 3000);
    assert_eq!(&many[2997..], &[2999, 2998, 2997]);
}

#[test]
fn mesh_indexes_every_vertex_once() {
    let grid = grid_of(17, ChunkCoordinate::new(2, -1, 3), &sphere);
    let mesh = mesh_grid(&grid);
    assert_eq!(mesh.indices, triangle_indices(mesh.vertices.len()));
    assert_eq!(mesh.indices.len(), mesh.vertices.len());
    let mut seen = vec![false; mesh.vertices.len()];
    for index in &mesh.indices {
        assert!(!seen[*index as usize]);
        seen[*index as usize] = true;
    }
    assert_eq!(mesh.translation, (32, -16, 48));
}

#[test]
fn mesh_is_placed_at_the_chunk() {
    let grid = grid_of(2, ChunkCoordinate::new(i32::MIN, 0, i32::MAX), &|_, _, _| 1.0);
    let mesh = mesh_grid(&grid);
    assert_eq!(mesh.translation, (i32::MIN as i64 * 16, 0, i32::MAX as i64 * 16));
}

#[test]
fn render_chunk_keeps_its_order() {
    let order = RenderChunk::new(
        ChunkCoordinate::new(1, 2, 3),
        vec![RenderMode::MarchingCube, RenderMode::TextData],
    );
    assert_eq!(order.chunk_coord(), ChunkCoordinate::new(1, 2, 3));
    assert_eq!(order.render_modes(), &vec![RenderMode::MarchingCube, RenderMode::TextData]);
    assert_eq!(RenderMode::default(), RenderMode::MarchingCube);
}

#[test]
fn render_chunk_builds_the_mesh_of_its_chunk() {
    let plane = |_x: i64, y: i64, _z: i64| density(y as f32 - 20.5);
    let generator = MapGenerator::new(plane);
    let low = RenderChunk::new(ChunkCoordinate::new(0, 0, 0), vec![RenderMode::MarchingCube])
        .build_mesh(&generator);
    assert!(low.vertices.is_empty());
    assert_eq!(low.translation, (0, 0, 0));
    let cut = RenderChunk::new(ChunkCoordinate::new(3, 1, -2), vec![RenderMode::MarchingCube])
        .build_mesh(&generator);
    assert_eq!(cut.vertices.len(), 16 * 16 * 6);
    assert_eq!(cut.indices.len(), cut.vertices.len());
    assert_eq!(cut.translation, (48, 16, -32));
    for vertex in &cut.vertices {
        let p = position(vertex);
        assert_eq!(p[1], 4.5);
        let low = vertex.corner_a.y.min(vertex.corner_b.y);
        let high = vertex.corner_a.y.max(vertex.corner_b.y);
        assert_eq!((low, high), (4, 5));
    }
}
