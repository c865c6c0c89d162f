use voxel_terrain::map_generator::density::Density;
use voxel_terrain::map_generator::endless_terrain::ChunkCoordinate;
use voxel_terrain::map_generator::noise_generator::Noise;
use voxel_terrain::map_generator::{sample_lattice, MapGenerator};

fn density(value: f32) -> Density {
    Density::from_bits(value.to_bits())
}

fn value(density: Density) -> f32 {
    f32::from_bits(density.to_bits())
}

fn tagged(x: i64, y: i64, z: i64) -> Density {
    density((x + 1000 * y + 1000000 * z) as f32)
}

#[test]
fn generated_grid_has_one_sample_more_than_the_chunk_is_long() {
    let generator = MapGenerator::new(tagged);
    let grid = generator.generate_noise(ChunkCoordinate::new(0, 0, 0), 16);
    assert_eq!(grid.size(), 17);
    assert_eq!(grid.len(), 17 * 17 * 17);
    assert_eq!(grid.chunk_coord(), ChunkCoordinate::new(0, 0, 0));
}

#[test]
fn generated_grid_samples_world_positions() {
    let generator = MapGenerator::new(tagged);
    let grid = generator.generate_noise(ChunkCoordinate::new(1, -2, 3), 4);
    assert_eq!(grid.size(), 5);
    for z in 0..5usize {
        for y in 0..5usize {
            for x in 0..5usize {
                let expected = tagged(x as i64 + 4, y as i64 - 8, z as i64 + 12);
                assert_eq!(grid.read(x, y, z), expected);
            }
        }
    }
    let (min, max) = grid.min_max_range();
    assert_eq!(value(min), value(tagged(4, -8, 12)));
    assert_eq!(value(max), value(tagged(8, -4, 16)));
}

#[test]
fn neighbouring_chunks_share_a_face_of_samples() {
    let generator = MapGenerator::new(tagged);
    let left = generator.generate_noise(ChunkCoordinate::new(0, 0, 0), 8);
    let right = generator.generate_noise(ChunkCoordinate::new(1, 0, 0), 8);
    for z in 0..9 {
        for y in 0..9 {
            assert_eq!(left.read(8, y, z), right.read(0, y, z));
        }
    }
}

#[test]
fn noise_map_has_the_size_asked_for() {
    let grid = Noise::generate_noise_map(3, ChunkCoordinate::new(-1, 0, 2), &tagged);
    assert_eq!(grid.size(), 3);
    assert_eq!(grid.len(), 27);
    assert_eq!(grid.chunk_coord(), ChunkCoordinate::new(-1, 0, 2));
    for z in 0..3usize {
        for y in 0..3usize {
            for x in 0..3usize {
                let expected = tagged(x as i64 - 16, y as i64, z as i64 + 32);
                assert_eq!(grid.read(x, y, z), expected);
            }
        }
    }
}

#[test]
fn sampling_nothing_gives_an_empty_grid() {
    let grid = Noise::generate_noise_map(0, ChunkCoordinate::new(0, 0, 0), &tagged);
    assert_eq!(grid.len(), 0);
    let generator = MapGenerator::new(tagged);
    let one = generator.generate_noise(ChunkCoordinate::new(5, 5, 5), 0);
    assert_eq!(one.size(), 1);
    assert_eq!(one.read(0, 0, 0), tagged(0, 0, 0));
}

#[test]
fn sampling_at_the_end_of_the_lattice() {
    let far = |x: i64, _y: i64, z: i64| density(if x > 0 && z < 0 { 1.0 } else { -1.0 });
    let grid = sample_lattice(&far, 2, u32::MAX, ChunkCoordinate::new(i32::MAX, 0, i32::MIN));
    assert_eq!(grid.len(), 8);
    assert_eq!(value(grid.read(1, 1, 1)), 1.0);
}

#[test]
fn sampling_calls_the_field_in_fill_order() {
    let calls = std::cell::RefCell::new(Vec::new());
    let field = |x: i64, y: i64, z: i64| {
        calls.borrow_mut().push((x, y, z));
        density(0.0)
    };
    let grid = sample_lattice(&field, 2, 10, ChunkCoordinate::new(1, 2, 3));
    assert_eq!(grid.len(), 8);
    assert_eq!(
        *calls.borrow(),
        vec![
            (10, 20, 30),
            (11, 20, 30),
            (10, 21, 30),
            (11, 21, 30),
            (10, 20, 31),
            (11, 20, 31),
            (10, 21, 31),
            (11, 21, 31),
        ]
    );
}

#[test]
fn layered_noise_terrain_has_a_surface() {
    let mut noise = fastnoise_lite::FastNoiseLite::new();
    noise.set_noise_type(Some(fastnoise_lite::NoiseType::OpenSimplex2));
    noise.set_seed(Some(972483));
    noise.set_frequency(Some(0.005));
    let height = move |x: f32, z: f32| {
        let mut amplitude = 1.0f32;
        let mut frequency = 1.0f32;
        let mut sum = 0.0f32;
        for _ in 0..3 {
            let layer = noise.get_noise_2d(x / 3.0 * frequency, z / 3.0 * frequency);
            sum += (layer + 1.0) / 2.0 * amplitude;
            amplitude *= 0.5;
            frequency *= 2.0;
        }
        sum * 200.0
    };
    let ground = height(8.0, 8.0);
    assert!(ground >= 0.0 && ground <= 350.0);
    let chunk_y = (ground / 16.0).floor() as i32;
    let field = move |x: i64, y: i64, z: i64| density(y as f32 - height(x as f32, z as f32));
    let generator = MapGenerator::new(field);
    let grid = generator.generate_noise(ChunkCoordinate::new(0, chunk_y, 0), 16);
    assert!(grid.read(8, 0, 8).is_sign_negative() || value(grid.read(8, 0, 8)) == 0.0);
    assert!(!grid.read(8, 16, 8).is_sign_negative());
    let mesh = voxel_terrain::map_generator::map_display::mesh_grid(&grid);
    assert!(!mesh.vertices.is_empty());
    assert_eq!(mesh.vertices.len() % 3, 0);
    assert_eq!(mesh.indices.len(), mesh.vertices.len());
    assert_eq!(mesh.translation, (0, chunk_y as i64 * 16, 0));
    for vertex in &mesh.vertices {
        assert_ne!(vertex.density_a.is_sign_negative(), vertex.density_b.is_sign_negative());
    }
    let above = generator.generate_noise(ChunkCoordinate::new(0, 30, 0), 16);
    assert!(voxel_terrain::map_generator::map_display::mesh_grid(&above).vertices.is_empty());
}
