use voxel_terrain::map_generator::endless_terrain::{
    chunk_coordinate, is_within_render_distance, update_chunk, update_visible_chunks,
    viewer_chunk, Chunk, ChunkCoordinate, ChunkMap, CHUNK_SIZE,
};
use voxel_terrain::settings::RenderSettings;

fn coord(x: i32, y: i32, z: i32) -> ChunkCoordinate {
    ChunkCoordinate::new(x, y, z)
}

fn lattice(position: f32) -> i64 {
    position.floor() as i64
}

#[test]
fn chunk_size_is_sixteen() {
    assert_eq!(CHUNK_SIZE, 16);
}

#[test]
fn default_render_distance() {
    assert_eq!(RenderSettings::default().render_distance, (2, 2));
}

#[test]
fn new_chunk_is_not_visible() {
    assert_eq!(Chunk::new(), Chunk { visible: false });
}

#[test]
fn chunk_coordinate_rounds_down() {
    assert_eq!(chunk_coordinate(lattice(-0.5), 16), -1);
    assert_eq!(chunk_coordinate(-1, 16), -1);
    assert_eq!(chunk_coordinate(-16, 16), -1);
    assert_eq!(chunk_coordinate(-17, 16), -2);
    assert_eq!(chunk_coordinate(0, 16), 0);
    assert_eq!(chunk_coordinate(15, 16), 0);
    assert_eq!(chunk_coordinate(16, 16), 1);
    assert_eq!(chunk_coordinate(lattice(31.9), 16), 1);
    assert_eq!(chunk_coordinate(-15, 15), -1);
    assert_eq!(chunk_coordinate(-16, 15), -2);
    assert_eq!(chunk_coordinate(44, 15), 2);
}

#[test]
fn chunk_coordinate_agrees_with_the_float_floor() {
    let positions: Vec<f32> = vec![
        -1000.25, -64.0, -63.999, -16.5, -16.0, -15.99, -0.5, -0.0, 0.0, 0.5, 15.99, 16.0, 47.3,
        1.0e6, -1.0e6,
    ];
    for position in positions {
        let expected = (position / CHUNK_SIZE as f32).floor() as i32;
        assert_eq!(chunk_coordinate(lattice(position), CHUNK_SIZE), expected, "{}", position);
    }
}

#[test]
fn chunk_coordinate_stays_in_range() {
    assert_eq!(chunk_coordinate(i64::MAX, 16), i32::MAX);
    assert_eq!(chunk_coordinate(i64::MIN, 16), i32::MIN);
    assert_eq!(chunk_coordinate(i64::MIN, 1), i32::MIN);
    assert_eq!(chunk_coordinate(i64::MAX, 255), i32::MAX);
    assert_eq!(chunk_coordinate(i32::MAX as i64 * 16, 16), i32::MAX);
    assert_eq!(chunk_coordinate(i32::MIN as i64 * 16 - 1, 16), i32::MIN);
}

#[test]
fn viewer_chunk_takes_each_axis() {
    assert_eq!(viewer_chunk((0, 0, 0)), coord(0, 0, 0));
    assert_eq!(viewer_chunk((8, 24, 8)), coord(0, 1, 0));
    assert_eq!(viewer_chunk((-1, 16, -33)), coord(-1, 1, -3));
}

#[test]
fn render_distance_test() {
    let center = coord(0, 0, 0);
    assert!(is_within_render_distance(coord(2, 1, -2), center, (2, 1)));
    assert!(!is_within_render_distance(coord(3, 0, 0), center, (2, 1)));
    assert!(!is_within_render_distance(coord(0, 0, -3), center, (2, 1)));
    assert!(!is_within_render_distance(coord(0, 2, 0), center, (2, 1)));
    assert!(is_within_render_distance(coord(0, -1, 0), center, (2, 1)));
    assert!(is_within_render_distance(center, center, (0, 0)));
    let low = coord(i32::MIN, 0, 0);
    let high = coord(i32::MAX, 0, 0);
    assert!(!is_within_render_distance(low, high, (u32::MAX - 1, 0)));
    assert!(is_within_render_distance(low, high, (u32::MAX, 0)));
}

#[test]
fn discovery_round_the_origin_finds_nine() {
    let mut map = ChunkMap::new();
    let settings = RenderSettings { render_distance: (1, 0) };
    let found = update_visible_chunks(&mut map, &settings, Some((0, 0, 0)));
    assert_eq!(found.len(), 9);
    assert_eq!(map.len(), 9);
    for x in -1..=1 {
        for z in -1..=1 {
            assert!(found.contains(&coord(x, 0, z)));
            assert_eq!(map.get(coord(x, 0, z)), Some(Chunk { visible: false }));
        }
    }
    assert!(!map.contains_key(coord(0, 1, 0)));
    assert!(!map.contains_key(coord(2, 0, 0)));
}

#[test]
fn discovery_order_is_y_then_x_then_z() {
    let mut map = ChunkMap::new();
    let settings = RenderSettings { render_distance: (1, 1) };
    let found = update_visible_chunks(&mut map, &settings, Some((0, 0, 0)));
    let mut expected = Vec::new();
    for y in -1..=1 {
        for x in -1..=1 {
            for z in -1..=1 {
                expected.push(coord(x, y, z));
            }
        }
    }
    assert_eq!(found, expected);
    let resident: Vec<ChunkCoordinate> = (0..map.len()).map(|i| map.get_index(i).0).collect();
    assert_eq!(resident, expected);
}

#[test]
fn discovered_chunks_lie_within_render_distance() {
    let mut map = ChunkMap::new();
    let settings = RenderSettings { render_distance: (2, 1) };
    let viewer = (-40, 100, 7);
    let center = viewer_chunk(viewer);
    assert_eq!(center, coord(-3, 6, 0));
    let found = update_visible_chunks(&mut map, &settings, Some(viewer));
    assert_eq!(found.len(), 5 * 5 * 3);
    for c in &found {
        assert!((c.x - center.x).abs().max((c.z - center.z).abs()) <= 2);
        assert!((c.y - center.y).abs() <= 1);
    }
}

#[test]
fn second_discovery_finds_nothing() {
    let mut map = ChunkMap::new();
    let settings = RenderSettings { render_distance: (1, 0) };
    update_visible_chunks(&mut map, &settings, Some((0, 0, 0)));
    update_chunk(&mut map, &settings, Some((0, 0, 0)));
    let again = update_visible_chunks(&mut map, &settings, Some((5, 3, 15)));
    assert!(again.is_empty());
    assert_eq!(map.len(), 9);
    assert_eq!(map.get(coord(1, 0, 1)), Some(Chunk { visible: true }));
}

#[test]
fn discovery_after_a_move_finds_only_the_new_chunks() {
    let mut map = ChunkMap::new();
    let settings = RenderSettings { render_distance: (1, 0) };
    update_visible_chunks(&mut map, &settings, Some((0, 0, 0)));
    let found = update_visible_chunks(&mut map, &settings, Some((16, 0, 0)));
    assert_eq!(found, vec![coord(2, 0, -1), coord(2, 0, 0), coord(2, 0, 1)]);
    assert_eq!(map.len(), 12);
}

#[test]
fn chunk_falls_out_of_range_and_stays_resident() {
    let mut map = ChunkMap::new();
    let settings = RenderSettings { render_distance: (1, 0) };
    update_visible_chunks(&mut map, &settings, Some((0, 0, 0)));
    update_chunk(&mut map, &settings, Some((0, 0, 0)));
    assert_eq!(map.get(coord(-1, 0, 0)), Some(Chunk { visible: true }));
    let viewer = (2 * 16, 0, 0);
    update_visible_chunks(&mut map, &settings, Some(viewer));
    update_chunk(&mut map, &settings, Some(viewer));
    assert_eq!(map.get(coord(-1, 0, 0)), Some(Chunk { visible: false }));
    assert!(map.contains_key(coord(-1, 0, 0)));
    assert_eq!(map.get(coord(1, 0, 0)), Some(Chunk { visible: true }));
    assert_eq!(map.get(coord(3, 0, 1)), Some(Chunk { visible: true }));
    assert_eq!(map.get(coord(0, 0, 0)), Some(Chunk { visible: false }));
}

#[test]
fn refresh_marks_every_resident_chunk() {
    let mut map = ChunkMap::new();
    let wide = RenderSettings { render_distance: (2, 1) };
    let narrow = RenderSettings { render_distance: (1, 0) };
    update_visible_chunks(&mut map, &wide, Some((0, 0, 0)));
    update_chunk(&mut map, &narrow, Some((0, 0, 0)));
    let mut visible = 0;
    for i in 0..map.len() {
        let (c, chunk) = map.get_index(i);
        let expected = c.x.abs().max(c.z.abs()) <= 1 && c.y == 0;
        assert_eq!(chunk.visible, expected);
        assert_eq!(map.get(c), Some(chunk));
        if chunk.visible {
            visible += 1;
        }
    }
    assert_eq!(map.len(), 75);
    assert_eq!(visible, 9);
}

#[test]
fn tick_without_a_viewer_does_nothing() {
    let mut map = ChunkMap::new();
    let settings = RenderSettings { render_distance: (1, 1) };
    assert!(update_visible_chunks(&mut map, &settings, None).is_empty());
    assert_eq!(map.len(), 0);
    update_visible_chunks(&mut map, &settings, Some((0, 0, 0)));
    update_chunk(&mut map, &settings, Some((0, 0, 0)));
    assert!(update_visible_chunks(&mut map, &settings, None).is_empty());
    update_chunk(&mut map, &settings, None);
    assert_eq!(map.len(), 27);
    assert_eq!(map.get(coord(0, 0, 0)), Some(Chunk { visible: true }));
}

#[test]
fn zero_render_distance_keeps_the_viewer_chunk() {
    let mut map = ChunkMap::new();
    let settings = RenderSettings { render_distance: (0, 0) };
    let found = update_visible_chunks(&mut map, &settings, Some((-1, -1, -1)));
    assert_eq!(found, vec![coord(-1, -1, -1)]);
}

#[test]
fn discovery_at_the_end_of_the_lattice() {
    let mut map = ChunkMap::new();
    let settings = RenderSettings { render_distance: (1, 0) };
    let found = update_visible_chunks(&mut map, &settings, Some((i64::MAX, 0, i64::MIN)));
    assert_eq!(
        found,
        vec![
            coord(i32::MAX - 1, 0, i32::MIN),
            coord(i32::MAX - 1, 0, i32::MIN + 1),
            coord(i32::MAX, 0, i32::MIN),
            coord(i32::MAX, 0, i32::MIN + 1),
        ]
    );
}

#[test]
fn insert_if_absent_keeps_a_resident_chunk() {
    let mut map = ChunkMap::new();
    let settings = RenderSettings { render_distance: (0, 0) };
    assert!(map.insert_if_absent(coord(4, 5, 6)));
    update_chunk(&mut map, &settings, Some((64, 80, 96)));
    assert_eq!(map.get(coord(4, 5, 6)), Some(Chunk { visible: true }));
    assert!(!map.insert_if_absent(coord(4, 5, 6)));
    assert_eq!(map.get(coord(4, 5, 6)), Some(Chunk { visible: true }));
    assert_eq!(map.len(), 1);
    assert_eq!(map.get(coord(6, 5, 4)), None);
}

#[test]
fn coordinates_that_differ_in_one_axis_are_kept_apart() {
    let mut map = ChunkMap::new();
    let all = vec![
        coord(0, 0, 0),
        coord(-1, 0, 0),
        coord(0, -1, 0),
        coord(0, 0, -1),
        coord(i32::MIN, i32::MAX, 0),
        coord(i32::MAX, i32::MIN, 0),
        coord(0, i32::MIN, i32::MAX),
        coord(1, 0, 0),
        coord(0, 1, 0),
        coord(0, 0, 1),
    ];
    for c in &all {
        assert!(map.insert_if_absent(*c));
    }
    assert_eq!(map.len(), all.len());
    for (i, c) in all.iter().enumerate() {
        assert!(map.contains_key(*c));
        assert_eq!(map.get_index(i).0, *c);
    }
}
