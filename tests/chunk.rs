use terrain_gen::config::TerrainConfig;
use terrain_gen::grid::{cell_index, chunk_world_coords, world_coord};

#[test]
fn generate_chunk_produces_correct_size() {
    let config = TerrainConfig::new(42);
    let coords = chunk_world_coords(0, 0, config.chunk_size);
    let expected = config.chunk_size * config.chunk_size;
    assert_eq!(coords.len(), expected as usize);
}

#[test]
fn chunk_boundaries_are_seamless() {
    let config = TerrainConfig::new(42);
    let a = chunk_world_coords(0, 0, config.chunk_size);
    let b = chunk_world_coords(1, 0, config.chunk_size);
    let size = config.chunk_size as usize;
    for z in 0..size {
        assert_eq!(a[z * size + (size - 1)], b[z * size], "Boundary mismatch at z={}", z);
    }
}

#[test]
fn vertical_boundaries_are_seamless() {
    let a = chunk_world_coords(-2, 4, 9);
    let b = chunk_world_coords(-2, 5, 9);
    for x in 0..9 {
        assert_eq!(a[8 * 9 + x], b[x]);
    }
}

#[test]
fn negative_chunks_work() {
    let config = TerrainConfig::new(42);
    let coords = chunk_world_coords(-5, -3, config.chunk_size);
    assert_eq!(coords.len(), (config.chunk_size * config.chunk_size) as usize);
    assert_eq!(coords[0], (-635, -381));
    assert_eq!(coords[128 * 2 + 1], (-634, -379));
    assert_eq!(coords[coords.len() - 1], (-508, -254));
}

#[test]
fn world_coordinates_overlap_by_one() {
    assert_eq!(world_coord(0, 128, 0), 0);
    assert_eq!(world_coord(1, 128, 0), 127);
    assert_eq!(world_coord(0, 128, 127), 127);
    assert_eq!(world_coord(-1, 128, 5), -122);
    assert_eq!(world_coord(i32::MIN, u32::MAX, u32::MAX), (i32::MIN as i64) * (u32::MAX as i64 - 1) + u32::MAX as i64);
    assert_eq!(world_coord(7, 1, 0), 0);
}

#[test]
fn empty_chunk_has_no_cells() {
    assert!(chunk_world_coords(3, 3, 0).is_empty());
    assert_eq!(chunk_world_coords(3, -3, 1), vec![(0, 0)]);
}

#[test]
fn cell_index_is_row_major() {
    assert_eq!(cell_index(0, 0, 4, 3), 0);
    assert_eq!(cell_index(2, 3, 4, 3), 11);
    assert_eq!(cell_index(1, 0, 4, 3), 4);
}
