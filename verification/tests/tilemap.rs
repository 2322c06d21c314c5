// Tests for grid geometry, coordinate transforms and classification.
//
// World coordinates use 20 sub-units per pixel throughout, so a 16-pixel
// cell is 320 sub-units and 16.1 pixels is exactly 322.

use weird_woods::geometry::WorldPos;
use weird_woods::tilemap::{
    build_tile_data, grid_coords_to_transform, transform_to_tile_offset, GridCoords, GridSizing,
    TileData, TileDataError, TileType, MAX_CELL_SIZE, MAX_GRID_DIM,
};

fn sizing(cell_size: i64, grid_width: usize, grid_height: usize) -> GridSizing {
    GridSizing { cell_size, grid_height, grid_width }
}

#[test]
fn test_x_offset() {
    let sizing = sizing(320, 2, 1);

    assert_eq!(0, transform_to_tile_offset(&WorldPos::new(0, 0), &sizing));
    assert_eq!(0, transform_to_tile_offset(&WorldPos::new(320, 0), &sizing));
    // > 16 px should register as the 1th cell, not the 0th.
    assert_eq!(1, transform_to_tile_offset(&WorldPos::new(322, 0), &sizing));
    assert_eq!(1, transform_to_tile_offset(&WorldPos::new(640, 0), &sizing));
    // > the bound of the grid should stay at whatever the max cell is.
    assert_eq!(1, transform_to_tile_offset(&WorldPos::new(800, 0), &sizing));
}

#[test]
fn test_y_offset() {
    // two rows this time means all the 0 y values place us in the 1th row
    // instead of the 0th.
    let sizing = sizing(320, 2, 2);

    assert_eq!(2, transform_to_tile_offset(&WorldPos::new(0, 0), &sizing));
    assert_eq!(2, transform_to_tile_offset(&WorldPos::new(320, 0), &sizing));
    // > 16 px should register as the 1th cell, not the 0th.
    assert_eq!(3, transform_to_tile_offset(&WorldPos::new(322, 0), &sizing));
    assert_eq!(3, transform_to_tile_offset(&WorldPos::new(640, 0), &sizing));
    // > the bound of the grid should stay at whatever the max cell is.
    assert_eq!(3, transform_to_tile_offset(&WorldPos::new(800, 0), &sizing));
}

#[test]
fn negative_positions_clamp_to_the_grid() {
    let sizing = sizing(320, 2, 2);
    // Far below and left of the world: bottom-left cell.
    assert_eq!(2, transform_to_tile_offset(&WorldPos::new(-5000, -5000), &sizing));
    // Far above the world: top row.
    assert_eq!(0, transform_to_tile_offset(&WorldPos::new(0, 5000), &sizing));
}

#[test]
fn grid_to_world_returns_cell_centres() {
    let sizing = sizing(320, 2, 2);
    let p = grid_coords_to_transform(GridCoords { col: 0, row: 0 }, &sizing);
    // Top-left cell: x in its first column, y in the upper row.
    assert_eq!(p, WorldPos::new(160, 480));
    let q = grid_coords_to_transform(GridCoords { col: 1, row: 1 }, &sizing);
    assert_eq!(q, WorldPos::new(480, 160));
}

#[test]
fn world_round_trip_recovers_every_cell() {
    let sizing = sizing(320, 3, 4);
    for row in 0..4usize {
        for col in 0..3usize {
            let world = grid_coords_to_transform(GridCoords { col, row }, &sizing);
            let offset = transform_to_tile_offset(&world, &sizing);
            assert_eq!(offset, row * 3 + col);
        }
    }
}

#[test]
fn world_extent_is_cells_times_cell_size() {
    let s = sizing(320, 5, 3);
    assert_eq!(s.world_width(), 1600);
    assert_eq!(s.world_height(), 960);
}

#[test]
fn tile_type_parses_each_category_name() {
    assert_eq!(TileType::from_str("Walkable"), Ok(TileType::Walkable));
    assert_eq!(TileType::from_str("Swimmable"), Ok(TileType::Swimmable));
    assert_eq!(TileType::from_str("Ledge"), Ok(TileType::Ledge));
    assert_eq!(TileType::from_str("Wall"), Ok(TileType::Wall));
    assert_eq!(TileType::from_str("Lava"), Err(()));
    assert_eq!(TileType::from_str(""), Err(()));
    assert_eq!(TileType::from_str("walkable"), Err(()));
}

fn sample_tags() -> Vec<(String, Vec<i32>)> {
    vec![
        ("Walkable".to_string(), vec![1, 2]),
        ("Swimmable".to_string(), vec![3]),
        ("Wall".to_string(), vec![4]),
        ("Ledge".to_string(), vec![5]),
    ]
}

#[test]
fn build_classifies_each_cell_by_its_tile_id() {
    let s = sizing(320, 2, 2);
    let data = build_tile_data(s, vec![1, 3, 4, 2], &sample_tags()).unwrap();
    let cats = data.categories_of(0).unwrap();
    assert!(cats.contains(TileType::Walkable));
    assert!(!cats.contains(TileType::Swimmable));
    assert!(cats.permits_entry());
    let cats = data.categories_of(1).unwrap();
    assert!(cats.contains(TileType::Swimmable));
    assert!(cats.permits_entry());
    let cats = data.categories_of(2).unwrap();
    assert!(cats.contains(TileType::Wall));
    assert!(!cats.permits_entry());
}

#[test]
fn a_tile_id_can_carry_several_categories() {
    let s = sizing(320, 1, 1);
    let tags = vec![
        ("Walkable".to_string(), vec![7]),
        ("Swimmable".to_string(), vec![7]),
    ];
    let data = build_tile_data(s, vec![7], &tags).unwrap();
    let cats = data.categories_of(0).unwrap();
    assert!(cats.contains(TileType::Walkable));
    assert!(cats.contains(TileType::Swimmable));
    assert!(!cats.contains(TileType::Wall));
    assert!(!cats.contains(TileType::Ledge));
}

#[test]
fn an_unclassified_tile_id_carries_no_categories() {
    let s = sizing(320, 1, 1);
    let data = build_tile_data(s, vec![9], &sample_tags()).unwrap();
    let cats = data.categories_of(0).unwrap();
    assert!(!cats.contains(TileType::Walkable));
    assert!(!cats.contains(TileType::Swimmable));
    assert!(!cats.contains(TileType::Wall));
    assert!(!cats.contains(TileType::Ledge));
    assert!(!cats.permits_entry());
}

#[test]
fn build_rejects_an_unknown_category_name() {
    let s = sizing(320, 1, 1);
    let tags = vec![("Quicksand".to_string(), vec![1])];
    assert_eq!(build_tile_data(s, vec![1], &tags), Err(TileDataError::UnknownTileType));
}

#[test]
fn build_rejects_a_tile_table_of_the_wrong_size() {
    let s = sizing(320, 2, 2);
    assert_eq!(
        build_tile_data(s, vec![1, 2, 3], &sample_tags()),
        Err(TileDataError::SizeMismatch)
    );
}

#[test]
fn the_latest_tag_for_a_category_wins() {
    let s = sizing(320, 1, 1);
    let tags = vec![
        ("Walkable".to_string(), vec![1]),
        ("Walkable".to_string(), vec![2]),
    ];
    let data = build_tile_data(s, vec![2], &tags).unwrap();
    assert!(data.categories_of(0).unwrap().contains(TileType::Walkable));
    let data = build_tile_data(s, vec![1], &tags).unwrap();
    assert!(!data.categories_of(0).unwrap().contains(TileType::Walkable));
}

#[test]
fn building_twice_from_the_same_level_data_is_identical() {
    let s = sizing(320, 2, 2);
    let ids = vec![1, 3, 4, 2];
    let first = build_tile_data(s, ids.clone(), &sample_tags()).unwrap();
    let second = build_tile_data(s, ids, &sample_tags()).unwrap();
    assert_eq!(first.tile_ids, second.tile_ids);
    assert_eq!(first.membership, second.membership);
    assert_eq!(first, second);
}

#[test]
fn queries_report_unavailable_before_any_build() {
    let data = TileData::default();
    assert!(data.categories_of(0).is_none());
}

#[test]
fn the_largest_grid_still_addresses_its_far_corner() {
    let s = sizing(MAX_CELL_SIZE, MAX_GRID_DIM, MAX_GRID_DIM);
    // The world's far corner: bottom-right cell, the last offset.
    let far_x = MAX_CELL_SIZE * MAX_GRID_DIM as i64;
    let offset = transform_to_tile_offset(&WorldPos::new(far_x, 0), &s);
    assert_eq!(offset, MAX_GRID_DIM * MAX_GRID_DIM - 1);
    // And the top-left cell is offset 0.
    let top_y = MAX_CELL_SIZE * MAX_GRID_DIM as i64;
    assert_eq!(transform_to_tile_offset(&WorldPos::new(0, top_y - 1), &s), 0);
}

#[test]
fn round_trip_holds_at_the_smallest_workable_cell_size() {
    // Two sub-units per cell is the smallest size with a cell interior.
    let s = sizing(2, 3, 3);
    for row in 0..3usize {
        for col in 0..3usize {
            let world = grid_coords_to_transform(GridCoords { col, row }, &s);
            assert_eq!(transform_to_tile_offset(&world, &s), row * 3 + col);
        }
    }
}

#[test]
fn queries_reject_an_offset_outside_the_table() {
    let s = sizing(320, 1, 1);
    let data = build_tile_data(s, vec![1], &sample_tags()).unwrap();
    assert!(data.categories_of(0).is_some());
    assert!(data.categories_of(1).is_none());
}
