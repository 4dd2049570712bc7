use axesporen::collide_body::CollideBody;
use axesporen::tile::TileType;
use axesporen::tilemap::{TileMap, TileMapHudge};
use axesporen::vector2d::Vector2D;

#[test]
fn generated_map_has_walls_on_forced_cells_and_one_biome() {
    // a deterministic draw: 1 in [0,3) picks grass
    let map = TileMap::new_from_draws(5, 4, 1000, None, 1, 0);
    assert_eq!(map.tiles.len(), 4);
    for y in 0..4usize {
        assert_eq!(map.tiles[y].len(), 5);
        for x in 0..5usize {
            let t = map.tiles[y][x];
            assert_eq!(t.pos, Vector2D::new(x as i32, y as i32));
            if x == 0 && y % 3 == 0 {
                assert_eq!(t.kind, TileType::Wall);
            } else {
                assert_eq!(t.kind, TileType::Grass);
            }
        }
    }
}

#[test]
fn biome_draws_cover_the_four_kinds() {
    // second draw even: sand; divisible by three: snow; otherwise goo
    let sand = TileMap::new_from_draws(2, 2, 10, None, 0, 4);
    assert_eq!(sand.tiles[0][1].kind, TileType::Sand);
    let snow = TileMap::new_from_draws(2, 2, 10, None, 0, 3);
    assert_eq!(snow.tiles[0][1].kind, TileType::Snow);
    let goo = TileMap::new_from_draws(2, 2, 10, None, 0, 5);
    assert_eq!(goo.tiles[0][1].kind, TileType::Goo);
    let grass = TileMap::new_from_draws(2, 2, 10, None, 2, 5);
    assert_eq!(grass.tiles[0][1].kind, TileType::Grass);
}

#[test]
fn tile_indexes_floor_toward_minus_infinity() {
    let map = TileMap::new_from_draws(4, 4, 1000, None, 1, 0);
    let inside = map.get_indexes_from_position(&Vector2D::new(2500, 3999));
    assert_eq!(inside, Vector2D::new(2, 3));
    let negative = map.get_indexes_from_position(&Vector2D::new(-1, -2500));
    assert_eq!(negative, Vector2D::new(-1, -3));
}

#[test]
fn chunk_lookup_rejects_out_of_bounds_positions() {
    let map = TileMap::new_from_draws(4, 4, 1000, None, 1, 0);
    assert!(map.get_tile_from_position(&Vector2D::new(-1, 100)).is_none());
    assert!(map.get_tile_from_position(&Vector2D::new(100, 4000)).is_none());
    assert!(map.get_tile_from_position(&Vector2D::new(3999, 3999)).is_some());
    assert!(map.get_tile_from_position(&Vector2D::new(0, 0)).is_some());
}

#[test]
fn grid_lookup_rejects_positions_outside_the_bounding_box() {
    let grid = TileMapHudge::new(2, 2, 1000, 4, 4);
    // the bounding box is 8000 by 8000 world units
    assert!(grid.get_tile_from_position(&Vector2D::new(-1, 5)).is_none());
    assert!(grid.get_tile_from_position(&Vector2D::new(8000, 0)).is_none());
    assert!(grid.get_tile_from_position(&Vector2D::new(0, -100)).is_none());
    assert!(grid.get_tile_from_position(&Vector2D::new(5, 8001)).is_none());
    assert!(grid.get_tile_from_position(&Vector2D::new(7999, 7999)).is_some());
    assert!(grid.get_tile_from_position(&Vector2D::new(0, 0)).is_some());
}

#[test]
fn grid_chunk_indexes_use_each_axis_own_dimension() {
    // 3-wide by 2-high chunks would confuse a single-dimension indexer
    let grid = TileMapHudge::new(3, 4, 1000, 3, 2);
    let idx = grid.get_tilemap_index_from_position(&Vector2D::new(4500, 5500));
    // tile (4, 5): chunk x = 4 / 3, chunk y = 5 / 2
    assert_eq!(idx, Vector2D::new(1, 2));
}

#[test]
fn grid_lookup_matches_owning_chunk_lookup() {
    let grid = TileMapHudge::new(2, 2, 1000, 4, 4);
    let pos = Vector2D::new(5500, 2500);
    let through_grid = grid.get_tile_from_position(&pos).unwrap();
    let chunk = grid.get_tilemap_from_position(&pos).unwrap();
    // the chunk at grid cell (1, 0) owns the world-space origin (4000, 0)
    let local = Vector2D::new(5500 - 4000, 2500);
    let through_chunk = chunk.get_tile_from_position(&local).unwrap();
    assert_eq!(through_grid, through_chunk);
    assert_eq!(through_grid.pos, Vector2D::new(5, 2));
}

#[test]
fn terrain_collision_needs_a_discriminant_or_a_missing_tile() {
    let map = TileMap::new_from_draws(5, 5, 32_000, None, 1, 0);
    // all four probes land on interior grass tiles
    let clear = CollideBody::basic(Vector2D::new(80_000, 80_000), 16_000);
    assert!(!clear.is_collide(&map, Vec::new()));
    assert!(!clear.is_collide(&map, vec![TileType::Wall]));
    // the left probe lands on the wall tile at cell (0, 0)
    let near_wall = CollideBody::basic(Vector2D::new(33_000, 16_000), 16_000);
    assert!(!near_wall.is_collide(&map, Vec::new()));
    assert!(near_wall.is_collide(&map, vec![TileType::Wall]));
    // out of bounds counts as solid whatever the discriminants
    let outside = CollideBody::basic(Vector2D::new(-400_000, 0), 16_000);
    assert!(outside.is_collide(&map, Vec::new()));
}

#[test]
fn grid_terrain_collision_counts_out_of_bounds_as_solid() {
    let grid = TileMapHudge::new(2, 2, 1000, 4, 4);
    let outside = CollideBody::basic(Vector2D::new(-50_000, 0), 16_000);
    assert!(outside.is_collide_with_tilemap_hudge(&grid, Vec::new()));
    assert!(outside.is_collide_with_tilemap_hudge(&grid, vec![TileType::Goo]));
}

#[test]
fn proximity_is_a_strict_per_probe_test() {
    let body = CollideBody::basic(Vector2D::new(0, 0), 16_000);
    // the right probe sits at (16000, 0); the center is far away
    assert!(body.is_collide_with_object(&Vector2D::new(20_999, 0), 5000));
    assert!(!body.is_collide_with_object(&Vector2D::new(21_000, 0), 5000));
    assert!(!body.is_collide_with_object(&Vector2D::new(21_001, 0), 5000));
}

#[test]
fn collide_with_reports_one_slot_per_probe() {
    let map = TileMap::new_from_draws(5, 5, 32_000, None, 1, 0);
    let body = CollideBody::basic(Vector2D::new(80_000, 80_000), 16_000);
    let tiles = body.collide_with(&map);
    assert_eq!(tiles.len(), 4);
    for t in tiles.iter() {
        assert!(t.is_some());
    }
    let outside = CollideBody::basic(Vector2D::new(-400_000, 0), 16_000);
    let missing = outside.collide_with(&map);
    assert_eq!(missing.len(), 4);
    assert!(missing.iter().any(|t| t.is_none()));
}

#[test]
fn index_validity_and_direct_cell_access() {
    let map = TileMap::new_from_draws(4, 3, 1000, None, 1, 0);
    assert!(map.indexes_valid(0, 0));
    assert!(map.indexes_valid(3, 2));
    assert!(!map.indexes_valid(4, 0));
    assert!(!map.indexes_valid(0, 3));
    assert!(!map.indexes_valid(-1, 1));
    let t = map.get_tile_at(&Vector2D::new(2, 1)).unwrap();
    assert_eq!(t.pos, Vector2D::new(2, 1));
    assert!(map.get_tile_at(&Vector2D::new(4, 1)).is_none());
    let strict = map.get_indexes_from_position_strict(&Vector2D::new(1500, 500));
    assert_eq!(strict, Some(Vector2D::new(1, 0)));
    assert!(map.get_indexes_from_position_strict(&Vector2D::new(-1, 0)).is_none());
}

#[test]
fn grid_chunks_carry_their_world_space_origins() {
    let grid = TileMapHudge::new(2, 2, 1000, 4, 3);
    assert!(grid.indexes_tilemap_valid(0, 0));
    assert!(grid.indexes_tilemap_valid(1, 1));
    assert!(!grid.indexes_tilemap_valid(2, 0));
    assert!(!grid.indexes_tilemap_valid(0, -1));
    let chunk = grid.get_tilemap_from_index(&Vector2D::new(1, 1));
    // the chunk at grid cell (1, 1) starts at tile index (4, 3)
    assert_eq!(chunk.tiles[0][0].pos, Vector2D::new(4, 3));
    assert_eq!(chunk.tiles[2][3].pos, Vector2D::new(7, 5));
}

#[test]
fn single_chunk_grid_resolves_like_its_chunk() {
    let grid = TileMapHudge::new(1, 1, 1000, 6, 6);
    let chunk = grid.get_tilemap_from_index(&Vector2D::new(0, 0));
    for &(x, y) in &[(0, 0), (500, 500), (5999, 5999), (-1, 0), (6000, 1), (3000, -50)] {
        let pos = Vector2D::new(x, y);
        assert_eq!(grid.get_tile_from_position(&pos), chunk.get_tile_from_position(&pos));
    }
}

#[test]
fn bodies_are_built_from_center_and_probes() {
    let center = Vector2D::new(5, 6);
    let body = CollideBody::new(center, vec![Vector2D::new(1, 0), Vector2D::new(0, -2)]);
    assert_eq!(body.position, center);
    assert_eq!(body.radars.len(), 2);
    let copy = body.duplicate();
    assert_eq!(copy.position, center);
    assert_eq!(copy.radars, body.radars);
    let preset = CollideBody::basic(center, 16_000);
    assert_eq!(preset.radars.len(), 4);
    assert_eq!(preset.radars[0], Vector2D::new(0, -16_000));
    assert_eq!(preset.radars[1], Vector2D::new(16_000, 0));
    assert_eq!(preset.radars[2], Vector2D::new(0, 16_000));
    assert_eq!(preset.radars[3], Vector2D::new(-16_000, 0));
}
