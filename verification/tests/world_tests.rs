use tile_world::tile::{Tile, TileId};
use tile_world::world::World;

fn set(world: &mut World, x: usize, y: usize, id: TileId) {
    world.get_tile_mut(x, y).unwrap().set_id(id);
}

fn mask(world: &World, x: usize, y: usize) -> u32 {
    world.get_tile(x, y).unwrap().get_neighbor_bf()
}

fn filled_world() -> World {
    let mut world = World::new(100, 75);
    for x in 0..100 {
        for y in 0..75 {
            if y == 3 {
                set(&mut world, x, y, TileId::Grass);
            } else if y > 3 {
                set(&mut world, x, y, TileId::Dirt);
            }
        }
    }
    world
}

fn snapshot(world: &World) -> Vec<(TileId, [Option<TileId>; 4], u32, u32)> {
    let mut all = Vec::new();
    for x in 0..world.width() {
        for y in 0..world.height() {
            let t: &Tile = world.get_tile(x, y).unwrap();
            all.push((t.get_id(), t.get_neighbors(), t.get_frame(), t.get_neighbor_bf()));
        }
    }
    all
}

#[test]
fn new_world_holds_fresh_tiles() {
    let world = World::new(4, 3);
    assert_eq!(world.width(), 4);
    assert_eq!(world.height(), 3);
    for x in 0..4 {
        for y in 0..3 {
            let t = world.get_tile(x, y).unwrap();
            assert_eq!(t.get_id(), TileId::Nothing);
            assert_eq!(t.get_neighbor_bf(), 0);
            assert_eq!(t.get_frame(), 0);
            assert_eq!(t.get_neighbors(), [Some(TileId::Nothing); 4]);
        }
    }
}

#[test]
fn empty_world_has_no_tile() {
    let world = World::new(0, 0);
    assert!(world.get_tile(0, 0).is_err());
    let mut narrow = World::new(3, 0);
    assert!(narrow.get_tile(0, 0).is_err());
    narrow.update_cached_neighbors();
    assert!(narrow.get_neighbors_to(1, 0).is_err());
}

#[test]
fn get_tile_succeeds_exactly_inside_the_grid() {
    let mut world = World::new(4, 3);
    for x in 0..7 {
        for y in 0..7 {
            let inside = x < 4 && y < 3;
            assert_eq!(world.get_tile(x, y).is_ok(), inside);
            assert_eq!(world.get_tile_mut(x, y).is_ok(), inside);
            assert_eq!(world.get_neighbors_to(x, y).is_ok(), inside);
        }
    }
}

#[test]
fn out_of_bounds_access_reports_the_coordinates() {
    let mut world = World::new(10, 10);
    assert!(world.get_tile(9, 9).is_ok());
    assert_eq!(
        world.get_tile(10, 0).err(),
        Some(String::from("The tile at (10, 0) is out of bounds"))
    );
    assert_eq!(
        world.get_tile_mut(3, 12).err(),
        Some(String::from("The tile at (3, 12) is out of bounds"))
    );
    assert_eq!(
        world.get_neighbors_to(10, 10).err(),
        Some(String::from("The tile at (10, 10) is out of bounds"))
    );
}

#[test]
fn get_tile_mut_changes_one_tile_only() {
    let mut world = World::new(3, 3);
    {
        let t = world.get_tile_mut(1, 2).unwrap();
        t.set_id(TileId::Stone);
        t.set_frame(7);
        t.set_solid(true);
    }
    for x in 0..3 {
        for y in 0..3 {
            let t = world.get_tile(x, y).unwrap();
            if (x, y) == (1, 2) {
                assert_eq!(t.get_id(), TileId::Stone);
                assert_eq!(t.get_frame(), 7);
            } else {
                assert_eq!(t.get_id(), TileId::Nothing);
                assert_eq!(t.get_frame(), 0);
            }
        }
    }
}

#[test]
fn neighbors_are_listed_west_south_east_north() {
    let mut world = World::new(3, 3);
    set(&mut world, 0, 1, TileId::Dirt);
    set(&mut world, 1, 2, TileId::Stone);
    set(&mut world, 2, 1, TileId::Grass);
    assert_eq!(
        world.get_neighbors_to(1, 1).unwrap(),
        [
            Some(TileId::Dirt),
            Some(TileId::Stone),
            Some(TileId::Grass),
            Some(TileId::Nothing)
        ]
    );
}

#[test]
fn neighbor_is_none_exactly_off_the_grid() {
    let world = World::new(4, 3);
    for x in 0..4usize {
        for y in 0..3usize {
            let n = world.get_neighbors_to(x, y).unwrap();
            assert_eq!(n[0].is_none(), x == 0);
            assert_eq!(n[1].is_none(), y == 2);
            assert_eq!(n[2].is_none(), x == 3);
            assert_eq!(n[3].is_none(), y == 0);
        }
    }
}

#[test]
fn recache_writes_the_surrounding_kinds_to_every_tile() {
    let mut world = filled_world();
    world.update_cached_neighbors();
    for x in 0..100 {
        for y in 0..75 {
            let expected = world.get_neighbors_to(x, y).unwrap();
            assert_eq!(world.get_tile(x, y).unwrap().get_neighbors(), expected);
        }
    }
}

#[test]
fn recache_keeps_kind_and_frame() {
    let mut world = World::new(2, 2);
    {
        let t = world.get_tile_mut(1, 0).unwrap();
        t.set_id(TileId::Grass);
        t.set_frame(3);
    }
    world.update_cached_neighbors();
    let t = world.get_tile(1, 0).unwrap();
    assert_eq!(t.get_id(), TileId::Grass);
    assert_eq!(t.get_frame(), 3);
    assert_eq!(t.get_neighbor_bf(), 4 + 8);
}

#[test]
fn recache_twice_changes_nothing() {
    let mut world = filled_world();
    world.update_cached_neighbors();
    let once = snapshot(&world);
    world.update_cached_neighbors();
    assert_eq!(snapshot(&world), once);
}

#[test]
fn cached_mask_lags_until_recache() {
    let mut world = World::new(3, 1);
    world.update_cached_neighbors();
    assert_eq!(mask(&world, 1, 0), 2 + 8);
    set(&mut world, 0, 0, TileId::Dirt);
    assert_eq!(mask(&world, 1, 0), 2 + 8);
    world.update_cached_neighbors();
    assert_eq!(mask(&world, 1, 0), 1 + 2 + 8);
}

#[test]
fn single_tile_world_has_no_neighbors() {
    let mut world = World::new(1, 1);
    world.update_cached_neighbors();
    let t = world.get_tile(0, 0).unwrap();
    assert_eq!(t.get_neighbors(), [None, None, None, None]);
    assert_eq!(t.get_neighbor_bf(), 15);
}

#[test]
fn border_tiles_have_none_toward_the_border() {
    let mut world = World::new(5, 4);
    world.update_cached_neighbors();
    for y in 0..4 {
        assert_eq!(world.get_tile(0, y).unwrap().get_neighbors()[0], None);
        assert_eq!(world.get_tile(4, y).unwrap().get_neighbors()[2], None);
        assert_eq!(
            world.get_tile(2, y).unwrap().get_neighbors()[0],
            Some(TileId::Nothing)
        );
    }
    for x in 0..5 {
        assert_eq!(world.get_tile(x, 0).unwrap().get_neighbors()[3], None);
        assert_eq!(world.get_tile(x, 3).unwrap().get_neighbors()[1], None);
    }
}

#[test]
fn fill_pattern_masks() {
    let mut world = filled_world();
    world.update_cached_neighbors();
    // west off the grid, south dirt, east grass; north is empty air
    assert_eq!(mask(&world, 0, 3), 1 + 2 + 4);
    // west grass, south dirt, east grass; north is empty air
    assert_eq!(mask(&world, 5, 3), 1 + 2 + 4);
    // only the grass to the south counts
    assert_eq!(mask(&world, 5, 2), 2);
    // the top row has the edge to the north
    assert_eq!(mask(&world, 5, 0), 8);
    // deep in the dirt every neighbour counts
    assert_eq!(mask(&world, 5, 10), 15);
    // bottom right corner: two edges and two dirt tiles
    assert_eq!(mask(&world, 99, 74), 15);
}

#[test]
fn nothing_sentinel_does_not_count() {
    let mut world = World::new(5, 5);
    set(&mut world, 2, 2, TileId::Dirt);
    world.update_cached_neighbors();
    assert_eq!(
        world.get_tile(2, 2).unwrap().get_neighbors(),
        [Some(TileId::Nothing); 4]
    );
    assert_eq!(mask(&world, 2, 2), 0);
    // each neighbour sees the dirt on one side only
    assert_eq!(mask(&world, 1, 2), 4);
    assert_eq!(mask(&world, 2, 3), 8);
    assert_eq!(mask(&world, 3, 2), 1);
    assert_eq!(mask(&world, 2, 1), 2);
    // a diagonal cell sees none of it
    assert_eq!(mask(&world, 1, 1), 0);
}

#[test]
fn edge_autotile_all_stone() {
    let mut world = World::new(3, 3);
    for x in 0..3 {
        for y in 0..3 {
            set(&mut world, x, y, TileId::Stone);
        }
    }
    world.update_cached_neighbors();
    assert_eq!(mask(&world, 0, 0), 15);
    for x in 0..3 {
        for y in 0..3 {
            assert_eq!(mask(&world, x, y), 15);
        }
    }
}
