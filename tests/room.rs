use grot::geom::SUBPIXELS;
use grot::room::{Room, RoomError, TileKind};

#[test]
fn new_room_has_a_solid_floor() {
    let room = Room::new(20, 10, 16);
    assert_eq!(room.width(), 20);
    assert_eq!(room.height(), 10);
    assert_eq!(room.tile_size(), 16);
    assert_eq!(room.tiles().len(), 200);
    for y in 0..10 {
        for x in 0..20 {
            let expected = if y == 9 { TileKind::Filled } else { TileKind::Empty };
            assert_eq!(room.tile_at_index(x, y).kind, expected);
        }
    }
}

#[test]
fn default_room_is_twenty_by_ten() {
    let room = Room::default();
    assert_eq!(room.width(), 20);
    assert_eq!(room.height(), 10);
    assert_eq!(room.tile_size(), 16);
    assert_eq!(room.tiles(), Room::new(20, 10, 16).tiles());
}

#[test]
fn tile_outside_the_grid_is_empty() {
    let room = Room::new(20, 10, 16);
    assert_eq!(room.tile_at_index(20, 9).kind, TileKind::Empty);
    assert_eq!(room.tile_at_index(0, 10).kind, TileKind::Empty);
    assert_eq!(room.tile_at_index(i64::MAX, i64::MAX).kind, TileKind::Empty);
    assert_eq!(room.tile_at_index(-1, 9).kind, TileKind::Empty);
    assert_eq!(room.tile_at_index(0, -1).kind, TileKind::Empty);
    assert_eq!(room.tile_at_index(0, 9).kind, TileKind::Filled);
}

#[test]
fn tile_bounds_are_in_pixels() {
    let room = Room::new(20, 10, 16);
    let tile = room.tile_at_index(3, 9);
    assert_eq!((tile.x, tile.y), (3, 9));
    assert_eq!(tile.rect.left(), 48);
    assert_eq!(tile.rect.right(), 64);
    assert_eq!(tile.rect.top(), 144);
    assert_eq!(tile.rect.bottom(), 160);
}

#[test]
fn tile_at_coord_divides_by_tile_size() {
    let room = Room::new(20, 10, 16);
    let s = SUBPIXELS as i128;
    let tile = room.tile_at_coord(47 * s + s / 2, 144 * s);
    assert_eq!((tile.x, tile.y), (2, 9));
    assert_eq!(tile.kind, TileKind::Filled);
    let tile = room.tile_at_coord(48 * s, 143 * s + s - 1);
    assert_eq!((tile.x, tile.y), (3, 8));
    assert_eq!(tile.kind, TileKind::Empty);
}

#[test]
fn tile_at_coord_left_of_origin_is_open_space() {
    let room = Room::new(20, 10, 16);
    let s = SUBPIXELS as i128;
    let tile = room.tile_at_coord(-5 * s, 150 * s);
    assert_eq!((tile.x, tile.y), (-1, 9));
    assert_eq!(tile.kind, TileKind::Empty);
    assert_eq!(tile.rect.left(), -16);
    assert_eq!(tile.rect.right(), 0);
    let tile = room.tile_at_coord(-16 * s, 144 * s);
    assert_eq!((tile.x, tile.y), (-1, 9));
    assert_eq!(tile.kind, TileKind::Empty);
    let tile = room.tile_at_coord(-17 * s, 144 * s);
    assert_eq!(tile.x, -2);
    let tile = room.tile_at_coord(-1, 144 * s);
    assert_eq!((tile.x, tile.kind), (-1, TileKind::Empty));
    let tile = room.tile_at_coord(0, 144 * s);
    assert_eq!((tile.x, tile.kind), (0, TileKind::Filled));
}

#[test]
fn tile_at_coord_above_origin_is_open_space() {
    let mut room = Room::new(20, 10, 16);
    room.toggle_tile_at_index(3, 0).unwrap();
    let s = SUBPIXELS as i128;
    let tile = room.tile_at_coord(50 * s, -s / 2);
    assert_eq!((tile.x, tile.y), (3, -1));
    assert_eq!(tile.kind, TileKind::Empty);
    assert_eq!(room.tile_at_coord(50 * s, 0).kind, TileKind::Filled);
}

#[test]
fn toggle_flips_a_tile_both_ways() {
    let mut room = Room::new(20, 10, 16);
    assert_eq!(room.toggle_tile_at_index(4, 2), Ok(()));
    assert_eq!(room.tile_at_index(4, 2).kind, TileKind::Filled);
    assert_eq!(room.tiles()[2 * 20 + 4], TileKind::Filled);
    assert_eq!(room.toggle_tile_at_index(4, 9), Ok(()));
    assert_eq!(room.tile_at_index(4, 9).kind, TileKind::Empty);
    assert_eq!(room.toggle_tile_at_index(4, 2), Ok(()));
    assert_eq!(room.tile_at_index(4, 2).kind, TileKind::Empty);
}

#[test]
fn toggle_out_of_bounds_is_refused() {
    let mut room = Room::new(20, 10, 16);
    let before = room.tiles().clone();
    assert_eq!(
        room.toggle_tile_at_index(20, 3),
        Err(RoomError::OutOfBounds { x: 20, y: 3, width: 20, height: 10 })
    );
    assert_eq!(
        room.toggle_tile_at_index(0, 10),
        Err(RoomError::OutOfBounds { x: 0, y: 10, width: 20, height: 10 })
    );
    assert_eq!(room.tiles(), &before);
}

#[test]
fn from_parts_round_trips() {
    let mut room = Room::new(7, 5, 8);
    room.toggle_tile_at_index(2, 1).unwrap();
    let loaded =
        Room::from_parts(room.width(), room.height(), room.tile_size(), room.tiles().clone())
            .unwrap();
    assert_eq!(loaded.width(), 7);
    assert_eq!(loaded.height(), 5);
    assert_eq!(loaded.tile_size(), 8);
    assert_eq!(loaded.tiles(), room.tiles());
}

#[test]
fn from_parts_refuses_mismatched_tile_count() {
    let tiles = vec![TileKind::Empty; 11];
    assert_eq!(
        Room::from_parts(4, 3, 16, tiles).unwrap_err(),
        RoomError::InvalidGridData { len: 11, width: 4, height: 3 }
    );
}

#[test]
fn room_without_tiles_round_trips() {
    let room = Room::new(0, 3, 16);
    assert!(room.tiles().is_empty());
    let loaded =
        Room::from_parts(room.width(), room.height(), room.tile_size(), room.tiles().clone())
            .unwrap();
    assert_eq!((loaded.width(), loaded.height(), loaded.tile_size()), (0, 3, 16));
    assert!(loaded.tiles().is_empty());
}

#[test]
fn from_parts_refuses_tiles_for_an_empty_room() {
    assert_eq!(
        Room::from_parts(0, 3, 16, vec![TileKind::Filled]).unwrap_err(),
        RoomError::InvalidGridData { len: 1, width: 0, height: 3 }
    );
}

#[test]
fn from_parts_refuses_zero_tile_size() {
    let tiles = vec![TileKind::Empty; 12];
    assert_eq!(Room::from_parts(4, 3, 0, tiles).unwrap_err(), RoomError::Misconfiguration);
}
