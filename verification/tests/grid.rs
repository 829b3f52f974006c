use study_core::grid::{
    can_move, coords_contain, next_pos_from_move, NextPosition, Position, TileData, TileType,
    BUNS_POS_H, DELIVERY_POS_H, HUMAN_START, NUM_TILES, ROBOT_START,
};
use study_core::moves::NextMove;

fn sample_tiles() -> TileData {
    TileData {
        floor: vec![[0, 0], [1, 0], [2, 2]],
        patty: vec![[0, 2], [2, 2]],
        buns: vec![[1, 2]],
        tomato: vec![[2, 2], [3, 3]],
        sauce: vec![[3, 2]],
        lettuce: vec![[4, 2]],
        delivery: vec![[1, 4], [1, 0]],
    }
}

#[test]
fn position_is_equal_compares_both_coordinates() {
    let pos = Position { x: 1, y: 3 };
    assert!(pos.is_equal(BUNS_POS_H));
    assert!(pos.is_equal((1, 3)));
    assert!(!pos.is_equal((3, 1)));
    assert!(!pos.is_equal((1, 4)));
    assert!(!pos.is_equal((0, 3)));
}

#[test]
fn next_position_as_pos_keeps_coordinates() {
    let next = NextPosition { x: 4, y: 1 };
    assert_eq!(next.as_pos(), Position { x: 4, y: 1 });
}

#[test]
fn moves_follow_the_axes() {
    let pos = Position { x: 2, y: 3 };
    assert_eq!(next_pos_from_move(&pos, NextMove::Idle), NextPosition { x: 2, y: 3 });
    assert_eq!(next_pos_from_move(&pos, NextMove::Interact), NextPosition { x: 2, y: 3 });
    assert_eq!(next_pos_from_move(&pos, NextMove::Up), NextPosition { x: 2, y: 4 });
    assert_eq!(next_pos_from_move(&pos, NextMove::Down), NextPosition { x: 2, y: 2 });
    assert_eq!(next_pos_from_move(&pos, NextMove::Left), NextPosition { x: 1, y: 3 });
    assert_eq!(next_pos_from_move(&pos, NextMove::Right), NextPosition { x: 3, y: 3 });
}

#[test]
fn moves_off_the_coordinates_are_refused() {
    let corner = Position { x: 0, y: 0 };
    assert!(!can_move(&corner, NextMove::Left));
    assert!(!can_move(&corner, NextMove::Down));
    assert!(can_move(&corner, NextMove::Up));
    assert!(can_move(&corner, NextMove::Right));
    assert!(can_move(&corner, NextMove::Idle));
    assert!(can_move(&corner, NextMove::Interact));
    let far = Position { x: usize::MAX, y: usize::MAX };
    assert!(!can_move(&far, NextMove::Right));
    assert!(!can_move(&far, NextMove::Up));
    assert!(can_move(&far, NextMove::Left));
    assert!(can_move(&far, NextMove::Down));
}

#[test]
fn start_tiles_are_the_delivery_tiles() {
    assert_eq!(HUMAN_START, DELIVERY_POS_H);
    assert_eq!(ROBOT_START, (2, 0));
    assert_eq!(NUM_TILES, 5);
}

#[test]
fn coords_contain_finds_listed_tiles_only() {
    let coords = vec![[1, 2], [3, 4]];
    assert!(coords_contain(&coords, 1, 2));
    assert!(coords_contain(&coords, 3, 4));
    assert!(!coords_contain(&coords, 2, 1));
    assert!(!coords_contain(&coords, 1, 4));
    assert!(!coords_contain(&Vec::new(), 0, 0));
}

#[test]
fn tile_by_coord_takes_the_first_list_that_names_the_tile() {
    let tiles = sample_tiles();
    assert_eq!(tiles.tile_by_coord(0, 0), TileType::Floor);
    assert_eq!(tiles.tile_by_coord(0, 2), TileType::Patty);
    assert_eq!(tiles.tile_by_coord(1, 2), TileType::Buns);
    assert_eq!(tiles.tile_by_coord(3, 3), TileType::Tomato);
    assert_eq!(tiles.tile_by_coord(3, 2), TileType::Sauce);
    assert_eq!(tiles.tile_by_coord(4, 2), TileType::Lettuce);
    assert_eq!(tiles.tile_by_coord(1, 4), TileType::Delivery);
    assert_eq!(tiles.tile_by_coord(1, 0), TileType::Floor);
    assert_eq!(tiles.tile_by_coord(2, 2), TileType::Floor);
    assert_eq!(tiles.tile_by_coord(4, 4), TileType::Default);
}
