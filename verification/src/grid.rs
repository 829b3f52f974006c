//! The tile grid: positions, the fixed workstation tiles and the tile layout.

use crate::moves::NextMove;
use vstd::prelude::*;

verus! {

/// Tiles per side of the square grid.
pub const NUM_TILES: usize = 5;

pub const DELIVERY_POS_H: (usize, usize) = (2, 4);

pub const BUNS_POS_H: (usize, usize) = (1, 3);

pub const LETTUCE_POS_H: (usize, usize) = (4, 3);

pub const PATTY_POS_H: (usize, usize) = (0, 3);

pub const TOMATO_POS_H: (usize, usize) = (2, 3);

pub const SAUCE_POS_H: (usize, usize) = (3, 3);

pub const DELIVERY_POS_R: (usize, usize) = (2, 0);

pub const BUNS_POS_R: (usize, usize) = (1, 1);

pub const LETTUCE_POS_R: (usize, usize) = (4, 1);

pub const PATTY_POS_R: (usize, usize) = (0, 1);

pub const TOMATO_POS_R: (usize, usize) = (2, 1);

pub const SAUCE_POS_R: (usize, usize) = (3, 1);

pub const HUMAN_START: (usize, usize) = (2, 4);

pub const ROBOT_START: (usize, usize) = (2, 0);

/// The tile an agent stands on.
#[derive(Debug, Copy, Clone, PartialEq, Eq, Structural)]
pub struct Position {
    pub x: usize,
    pub y: usize,
}

impl Position {
    /// Whether this position is the tile `coords`.
    pub open spec fn at(self, coords: (usize, usize)) -> bool {
        self.x == coords.0 && self.y == coords.1
    }

    pub fn is_equal(&self, coords: (usize, usize)) -> (equal: bool)
        ensures
            equal == self.at(coords),
    {
        self.x == coords.0 && self.y == coords.1
    }
}

/// The tile an agent is moving to during the current step.
#[derive(Debug, Copy, Clone, PartialEq, Eq, Structural)]
pub struct NextPosition {
    pub x: usize,
    pub y: usize,
}

impl NextPosition {
    pub fn as_pos(&self) -> (pos: Position)
        ensures
            pos.x == self.x,
            pos.y == self.y,
    {
        Position { x: self.x, y: self.y }
    }
}

/// Whether `next_move` keeps an agent at `pos` on representable coordinates.
pub open spec fn move_in_bounds(pos: Position, next_move: NextMove) -> bool {
    match next_move {
        NextMove::Up => pos.y < usize::MAX,
        NextMove::Down => pos.y > 0,
        NextMove::Left => pos.x > 0,
        NextMove::Right => pos.x < usize::MAX,
        NextMove::Idle | NextMove::Interact => true,
    }
}

/// Where `next_move` takes an agent from `pos`: up and down change `y` by one,
/// left and right change `x` by one, the other moves change nothing.
pub open spec fn moved(pos: Position, next_move: NextMove) -> (int, int) {
    match next_move {
        NextMove::Up => (pos.x as int, pos.y + 1),
        NextMove::Down => (pos.x as int, pos.y - 1),
        NextMove::Left => (pos.x - 1, pos.y as int),
        NextMove::Right => (pos.x + 1, pos.y as int),
        NextMove::Idle | NextMove::Interact => (pos.x as int, pos.y as int),
    }
}

/// Tests `move_in_bounds`.
pub fn can_move(pos: &Position, next_move: NextMove) -> (ok: bool)
    ensures
        ok == move_in_bounds(*pos, next_move),
{
    match next_move {
        NextMove::Up => pos.y < usize::MAX,
        NextMove::Down => pos.y > 0,
        NextMove::Left => pos.x > 0,
        NextMove::Right => pos.x < usize::MAX,
        NextMove::Idle => true,
        NextMove::Interact => true,
    }
}

/// The tile an agent at `cur_pos` reaches with `next_move`.
pub fn next_pos_from_move(cur_pos: &Position, next_move: NextMove) -> (next: NextPosition)
    requires
        move_in_bounds(*cur_pos, next_move),
    ensures
        (next.x as int, next.y as int) == moved(*cur_pos, next_move),
{
    match next_move {
        NextMove::Idle => NextPosition { x: cur_pos.x, y: cur_pos.y },
        NextMove::Up => NextPosition { x: cur_pos.x, y: cur_pos.y + 1 },
        NextMove::Down => NextPosition { x: cur_pos.x, y: cur_pos.y - 1 },
        NextMove::Left => NextPosition { x: cur_pos.x - 1, y: cur_pos.y },
        NextMove::Right => NextPosition { x: cur_pos.x + 1, y: cur_pos.y },
        NextMove::Interact => NextPosition { x: cur_pos.x, y: cur_pos.y },
    }
}

/// What a tile shows.
#[derive(Debug, Copy, Clone, PartialEq, Eq, Structural)]
pub enum TileType {
    Default,
    Floor,
    Buns,
    Patty,
    Lettuce,
    Tomato,
    Sauce,
    Delivery,
}

/// The tile layout: for each kind of tile, the coordinates that show it.
#[derive(Debug, PartialEq, Eq)]
pub struct TileData {
    pub floor: Vec<[usize; 2]>,
    pub patty: Vec<[usize; 2]>,
    pub buns: Vec<[usize; 2]>,
    pub tomato: Vec<[usize; 2]>,
    pub sauce: Vec<[usize; 2]>,
    pub lettuce: Vec<[usize; 2]>,
    pub delivery: Vec<[usize; 2]>,
}

/// Whether the coordinate list `coords` names the tile `(x, y)`.
pub open spec fn lists_tile(coords: Seq<[usize; 2]>, x: usize, y: usize) -> bool {
    exists|i: int| 0 <= i < coords.len() && (#[trigger] coords[i])[0] == x && coords[i][1] == y
}

/// Tests `lists_tile`.
pub fn coords_contain(coords: &Vec<[usize; 2]>, x: usize, y: usize) -> (found: bool)
    ensures
        found == lists_tile(coords@, x, y),
{
    let mut i: usize = 0;
    while i < coords.len()
        invariant
            i <= coords.len(),
            forall|j: int| 0 <= j < i ==> !((#[trigger] coords@[j])[0] == x && coords@[j][1] == y),
        decreases coords.len() - i,
    {
        let c = &coords[i];
        if c[0] == x && c[1] == y {
            return true;
        }
        i += 1;
    }
    false
}

impl TileData {
    /// The kind of the tile `(x, y)`: that of the first list naming it, in the
    /// order floor, patty, buns, tomato, sauce, lettuce, delivery; the default
    /// kind where none does.
    pub open spec fn tile_kind(&self, x: usize, y: usize) -> TileType {
        if lists_tile(self.floor@, x, y) {
            TileType::Floor
        } else if lists_tile(self.patty@, x, y) {
            TileType::Patty
        } else if lists_tile(self.buns@, x, y) {
            TileType::Buns
        } else if lists_tile(self.tomato@, x, y) {
            TileType::Tomato
        } else if lists_tile(self.sauce@, x, y) {
            TileType::Sauce
        } else if lists_tile(self.lettuce@, x, y) {
            TileType::Lettuce
        } else if lists_tile(self.delivery@, x, y) {
            TileType::Delivery
        } else {
            TileType::Default
        }
    }

    pub fn tile_by_coord(&self, x: usize, y: usize) -> (kind: TileType)
        ensures
            kind == self.tile_kind(x, y),
    {
        if coords_contain(&self.floor, x, y) {
            return TileType::Floor;
        }
        if coords_contain(&self.patty, x, y) {
            return TileType::Patty;
        }
        if coords_contain(&self.buns, x, y) {
            return TileType::Buns;
        }
        if coords_contain(&self.tomato, x, y) {
            return TileType::Tomato;
        }
        if coords_contain(&self.sauce, x, y) {
            return TileType::Sauce;
        }
        if coords_contain(&self.lettuce, x, y) {
            return TileType::Lettuce;
        }
        if coords_contain(&self.delivery, x, y) {
            return TileType::Delivery;
        }
        TileType::Default
    }
}

} // verus!
