use vstd::prelude::*;
use crate::vector2d::Vector2D;

verus! {

/// The closed set of terrain classes.  `Wall` is the only kind the default
/// gameplay logic treats as blocking; every other kind is walkable
/// decoration.
#[derive(Clone, Copy, PartialEq, Eq, Structural, Debug)]
pub enum TileType {
    Grass,
    Wall,
    Sand,
    Snow,
    Goo,
    Wood,
}

/// One grid cell: its position in world tile-index coordinates (not pixels)
/// and its terrain class.  Immutable after creation.
#[derive(Clone, Copy, PartialEq, Eq, Structural, Debug)]
pub struct Tile {
    pub pos: Vector2D,
    pub kind: TileType,
}

} // verus!
