//! Grid coordinates.

use vstd::prelude::*;

verus! {

/// A cell of the grid, in cell units. The origin is the centre of the grid.
#[derive(Debug, Clone, Copy, PartialEq, Eq, Structural)]
pub struct Position {
    pub x: i32,
    pub y: i32,
}

impl Position {
    pub fn new(x: i32, y: i32) -> (p: Self)
        ensures
            p == (Position { x, y }),
    {
        Self { x, y }
    }

    pub fn x(&self) -> (x: i32)
        ensures
            x == self.x,
    {
        self.x
    }

    pub fn y(&self) -> (y: i32)
        ensures
            y == self.y,
    {
        self.y
    }
}

/// Half of a grid extent, rounded toward zero: the largest coordinate of a
/// grid `extent` cells wide. The smallest is its negation.
pub open spec fn half_extent(extent: int) -> int {
    if extent >= 0 {
        extent / 2
    } else {
        -((-extent) / 2)
    }
}

pub fn half(extent: i32) -> (h: i32)
    ensures
        h == half_extent(extent as int),
        -0x4000_0000 <= h < 0x4000_0000,
{
    extent / 2
}

/// The cell lies on a grid of `width` by `height` cells centred at the origin:
/// neither coordinate is further from zero than the half extent.
pub open spec fn in_grid(cell: Position, width: int, height: int) -> bool {
    &&& -half_extent(width) <= cell.x <= half_extent(width)
    &&& -half_extent(height) <= cell.y <= half_extent(height)
}

/// A grid holds at least the origin exactly when neither half extent is
/// negative.
pub open spec fn grid_nonempty(width: int, height: int) -> bool {
    half_extent(width) >= 0 && half_extent(height) >= 0
}

pub fn is_grid_nonempty(width: i32, height: i32) -> (nonempty: bool)
    ensures
        nonempty == grid_nonempty(width as int, height as int),
{
    half(width) >= 0 && half(height) >= 0
}

pub fn is_in_grid(cell: &Position, width: i32, height: i32) -> (inside: bool)
    ensures
        inside == in_grid(*cell, width as int, height as int),
{
    let reach_x = half(width);
    let reach_y = half(height);
    !(cell.x() < -reach_x || cell.x() > reach_x || cell.y() < -reach_y || cell.y() > reach_y)
}

} // verus!
