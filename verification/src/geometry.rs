//! Grid positions and movement directions.

use vstd::prelude::*;

verus! {

/// A position on the grid, in whole cell units.
///
/// World coordinates, as a renderer uses them, are the cell coordinates
/// multiplied by the configured cell size.
#[derive(Clone, Copy, Debug, PartialEq, Eq, Structural)]
pub struct Pos {
    pub x: i64,
    pub y: i64,
}

/// A discrete movement direction for the snake head.
#[derive(Clone, Copy, Debug, PartialEq, Eq, Structural)]
pub enum Direction {
    Up,
    Down,
    Left,
    Right,
}

/// Horizontal offset, in cells, of one step in direction `d`.
pub open spec fn dir_dx(d: Direction) -> int {
    match d {
        Direction::Left => -1,
        Direction::Right => 1,
        Direction::Up => 0,
        Direction::Down => 0,
    }
}

/// Vertical offset, in cells, of one step in direction `d`.
pub open spec fn dir_dy(d: Direction) -> int {
    match d {
        Direction::Left => 0,
        Direction::Right => 0,
        Direction::Up => 1,
        Direction::Down => -1,
    }
}

/// Horizontal offset of one tick: zero while no direction has been set yet.
pub open spec fn step_dx(d: Option<Direction>) -> int {
    match d {
        Some(dd) => dir_dx(dd),
        None => 0,
    }
}

/// Vertical offset of one tick: zero while no direction has been set yet.
pub open spec fn step_dy(d: Option<Direction>) -> int {
    match d {
        Some(dd) => dir_dy(dd),
        None => 0,
    }
}

/// The direction opposite to `d`.
pub open spec fn opposite(d: Direction) -> Direction {
    match d {
        Direction::Left => Direction::Right,
        Direction::Right => Direction::Left,
        Direction::Up => Direction::Down,
        Direction::Down => Direction::Up,
    }
}

/// `p` lies within the rectangle of cells spanning `-half_w..=half_w`
/// horizontally and `-half_h..=half_h` vertically.
pub open spec fn in_bounds(p: Pos, half_w: int, half_h: int) -> bool {
    -half_w <= p.x <= half_w && -half_h <= p.y <= half_h
}

/// The offset of one tick for pending direction `d`, as executable values.
pub fn step_offset(d: Option<Direction>) -> (r: (i64, i64))
    ensures
        r.0 == step_dx(d),
        r.1 == step_dy(d),
{
    match d {
        None => (0, 0),
        Some(Direction::Left) => (-1, 0),
        Some(Direction::Right) => (1, 0),
        Some(Direction::Up) => (0, 1),
        Some(Direction::Down) => (0, -1),
    }
}

} // verus!
