use vstd::prelude::*;
use crate::base_types::GridArea;
use crate::base_types::GridUnit;
use crate::base_types::GridVector;

verus! {

//--- Grid ---//
pub const GRID_SIZE_X: GridUnit = 40;
pub const GRID_SIZE_Y: GridUnit = 22;

/// The full grid: every cell a snake segment, apple or stone may occupy.
pub open spec fn spec_grid_area() -> GridArea {
    GridArea {
        pos: GridVector { x: 0, y: 0 },
        size: GridVector { x: GRID_SIZE_X, y: GRID_SIZE_Y },
    }
}

/// The full grid.
pub fn grid_area() -> (a: GridArea)
    ensures
        a == spec_grid_area(),
{
    GridArea {
        pos: GridVector { x: 0, y: 0 },
        size: GridVector { x: GRID_SIZE_X, y: GRID_SIZE_Y },
    }
}

/// The inner region the snake starts in and apples spawn in, two cells in
/// from every grid edge.
pub open spec fn spec_play_area() -> GridArea {
    GridArea {
        pos: GridVector { x: 2, y: 2 },
        size: GridVector { x: (GRID_SIZE_X - 4) as GridUnit, y: (GRID_SIZE_Y - 4) as GridUnit },
    }
}

/// The inner play region.
pub fn play_area() -> (a: GridArea)
    ensures
        a == spec_play_area(),
{
    GridArea {
        pos: GridVector { x: 2, y: 2 },
        size: GridVector { x: GRID_SIZE_X - 4, y: GRID_SIZE_Y - 4 },
    }
}

//--- Game play ---//
/// Number of segments the snake grows to shortly after a fresh start.
pub const INITIAL_SIZE: GridUnit = 2;

/// Microseconds per simulation tick at the start of a session.
pub const INITIAL_SPEED: u64 = 100_000;

/// The heading a fresh snake starts with.
pub open spec fn spec_initial_velocity() -> GridVector {
    GridVector { x: 1, y: 0 }
}

/// The heading a fresh snake starts with.
pub fn initial_velocity() -> (v: GridVector)
    ensures
        v == spec_initial_velocity(),
{
    GridVector { x: 1, y: 0 }
}

/// Growth credit gained per apple eaten.
pub const GROW_PER_APPLE: GridUnit = 3;

/// Eating an apple shortens the tick interval by its current value divided
/// by this fraction.
pub const SPEED_INCREASE_FRACTION: u64 = 36;

/// Microseconds between a fatal collision and the terminal game-over state.
pub const GAME_OVER_TIMEOUT: u64 = 900_000;

/// Stones laid along each edge at every corner of the play area, the corner
/// cell included.
pub const CORNER_SEGMENT_LENGTH: GridUnit = 5;

} // verus!
