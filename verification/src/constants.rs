//! Shared vocabulary of the playfield: cell contents, grid positions,
//! rendered cells, directional input and the play / game-over state.

use vstd::prelude::*;

verus! {

/// Number of cells along each axis of the square playfield.
pub const GRID_SIZE: u32 = 40;

/// Side length of one cell in pixels; the window is 800 pixels wide.
pub const CELL_PIXELS: u32 = 20;

/// What a grid cell holds once the engine state is projected onto it.
#[derive(Clone, Copy, Debug, PartialEq, Eq, Structural)]
pub enum Type {
    Empty,
    Wall,
    Snake,
    Apple,
}

/// Whether the game is still being simulated or has ended.
#[derive(Clone, Copy, Debug, PartialEq, Eq, Structural)]
pub enum GameState {
    Play,
    GameOver,
}

/// A directional key, already stripped of any windowing-library detail.
#[derive(Clone, Copy, Debug, PartialEq, Eq, Structural)]
pub enum Keyboard {
    Up,
    Down,
    Left,
    Right,
    Unknown,
}

/// A position on the grid, in cell coordinates; `x` is the column and `y`
/// the row, each meaningful in `[0, 40)`.
#[derive(Clone, Copy, Debug, PartialEq, Eq, Structural)]
pub struct Pos {
    pub x: u32,
    pub y: u32,
}

/// One rendered cell: its top-left corner in pixels and its content. The
/// pixel coordinates are derived once from the grid indices and never
/// change afterwards.
#[derive(Clone, Copy, Debug, PartialEq, Eq, Structural)]
pub struct PlayField {
    pub x: u32,
    pub y: u32,
    pub field_type: Type,
}

/// A position lies on the grid.
pub open spec fn pos_on_grid(p: Pos) -> bool {
    p.x < GRID_SIZE && p.y < GRID_SIZE
}

} // verus!
