//! A two-player chess board core: discrete board coordinates, the fixed
//! piece catalog with its starting layout, per-piece move legality, and the
//! turn-taking drag state machine. Rendering and input collection live
//! outside this crate; they hand in discrete squares and read back piece
//! positions and the side to move.

use vstd::prelude::*;

pub mod coord;
pub mod game;
pub mod piece;

verus! {

/// Number of squares along each edge of the board.
pub const SQUARES: u32 = 8;

/// Edge length of one board square, in world units.
pub const PIECE_SIZE: u32 = 100;

/// Edge length of the whole board, in world units.
pub const BOARD_WIDTH: u32 = 800;

/// Offset from the board's centre to the centre of its corner square, in
/// world units; the rendering layer places the world origin at the board's
/// centre, so square centres lie at multiples of `PIECE_SIZE` shifted by
/// this amount.
pub const RENDER_SCALE: u32 = (BOARD_WIDTH / 2) - (PIECE_SIZE / 2);

} // verus!
