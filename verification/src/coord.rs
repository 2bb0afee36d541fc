//! The coordinate model: discrete board squares, and the conversion between
//! continuous world coordinates and squares. Conversions are pure; no bounds
//! clamping is done, so callers must discard squares outside the board.

use vstd::prelude::*;
use vstd::arithmetic::div_mod::{
    lemma_div_multiples_vanish_fancy, lemma_fundamental_div_mod, lemma_mod_bound,
};

verus! {

/// A board square address: a file (column) and a rank (row). Valid board
/// squares have both coordinates in `0..=7`, but the type can hold any
/// integer pair so that off-board conversion results can be represented and
/// then discarded by the caller.
#[derive(Clone, Copy, Debug, PartialEq, Eq, Structural)]
pub struct Square {
    pub file: i32,
    pub rank: i32,
}

impl Square {
    /// The square lies on the 8x8 board.
    pub open spec fn spec_valid(self) -> bool {
        &&& 0 <= self.file <= 7
        &&& 0 <= self.rank <= 7
    }

    /// Executable check that the square lies on the board.
    pub fn valid(&self) -> (r: bool)
        ensures
            r == self.spec_valid(),
    {
        0 <= self.file && self.file <= 7 && 0 <= self.rank && self.rank <= 7
    }
}

/// Bound on world coordinates accepted by the conversions; keeps every
/// intermediate difference and quotient far inside the machine integer
/// ranges.
pub const COORD_BOUND: i64 = 0x3fff_ffff;

/// Floor division of `a` by a positive `b`: rounds toward negative
/// infinity, as mathematical integer division does for a positive divisor.
fn floor_div(a: i64, b: i64) -> (q: i64)
    requires
        b > 0,
    ensures
        q == a as int / b as int,
        a < 0 ==> a <= q <= 0,
        a >= 0 ==> 0 <= q <= a,
{
    proof {
        let ai = a as int;
        let bi = b as int;
        let quot = ai / bi;
        let rem = ai % bi;
        lemma_fundamental_div_mod(ai, bi);
        lemma_mod_bound(ai, bi);
        if ai < 0 {
            assert(ai <= quot <= 0) by (nonlinear_arith)
                requires
                    ai < 0,
                    bi >= 1,
                    ai == bi * quot + rem,
                    0 <= rem < bi,
            ;
        } else {
            assert(0 <= quot <= ai) by (nonlinear_arith)
                requires
                    ai >= 0,
                    bi >= 1,
                    ai == bi * quot + rem,
                    0 <= rem < bi,
            ;
        }
    }
    match a.checked_div_euclid(b) {
        Some(q) => q,
        None => vstd::pervasive::unreached(),
    }
}

/// Converts a continuous world position to the board square containing it:
/// subtracts the board origin and floors the per-axis quotient by the square
/// size. No clamping: positions outside the board yield squares outside
/// `0..=7`, which the caller must discard.
pub fn world_to_square(x: i64, y: i64, origin_x: i64, origin_y: i64, square_size: i64) -> (sq:
    Square)
    requires
        square_size > 0,
        -COORD_BOUND <= x <= COORD_BOUND,
        -COORD_BOUND <= y <= COORD_BOUND,
        -COORD_BOUND <= origin_x <= COORD_BOUND,
        -COORD_BOUND <= origin_y <= COORD_BOUND,
    ensures
        sq.file == (x - origin_x) as int / square_size as int,
        sq.rank == (y - origin_y) as int / square_size as int,
{
    let file = floor_div(x - origin_x, square_size);
    let rank = floor_div(y - origin_y, square_size);
    Square { file: file as i32, rank: rank as i32 }
}

/// Bound on the square size accepted by [`square_to_world`]; keeps the
/// products inside the machine integer range for every square address.
pub const SIZE_BOUND: i64 = 0x1000_0000;

/// Converts a board square to the world position of its centre: the origin
/// plus the square's address scaled by the square size, shifted by half a
/// square. The inverse of [`world_to_square`], used to snap a released piece
/// onto its cell.
pub fn square_to_world(sq: Square, origin_x: i64, origin_y: i64, square_size: i64) -> (w: (
    i64,
    i64,
))
    requires
        0 < square_size <= SIZE_BOUND,
        -COORD_BOUND <= origin_x <= COORD_BOUND,
        -COORD_BOUND <= origin_y <= COORD_BOUND,
    ensures
        w.0 == origin_x + sq.file * square_size + square_size / 2,
        w.1 == origin_y + sq.rank * square_size + square_size / 2,
{
    proof {
        assert(-0x8000_0000 * SIZE_BOUND <= sq.file as int * square_size as int <= 0x8000_0000
            * SIZE_BOUND && -0x8000_0000 * SIZE_BOUND <= sq.rank as int * square_size as int
            <= 0x8000_0000 * SIZE_BOUND) by (nonlinear_arith)
            requires
                -0x8000_0000 <= sq.file as int <= 0x8000_0000,
                -0x8000_0000 <= sq.rank as int <= 0x8000_0000,
                0 < square_size as int <= SIZE_BOUND as int,
        ;
    }
    let half = (square_size as u64 / 2) as i64;
    let x = origin_x + sq.file as i64 * square_size + half;
    let y = origin_y + sq.rank as i64 * square_size + half;
    (x, y)
}

/// Law: the two conversions invert each other. The world centre of any
/// square, converted back with the same origin and square size, is the same
/// square again.
pub proof fn lemma_world_square_round_trip(sq: Square, origin_x: int, origin_y: int,
    square_size: int)
    requires
        square_size > 0,
    ensures
        (origin_x + sq.file * square_size + square_size / 2 - origin_x) / square_size == sq.file,
        (origin_y + sq.rank * square_size + square_size / 2 - origin_y) / square_size == sq.rank,
{
    lemma_mod_bound(square_size, 2);
    lemma_fundamental_div_mod(square_size, 2);
    lemma_div_multiples_vanish_fancy(sq.file as int, square_size / 2, square_size);
    lemma_div_multiples_vanish_fancy(sq.rank as int, square_size / 2, square_size);
    assert(origin_x + sq.file * square_size + square_size / 2 - origin_x == square_size
        * sq.file + square_size / 2) by (nonlinear_arith);
    assert(origin_y + sq.rank * square_size + square_size / 2 - origin_y == square_size
        * sq.rank + square_size / 2) by (nonlinear_arith);
}

} // verus!
