//! The piece catalog and the move legality engine: the two sides, the six
//! piece kinds, one legality rule per kind, and the standard starting
//! layout. Every rule is a pure predicate over exact square arithmetic;
//! blocking pieces and captures are outside this engine's scope, so a rule
//! only constrains the shape of the step.

use vstd::prelude::*;
use vstd::math::abs;
use crate::coord::Square;

verus! {

/// One of the two players. White's pawns move toward decreasing ranks,
/// Black's toward increasing ranks.
#[derive(Clone, Copy, Debug, PartialEq, Eq, Structural)]
pub enum Side {
    White,
    Black,
}

impl Side {
    /// Forward direction of this side along the rank axis: `-1` for White,
    /// `1` for Black.
    pub open spec fn spec_dir(self) -> int {
        match self {
            Side::White => -1,
            Side::Black => 1,
        }
    }

    /// Executable forward direction; see [`Side::spec_dir`].
    pub fn dir(&self) -> (d: i32)
        ensures
            d as int == self.spec_dir(),
    {
        match self {
            Side::White => -1,
            Side::Black => 1,
        }
    }

    /// Sign of this side's half of the board along the rank axis, the
    /// negation of the forward direction. Used only for piece layout, never
    /// for legality.
    pub fn offset(&self) -> (o: i32)
        ensures
            o as int == -self.spec_dir(),
    {
        match self {
            Side::White => 1,
            Side::Black => -1,
        }
    }

    /// The opposing side.
    pub open spec fn spec_opposite(self) -> Side {
        match self {
            Side::White => Side::Black,
            Side::Black => Side::White,
        }
    }

    /// Executable opposing side; see [`Side::spec_opposite`].
    pub fn opposite(&self) -> (o: Side)
        ensures
            o == self.spec_opposite(),
    {
        match self {
            Side::White => Side::Black,
            Side::Black => Side::White,
        }
    }

    /// The side's colour name, as used to label its piece assets.
    pub open spec fn spec_name(self) -> Seq<char> {
        match self {
            Side::White => "white"@,
            Side::Black => "black"@,
        }
    }

    /// Executable colour name; see [`Side::spec_name`].
    pub fn name(&self) -> (r: &'static str)
        ensures
            r@ == self.spec_name(),
    {
        match self {
            Side::White => "white",
            Side::Black => "black",
        }
    }
}

/// Change in file from `from` to `to`, in whole squares.
pub open spec fn delta_file(from: Square, to: Square) -> int {
    to.file - from.file
}

/// Change in rank from `from` to `to`, in whole squares.
pub open spec fn delta_rank(from: Square, to: Square) -> int {
    to.rank - from.rank
}

/// Pawn rule: one square straight forward, or two squares straight forward
/// on the pawn's first move. Diagonal steps are not recognised: captures are
/// outside this engine's scope.
pub open spec fn pawn_move(side: Side, from: Square, to: Square, made_first_move: bool) -> bool {
    let dx = delta_file(from, to);
    let dy = delta_rank(from, to);
    ||| (dx == 0 && dy == side.spec_dir())
    ||| (dx == 0 && dy == 2 * side.spec_dir() && !made_first_move)
}

/// Rook rule: a pure horizontal or vertical displacement; exactly one of the
/// two deltas is zero. The path is not checked for blocking pieces.
pub open spec fn rook_move(from: Square, to: Square) -> bool {
    let dx = delta_file(from, to);
    let dy = delta_rank(from, to);
    ||| (dx == 0 && dy != 0)
    ||| (dx != 0 && dy == 0)
}

/// Bishop rule: a pure diagonal displacement of at least one square. The path
/// is not checked for blocking pieces.
pub open spec fn bishop_move(from: Square, to: Square) -> bool {
    let dx = delta_file(from, to);
    let dy = delta_rank(from, to);
    abs(dx) == abs(dy) && dx != 0
}

/// Queen rule: a rook move or a bishop move.
pub open spec fn queen_move(from: Square, to: Square) -> bool {
    rook_move(from, to) || bishop_move(from, to)
}

/// King rule: a queen move whose Euclidean length is below two squares, that
/// is, exactly one square in any of the eight directions.
pub open spec fn king_move(from: Square, to: Square) -> bool {
    let dx = delta_file(from, to);
    let dy = delta_rank(from, to);
    queen_move(from, to) && dx * dx + dy * dy < 4
}

/// Knight rule: one square along one axis and two along the other, in any
/// direction.
pub open spec fn knight_move(from: Square, to: Square) -> bool {
    let dx = delta_file(from, to);
    let dy = delta_rank(from, to);
    ||| (abs(dx) == 1 && abs(dy) == 2)
    ||| (abs(dx) == 2 && abs(dy) == 1)
}

/// The capability of judging move legality, with one implementation per
/// piece kind. `move_rule` is the kind's rule as a pure predicate and
/// `can_move` computes it; the result never depends on anything but the
/// arguments.
pub trait Logic {
    /// The kind's legality rule.
    spec fn move_rule(&self, side: Side, from: Square, to: Square, made_first_move: bool) -> bool;

    /// Decides whether moving from `from` to `to` is legal for this kind,
    /// for the given side, given whether the piece has already made its
    /// first move. Total: every input pair is either recognised as legal or
    /// rejected.
    fn can_move(&self, side: Side, from: Square, to: Square, made_first_move: bool) -> (r: bool)
        ensures
            r == self.move_rule(side, from, to, made_first_move),
    ;
}

/// Exact file delta, computed without overflow for any pair of squares.
fn file_delta(from: &Square, to: &Square) -> (dx: i64)
    ensures
        dx as int == delta_file(*from, *to),
{
    to.file as i64 - from.file as i64
}

/// Exact rank delta, computed without overflow for any pair of squares.
fn rank_delta(from: &Square, to: &Square) -> (dy: i64)
    ensures
        dy as int == delta_rank(*from, *to),
{
    to.rank as i64 - from.rank as i64
}

/// Magnitude of a delta between two square coordinates.
fn delta_abs(d: i64) -> (a: i64)
    requires
        i64::MIN < d,
    ensures
        a as int == abs(d as int),
{
    if d < 0 {
        -d
    } else {
        d
    }
}

#[derive(Clone, Copy, Debug, PartialEq, Eq, Structural)]
pub struct Pawn;

impl Logic for Pawn {
    open spec fn move_rule(&self, side: Side, from: Square, to: Square, made_first_move:
        bool) -> bool {
        pawn_move(side, from, to, made_first_move)
    }

    fn can_move(&self, side: Side, from: Square, to: Square, made_first_move: bool) -> (r: bool) {
        let dx = file_delta(&from, &to);
        let dy = rank_delta(&from, &to);
        let dir = side.dir() as i64;
        dx == 0 && (dy == dir || (dy == 2 * dir && !made_first_move))
    }
}

#[derive(Clone, Copy, Debug, PartialEq, Eq, Structural)]
pub struct Rook;

impl Logic for Rook {
    open spec fn move_rule(&self, side: Side, from: Square, to: Square, made_first_move:
        bool) -> bool {
        rook_move(from, to)
    }

    fn can_move(&self, side: Side, from: Square, to: Square, made_first_move: bool) -> (r: bool) {
        let dx = file_delta(&from, &to);
        let dy = rank_delta(&from, &to);
        (dx == 0 && dy != 0) || (dx != 0 && dy == 0)
    }
}

#[derive(Clone, Copy, Debug, PartialEq, Eq, Structural)]
pub struct Knight;

impl Logic for Knight {
    open spec fn move_rule(&self, side: Side, from: Square, to: Square, made_first_move:
        bool) -> bool {
        knight_move(from, to)
    }

    fn can_move(&self, side: Side, from: Square, to: Square, made_first_move: bool) -> (r: bool) {
        let ax = delta_abs(file_delta(&from, &to));
        let ay = delta_abs(rank_delta(&from, &to));
        (ax == 1 && ay == 2) || (ax == 2 && ay == 1)
    }
}

#[derive(Clone, Copy, Debug, PartialEq, Eq, Structural)]
pub struct Bishop;

impl Logic for Bishop {
    open spec fn move_rule(&self, side: Side, from: Square, to: Square, made_first_move:
        bool) -> bool {
        bishop_move(from, to)
    }

    fn can_move(&self, side: Side, from: Square, to: Square, made_first_move: bool) -> (r: bool) {
        let dx = file_delta(&from, &to);
        let dy = rank_delta(&from, &to);
        delta_abs(dx) == delta_abs(dy) && dx != 0
    }
}

#[derive(Clone, Copy, Debug, PartialEq, Eq, Structural)]
pub struct Queen;

impl Logic for Queen {
    open spec fn move_rule(&self, side: Side, from: Square, to: Square, made_first_move:
        bool) -> bool {
        queen_move(from, to)
    }

    fn can_move(&self, side: Side, from: Square, to: Square, made_first_move: bool) -> (r: bool) {
        Rook.can_move(side, from, to, made_first_move) || Bishop.can_move(
            side,
            from,
            to,
            made_first_move,
        )
    }
}

#[derive(Clone, Copy, Debug, PartialEq, Eq, Structural)]
pub struct King;

impl Logic for King {
    open spec fn move_rule(&self, side: Side, from: Square, to: Square, made_first_move:
        bool) -> bool {
        king_move(from, to)
    }

    fn can_move(&self, side: Side, from: Square, to: Square, made_first_move: bool) -> (r: bool) {
        let dx = file_delta(&from, &to);
        let dy = rank_delta(&from, &to);
        let one_step = -1 <= dx && dx <= 1 && -1 <= dy && dy <= 1;
        proof {
            assert(one_step == (dx * dx + dy * dy < 4)) by (nonlinear_arith)
                requires
                    one_step == (-1 <= dx <= 1 && -1 <= dy <= 1),
            ;
        }
        Queen.can_move(side, from, to, made_first_move) && one_step
    }
}

/// The closed set of piece kinds, dispatching the legality capability to the
/// kind's own rule by exhaustive matching.
#[derive(Clone, Copy, Debug, PartialEq, Eq, Structural)]
pub enum PieceType {
    Pawn(Pawn),
    Rook(Rook),
    Knight(Knight),
    Bishop(Bishop),
    Queen(Queen),
    King(King),
}

impl Logic for PieceType {
    open spec fn move_rule(&self, side: Side, from: Square, to: Square, made_first_move:
        bool) -> bool {
        match self {
            PieceType::Pawn(p) => p.move_rule(side, from, to, made_first_move),
            PieceType::Rook(p) => p.move_rule(side, from, to, made_first_move),
            PieceType::Knight(p) => p.move_rule(side, from, to, made_first_move),
            PieceType::Bishop(p) => p.move_rule(side, from, to, made_first_move),
            PieceType::Queen(p) => p.move_rule(side, from, to, made_first_move),
            PieceType::King(p) => p.move_rule(side, from, to, made_first_move),
        }
    }

    fn can_move(&self, side: Side, from: Square, to: Square, made_first_move: bool) -> (r: bool) {
        match self {
            PieceType::Pawn(p) => p.can_move(side, from, to, made_first_move),
            PieceType::Rook(p) => p.can_move(side, from, to, made_first_move),
            PieceType::Knight(p) => p.can_move(side, from, to, made_first_move),
            PieceType::Bishop(p) => p.can_move(side, from, to, made_first_move),
            PieceType::Queen(p) => p.can_move(side, from, to, made_first_move),
            PieceType::King(p) => p.can_move(side, from, to, made_first_move),
        }
    }
}

/// Law: legality is pure and deterministic. Each kind's `can_move` ensures
/// its result equals the pure predicate `move_rule` of the arguments alone,
/// so any two results obtained on identical inputs agree.
pub proof fn lemma_can_move_deterministic(
    kind: PieceType,
    side: Side,
    from: Square,
    to: Square,
    made_first_move: bool,
    r1: bool,
    r2: bool,
)
    requires
        r1 == kind.move_rule(side, from, to, made_first_move),
        r2 == kind.move_rule(side, from, to, made_first_move),
    ensures
        r1 == r2,
{
}

/// Law: the null move is never legal. For every kind, side and first-move
/// flag, a move from a square to itself is rejected; in particular the
/// bishop's equal-deltas rule does not admit the zero displacement.
pub proof fn lemma_null_move_rejected(
    kind: PieceType,
    side: Side,
    square: Square,
    made_first_move: bool,
)
    ensures
        !kind.move_rule(side, square, square, made_first_move),
{
}

/// Rank on which a side's pawns start: the rank one forward step in from the
/// side's back rank.
pub open spec fn spec_pawn_rank(side: Side) -> i32 {
    match side {
        Side::White => 6,
        Side::Black => 1,
    }
}

/// Rank on which a side's major and minor pieces start.
pub open spec fn spec_back_rank(side: Side) -> i32 {
    match side {
        Side::White => 7,
        Side::Black => 0,
    }
}

/// Kind of the `i`th entry of a side's starting layout: eight pawns, then
/// the back-rank pieces in the order rook, rook, knight, knight, bishop,
/// bishop, queen, king.
pub open spec fn initial_kind(i: int) -> PieceType {
    if i < 8 {
        PieceType::Pawn(Pawn)
    } else if i < 10 {
        PieceType::Rook(Rook)
    } else if i < 12 {
        PieceType::Knight(Knight)
    } else if i < 14 {
        PieceType::Bishop(Bishop)
    } else if i == 14 {
        PieceType::Queen(Queen)
    } else {
        PieceType::King(King)
    }
}

/// File of the `i`th entry of a side's starting layout: pawns on files
/// `0..=7`, rooks on 0 and 7, knights on 1 and 6, bishops on 2 and 5, the
/// queen on 4 and the king on 3.
pub open spec fn initial_file(i: int) -> i32 {
    if i < 8 {
        i as i32
    } else if i == 8 {
        0
    } else if i == 9 {
        7
    } else if i == 10 {
        1
    } else if i == 11 {
        6
    } else if i == 12 {
        2
    } else if i == 13 {
        5
    } else if i == 14 {
        4
    } else {
        3
    }
}

/// Square of the `i`th entry of a side's starting layout.
pub open spec fn initial_square(side: Side, i: int) -> Square {
    Square {
        file: initial_file(i),
        rank: if i < 8 {
            spec_pawn_rank(side)
        } else {
            spec_back_rank(side)
        },
    }
}

/// A side's complete starting layout: sixteen pieces, each with its kind and
/// its square.
pub open spec fn initial_layout_spec(side: Side) -> Seq<(PieceType, Square)> {
    Seq::new(16, |i: int| (initial_kind(i), initial_square(side, i)))
}

/// Generates a side's starting arrangement: exactly sixteen entries, the
/// standard chess opening layout mirrored between the two sides.
pub fn initial_layout(side: Side) -> (v: Vec<(PieceType, Square)>)
    ensures
        v@ == initial_layout_spec(side),
        v@.len() == 16,
{
    let pawn_rank: i32 = match side {
        Side::White => 6,
        Side::Black => 1,
    };
    let back_rank: i32 = match side {
        Side::White => 7,
        Side::Black => 0,
    };
    let mut v: Vec<(PieceType, Square)> = Vec::new();
    let mut f: i32 = 0;
    while f < 8
        invariant
            0 <= f <= 8,
            v@.len() == f as int,
            pawn_rank == spec_pawn_rank(side),
            forall|k: int| 0 <= k < f as int ==> v@[k] == initial_layout_spec(side)[k],
        decreases 8 - f,
    {
        v.push((PieceType::Pawn(Pawn), Square { file: f, rank: pawn_rank }));
        f = f + 1;
    }
    v.push((PieceType::Rook(Rook), Square { file: 0, rank: back_rank }));
    v.push((PieceType::Rook(Rook), Square { file: 7, rank: back_rank }));
    v.push((PieceType::Knight(Knight), Square { file: 1, rank: back_rank }));
    v.push((PieceType::Knight(Knight), Square { file: 6, rank: back_rank }));
    v.push((PieceType::Bishop(Bishop), Square { file: 2, rank: back_rank }));
    v.push((PieceType::Bishop(Bishop), Square { file: 5, rank: back_rank }));
    v.push((PieceType::Queen(Queen), Square { file: 4, rank: back_rank }));
    v.push((PieceType::King(King), Square { file: 3, rank: back_rank }));
    proof {
        assert(v@ =~= initial_layout_spec(side));
    }
    v
}

/// Law: across the two sides' starting layouts no square is used twice.
/// Instantiated with one side twice it says the sixteen entries of that
/// side's layout sit on sixteen different squares; instantiated with the two
/// different sides it says the layouts do not collide, so the full board of
/// thirty-two pieces has no duplicate squares.
pub proof fn lemma_initial_layout_squares_distinct(a: Side, b: Side)
    ensures
        forall|i: int, j: int|
            0 <= i < 16 && 0 <= j < 16 && (a != b || i != j) ==> initial_layout_spec(a)[i].1
                != initial_layout_spec(b)[j].1,
{
    assert forall|i: int, j: int|
        0 <= i < 16 && 0 <= j < 16 && (a != b || i != j) implies initial_layout_spec(a)[i].1
        != initial_layout_spec(b)[j].1 by {
        assert(initial_layout_spec(a)[i].1 == initial_square(a, i));
        assert(initial_layout_spec(b)[j].1 == initial_square(b, j));
    }
}

} // verus!
