//! The turn and interaction state machine: the board's pieces, whose turn it
//! is, and the transient drag between a pointer press and its release. On a
//! release it consults the move legality engine; a legal, in-turn move is
//! committed and the turn flips, anything else reverts the piece to its
//! pick-up square. Every transition is total: a press that hits no piece and
//! a release with nothing dragged are no-ops. The mid-drag pointer follow is
//! purely visual and belongs to the rendering layer; no legality check runs
//! before the release.

use vstd::prelude::*;
use crate::coord::Square;
use crate::piece::{
    initial_kind, initial_layout, initial_layout_spec, initial_square,
    lemma_initial_layout_squares_distinct, Logic, PieceType, Side,
};

verus! {

/// A piece on the board: its kind and side are fixed at setup, and its
/// square changes with each committed move. `made_first_move` is kept for
/// pawns only: set once, after the pawn's first committed move, and never
/// cleared, it permanently disables the pawn's double step.
#[derive(Clone, Copy, Debug, PartialEq, Eq, Structural)]
pub struct Piece {
    pub kind: PieceType,
    pub side: Side,
    pub square: Square,
    pub made_first_move: bool,
}

/// The transient drag state, alive between a press on a piece and the next
/// release: which piece is held (an index into the board's pieces) and the
/// square it was picked up from.
#[derive(Clone, Copy, Debug, PartialEq, Eq, Structural)]
pub struct Dragging {
    pub piece: usize,
    pub old_position: Square,
}

/// The whole game: the side to move, the pieces, and the drag in progress,
/// if any. Lives for the lifetime of the application; there is no terminal
/// state.
#[derive(Debug)]
pub struct GameState {
    pub turn: Side,
    pub pieces: Vec<Piece>,
    pub dragging: Option<Dragging>,
}

/// The `i`th piece of a side's starting setup.
pub open spec fn initial_piece(side: Side, i: int) -> Piece {
    Piece {
        kind: initial_kind(i),
        side: side,
        square: initial_square(side, i),
        made_first_move: false,
    }
}

/// A side's sixteen starting pieces, in layout order.
pub open spec fn initial_side_pieces(side: Side) -> Seq<Piece> {
    Seq::new(16, |i: int| initial_piece(side, i))
}

/// The full starting board: White's sixteen pieces followed by Black's.
pub open spec fn initial_board() -> Seq<Piece> {
    initial_side_pieces(Side::White) + initial_side_pieces(Side::Black)
}

/// Law: the starting board holds thirty-two pieces, White's sixteen first,
/// every piece on a valid board square, and no square occupied twice.
pub proof fn lemma_initial_board_distinct()
    ensures
        initial_board().len() == 32,
        forall|i: int| 0 <= i < 16 ==> (#[trigger] initial_board()[i]).side == Side::White,
        forall|i: int| 16 <= i < 32 ==> (#[trigger] initial_board()[i]).side == Side::Black,
        forall|i: int| 0 <= i < 32 ==> (#[trigger] initial_board()[i]).square.spec_valid(),
        forall|i: int, j: int|
            0 <= i < j < 32 ==> initial_board()[i].square != initial_board()[j].square,
{
    lemma_initial_layout_squares_distinct(Side::White, Side::White);
    lemma_initial_layout_squares_distinct(Side::White, Side::Black);
    lemma_initial_layout_squares_distinct(Side::Black, Side::Black);
    assert forall|i: int, j: int|
        0 <= i < j < 32 implies initial_board()[i].square != initial_board()[j].square by {
        let a = if i < 16 {
            Side::White
        } else {
            Side::Black
        };
        let b = if j < 16 {
            Side::White
        } else {
            Side::Black
        };
        let ia = if i < 16 {
            i
        } else {
            i - 16
        };
        let jb = if j < 16 {
            j
        } else {
            j - 16
        };
        assert(initial_board()[i].square == initial_layout_spec(a)[ia].1);
        assert(initial_board()[j].square == initial_layout_spec(b)[jb].1);
    }
}

/// The piece as it stands after a committed move to `to`: on the new square
/// and, for a pawn, with the first-move flag permanently set.
pub open spec fn moved_piece(p: Piece, to: Square) -> Piece {
    Piece { square: to, made_first_move: p.made_first_move || p.kind is Pawn, ..p }
}

impl GameState {
    /// Well-formedness: every piece stands on the board, and a drag in
    /// progress points at an existing piece whose current square is the
    /// remembered pick-up square.
    pub open spec fn wf(self) -> bool {
        &&& forall|i: int|
            0 <= i < self.pieces@.len() ==> (#[trigger] self.pieces@[i]).square.spec_valid()
        &&& match self.dragging {
            Some(d) => {
                &&& d.piece < self.pieces@.len()
                &&& self.pieces@[d.piece as int].square == d.old_position
            },
            None => true,
        }
    }

    /// The release decision: a drag held by `d`, released on `to`, commits
    /// exactly when the dragged piece's side holds the turn and the piece's
    /// own rule accepts the displacement from the pick-up square to `to`.
    pub open spec fn commits(self, d: Dragging, to: Square) -> bool {
        let p = self.pieces@[d.piece as int];
        p.side == self.turn && p.kind.move_rule(p.side, d.old_position, to, p.made_first_move)
    }

    /// Appends a side's sixteen starting pieces.
    fn push_side(pieces: &mut Vec<Piece>, side: Side)
        ensures
            final(pieces)@ == old(pieces)@ + initial_side_pieces(side),
    {
        let ghost orig = pieces@;
        let layout = initial_layout(side);
        let mut i: usize = 0;
        while i < 16
            invariant
                i <= 16,
                layout@ == initial_layout_spec(side),
                pieces@ == orig + initial_side_pieces(side).take(i as int),
            decreases 16 - i,
        {
            let (kind, square) = layout[i];
            pieces.push(Piece { kind, side, square, made_first_move: false });
            proof {
                assert(orig + initial_side_pieces(side).take(i + 1) =~= (orig
                    + initial_side_pieces(side).take(i as int)).push(
                    initial_piece(side, i as int),
                ));
            }
            i = i + 1;
        }
        proof {
            assert(initial_side_pieces(side).take(16) =~= initial_side_pieces(side));
        }
    }

    /// Sets up a fresh game: White to move, nothing dragged, and the full
    /// thirty-two piece starting position.
    pub fn new() -> (s: GameState)
        ensures
            s.wf(),
            s.turn == Side::White,
            s.dragging is None,
            s.pieces@ == initial_board(),
    {
        let mut pieces: Vec<Piece> = Vec::new();
        Self::push_side(&mut pieces, Side::White);
        Self::push_side(&mut pieces, Side::Black);
        proof {
            assert(pieces@ =~= initial_board());
            lemma_initial_board_distinct();
        }
        GameState { turn: Side::White, pieces, dragging: None }
    }

    /// Hands the turn to the other side; nothing else changes.
    pub fn change_side(&mut self)
        ensures
            final(self).turn == old(self).turn.spec_opposite(),
            final(self).pieces == old(self).pieces,
            final(self).dragging == old(self).dragging,
    {
        if self.turn == Side::White {
            self.turn = Side::Black;
        } else {
            self.turn = Side::White;
        }
    }

    /// Index of the first piece standing on `square`, scanning the pieces
    /// in order, or `None` when the square is empty.
    pub fn piece_at(&self, square: Square) -> (r: Option<usize>)
        ensures
            match r {
                Some(i) => i < self.pieces@.len() && self.pieces@[i as int].square == square
                    && forall|k: int| 0 <= k < i as int ==> self.pieces@[k].square != square,
                None => forall|k: int|
                    0 <= k < self.pieces@.len() ==> self.pieces@[k].square != square,
            },
    {
        let mut i: usize = 0;
        while i < self.pieces.len()
            invariant
                i <= self.pieces@.len(),
                forall|k: int| 0 <= k < i as int ==> self.pieces@[k].square != square,
            decreases self.pieces@.len() - i,
        {
            if self.pieces[i].square == square {
                return Some(i);
            }
            i = i + 1;
        }
        None
    }

    /// Press at `square`: when nothing is dragged and a piece stands there,
    /// the first such piece is picked up and its pre-drag square remembered;
    /// otherwise nothing happens. Pieces and turn never change on a press;
    /// in particular the turn does not gate picking a piece up, only the
    /// commit on release.
    pub fn handle_mouse_press(&mut self, square: Square)
        requires
            old(self).wf(),
        ensures
            final(self).wf(),
            final(self).pieces == old(self).pieces,
            final(self).turn == old(self).turn,
            old(self).dragging is Some ==> final(self).dragging == old(self).dragging,
            old(self).dragging is None ==> match final(self).dragging {
                Some(d) => d.old_position == square && d.piece < old(self).pieces@.len() && old(
                    self,
                ).pieces@[d.piece as int].square == square && forall|k: int|
                    0 <= k < d.piece as int ==> old(self).pieces@[k].square != square,
                None => forall|k: int|
                    0 <= k < old(self).pieces@.len() ==> old(self).pieces@[k].square != square,
            },
    {
        if self.dragging.is_none() {
            match self.piece_at(square) {
                Some(i) => {
                    self.dragging = Some(Dragging { piece: i, old_position: square });
                },
                None => {},
            }
        }
    }

    /// Release at `square`. With nothing dragged this is a no-op. Otherwise
    /// the drag ends, and: an out-of-turn release changes neither any
    /// piece's square nor the turn; an in-turn release whose displacement the
    /// piece's rule rejects reverts the piece to its pick-up square, again
    /// changing nothing; and an in-turn, legal release commits, moving the
    /// piece to `square`, setting a pawn's first-move flag, and handing the
    /// turn to the side that did not just move.
    pub fn handle_mouse_up(&mut self, square: Square)
        requires
            old(self).wf(),
            square.spec_valid(),
        ensures
            final(self).wf(),
            final(self).dragging is None,
            old(self).dragging is None ==> *final(self) == *old(self),
            match old(self).dragging {
                Some(d) => if old(self).commits(d, square) {
                    &&& final(self).pieces@ == old(self).pieces@.update(
                        d.piece as int,
                        moved_piece(old(self).pieces@[d.piece as int], square),
                    )
                    &&& final(self).turn == old(self).pieces@[d.piece as int].side.spec_opposite()
                } else {
                    &&& final(self).pieces@ == old(self).pieces@
                    &&& final(self).turn == old(self).turn
                },
                None => true,
            },
    {
        match self.dragging {
            None => {},
            Some(d) => {
                self.dragging = None;
                let p = self.pieces[d.piece];
                if p.side == self.turn && p.kind.can_move(
                    p.side,
                    d.old_position,
                    square,
                    p.made_first_move,
                ) {
                    let flag = p.made_first_move || matches!(p.kind, PieceType::Pawn(_));
                    self.pieces.set(d.piece, Piece { square, made_first_move: flag, ..p });
                    self.change_side();
                } else {
                    self.pieces.set(d.piece, Piece { square: d.old_position, ..p });
                    proof {
                        assert(self.pieces@ =~= old(self).pieces@);
                    }
                }
            },
        }
    }
}

impl Default for GameState {
    /// A fresh game, as [`GameState::new`] sets it up.
    fn default() -> (s: Self)
        ensures
            s.wf(),
            s.turn == Side::White,
            s.dragging is None,
            s.pieces@ == initial_board(),
    {
        GameState::new()
    }
}

} // verus!
