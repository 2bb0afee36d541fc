use chess::coord::Square;
use chess::piece::{Bishop, King, Knight, Logic, Pawn, PieceType, Queen, Rook, Side};

fn sq(file: i32, rank: i32) -> Square {
    Square { file, rank }
}

#[test]
fn can_move_is_deterministic() {
    let kinds = [
        PieceType::Pawn(Pawn),
        PieceType::Rook(Rook),
        PieceType::Knight(Knight),
        PieceType::Bishop(Bishop),
        PieceType::Queen(Queen),
        PieceType::King(King),
    ];
    for kind in kinds {
        for side in [Side::White, Side::Black] {
            for flag in [false, true] {
                for from in [sq(0, 0), sq(4, 6), sq(7, 3)] {
                    for to in [sq(0, 7), sq(4, 5), sq(5, 5), sq(2, 2)] {
                        let first = kind.can_move(side, from, to, flag);
                        let second = kind.can_move(side, from, to, flag);
                        assert_eq!(first, second);
                    }
                }
            }
        }
    }
}

#[test]
fn pawn_single_forward_step() {
    assert!(PieceType::Pawn(Pawn).can_move(Side::White, sq(4, 6), sq(4, 5), false));
}

#[test]
fn pawn_double_step_on_first_move() {
    assert!(PieceType::Pawn(Pawn).can_move(Side::White, sq(4, 6), sq(4, 4), false));
}

#[test]
fn pawn_double_step_rejected_after_first_move() {
    assert!(!PieceType::Pawn(Pawn).can_move(Side::White, sq(4, 6), sq(4, 4), true));
}

#[test]
fn pawn_black_moves_toward_increasing_ranks() {
    assert!(PieceType::Pawn(Pawn).can_move(Side::Black, sq(4, 1), sq(4, 2), false));
    assert!(PieceType::Pawn(Pawn).can_move(Side::Black, sq(4, 1), sq(4, 3), false));
    assert!(!PieceType::Pawn(Pawn).can_move(Side::Black, sq(4, 1), sq(4, 0), false));
    assert!(!PieceType::Pawn(Pawn).can_move(Side::White, sq(4, 6), sq(4, 7), false));
}

#[test]
fn pawn_rejects_diagonal_and_null_moves() {
    assert!(!PieceType::Pawn(Pawn).can_move(Side::White, sq(4, 6), sq(5, 5), false));
    assert!(!PieceType::Pawn(Pawn).can_move(Side::White, sq(4, 6), sq(3, 5), false));
    assert!(!PieceType::Pawn(Pawn).can_move(Side::White, sq(4, 6), sq(4, 6), false));
}

#[test]
fn rook_moves_along_one_axis_only() {
    assert!(PieceType::Rook(Rook).can_move(Side::White, sq(0, 0), sq(0, 7), false));
    assert!(!PieceType::Rook(Rook).can_move(Side::White, sq(0, 0), sq(3, 3), false));
    assert!(PieceType::Rook(Rook).can_move(Side::Black, sq(0, 0), sq(0, 7), true));
    assert!(!PieceType::Rook(Rook).can_move(Side::Black, sq(0, 0), sq(3, 3), true));
    assert!(PieceType::Rook(Rook).can_move(Side::White, sq(5, 2), sq(1, 2), false));
    assert!(!PieceType::Rook(Rook).can_move(Side::White, sq(5, 2), sq(5, 2), false));
}

#[test]
fn bishop_moves_diagonally_and_rejects_null_move() {
    assert!(PieceType::Bishop(Bishop).can_move(Side::White, sq(2, 0), sq(5, 3), false));
    assert!(!PieceType::Bishop(Bishop).can_move(Side::White, sq(2, 0), sq(2, 0), false));
    assert!(PieceType::Bishop(Bishop).can_move(Side::Black, sq(2, 0), sq(5, 3), true));
    assert!(!PieceType::Bishop(Bishop).can_move(Side::Black, sq(2, 0), sq(2, 0), true));
    assert!(PieceType::Bishop(Bishop).can_move(Side::White, sq(4, 4), sq(1, 7), false));
    assert!(!PieceType::Bishop(Bishop).can_move(Side::White, sq(4, 4), sq(5, 6), false));
}

#[test]
fn knight_moves_one_by_two() {
    assert!(PieceType::Knight(Knight).can_move(Side::White, sq(1, 0), sq(0, 2), false));
    assert!(!PieceType::Knight(Knight).can_move(Side::White, sq(1, 0), sq(3, 2), false));
    assert!(PieceType::Knight(Knight).can_move(Side::Black, sq(1, 0), sq(0, 2), true));
    assert!(!PieceType::Knight(Knight).can_move(Side::Black, sq(1, 0), sq(1, 1), true));
    assert!(PieceType::Knight(Knight).can_move(Side::White, sq(4, 4), sq(6, 3), false));
    assert!(!PieceType::Knight(Knight).can_move(Side::White, sq(4, 4), sq(4, 4), false));
}

#[test]
fn king_moves_one_square_any_direction() {
    assert!(PieceType::King(King).can_move(Side::White, sq(4, 4), sq(5, 5), false));
    assert!(!PieceType::King(King).can_move(Side::White, sq(4, 4), sq(6, 6), false));
    assert!(PieceType::King(King).can_move(Side::Black, sq(4, 4), sq(5, 5), true));
    assert!(!PieceType::King(King).can_move(Side::Black, sq(4, 4), sq(6, 6), true));
    assert!(PieceType::King(King).can_move(Side::White, sq(4, 4), sq(4, 3), false));
    assert!(PieceType::King(King).can_move(Side::White, sq(4, 4), sq(3, 4), false));
    assert!(!PieceType::King(King).can_move(Side::White, sq(4, 4), sq(4, 6), false));
    assert!(!PieceType::King(King).can_move(Side::White, sq(4, 4), sq(4, 4), false));
}

#[test]
fn queen_combines_rook_and_bishop() {
    assert!(PieceType::Queen(Queen).can_move(Side::White, sq(3, 3), sq(3, 0), false));
    assert!(PieceType::Queen(Queen).can_move(Side::White, sq(3, 3), sq(6, 6), false));
    assert!(!PieceType::Queen(Queen).can_move(Side::White, sq(3, 3), sq(4, 5), false));
    assert!(!PieceType::Queen(Queen).can_move(Side::White, sq(3, 3), sq(3, 3), false));
}

#[test]
fn side_directions_are_opposite() {
    assert_eq!(Side::White.dir(), -1);
    assert_eq!(Side::Black.dir(), 1);
    assert_eq!(Side::White.offset(), 1);
    assert_eq!(Side::Black.offset(), -1);
    assert_eq!(Side::White.opposite(), Side::Black);
    assert_eq!(Side::Black.opposite(), Side::White);
    assert_eq!(Side::White.name(), "white");
    assert_eq!(Side::Black.name(), "black");
}
