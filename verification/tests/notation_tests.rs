use chess_core::BoardPosition;
use chess_core::Move;
use chess_core::MoveCheckStatus;
use chess_core::PieceColor;
use chess_core::PieceType;

fn sq(name: &str) -> BoardPosition {
    BoardPosition::from_algebraic(name).unwrap()
}

#[test]
fn knight_move_renders_letter_and_square() {
    let m = Move::new(sq("b1"), sq("c3"), PieceType::Knight, PieceColor::White);
    assert_eq!(m.to_algebraic_notation(), "Nc3");
}

#[test]
fn pawn_move_omits_piece_letter() {
    let m = Move::new(sq("e2"), sq("e4"), PieceType::Pawn, PieceColor::White);
    assert_eq!(m.to_algebraic_notation(), "e4");
}

#[test]
fn pawn_capture_names_origin_file() {
    let m = Move::new(sq("e4"), sq("d5"), PieceType::Pawn, PieceColor::White)
        .with_capture(PieceType::Pawn);
    assert_eq!(m.to_algebraic_notation(), "exd5");
}

#[test]
fn piece_capture_uses_x() {
    let m = Move::new(sq("a1"), sq("a8"), PieceType::Rook, PieceColor::White)
        .with_capture(PieceType::Rook);
    assert_eq!(m.to_algebraic_notation(), "Rxa8");
}

#[test]
fn castling_notation_depends_on_direction() {
    let kingside = Move::new(sq("e1"), sq("g1"), PieceType::King, PieceColor::White)
        .with_castling();
    assert_eq!(kingside.to_algebraic_notation(), "O-O");
    let queenside = Move::new(sq("e1"), sq("c1"), PieceType::King, PieceColor::White)
        .with_castling();
    assert_eq!(queenside.to_algebraic_notation(), "O-O-O");
    let black_queenside = Move::new(sq("e8"), sq("c8"), PieceType::King, PieceColor::Black)
        .with_castling();
    assert_eq!(black_queenside.to_algebraic_notation(), "O-O-O");
}

#[test]
fn promotion_notation() {
    let m = Move::new(sq("e7"), sq("e8"), PieceType::Pawn, PieceColor::White)
        .with_promotion(PieceType::Queen);
    assert_eq!(m.to_algebraic_notation(), "e8=Q");
    let under = Move::new(sq("b2"), sq("b1"), PieceType::Pawn, PieceColor::Black)
        .with_promotion(PieceType::Knight);
    assert_eq!(under.to_algebraic_notation(), "b1=N");
}

#[test]
fn capture_promotion_and_check_combined() {
    let m = Move::new(sq("d7"), sq("c8"), PieceType::Pawn, PieceColor::White)
        .with_capture(PieceType::Bishop)
        .with_promotion(PieceType::Queen)
        .with_check_status(MoveCheckStatus::Check);
    assert_eq!(m.to_algebraic_notation(), "dxc8=Q+");
}

#[test]
fn check_and_checkmate_suffixes() {
    let check = Move::new(sq("d1"), sq("h5"), PieceType::Queen, PieceColor::White)
        .with_check_status(MoveCheckStatus::Check);
    assert_eq!(check.to_algebraic_notation(), "Qh5+");
    let mate = Move::new(sq("d8"), sq("h4"), PieceType::Queen, PieceColor::Black)
        .with_check_status(MoveCheckStatus::Checkmate);
    assert_eq!(mate.to_algebraic_notation(), "Qh4#");
}

#[test]
fn move_builders_set_flags() {
    let m = Move::new(sq("e5"), sq("d6"), PieceType::Pawn, PieceColor::White);
    assert_eq!(m.captured_piece, None);
    assert_eq!(m.promotion, None);
    assert!(!m.is_castling);
    assert!(!m.is_en_passant);
    assert_eq!(m.check_status, MoveCheckStatus::NoCheck);
    let m = m.with_capture(PieceType::Pawn).with_en_passant();
    assert_eq!(m.captured_piece, Some(PieceType::Pawn));
    assert!(m.is_en_passant);
}
