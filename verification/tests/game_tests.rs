use chess_core::moves::attempt_move;
use chess_core::moves::move_piece;
use chess_core::pieces::spawn_initial_pieces;
use chess_core::rules::is_checkmate;
use chess_core::rules::is_king_in_check;
use chess_core::BoardPosition;
use chess_core::ChessBoard;
use chess_core::ChessMove;
use chess_core::ChessPiece;
use chess_core::GameStateResource;
use chess_core::Move;
use chess_core::MoveCheckStatus;
use chess_core::MoveError;
use chess_core::MoveHistory;
use chess_core::PieceColor;
use chess_core::PieceType;

fn sq(name: &str) -> BoardPosition {
    BoardPosition::from_algebraic(name).unwrap()
}

fn standard_game() -> (ChessBoard, Vec<ChessPiece>) {
    let mut board = ChessBoard::new();
    let mut pieces = Vec::new();
    spawn_initial_pieces(&mut board, &mut pieces);
    (board, pieces)
}

#[test]
fn fools_mate_is_checkmate_for_white() {
    let (mut board, mut pieces) = standard_game();
    let script = [
        ("f2", "f3", PieceColor::White),
        ("e7", "e5", PieceColor::Black),
        ("g2", "g4", PieceColor::White),
        ("d8", "h4", PieceColor::Black),
    ];
    let mut turn = 1u32;
    let mut last = None;
    for (from, to, color) in script {
        let record = attempt_move(&mut board, &mut pieces, sq(from), sq(to), color, turn)
            .expect("scripted move must be legal");
        last = Some(record);
        turn += 1;
    }
    assert!(is_checkmate(PieceColor::White, &board, &pieces));
    assert!(!is_checkmate(PieceColor::Black, &board, &pieces));
    let mate = last.unwrap();
    assert_eq!(mate.check_status, MoveCheckStatus::Checkmate);
    assert_eq!(mate.to_algebraic_notation(), "Qh4#");
}

#[test]
fn opening_position_has_no_check() {
    let (board, pieces) = standard_game();
    assert!(!is_king_in_check(PieceColor::White, &board, &pieces));
    assert!(!is_king_in_check(PieceColor::Black, &board, &pieces));
    assert!(!is_checkmate(PieceColor::White, &board, &pieces));
}

#[test]
fn attempt_move_rejects_and_preserves_state() {
    let (mut board, mut pieces) = standard_game();
    // white may not move black's pieces
    let r = attempt_move(&mut board, &mut pieces, sq("e7"), sq("e5"), PieceColor::White, 1);
    assert_eq!(r, Err(MoveError::WrongPlayerPiece));
    // a rook cannot jump over its own pawn
    let r = attempt_move(&mut board, &mut pieces, sq("a1"), sq("a5"), PieceColor::White, 1);
    assert_eq!(r, Err(MoveError::IllegalMove));
    // nothing changed
    assert_eq!(board.get_piece_at(sq("e5")), None);
    assert!(board.get_piece_at(sq("a1")).is_some());
    assert_eq!(pieces.len(), 32);
}

#[test]
fn attempt_move_reports_capture_and_updates_piece() {
    let (mut board, mut pieces) = standard_game();
    attempt_move(&mut board, &mut pieces, sq("e2"), sq("e4"), PieceColor::White, 1).unwrap();
    attempt_move(&mut board, &mut pieces, sq("d7"), sq("d5"), PieceColor::Black, 2).unwrap();
    let record =
        attempt_move(&mut board, &mut pieces, sq("e4"), sq("d5"), PieceColor::White, 3).unwrap();
    assert_eq!(record.captured_piece, Some(PieceType::Pawn));
    assert_eq!(record.piece_type, PieceType::Pawn);
    assert_eq!(record.color, PieceColor::White);
    assert_eq!(record.to_algebraic_notation(), "exd5");
    let handle = board.get_piece_at(sq("d5")).expect("the capturing pawn stands on d5");
    let pawn = &pieces[handle];
    assert_eq!(pawn.position, sq("d5"));
    assert!(pawn.has_moved);
    assert_eq!(pawn.move_count, 2);
    assert_eq!(pawn.last_moved_turn, Some(3));
}

#[test]
fn move_piece_relocates_and_signals_capture() {
    let mut board = ChessBoard::new();
    let mut pieces = Vec::new();
    let rook = pieces.len();
    pieces.push(ChessPiece::new(PieceType::Rook, PieceColor::White, sq("a1")));
    board.set_piece_at(sq("a1"), Some(rook));
    let pawn = pieces.len();
    pieces.push(ChessPiece::new(PieceType::Pawn, PieceColor::Black, sq("a7")));
    board.set_piece_at(sq("a7"), Some(pawn));

    let captured = move_piece(&mut board, &mut pieces, sq("a1"), sq("a7"), 5).unwrap();
    assert_eq!(captured, Some(pawn));
    assert_eq!(board.get_piece_at(sq("a1")), None);
    assert_eq!(board.get_piece_at(sq("a7")), Some(rook));
    assert_eq!(pieces[rook].position, sq("a7"));
    assert_eq!(pieces[rook].last_moved_turn, Some(5));

    assert_eq!(
        move_piece(&mut board, &mut pieces, sq("h4"), sq("h5"), 6),
        Err(MoveError::NoPieceAtSource)
    );
    board.set_piece_at(sq("c3"), Some(99));
    assert_eq!(
        move_piece(&mut board, &mut pieces, sq("c3"), sq("c4"), 6),
        Err(MoveError::InvalidPiece)
    );
}

#[test]
fn game_state_defaults() {
    let state = GameStateResource::default();
    assert_eq!(state.current_player, PieceColor::White);
    assert_eq!(state.move_count, 0);
    assert_eq!(state.halfmove_clock, 0);
    assert_eq!(state.fullmove_number, 1);
    assert_eq!(state.en_passant_target, None);
    assert!(state.castling_rights.white_kingside);
    assert!(state.castling_rights.white_queenside);
    assert!(state.castling_rights.black_kingside);
    assert!(state.castling_rights.block_queenside);
}

#[test]
fn record_move_advances_turn_and_counters() {
    let mut state = GameStateResource::default();
    let double = Move::new(sq("e2"), sq("e4"), PieceType::Pawn, PieceColor::White);
    state.record_move(&double);
    assert_eq!(state.current_player, PieceColor::Black);
    assert_eq!(state.move_count, 1);
    assert_eq!(state.halfmove_clock, 0, "a pawn move resets the fifty-move clock");
    assert_eq!(state.fullmove_number, 1, "white's move keeps the fullmove number");
    assert_eq!(state.en_passant_target, Some(sq("e3")));

    let quiet = Move::new(sq("g8"), sq("f6"), PieceType::Knight, PieceColor::Black);
    state.record_move(&quiet);
    assert_eq!(state.current_player, PieceColor::White);
    assert_eq!(state.move_count, 2);
    assert_eq!(state.halfmove_clock, 1, "a quiet piece move counts up");
    assert_eq!(state.fullmove_number, 2, "black's move advances the fullmove number");
    assert_eq!(state.en_passant_target, None);
}

#[test]
fn record_move_resets_clock_on_capture() {
    let mut state = GameStateResource::default();
    let quiet = Move::new(sq("b1"), sq("c3"), PieceType::Knight, PieceColor::White);
    state.record_move(&quiet);
    assert_eq!(state.halfmove_clock, 1);
    let capture = Move::new(sq("c6"), sq("d4"), PieceType::Knight, PieceColor::Black)
        .with_capture(PieceType::Pawn);
    state.record_move(&capture);
    assert_eq!(state.halfmove_clock, 0);
}

#[test]
fn record_move_tracks_castling_rights() {
    let mut state = GameStateResource::default();
    let king = Move::new(sq("e1"), sq("e2"), PieceType::King, PieceColor::White);
    state.record_move(&king);
    assert!(!state.castling_rights.white_kingside);
    assert!(!state.castling_rights.white_queenside);
    assert!(state.castling_rights.black_kingside);
    assert!(state.castling_rights.block_queenside);

    let mut state = GameStateResource::default();
    let rook = Move::new(sq("h1"), sq("h5"), PieceType::Rook, PieceColor::White);
    state.record_move(&rook);
    assert!(!state.castling_rights.white_kingside);
    assert!(state.castling_rights.white_queenside);

    let mut state = GameStateResource::default();
    // capturing the rook on a8 removes black's queenside right
    let capture = Move::new(sq("a1"), sq("a8"), PieceType::Rook, PieceColor::White)
        .with_capture(PieceType::Rook);
    state.record_move(&capture);
    assert!(!state.castling_rights.block_queenside);
    assert!(state.castling_rights.black_kingside);
}

#[test]
fn record_move_reports_check_status() {
    let mut state = GameStateResource::default();
    let check = Move::new(sq("d1"), sq("h5"), PieceType::Queen, PieceColor::White)
        .with_check_status(MoveCheckStatus::Check);
    state.record_move(&check);
    assert_eq!(state.game_status, chess_core::state::GameStatus::Check);
    assert_eq!(
        state.check_status,
        chess_core::state::CheckStatus::Check(PieceColor::Black)
    );
}

#[test]
fn move_history_collects_records() {
    let mut history = MoveHistory::default();
    assert!(history.moves.is_empty());
    assert!(history.positions.is_empty());
    let m = Move::new(sq("e2"), sq("e4"), PieceType::Pawn, PieceColor::White);
    history.moves.push(ChessMove {
        from: m.from,
        to: m.to,
        piece_type: m.piece_type,
        piece_color: m.color,
        captured_piece: m.captured_piece,
        promotion: m.promotion,
        is_castling: m.is_castling,
        is_en_passant: m.is_en_passant,
        notation: m.to_algebraic_notation(),
    });
    assert_eq!(history.moves.len(), 1);
    assert_eq!(history.moves[0].notation, "e4");
}

#[test]
fn attempt_move_reports_plain_check() {
    let mut board = ChessBoard::new();
    let mut pieces = Vec::new();
    let rook = pieces.len();
    pieces.push(ChessPiece::new(PieceType::Rook, PieceColor::White, sq("a1")));
    board.set_piece_at(sq("a1"), Some(rook));
    let king = pieces.len();
    pieces.push(ChessPiece::new(PieceType::King, PieceColor::Black, sq("e8")));
    board.set_piece_at(sq("e8"), Some(king));

    let record =
        attempt_move(&mut board, &mut pieces, sq("a1"), sq("a8"), PieceColor::White, 1).unwrap();
    assert_eq!(record.check_status, MoveCheckStatus::Check);
    assert_eq!(record.to_algebraic_notation(), "Ra8+");
    assert!(is_king_in_check(PieceColor::Black, &board, &pieces));
}
