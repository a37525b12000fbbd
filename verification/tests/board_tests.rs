use chess_core::BoardPosition;
use chess_core::ChessBoard;

fn sq(name: &str) -> BoardPosition {
    BoardPosition::from_algebraic(name).unwrap()
}

#[test]
fn position_new_validates_bounds() {
    assert_eq!(BoardPosition::new(0, 0), Some(BoardPosition { file: 0, rank: 0 }));
    assert_eq!(BoardPosition::new(7, 7), Some(BoardPosition { file: 7, rank: 7 }));
    assert_eq!(BoardPosition::new(8, 0), None);
    assert_eq!(BoardPosition::new(0, 8), None);
    assert_eq!(BoardPosition::new(255, 255), None);
}

#[test]
fn algebraic_round_trip_all_64() {
    for file in 0..8u8 {
        for rank in 0..8u8 {
            let pos = BoardPosition::new(file, rank).unwrap();
            let name = pos.to_algebraic();
            assert_eq!(BoardPosition::from_algebraic(&name), Some(pos));
        }
    }
}

#[test]
fn algebraic_known_squares() {
    assert_eq!(sq("a1"), BoardPosition { file: 0, rank: 0 });
    assert_eq!(sq("e4"), BoardPosition { file: 4, rank: 3 });
    assert_eq!(sq("h8"), BoardPosition { file: 7, rank: 7 });
    assert_eq!(sq("e4").to_algebraic(), "e4");
    assert_eq!(sq("a1").to_algebraic(), "a1");
}

#[test]
fn from_algebraic_rejects_malformed() {
    assert_eq!(BoardPosition::from_algebraic(""), None);
    assert_eq!(BoardPosition::from_algebraic("e"), None);
    assert_eq!(BoardPosition::from_algebraic("e44"), None);
    assert_eq!(BoardPosition::from_algebraic("i1"), None);
    assert_eq!(BoardPosition::from_algebraic("a9"), None);
    assert_eq!(BoardPosition::from_algebraic("a0"), None);
    assert_eq!(BoardPosition::from_algebraic("4e"), None);
}

#[test]
fn offset_stays_on_board() {
    let e4 = sq("e4");
    assert_eq!(e4.offset(1, 1), Some(sq("f5")));
    assert_eq!(e4.offset(-1, -1), Some(sq("d3")));
    assert_eq!(e4.offset(0, 0), Some(e4));
    assert_eq!(sq("a1").offset(-1, 0), None);
    assert_eq!(sq("h8").offset(0, 1), None);
    assert_eq!(sq("h1").offset(1, 0), None);
}

#[test]
fn geometric_relations() {
    assert!(sq("a1").is_orthogonal_to(&sq("a5")));
    assert!(sq("a1").is_orthogonal_to(&sq("f1")));
    assert!(!sq("a1").is_orthogonal_to(&sq("a1")));
    assert!(!sq("a1").is_orthogonal_to(&sq("b2")));
    assert!(sq("a1").is_diagonal_to(&sq("d4")));
    assert!(!sq("a1").is_diagonal_to(&sq("a1")));
    assert!(!sq("a1").is_diagonal_to(&sq("a4")));
    assert!(sq("e4").is_adjacent_to(&sq("d3")));
    assert!(sq("e4").is_adjacent_to(&sq("e5")));
    assert!(!sq("e4").is_adjacent_to(&sq("e4")));
    assert!(!sq("e4").is_adjacent_to(&sq("e6")));
    assert_eq!(sq("a1").manhattan_distance_to(&sq("h8")), 14);
    assert_eq!(sq("e4").manhattan_distance_to(&sq("e4")), 0);
    assert_eq!(sq("b2").manhattan_distance_to(&sq("c4")), 3);
}

#[test]
fn light_square_parity() {
    // file + rank even: a1 (0 + 0)
    assert!(sq("a1").is_light_square());
    assert!(!sq("a2").is_light_square());
    assert!(sq("b2").is_light_square());
    assert!(!sq("h1").is_light_square());
}

#[test]
fn direction_to_signum() {
    assert_eq!(sq("e4").direction_to(&sq("e7")), (0, 1));
    assert_eq!(sq("e4").direction_to(&sq("a4")), (-1, 0));
    assert_eq!(sq("e4").direction_to(&sq("h1")), (1, -1));
    assert_eq!(sq("e4").direction_to(&sq("e4")), (0, 0));
}

#[test]
fn positions_between_on_lines() {
    assert_eq!(sq("a1").positions_between(&sq("a4")), vec![sq("a2"), sq("a3")]);
    assert_eq!(sq("a4").positions_between(&sq("a1")), vec![sq("a3"), sq("a2")]);
    assert_eq!(sq("a1").positions_between(&sq("d4")), vec![sq("b2"), sq("c3")]);
    assert_eq!(sq("h8").positions_between(&sq("e5")), vec![sq("g7"), sq("f6")]);
}

#[test]
fn positions_between_adjacent_or_unaligned_is_empty() {
    assert!(sq("a1").positions_between(&sq("a2")).is_empty());
    assert!(sq("a1").positions_between(&sq("b2")).is_empty());
    assert!(sq("a1").positions_between(&sq("a1")).is_empty());
    // not on a common rank, file or diagonal
    assert!(sq("a1").positions_between(&sq("b3")).is_empty());
    assert!(sq("e4").positions_between(&sq("f7")).is_empty());
}

#[test]
fn board_set_get_and_clear() {
    let mut board = ChessBoard::new();
    assert_eq!(board.get_piece_at(sq("e4")), None);
    assert!(board.is_empty(sq("e4")));
    board.set_piece_at(sq("e4"), Some(3));
    assert_eq!(board.get_piece_at(sq("e4")), Some(3));
    assert!(!board.is_empty(sq("e4")));
    board.set_piece_at(sq("e4"), None);
    assert!(board.is_empty(sq("e4")));
    board.set_piece_at(sq("a1"), Some(0));
    board.set_piece_at(sq("h8"), Some(1));
    board.clear();
    assert!(board.is_empty(sq("a1")));
    assert!(board.is_empty(sq("h8")));
}

#[test]
fn board_move_piece_returns_capture() {
    let mut board = ChessBoard::new();
    board.set_piece_at(sq("e2"), Some(0));
    board.set_piece_at(sq("e4"), Some(1));
    // moving onto an occupied square reports the capture
    let captured = board.move_piece(sq("e2"), sq("e4"));
    assert_eq!(captured, Some(1));
    assert_eq!(board.get_piece_at(sq("e2")), None);
    assert_eq!(board.get_piece_at(sq("e4")), Some(0));
    // moving onto an empty square reports none
    let captured = board.move_piece(sq("e4"), sq("e5"));
    assert_eq!(captured, None);
    assert_eq!(board.get_piece_at(sq("e5")), Some(0));
}

#[test]
fn board_relocations_never_duplicate_handles() {
    let mut board = ChessBoard::new();
    board.set_piece_at(sq("a1"), Some(0));
    board.set_piece_at(sq("b1"), Some(1));
    board.set_piece_at(sq("c1"), Some(2));
    let script = [
        ("a1", "a5"),
        ("b1", "a5"), // capture
        ("c1", "c8"),
        ("a5", "a1"),
        ("c8", "a1"), // capture
        ("a1", "h8"),
        ("h8", "h8"), // degenerate relocation onto itself
    ];
    for (from, to) in script {
        board.move_piece(sq(from), sq(to));
        // every handle occupies at most one square
        let mut seen = Vec::new();
        for file in 0..8u8 {
            for rank in 0..8u8 {
                let p = BoardPosition::new(file, rank).unwrap();
                if let Some(h) = board.get_piece_at(p) {
                    assert!(!seen.contains(&h), "handle {} appears twice", h);
                    seen.push(h);
                }
            }
        }
    }
}

#[test]
fn board_get_all_pieces_enumerates_rank_major() {
    let mut board = ChessBoard::new();
    board.set_piece_at(sq("b1"), Some(7));
    board.set_piece_at(sq("a3"), Some(2));
    board.set_piece_at(sq("h8"), Some(5));
    let all = board.get_all_pieces();
    assert_eq!(all, vec![(sq("b1"), 7), (sq("a3"), 2), (sq("h8"), 5)]);
}

#[test]
fn board_duplicate_is_independent() {
    let mut board = ChessBoard::new();
    board.set_piece_at(sq("d4"), Some(9));
    let copy = board.duplicate();
    board.set_piece_at(sq("d4"), None);
    assert_eq!(copy.get_piece_at(sq("d4")), Some(9));
    assert_eq!(board.get_piece_at(sq("d4")), None);
}
