//! Move legality, check, checkmate and stalemate detection.
//!
//! The board stores handles; the piece registry (a vector indexed by those
//! handles) stores the authoritative piece state. Every predicate here is
//! a function of the occupancy grid and the registry alone.

use vstd::prelude::*;

use crate::board::after_move;
use crate::board::between_view;
use crate::board::diagonal;
use crate::board::empty_at;
use crate::board::file_delta;
use crate::board::iabs;
use crate::board::lemma_step_on_board;
use crate::board::occ;
use crate::board::orthogonal;
use crate::board::pos_wf;
use crate::board::rank_delta;
use crate::board::sqi;
use crate::board::BoardPosition;
use crate::board::ChessBoard;
use crate::pieces::enemy_at;
use crate::pieces::opp;
use crate::pieces::own_at;
use crate::pieces::piece_at;
use crate::pieces::ChessPiece;
use crate::pieces::PieceColor;
use crate::pieces::PieceType;

verus! {

/// Why a move attempt was rejected. Every rejection is reported through one
/// of these; a rejected move never mutates any state.
#[derive(Debug, Clone, PartialEq, Eq)]
pub enum MoveError {
    InvalidPosition,
    SamePosition,
    NoPieceAtSource,
    InvalidPiece,
    WrongPlayerPiece,
    OwnPieceBlocking,
    IllegalMove,
    KingInCheck,
    PathBlocked,
}

/// Every square strictly between `from` and `to` is empty. Holds vacuously
/// when the squares are not aligned.
pub open spec fn path_clear(
    b: Seq<Option<usize>>,
    from: BoardPosition,
    to: BoardPosition,
) -> bool {
    forall|i: int|
        0 <= i < between_view(from, to).len() ==> empty_at(b, #[trigger] between_view(from, to)[i])
}

/// Pawn movement: one square forward onto an empty square; two squares
/// forward from the starting rank when both squares ahead are empty; one
/// square diagonally forward onto an opposing piece.
pub open spec fn pawn_move_ok(
    b: Seq<Option<usize>>,
    ps: Seq<ChessPiece>,
    piece: ChessPiece,
    from: BoardPosition,
    to: BoardPosition,
) -> bool {
    let dir = if piece.color == PieceColor::White {
        1int
    } else {
        -1int
    };
    let start = if piece.color == PieceColor::White {
        1int
    } else {
        6int
    };
    let fd = file_delta(from, to);
    let rd = rank_delta(from, to);
    ||| (fd == 0 && rd == dir && empty_at(b, to))
    ||| (fd == 0 && rd == 2 * dir && from.rank == start && empty_at(
        b,
        BoardPosition { file: from.file, rank: (from.rank + dir) as u8 },
    ) && empty_at(b, to))
    ||| (iabs(fd) == 1 && rd == dir && enemy_at(b, ps, to, piece.color))
}

/// Rook movement: along a rank or file, over empty squares only.
pub open spec fn rook_move_ok(
    b: Seq<Option<usize>>,
    from: BoardPosition,
    to: BoardPosition,
) -> bool {
    orthogonal(from, to) && path_clear(b, from, to)
}

/// Bishop movement: along a diagonal, over empty squares only.
pub open spec fn bishop_move_ok(
    b: Seq<Option<usize>>,
    from: BoardPosition,
    to: BoardPosition,
) -> bool {
    diagonal(from, to) && path_clear(b, from, to)
}

/// Queen movement: rook or bishop movement.
pub open spec fn queen_move_ok(
    b: Seq<Option<usize>>,
    from: BoardPosition,
    to: BoardPosition,
) -> bool {
    (orthogonal(from, to) || diagonal(from, to)) && path_clear(b, from, to)
}

/// Knight movement: the fixed L-shaped leap.
pub open spec fn knight_move_ok(from: BoardPosition, to: BoardPosition) -> bool {
    let fd = iabs(file_delta(from, to));
    let rd = iabs(rank_delta(from, to));
    (fd == 2 && rd == 1) || (fd == 1 && rd == 2)
}

/// King movement: at most one step in each direction.
pub open spec fn king_move_ok(from: BoardPosition, to: BoardPosition) -> bool {
    iabs(file_delta(from, to)) <= 1 && iabs(rank_delta(from, to)) <= 1
}

/// Movement rule of the piece's kind, ignoring both the occupancy of the
/// destination by an allied piece and the safety of the mover's own king.
pub open spec fn piece_move_ok(
    b: Seq<Option<usize>>,
    ps: Seq<ChessPiece>,
    piece: ChessPiece,
    from: BoardPosition,
    to: BoardPosition,
) -> bool {
    match piece.piece_type {
        PieceType::Pawn => pawn_move_ok(b, ps, piece, from, to),
        PieceType::Rook => rook_move_ok(b, from, to),
        PieceType::Knight => knight_move_ok(from, to),
        PieceType::Bishop => bishop_move_ok(b, from, to),
        PieceType::Queen => queen_move_ok(b, from, to),
        PieceType::King => king_move_ok(from, to),
    }
}

/// The square with the given rank-major grid index.
pub open spec fn idx_pos(i: int) -> BoardPosition {
    BoardPosition { file: (i % 8) as u8, rank: (i / 8) as u8 }
}

/// A king of color `c` stands on the square with grid index `i`.
pub open spec fn king_sq_at(
    b: Seq<Option<usize>>,
    ps: Seq<ChessPiece>,
    c: PieceColor,
    i: int,
) -> bool {
    piece_at(b, ps, idx_pos(i)) matches Some(p) && p.piece_type == PieceType::King && p.color == c
}

/// The first square, scanning rank-major from grid index `i`, holding a
/// king of color `c`.
pub open spec fn first_king_from(
    b: Seq<Option<usize>>,
    ps: Seq<ChessPiece>,
    c: PieceColor,
    i: int,
) -> Option<BoardPosition>
    decreases 64 - i,
{
    if i < 0 || i >= 64 {
        None
    } else if king_sq_at(b, ps, c, i) {
        Some(idx_pos(i))
    } else {
        first_king_from(b, ps, c, i + 1)
    }
}

/// A piece of color `by_color` standing on `from` could move onto `target`
/// under its movement rule.
pub open spec fn attacks(
    b: Seq<Option<usize>>,
    ps: Seq<ChessPiece>,
    from: BoardPosition,
    target: BoardPosition,
    by_color: PieceColor,
) -> bool {
    piece_at(b, ps, from) matches Some(p) && p.color == by_color && piece_move_ok(
        b,
        ps,
        p,
        from,
        target,
    )
}

/// The king of `color` (the first one found rank-major, if any) is attacked
/// by some opposing piece.
pub open spec fn in_check(b: Seq<Option<usize>>, ps: Seq<ChessPiece>, color: PieceColor) -> bool {
    first_king_from(b, ps, color, 0) matches Some(kpos) && exists|p: BoardPosition|
        pos_wf(p) && #[trigger] attacks(b, ps, p, kpos, opp(color))
}

/// The verdict on a move attempt, applying the ordered checks of the
/// legality engine; the first failing check names the error.
pub open spec fn classify_move(
    b: Seq<Option<usize>>,
    ps: Seq<ChessPiece>,
    from: BoardPosition,
    to: BoardPosition,
    current_player: PieceColor,
) -> Result<(), MoveError> {
    if !pos_wf(from) || !pos_wf(to) {
        Err(MoveError::InvalidPosition)
    } else if from == to {
        Err(MoveError::SamePosition)
    } else if occ(b, from) is None {
        Err(MoveError::NoPieceAtSource)
    } else if piece_at(b, ps, from) is None {
        Err(MoveError::InvalidPiece)
    } else {
        let piece = piece_at(b, ps, from)->0;
        if piece.color != current_player {
            Err(MoveError::WrongPlayerPiece)
        } else if own_at(b, ps, to, current_player) {
            Err(MoveError::OwnPieceBlocking)
        } else if !piece_move_ok(b, ps, piece, from, to) {
            Err(MoveError::IllegalMove)
        } else if in_check(after_move(b, from, to), ps, current_player) {
            Err(MoveError::KingInCheck)
        } else {
            Ok(())
        }
    }
}

/// Some move of `color` passes every check of the legality engine.
pub open spec fn exists_legal_move(
    b: Seq<Option<usize>>,
    ps: Seq<ChessPiece>,
    color: PieceColor,
) -> bool {
    exists|from: BoardPosition, to: BoardPosition|
        #[trigger] classify_move(b, ps, from, to, color) is Ok
}

/// Squares strictly between two valid squares are themselves valid.
pub proof fn lemma_between_wf(a: BoardPosition, b: BoardPosition, i: int)
    requires
        pos_wf(a),
        pos_wf(b),
        0 <= i < between_view(a, b).len(),
    ensures
        pos_wf(between_view(a, b)[i]),
{
    lemma_step_on_board(a, b, i + 1);
}

/// A king square reported by the rank-major scan is a valid square.
pub proof fn lemma_first_king_wf(
    b: Seq<Option<usize>>,
    ps: Seq<ChessPiece>,
    c: PieceColor,
    i: int,
)
    requires
        first_king_from(b, ps, c, i) is Some,
    ensures
        pos_wf(first_king_from(b, ps, c, i)->0),
    decreases 64 - i,
{
    if 0 <= i < 64 && !king_sq_at(b, ps, c, i) {
        lemma_first_king_wf(b, ps, c, i + 1);
    }
}

/// Every square strictly between `from` and `to` is empty on the board.
fn is_path_clear(from: BoardPosition, to: BoardPosition, board: &ChessBoard) -> (r: bool)
    requires
        board.wf(),
        pos_wf(from),
        pos_wf(to),
    ensures
        r == path_clear(board@, from, to),
{
    let positions = from.positions_between(&to);
    let mut i: usize = 0;
    while i < positions.len()
        invariant
            board.wf(),
            pos_wf(from),
            pos_wf(to),
            positions@ == between_view(from, to),
            i <= positions@.len(),
            forall|j: int| 0 <= j < i ==> empty_at(board@, #[trigger] positions@[j]),
        decreases positions@.len() - i,
    {
        proof {
            lemma_between_wf(from, to, i as int);
        }
        if !board.is_empty(positions[i]) {
            return false;
        }
        i = i + 1;
    }
    true
}

fn is_legal_pawn_move(
    piece: &ChessPiece,
    from: BoardPosition,
    to: BoardPosition,
    board: &ChessBoard,
    pieces: &Vec<ChessPiece>,
) -> (r: bool)
    requires
        board.wf(),
        pos_wf(from),
        pos_wf(to),
    ensures
        r == pawn_move_ok(board@, pieces@, *piece, from, to),
{
    let direction: i8 = if piece.color == PieceColor::White {
        1
    } else {
        -1
    };
    let start_rank: u8 = if piece.color == PieceColor::White {
        1
    } else {
        6
    };
    let file_diff: i8 = to.file as i8 - from.file as i8;
    let rank_diff: i8 = to.rank as i8 - from.rank as i8;
    if file_diff == 0 {
        if rank_diff == direction && board.is_empty(to) {
            return true;
        }
        if rank_diff == 2 * direction && from.rank == start_rank {
            let mid = BoardPosition {
                file: from.file,
                rank: (from.rank as i8 + direction) as u8,
            };
            if board.is_empty(mid) && board.is_empty(to) {
                return true;
            }
        }
        false
    } else if (file_diff == 1 || file_diff == -1) && rank_diff == direction {
        if let Some(h) = board.get_piece_at(to) {
            if h < pieces.len() {
                return pieces[h].color != piece.color;
            }
        }
        false
    } else {
        false
    }
}

fn is_legal_rook_move(from: BoardPosition, to: BoardPosition, board: &ChessBoard) -> (r: bool)
    requires
        board.wf(),
        pos_wf(from),
        pos_wf(to),
    ensures
        r == rook_move_ok(board@, from, to),
{
    if !from.is_orthogonal_to(&to) {
        return false;
    }
    is_path_clear(from, to, board)
}

fn is_legal_knight_move(from: BoardPosition, to: BoardPosition) -> (r: bool)
    requires
        pos_wf(from),
        pos_wf(to),
    ensures
        r == knight_move_ok(from, to),
{
    let file_diff: i8 = to.file as i8 - from.file as i8;
    let rank_diff: i8 = to.rank as i8 - from.rank as i8;
    let fd: i8 = if file_diff >= 0 {
        file_diff
    } else {
        -file_diff
    };
    let rd: i8 = if rank_diff >= 0 {
        rank_diff
    } else {
        -rank_diff
    };
    (fd == 2 && rd == 1) || (fd == 1 && rd == 2)
}

fn is_legal_bishop_move(from: BoardPosition, to: BoardPosition, board: &ChessBoard) -> (r: bool)
    requires
        board.wf(),
        pos_wf(from),
        pos_wf(to),
    ensures
        r == bishop_move_ok(board@, from, to),
{
    if !from.is_diagonal_to(&to) {
        return false;
    }
    is_path_clear(from, to, board)
}

fn is_legal_queen_move(from: BoardPosition, to: BoardPosition, board: &ChessBoard) -> (r: bool)
    requires
        board.wf(),
        pos_wf(from),
        pos_wf(to),
    ensures
        r == queen_move_ok(board@, from, to),
{
    if from.is_orthogonal_to(&to) || from.is_diagonal_to(&to) {
        return is_path_clear(from, to, board);
    }
    false
}

fn is_legal_king_move(from: BoardPosition, to: BoardPosition) -> (r: bool)
    requires
        pos_wf(from),
        pos_wf(to),
    ensures
        r == king_move_ok(from, to),
{
    let file_diff: i8 = to.file as i8 - from.file as i8;
    let rank_diff: i8 = to.rank as i8 - from.rank as i8;
    let fd: i8 = if file_diff >= 0 {
        file_diff
    } else {
        -file_diff
    };
    let rd: i8 = if rank_diff >= 0 {
        rank_diff
    } else {
        -rank_diff
    };
    fd <= 1 && rd <= 1
}

/// Movement rule of the piece's kind, dispatching on the kind.
pub(crate) fn is_legal_piece_move(
    piece: &ChessPiece,
    from: BoardPosition,
    to: BoardPosition,
    board: &ChessBoard,
    pieces: &Vec<ChessPiece>,
) -> (r: bool)
    requires
        board.wf(),
        pos_wf(from),
        pos_wf(to),
    ensures
        r == piece_move_ok(board@, pieces@, *piece, from, to),
{
    match piece.piece_type {
        PieceType::Pawn => is_legal_pawn_move(piece, from, to, board, pieces),
        PieceType::Rook => is_legal_rook_move(from, to, board),
        PieceType::Knight => is_legal_knight_move(from, to),
        PieceType::Bishop => is_legal_bishop_move(from, to, board),
        PieceType::Queen => is_legal_queen_move(from, to, board),
        PieceType::King => is_legal_king_move(from, to),
    }
}

/// The first square, scanning rank-major from a1, holding a king of the
/// given color.
pub fn find_king(board: &ChessBoard, pieces: &Vec<ChessPiece>, color: PieceColor) -> (r: Option<
    BoardPosition,
>)
    requires
        board.wf(),
    ensures
        r == first_king_from(board@, pieces@, color, 0),
        r matches Some(p) ==> pos_wf(p),
{
    let mut i: u8 = 0;
    while i < 64
        invariant
            board.wf(),
            i <= 64,
            first_king_from(board@, pieces@, color, 0) == first_king_from(
                board@,
                pieces@,
                color,
                i as int,
            ),
        decreases 64 - i,
    {
        let pos = BoardPosition { file: i % 8, rank: i / 8 };
        assert(pos == idx_pos(i as int));
        assert(sqi(pos) == i as int);
        if let Some(h) = board.get_piece_at(pos) {
            if h < pieces.len() {
                let is_king = pieces[h].piece_type == PieceType::King && pieces[h].color == color;
                if is_king {
                    assert(king_sq_at(board@, pieces@, color, i as int));
                    proof {
                        lemma_first_king_wf(board@, pieces@, color, i as int);
                    }
                    return Some(pos);
                }
            }
        }
        assert(!king_sq_at(board@, pieces@, color, i as int));
        i = i + 1;
    }
    None
}

/// Every piece of the given color with the square it stands on.
pub fn get_pieces_by_color(
    board: &ChessBoard,
    pieces: &Vec<ChessPiece>,
    color: PieceColor,
) -> (r: Vec<(BoardPosition, usize)>)
    requires
        board.wf(),
    ensures
        forall|k: int|
            0 <= k < r@.len() ==> pos_wf(#[trigger] r@[k].0) && occ(board@, r@[k].0) == Some(
                r@[k].1,
            ) && r@[k].1 < pieces@.len() && pieces@[r@[k].1 as int].color == color,
        forall|p: BoardPosition|
            pos_wf(p) && #[trigger] own_at(board@, pieces@, p, color) ==> r@.contains(
                (p, occ(board@, p)->0),
            ),
        forall|k1: int, k2: int|
            0 <= k1 < k2 < r@.len() ==> sqi(#[trigger] r@[k1].0) < sqi(#[trigger] r@[k2].0),
{
    let mut result: Vec<(BoardPosition, usize)> = Vec::new();
    let mut i: u8 = 0;
    while i < 64
        invariant
            board.wf(),
            i <= 64,
            forall|k: int|
                0 <= k < result@.len() ==> pos_wf(#[trigger] result@[k].0) && occ(
                    board@,
                    result@[k].0,
                ) == Some(result@[k].1) && result@[k].1 < pieces@.len() && pieces@[result@[k].1 as int].color
                    == color,
            forall|p: BoardPosition|
                pos_wf(p) && sqi(p) < i && #[trigger] own_at(board@, pieces@, p, color)
                    ==> result@.contains((p, occ(board@, p)->0)),
            forall|k: int| 0 <= k < result@.len() ==> sqi(#[trigger] result@[k].0) < i,
            forall|k1: int, k2: int|
                0 <= k1 < k2 < result@.len() ==> sqi(#[trigger] result@[k1].0) < sqi(
                    #[trigger] result@[k2].0,
                ),
        decreases 64 - i,
    {
        let pos = BoardPosition { file: i % 8, rank: i / 8 };
        assert(sqi(pos) == i as int);
        let ghost prev = result@;
        if let Some(h) = board.get_piece_at(pos) {
            if h < pieces.len() {
                if pieces[h].color == color {
                    result.push((pos, h));
                    assert(result@ == prev.push((pos, h)));
                    assert(forall|x: (BoardPosition, usize)|
                        prev.contains(x) ==> #[trigger] result@.contains(x)) by {
                        assert(forall|k: int| 0 <= k < prev.len() ==> result@[k] == prev[k]);
                    }
                    assert(result@[result@.len() - 1] == (pos, h));
                }
            }
        }
        proof {
            assert forall|p: BoardPosition|
                pos_wf(p) && sqi(p) < i + 1 && #[trigger] own_at(board@, pieces@, p, color)
                implies result@.contains((p, occ(board@, p)->0)) by {
                if sqi(p) == i as int {
                    assert(p == pos);
                }
            }
        }
        i = i + 1;
    }
    result
}

/// Whether the king of `king_color` is attacked by any opposing piece.
pub fn is_king_in_check(
    king_color: PieceColor,
    board: &ChessBoard,
    pieces: &Vec<ChessPiece>,
) -> (r: bool)
    requires
        board.wf(),
    ensures
        r == in_check(board@, pieces@, king_color),
{
    let king_position = match find_king(board, pieces, king_color) {
        Some(pos) => pos,
        None => {
            return false;
        },
    };
    let mut i: u8 = 0;
    while i < 64
        invariant
            board.wf(),
            i <= 64,
            pos_wf(king_position),
            first_king_from(board@, pieces@, king_color, 0) == Some(king_position),
            forall|j: int|
                0 <= j < i ==> !attacks(
                    board@,
                    pieces@,
                    #[trigger] idx_pos(j),
                    king_position,
                    opp(king_color),
                ),
        decreases 64 - i,
    {
        let pos = BoardPosition { file: i % 8, rank: i / 8 };
        assert(pos == idx_pos(i as int));
        if let Some(h) = board.get_piece_at(pos) {
            if h < pieces.len() {
                let piece = pieces[h];
                if piece.color != king_color {
                    if is_legal_piece_move(&piece, pos, king_position, board, pieces) {
                        assert(in_check(board@, pieces@, king_color)) by {
                            let kpos = first_king_from(board@, pieces@, king_color, 0)->0;
                            assert(kpos == king_position);
                            assert(pos_wf(pos) && attacks(
                                board@,
                                pieces@,
                                pos,
                                kpos,
                                opp(king_color),
                            ));
                        }
                        return true;
                    }
                }
            }
        }
        assert(!attacks(board@, pieces@, idx_pos(i as int), king_position, opp(king_color)));
        i = i + 1;
    }
    proof {
        assert forall|p: BoardPosition| pos_wf(p) implies !attacks(
            board@,
            pieces@,
            p,
            king_position,
            opp(king_color),
        ) by {
            assert(0 <= sqi(p) < 64);
            assert(p == idx_pos(sqi(p)));
        }
    }
    false
}

/// The full legality verdict on a move attempt. The ordered checks are:
/// both squares valid, distinct squares, an own piece at the source, no own
/// piece at the destination, the piece kind's movement rule, and finally
/// that the move would not leave the mover's own king in check.
pub fn is_valid_move(
    board: &ChessBoard,
    pieces: &Vec<ChessPiece>,
    from: BoardPosition,
    to: BoardPosition,
    current_player: PieceColor,
) -> (r: Result<(), MoveError>)
    requires
        board.wf(),
    ensures
        r == classify_move(board@, pieces@, from, to, current_player),
{
    if !from.is_valid() || !to.is_valid() {
        return Err(MoveError::InvalidPosition);
    }
    if from == to {
        return Err(MoveError::SamePosition);
    }
    let piece_handle = match board.get_piece_at(from) {
        Some(h) => h,
        None => {
            return Err(MoveError::NoPieceAtSource);
        },
    };
    if piece_handle >= pieces.len() {
        return Err(MoveError::InvalidPiece);
    }
    let piece = pieces[piece_handle];
    if piece.color != current_player {
        return Err(MoveError::WrongPlayerPiece);
    }
    if let Some(target_handle) = board.get_piece_at(to) {
        if target_handle < pieces.len() && pieces[target_handle].color == current_player {
            return Err(MoveError::OwnPieceBlocking);
        }
    }
    if !is_legal_piece_move(&piece, from, to, board, pieces) {
        return Err(MoveError::IllegalMove);
    }
    let mut scratch = board.duplicate();
    scratch.move_piece(from, to);
    if is_king_in_check(current_player, &scratch, pieces) {
        return Err(MoveError::KingInCheck);
    }
    Ok(())
}

/// Whether any move of `color` passes the full legality check.
fn has_any_legal_move(board: &ChessBoard, pieces: &Vec<ChessPiece>, color: PieceColor) -> (r: bool)
    requires
        board.wf(),
    ensures
        r == exists_legal_move(board@, pieces@, color),
{
    let mut i: u8 = 0;
    while i < 64
        invariant
            board.wf(),
            i <= 64,
            forall|fi: int, ti: int|
                0 <= fi < i && 0 <= ti < 64 ==> #[trigger] classify_move(
                    board@,
                    pieces@,
                    idx_pos(fi),
                    idx_pos(ti),
                    color,
                ) !is Ok,
        decreases 64 - i,
    {
        let from = BoardPosition { file: i % 8, rank: i / 8 };
        assert(from == idx_pos(i as int));
        let mut j: u8 = 0;
        while j < 64
            invariant
                board.wf(),
                i < 64,
                j <= 64,
                from == idx_pos(i as int),
                forall|ti: int|
                    0 <= ti < j ==> #[trigger] classify_move(
                        board@,
                        pieces@,
                        from,
                        idx_pos(ti),
                        color,
                    ) !is Ok,
            decreases 64 - j,
        {
            let to = BoardPosition { file: j % 8, rank: j / 8 };
            assert(to == idx_pos(j as int));
            if is_valid_move(board, pieces, from, to, color).is_ok() {
                assert(classify_move(board@, pieces@, from, to, color) is Ok);
                return true;
            }
            j = j + 1;
        }
        i = i + 1;
    }
    proof {
        assert forall|from: BoardPosition, to: BoardPosition| #[trigger]
            classify_move(board@, pieces@, from, to, color) !is Ok by {
            if classify_move(board@, pieces@, from, to, color) is Ok {
                assert(pos_wf(from) && pos_wf(to));
                assert(0 <= sqi(from) < 64 && 0 <= sqi(to) < 64);
                assert(from == idx_pos(sqi(from)));
                assert(to == idx_pos(sqi(to)));
            }
        }
    }
    false
}

/// Checkmate: the player's king is in check and no move of the player
/// passes the full legality check.
pub fn is_checkmate(
    player_color: PieceColor,
    board: &ChessBoard,
    pieces: &Vec<ChessPiece>,
) -> (r: bool)
    requires
        board.wf(),
    ensures
        r == (in_check(board@, pieces@, player_color) && !exists_legal_move(
            board@,
            pieces@,
            player_color,
        )),
{
    if !is_king_in_check(player_color, board, pieces) {
        return false;
    }
    !has_any_legal_move(board, pieces, player_color)
}

/// Stalemate: the player's king is not in check, yet no move of the player
/// passes the full legality check.
pub fn is_stalemate(
    player_color: PieceColor,
    board: &ChessBoard,
    pieces: &Vec<ChessPiece>,
) -> (r: bool)
    requires
        board.wf(),
    ensures
        r == (!in_check(board@, pieces@, player_color) && !exists_legal_move(
            board@,
            pieces@,
            player_color,
        )),
{
    if is_king_in_check(player_color, board, pieces) {
        return false;
    }
    !has_any_legal_move(board, pieces, player_color)
}

/// A move that the legality engine accepts never leaves the mover's own
/// king in check: any move whose application would expose the king — a
/// pinned piece moving away, for instance — is rejected, even though the
/// piece's movement rule alone would allow it.
pub proof fn lemma_own_king_safety(
    b: Seq<Option<usize>>,
    ps: Seq<ChessPiece>,
    from: BoardPosition,
    to: BoardPosition,
    color: PieceColor,
)
    requires
        classify_move(b, ps, from, to, color) is Ok,
    ensures
        !in_check(after_move(b, from, to), ps, color),
{
}

} // verus!
