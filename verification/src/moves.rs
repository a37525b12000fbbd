//! The immutable move record, its algebraic notation, and move generation.

use vstd::prelude::*;
use vstd::string::StringExecFns;

use crate::board::after_move;
use crate::board::algebraic_view;
use crate::board::file_char;
use crate::board::file_letter_str;
use crate::board::handles_unique;
use crate::board::occ;
use crate::board::pos_wf;
use crate::board::sqi;
use crate::board::BoardPosition;
use crate::board::ChessBoard;
use crate::pieces::opp;
use crate::pieces::own_at;
use crate::pieces::piece_at;
use crate::pieces::piece_letter;
use crate::pieces::piece_letter_str;
use crate::pieces::ChessPiece;
use crate::pieces::PieceColor;
use crate::pieces::PieceType;
use crate::rules::classify_move;
use crate::rules::exists_legal_move;
use crate::rules::in_check;
use crate::rules::is_checkmate;
use crate::rules::is_king_in_check;
use crate::rules::is_valid_move;
use crate::rules::piece_move_ok;
use crate::rules::MoveError;

verus! {

/// Whether a committed move left the opponent unchecked, in check, or
/// checkmated.
#[derive(Debug, Clone, Copy, PartialEq, Eq)]
pub enum MoveCheckStatus {
    NoCheck,
    Check,
    Checkmate,
}

/// An immutable record of one committed move, created once the move is
/// applied and appended to the move history.
#[derive(Debug, Clone, PartialEq, Eq)]
pub struct Move {
    pub from: BoardPosition,
    pub to: BoardPosition,
    pub piece_type: PieceType,
    pub color: PieceColor,
    pub captured_piece: Option<PieceType>,
    pub promotion: Option<PieceType>,
    pub is_castling: bool,
    pub is_en_passant: bool,
    pub check_status: MoveCheckStatus,
}

/// The standard algebraic rendering of a move record: `O-O`/`O-O-O` for
/// castling; otherwise the piece letter (omitted for pawns), the capturing
/// pawn's origin file and an `x` on capture, the destination square, the
/// promotion kind after `=`, and a trailing `+` or `#` for check or
/// checkmate.
pub open spec fn notation_view(m: Move) -> Seq<char> {
    if m.is_castling {
        if m.to.file > m.from.file {
            seq!['O', '-', 'O']
        } else {
            seq!['O', '-', 'O', '-', 'O']
        }
    } else {
        let piece_part = if m.piece_type != PieceType::Pawn {
            seq![piece_letter(m.piece_type)]
        } else {
            Seq::<char>::empty()
        };
        let capture_part = if m.captured_piece is Some {
            (if m.piece_type == PieceType::Pawn {
                seq![file_char(m.from.file as int)]
            } else {
                Seq::<char>::empty()
            }) + seq!['x']
        } else {
            Seq::<char>::empty()
        };
        let promotion_part = match m.promotion {
            Some(pk) => seq!['=', piece_letter(pk)],
            None => Seq::<char>::empty(),
        };
        let check_part = match m.check_status {
            MoveCheckStatus::NoCheck => Seq::<char>::empty(),
            MoveCheckStatus::Check => seq!['+'],
            MoveCheckStatus::Checkmate => seq!['#'],
        };
        piece_part + capture_part + algebraic_view(m.to) + promotion_part + check_part
    }
}

impl Move {
    /// A plain move record with no capture, promotion or special flags.
    pub fn new(from: BoardPosition, to: BoardPosition, piece_type: PieceType, color: PieceColor)
        -> (r: Move)
        ensures
            r == (Move {
                from,
                to,
                piece_type,
                color,
                captured_piece: None,
                promotion: None,
                is_castling: false,
                is_en_passant: false,
                check_status: MoveCheckStatus::NoCheck,
            }),
    {
        Self {
            from,
            to,
            piece_type,
            color,
            captured_piece: None,
            promotion: None,
            is_castling: false,
            is_en_passant: false,
            check_status: MoveCheckStatus::NoCheck,
        }
    }

    pub fn with_capture(self, captured_piece: PieceType) -> (r: Move)
        ensures
            r == (Move { captured_piece: Some(captured_piece), ..self }),
    {
        Move { captured_piece: Some(captured_piece), ..self }
    }

    pub fn with_promotion(self, promotion: PieceType) -> (r: Move)
        ensures
            r == (Move { promotion: Some(promotion), ..self }),
    {
        Move { promotion: Some(promotion), ..self }
    }

    pub fn with_castling(self) -> (r: Move)
        ensures
            r == (Move { is_castling: true, ..self }),
    {
        Move { is_castling: true, ..self }
    }

    pub fn with_en_passant(self) -> (r: Move)
        ensures
            r == (Move { is_en_passant: true, ..self }),
    {
        Move { is_en_passant: true, ..self }
    }

    pub fn with_check_status(self, status: MoveCheckStatus) -> (r: Move)
        ensures
            r == (Move { check_status: status, ..self }),
    {
        Move { check_status: status, ..self }
    }

    /// Renders the move in standard algebraic notation.
    pub fn to_algebraic_notation(&self) -> (r: String)
        requires
            pos_wf(self.from),
            pos_wf(self.to),
        ensures
            r@ == notation_view(*self),
    {
        if self.is_castling {
            proof {
                reveal_strlit("O-O");
                reveal_strlit("O-O-O");
            }
            if self.to.file > self.from.file {
                let s = String::from_str("O-O");
                assert(s@ =~= notation_view(*self));
                return s;
            } else {
                let s = String::from_str("O-O-O");
                assert(s@ =~= notation_view(*self));
                return s;
            }
        }
        proof {
            reveal_strlit("x");
            reveal_strlit("=");
            reveal_strlit("+");
            reveal_strlit("#");
        }
        let mut notation = String::new();

        if !matches!(self.piece_type, PieceType::Pawn) {
            notation.append(piece_letter_str(self.piece_type));
        }
        if self.captured_piece.is_some() {
            if matches!(self.piece_type, PieceType::Pawn) {
                notation.append(file_letter_str(self.from.file));
            }
            notation.append("x");
        }
        let destination = self.to.to_algebraic();
        notation.append(destination.as_str());

        if let Some(promotion) = self.promotion {
            notation.append("=");
            notation.append(piece_letter_str(promotion));
        }
        match self.check_status {
            MoveCheckStatus::Check => notation.append("+"),
            MoveCheckStatus::Checkmate => notation.append("#"),
            MoveCheckStatus::NoCheck => {},
        }
        assert(notation@ =~= notation_view(*self));
        notation
    }
}

/// A destination the piece on `from` can reach under its movement rule,
/// ignoring the safety of the mover's own king: the movement rule accepts
/// it and no allied piece stands there.
pub open spec fn pseudo_dest(
    b: Seq<Option<usize>>,
    ps: Seq<ChessPiece>,
    piece: ChessPiece,
    from: BoardPosition,
    to: BoardPosition,
) -> bool {
    pos_wf(to) && piece_move_ok(b, ps, piece, from, to) && !own_at(b, ps, to, piece.color)
}

/// Every pseudo-legal destination of the piece standing on `position`:
/// destinations its movement rule reaches, ignoring the safety of the
/// mover's own king. Empty when no piece stands there.
pub fn generate_moves(
    board: &ChessBoard,
    pieces: &Vec<ChessPiece>,
    position: BoardPosition,
) -> (r: Vec<BoardPosition>)
    requires
        board.wf(),
        pos_wf(position),
    ensures
        piece_at(board@, pieces@, position) is None ==> r@.len() == 0,
        piece_at(board@, pieces@, position) matches Some(piece) ==> forall|to: BoardPosition|
            #[trigger] r@.contains(to) <==> pseudo_dest(board@, pieces@, piece, position, to),
        forall|k1: int, k2: int|
            0 <= k1 < k2 < r@.len() ==> sqi(#[trigger] r@[k1]) < sqi(#[trigger] r@[k2]),
{
    let piece = match board.get_piece_at(position) {
        Some(h) => {
            if h < pieces.len() {
                pieces[h]
            } else {
                return Vec::new();
            }
        },
        None => {
            return Vec::new();
        },
    };
    let mut result: Vec<BoardPosition> = Vec::new();
    let mut i: u8 = 0;
    while i < 64
        invariant
            board.wf(),
            pos_wf(position),
            i <= 64,
            piece_at(board@, pieces@, position) == Some(piece),
            forall|k: int| 0 <= k < result@.len() ==> sqi(#[trigger] result@[k]) < i,
            forall|k: int| 0 <= k < result@.len() ==> pos_wf(#[trigger] result@[k]),
            forall|k1: int, k2: int|
                0 <= k1 < k2 < result@.len() ==> sqi(#[trigger] result@[k1]) < sqi(
                    #[trigger] result@[k2],
                ),
            forall|to: BoardPosition|
                pos_wf(to) && sqi(to) < i ==> (#[trigger] result@.contains(to) <==> pseudo_dest(
                    board@,
                    pieces@,
                    piece,
                    position,
                    to,
                )),
        decreases 64 - i,
    {
        let to = BoardPosition { file: i % 8, rank: i / 8 };
        assert(sqi(to) == i as int);
        let ghost prev = result@;
        let mut reachable = crate::rules::is_legal_piece_move(&piece, position, to, board, pieces);
        if reachable {
            if let Some(h) = board.get_piece_at(to) {
                if h < pieces.len() && pieces[h].color == piece.color {
                    reachable = false;
                }
            }
        }
        if reachable {
            result.push(to);
            assert(result@ == prev.push(to));
            assert(forall|x: BoardPosition| prev.contains(x) ==> #[trigger] result@.contains(x))
                by {
                assert(forall|k: int| 0 <= k < prev.len() ==> result@[k] == prev[k]);
            }
            assert(result@[result@.len() - 1] == to);
        }
        proof {
            assert forall|p: BoardPosition| pos_wf(p) && sqi(p) < i + 1 implies (
            #[trigger] result@.contains(p) <==> pseudo_dest(board@, pieces@, piece, position, p))
                by {
                if sqi(p) == i as int {
                    assert(p == to);
                    if !reachable {
                        if result@.contains(p) {
                            let k = choose|k: int|
                                0 <= k < result@.len() && result@[k] == p;
                            assert(sqi(result@[k]) < i);
                        }
                    }
                } else {
                    if result@.contains(p) && !prev.contains(p) {
                        let k = choose|k: int| 0 <= k < result@.len() && result@[k] == p;
                        assert(result@[k] == p);
                    }
                }
            }
        }
        i = i + 1;
    }
    proof {
        if piece_at(board@, pieces@, position) is Some {
            let pc = piece_at(board@, pieces@, position)->0;
            assert forall|to: BoardPosition| #[trigger]
                result@.contains(to) <==> pseudo_dest(board@, pieces@, pc, position, to) by {
                if result@.contains(to) {
                    let k = choose|k: int| 0 <= k < result@.len() && result@[k] == to;
                    assert(pos_wf(result@[k]));
                }
                if pseudo_dest(board@, pieces@, pc, position, to) {
                    assert(0 <= sqi(to) < 64);
                }
            }
        }
    }
    result
}

/// The registry entry of a piece after it moved to `to` on `turn`: the
/// position follows the piece, the move counters advance.
pub open spec fn moved_piece(p: ChessPiece, to: BoardPosition, turn: u32) -> ChessPiece {
    ChessPiece {
        position: to,
        has_moved: true,
        move_count: (p.move_count + 1) as u32,
        last_moved_turn: Some(turn),
        ..p
    }
}

/// Relocates the piece standing on `from` onto `to`, updating both the
/// occupancy grid and the moved piece's registry entry, and returning the
/// handle of a captured piece, if any. Performs no legality check beyond
/// requiring a registered piece at the source; a failed call changes
/// nothing.
pub fn move_piece(
    board: &mut ChessBoard,
    pieces: &mut Vec<ChessPiece>,
    from: BoardPosition,
    to: BoardPosition,
    current_turn: u32,
) -> (r: Result<Option<usize>, MoveError>)
    requires
        old(board).wf(),
        pos_wf(from),
        pos_wf(to),
        occ(old(board)@, from) matches Some(h) ==> (h < old(pieces)@.len() ==> old(
            pieces,
        )@[h as int].move_count < u32::MAX),
    ensures
        final(board).wf(),
        r is Ok <==> (occ(old(board)@, from) matches Some(h) && h < old(pieces)@.len()),
        r == Err::<Option<usize>, MoveError>(MoveError::NoPieceAtSource) <==> occ(
            old(board)@,
            from,
        ) is None,
        r == Err::<Option<usize>, MoveError>(MoveError::InvalidPiece) <==> (occ(old(board)@, from)
            matches Some(h) && h >= old(pieces)@.len()),
        r is Err ==> final(board)@ == old(board)@ && final(pieces)@ == old(pieces)@,
        r matches Ok(captured) ==> ({
            let h = occ(old(board)@, from)->0;
            &&& captured == occ(old(board)@, to)
            &&& final(board)@ == after_move(old(board)@, from, to)
            &&& final(pieces)@ == old(pieces)@.update(
                h as int,
                moved_piece(old(pieces)@[h as int], to, current_turn),
            )
        }),
        handles_unique(old(board)@) ==> handles_unique(final(board)@),
{
    let handle = match board.get_piece_at(from) {
        Some(h) => h,
        None => {
            return Err(MoveError::NoPieceAtSource);
        },
    };
    if handle >= pieces.len() {
        return Err(MoveError::InvalidPiece);
    }
    let captured = board.move_piece(from, to);
    let mut piece = pieces[handle];
    piece.set_position(to);
    piece.mark_moved(current_turn);
    pieces.set(handle, piece);
    Ok(captured)
}

/// The check status a committed move leaves the opponent in.
pub open spec fn status_after(
    b: Seq<Option<usize>>,
    ps: Seq<ChessPiece>,
    mover: PieceColor,
) -> MoveCheckStatus {
    if in_check(b, ps, opp(mover)) && !exists_legal_move(b, ps, opp(mover)) {
        MoveCheckStatus::Checkmate
    } else if in_check(b, ps, opp(mover)) {
        MoveCheckStatus::Check
    } else {
        MoveCheckStatus::NoCheck
    }
}

/// Validates a move attempt with the full legality engine and, when it is
/// accepted, applies it and returns the committed move record — the
/// captured piece's kind, and whether the opponent is now in check or
/// checkmated, included. A rejected attempt names its reason and changes
/// nothing.
pub fn attempt_move(
    board: &mut ChessBoard,
    pieces: &mut Vec<ChessPiece>,
    from: BoardPosition,
    to: BoardPosition,
    current_player: PieceColor,
    current_turn: u32,
) -> (r: Result<Move, MoveError>)
    requires
        old(board).wf(),
        forall|i: int| 0 <= i < old(pieces)@.len() ==> old(pieces)@[i].move_count < u32::MAX,
    ensures
        final(board).wf(),
        r is Ok <==> classify_move(old(board)@, old(pieces)@, from, to, current_player) is Ok,
        r matches Err(e) ==> Err::<(), MoveError>(e) == classify_move(
            old(board)@,
            old(pieces)@,
            from,
            to,
            current_player,
        ) && final(board)@ == old(board)@ && final(pieces)@ == old(pieces)@,
        r matches Ok(m) ==> ({
            let h = occ(old(board)@, from)->0;
            &&& occ(old(board)@, from) is Some
            &&& h < old(pieces)@.len()
            &&& final(board)@ == after_move(old(board)@, from, to)
            &&& final(pieces)@ == old(pieces)@.update(
                h as int,
                moved_piece(old(pieces)@[h as int], to, current_turn),
            )
            &&& m.from == from
            &&& m.to == to
            &&& m.piece_type == old(pieces)@[h as int].piece_type
            &&& m.color == current_player
            &&& m.captured_piece == (match piece_at(old(board)@, old(pieces)@, to) {
                Some(q) => Some(q.piece_type),
                None => None::<PieceType>,
            })
            &&& m.promotion is None
            &&& !m.is_castling
            &&& !m.is_en_passant
            &&& m.check_status == status_after(final(board)@, final(pieces)@, current_player)
        }),
        handles_unique(old(board)@) ==> handles_unique(final(board)@),
{
    match is_valid_move(board, pieces, from, to, current_player) {
        Err(e) => {
            return Err(e);
        },
        Ok(()) => {},
    }
    let captured_kind: Option<PieceType> = match board.get_piece_at(to) {
        Some(th) => {
            if th < pieces.len() {
                Some(pieces[th].piece_type)
            } else {
                None
            }
        },
        None => None,
    };
    let handle = match board.get_piece_at(from) {
        Some(h) => h,
        None => {
            return Err(MoveError::NoPieceAtSource);
        },
    };
    let piece_type = pieces[handle].piece_type;
    let moved = move_piece(board, pieces, from, to, current_turn);
    match moved {
        Ok(_) => {},
        Err(e) => {
            return Err(e);
        },
    }
    let opponent = current_player.opposite();
    let status = if is_checkmate(opponent, board, pieces) {
        MoveCheckStatus::Checkmate
    } else if is_king_in_check(opponent, board, pieces) {
        MoveCheckStatus::Check
    } else {
        MoveCheckStatus::NoCheck
    };
    let mut record = Move::new(from, to, piece_type, current_player);
    if let Some(kind) = captured_kind {
        record = record.with_capture(kind);
    }
    record = record.with_check_status(status);
    Ok(record)
}

/// Every fully legal destination of the piece standing on `position` for
/// the given player: destinations on which the legality engine, including
/// the own-king-safety rule, accepts the move.
pub fn generate_legal_moves(
    board: &ChessBoard,
    pieces: &Vec<ChessPiece>,
    position: BoardPosition,
    player_color: PieceColor,
) -> (r: Vec<BoardPosition>)
    requires
        board.wf(),
    ensures
        forall|to: BoardPosition|
            #[trigger] r@.contains(to) <==> classify_move(
                board@,
                pieces@,
                position,
                to,
                player_color,
            ) is Ok,
        forall|k1: int, k2: int|
            0 <= k1 < k2 < r@.len() ==> sqi(#[trigger] r@[k1]) < sqi(#[trigger] r@[k2]),
{
    let mut result: Vec<BoardPosition> = Vec::new();
    let mut i: u8 = 0;
    while i < 64
        invariant
            board.wf(),
            i <= 64,
            forall|k: int| 0 <= k < result@.len() ==> sqi(#[trigger] result@[k]) < i,
            forall|k: int| 0 <= k < result@.len() ==> pos_wf(#[trigger] result@[k]),
            forall|k1: int, k2: int|
                0 <= k1 < k2 < result@.len() ==> sqi(#[trigger] result@[k1]) < sqi(
                    #[trigger] result@[k2],
                ),
            forall|to: BoardPosition|
                pos_wf(to) && sqi(to) < i ==> (#[trigger] result@.contains(to) <==> classify_move(
                    board@,
                    pieces@,
                    position,
                    to,
                    player_color,
                ) is Ok),
        decreases 64 - i,
    {
        let to = BoardPosition { file: i % 8, rank: i / 8 };
        assert(sqi(to) == i as int);
        let ghost prev = result@;
        let legal = is_valid_move(board, pieces, position, to, player_color).is_ok();
        if legal {
            result.push(to);
            assert(result@ == prev.push(to));
            assert(forall|x: BoardPosition| prev.contains(x) ==> #[trigger] result@.contains(x))
                by {
                assert(forall|k: int| 0 <= k < prev.len() ==> result@[k] == prev[k]);
            }
            assert(result@[result@.len() - 1] == to);
        }
        proof {
            assert forall|p: BoardPosition| pos_wf(p) && sqi(p) < i + 1 implies (
            #[trigger] result@.contains(p) <==> classify_move(
                board@,
                pieces@,
                position,
                p,
                player_color,
            ) is Ok) by {
                if sqi(p) == i as int {
                    assert(p == to);
                    if !legal {
                        if result@.contains(p) {
                            let k = choose|k: int|
                                0 <= k < result@.len() && result@[k] == p;
                            assert(sqi(result@[k]) < i);
                        }
                    }
                } else {
                    if result@.contains(p) && !prev.contains(p) {
                        let k = choose|k: int| 0 <= k < result@.len() && result@[k] == p;
                        assert(result@[k] == p);
                    }
                }
            }
        }
        i = i + 1;
    }
    proof {
        assert forall|to: BoardPosition| #[trigger]
            result@.contains(to) <==> classify_move(
            board@,
            pieces@,
            position,
            to,
            player_color,
        ) is Ok by {
            if result@.contains(to) {
                let k = choose|k: int| 0 <= k < result@.len() && result@[k] == to;
                assert(pos_wf(result@[k]));
            }
            if classify_move(board@, pieces@, position, to, player_color) is Ok {
                assert(pos_wf(to));
                assert(0 <= sqi(to) < 64);
            }
        }
    }
    result
}

} // verus!
