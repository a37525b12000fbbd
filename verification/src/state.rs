//! Per-game state: whose turn it is, move counters, castling rights,
//! en-passant target, and the append-only move history.

use vstd::prelude::*;

use crate::board::iabs;
use crate::board::rank_delta;
use crate::board::BoardPosition;
use crate::moves::Move;
use crate::moves::MoveCheckStatus;
use crate::pieces::opp;
use crate::pieces::PieceColor;
use crate::pieces::PieceType;

verus! {

#[derive(Debug, Clone, Copy, PartialEq, Eq)]
pub enum GamePhase {
    Opening,
    Middlegame,
    Endgame,
}

#[derive(Debug, Clone, Copy, PartialEq, Eq)]
pub enum GameStatus {
    InProgress,
    Check,
    Checkmate,
    Stalemate,
    Draw,
    Resigned,
    Timeout,
}

/// Which side, if any, stands in check or is checkmated.
#[derive(Debug, Clone, Copy, PartialEq, Eq)]
pub enum CheckStatus {
    NoCheck,
    Check(PieceColor),
    Checkmate(PieceColor),
}

/// The four independent castling permissions.
#[derive(Debug, Clone, Copy, PartialEq, Eq)]
pub struct CastlingRights {
    pub white_kingside: bool,
    pub white_queenside: bool,
    pub black_kingside: bool,
    pub block_queenside: bool,
}

impl CastlingRights {
    pub fn all() -> (r: CastlingRights)
        ensures
            r == (CastlingRights {
                white_kingside: true,
                white_queenside: true,
                black_kingside: true,
                block_queenside: true,
            }),
    {
        Self {
            white_kingside: true,
            white_queenside: true,
            black_kingside: true,
            block_queenside: true,
        }
    }

    pub fn none() -> (r: CastlingRights)
        ensures
            r == (CastlingRights {
                white_kingside: false,
                white_queenside: false,
                black_kingside: false,
                block_queenside: false,
            }),
    {
        Self {
            white_kingside: false,
            white_queenside: false,
            black_kingside: false,
            block_queenside: false,
        }
    }
}

/// The castling rights left after a committed move: a side loses both
/// rights when its king moves, and the right of a corner when any move
/// leaves or enters that corner — its rook moved away or was captured.
pub open spec fn rights_after(r: CastlingRights, m: Move) -> CastlingRights {
    let a1 = BoardPosition { file: 0, rank: 0 };
    let h1 = BoardPosition { file: 7, rank: 0 };
    let a8 = BoardPosition { file: 0, rank: 7 };
    let h8 = BoardPosition { file: 7, rank: 7 };
    let white_king_moved = m.color == PieceColor::White && m.piece_type == PieceType::King;
    let black_king_moved = m.color == PieceColor::Black && m.piece_type == PieceType::King;
    CastlingRights {
        white_kingside: r.white_kingside && !white_king_moved && m.from != h1 && m.to != h1,
        white_queenside: r.white_queenside && !white_king_moved && m.from != a1 && m.to != a1,
        black_kingside: r.black_kingside && !black_king_moved && m.from != h8 && m.to != h8,
        block_queenside: r.block_queenside && !black_king_moved && m.from != a8 && m.to != a8,
    }
}

/// The square a pawn skipped on a double step, the en-passant target for
/// the opponent's next move; nothing after any other move.
pub open spec fn en_passant_after(m: Move) -> Option<BoardPosition> {
    if m.piece_type == PieceType::Pawn && iabs(rank_delta(m.from, m.to)) == 2 {
        Some(BoardPosition { file: m.from.file, rank: ((m.from.rank + m.to.rank) / 2) as u8 })
    } else {
        None
    }
}

/// The game status a committed move's check status implies.
pub open spec fn status_of(s: MoveCheckStatus) -> GameStatus {
    match s {
        MoveCheckStatus::NoCheck => GameStatus::InProgress,
        MoveCheckStatus::Check => GameStatus::Check,
        MoveCheckStatus::Checkmate => GameStatus::Checkmate,
    }
}

/// Which side a committed move left in check or checkmated, if any.
pub open spec fn check_status_of(s: MoveCheckStatus, mover: PieceColor) -> CheckStatus {
    match s {
        MoveCheckStatus::NoCheck => CheckStatus::NoCheck,
        MoveCheckStatus::Check => CheckStatus::Check(opp(mover)),
        MoveCheckStatus::Checkmate => CheckStatus::Checkmate(opp(mover)),
    }
}

/// Process-scoped state of one active game, updated exactly once per
/// committed move and reset on a new game.
#[derive(Debug, Clone, PartialEq, Eq)]
pub struct GameStateResource {
    pub current_player: PieceColor,
    pub move_count: u32,
    pub game_phase: GamePhase,
    pub game_status: GameStatus,
    pub check_status: CheckStatus,
    pub castling_rights: CastlingRights,
    pub en_passant_target: Option<BoardPosition>,
    pub halfmove_clock: u32,
    pub fullmove_number: u32,
}

impl Default for GameStateResource {
    /// The state at the start of a game: white to move, full castling
    /// rights, all counters at their initial values.
    fn default() -> (r: GameStateResource)
        ensures
            r == GameStateResource::initial(),
    {
        Self {
            current_player: PieceColor::White,
            move_count: 0,
            game_phase: GamePhase::Opening,
            game_status: GameStatus::InProgress,
            check_status: CheckStatus::NoCheck,
            castling_rights: CastlingRights::all(),
            en_passant_target: None,
            halfmove_clock: 0,
            fullmove_number: 1,
        }
    }
}

impl GameStateResource {
    /// The state at the start of a game.
    pub open spec fn initial() -> GameStateResource {
        GameStateResource {
            current_player: PieceColor::White,
            move_count: 0,
            game_phase: GamePhase::Opening,
            game_status: GameStatus::InProgress,
            check_status: CheckStatus::NoCheck,
            castling_rights: CastlingRights {
                white_kingside: true,
                white_queenside: true,
                black_kingside: true,
                block_queenside: true,
            },
            en_passant_target: None,
            halfmove_clock: 0,
            fullmove_number: 1,
        }
    }

    /// Folds one committed move into the game state: the turn passes to the
    /// mover's opponent, the move counter advances, the halfmove clock of
    /// the fifty-move rule resets on a pawn move or capture and counts up
    /// otherwise, the fullmove number advances after black's move, castling
    /// rights and the en-passant target follow the move, and the status
    /// fields record the check status the move announced.
    pub fn record_move(&mut self, m: &Move)
        requires
            crate::board::pos_wf(m.from),
            crate::board::pos_wf(m.to),
            old(self).move_count < u32::MAX,
            old(self).halfmove_clock < u32::MAX,
            old(self).fullmove_number < u32::MAX,
        ensures
            *final(self) == (GameStateResource {
                current_player: opp(m.color),
                move_count: (old(self).move_count + 1) as u32,
                game_phase: old(self).game_phase,
                game_status: status_of(m.check_status),
                check_status: check_status_of(m.check_status, m.color),
                castling_rights: rights_after(old(self).castling_rights, *m),
                en_passant_target: en_passant_after(*m),
                halfmove_clock: (if m.piece_type == PieceType::Pawn || m.captured_piece is Some {
                    0u32
                } else {
                    (old(self).halfmove_clock + 1) as u32
                }),
                fullmove_number: (if m.color == PieceColor::Black {
                    (old(self).fullmove_number + 1) as u32
                } else {
                    old(self).fullmove_number
                }),
            }),
    {
        let a1 = BoardPosition { file: 0, rank: 0 };
        let h1 = BoardPosition { file: 7, rank: 0 };
        let a8 = BoardPosition { file: 0, rank: 7 };
        let h8 = BoardPosition { file: 7, rank: 7 };
        let white_king_moved = m.color == PieceColor::White && m.piece_type == PieceType::King;
        let black_king_moved = m.color == PieceColor::Black && m.piece_type == PieceType::King;

        self.current_player = m.color.opposite();
        self.move_count = self.move_count + 1;
        self.game_status = match m.check_status {
            MoveCheckStatus::NoCheck => GameStatus::InProgress,
            MoveCheckStatus::Check => GameStatus::Check,
            MoveCheckStatus::Checkmate => GameStatus::Checkmate,
        };
        self.check_status = match m.check_status {
            MoveCheckStatus::NoCheck => CheckStatus::NoCheck,
            MoveCheckStatus::Check => CheckStatus::Check(m.color.opposite()),
            MoveCheckStatus::Checkmate => CheckStatus::Checkmate(m.color.opposite()),
        };
        self.castling_rights = CastlingRights {
            white_kingside: self.castling_rights.white_kingside && !white_king_moved && m.from
                != h1 && m.to != h1,
            white_queenside: self.castling_rights.white_queenside && !white_king_moved && m.from
                != a1 && m.to != a1,
            black_kingside: self.castling_rights.black_kingside && !black_king_moved && m.from
                != h8 && m.to != h8,
            block_queenside: self.castling_rights.block_queenside && !black_king_moved && m.from
                != a8 && m.to != a8,
        };
        self.en_passant_target = if matches!(m.piece_type, PieceType::Pawn) && (m.from.rank
            == m.to.rank + 2 || m.to.rank == m.from.rank + 2) {
            Some(BoardPosition { file: m.from.file, rank: (m.from.rank + m.to.rank) / 2 })
        } else {
            None
        };
        self.halfmove_clock = if matches!(m.piece_type, PieceType::Pawn)
            || m.captured_piece.is_some() {
            0
        } else {
            self.halfmove_clock + 1
        };
        if matches!(m.color, PieceColor::Black) {
            self.fullmove_number = self.fullmove_number + 1;
        }
    }
}

/// A committed move as kept in the history: the move data with its rendered
/// notation.
#[derive(Debug, Clone)]
pub struct ChessMove {
    pub from: BoardPosition,
    pub to: BoardPosition,
    pub piece_type: PieceType,
    pub piece_color: PieceColor,
    pub captured_piece: Option<PieceType>,
    pub promotion: Option<PieceType>,
    pub is_castling: bool,
    pub is_en_passant: bool,
    pub notation: String,
}

/// The ordered, append-only history of committed moves.
#[derive(Debug)]
pub struct MoveHistory {
    pub moves: Vec<ChessMove>,
    pub positions: Vec<String>,
}

impl Default for MoveHistory {
    /// An empty history.
    fn default() -> (r: MoveHistory)
        ensures
            r.moves@.len() == 0,
            r.positions@.len() == 0,
    {
        Self { moves: Vec::new(), positions: Vec::new() }
    }
}

} // verus!
