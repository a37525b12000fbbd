//! Piece colors, piece kinds and the per-piece state record.

use vstd::prelude::*;
use vstd::string::StrSliceExecFns;
use vstd::string::StringExecFns;

use crate::board::board_wf;
use crate::board::handles_unique;
use crate::board::occ;
use crate::board::pos_wf;
use crate::board::sqi;
use crate::board::BoardPosition;
use crate::board::ChessBoard;

verus! {

/// The piece standing on a square: the handle on the square, resolved
/// through the registry. A square holding a handle that the registry does
/// not know yields nothing.
pub open spec fn piece_at(
    b: Seq<Option<usize>>,
    ps: Seq<ChessPiece>,
    p: BoardPosition,
) -> Option<ChessPiece> {
    match occ(b, p) {
        Some(h) => if h < ps.len() {
            Some(ps[h as int])
        } else {
            None
        },
        None => None,
    }
}

/// A piece of color `c` stands on `p`.
pub open spec fn own_at(
    b: Seq<Option<usize>>,
    ps: Seq<ChessPiece>,
    p: BoardPosition,
    c: PieceColor,
) -> bool {
    piece_at(b, ps, p) matches Some(q) && q.color == c
}

/// A piece of the color opposing `c` stands on `p`.
pub open spec fn enemy_at(
    b: Seq<Option<usize>>,
    ps: Seq<ChessPiece>,
    p: BoardPosition,
    c: PieceColor,
) -> bool {
    piece_at(b, ps, p) matches Some(q) && q.color != c
}


#[derive(Debug, Clone, Copy, PartialEq, Eq, Hash, Structural)]
pub enum PieceColor {
    White,
    Black,
}

#[derive(Debug, Clone, Copy, PartialEq, Eq, Hash, Structural)]
pub enum PieceType {
    Pawn,
    Rook,
    Knight,
    Bishop,
    Queen,
    King,
}

/// The side opposing `c`.
pub open spec fn opp(c: PieceColor) -> PieceColor {
    match c {
        PieceColor::White => PieceColor::Black,
        PieceColor::Black => PieceColor::White,
    }
}

/// The lower-case display name of a color.
pub open spec fn color_name(c: PieceColor) -> Seq<char> {
    match c {
        PieceColor::White => "white"@,
        PieceColor::Black => "black"@,
    }
}

/// The capitalised display name of a piece kind.
pub open spec fn kind_name(k: PieceType) -> Seq<char> {
    match k {
        PieceType::Pawn => "Pawn"@,
        PieceType::Rook => "Rook"@,
        PieceType::Knight => "Knight"@,
        PieceType::Bishop => "Bishop"@,
        PieceType::Queen => "Queen"@,
        PieceType::King => "King"@,
    }
}

/// The lower-case FEN letter of a piece kind.
pub open spec fn fen_char(k: PieceType) -> char {
    match k {
        PieceType::Pawn => 'p',
        PieceType::Rook => 'r',
        PieceType::Knight => 'n',
        PieceType::Bishop => 'b',
        PieceType::Queen => 'q',
        PieceType::King => 'k',
    }
}

/// The upper-case letter of a piece kind, as used in algebraic notation.
pub open spec fn piece_letter(k: PieceType) -> char {
    match k {
        PieceType::Pawn => 'P',
        PieceType::Rook => 'R',
        PieceType::Knight => 'N',
        PieceType::Bishop => 'B',
        PieceType::Queen => 'Q',
        PieceType::King => 'K',
    }
}

/// The piece kind named by a FEN letter of either case, if any.
pub open spec fn parse_fen_char(c: char) -> Option<PieceType> {
    if c == 'p' || c == 'P' {
        Some(PieceType::Pawn)
    } else if c == 'r' || c == 'R' {
        Some(PieceType::Rook)
    } else if c == 'n' || c == 'N' {
        Some(PieceType::Knight)
    } else if c == 'b' || c == 'B' {
        Some(PieceType::Bishop)
    } else if c == 'q' || c == 'Q' {
        Some(PieceType::Queen)
    } else if c == 'k' || c == 'K' {
        Some(PieceType::King)
    } else {
        None
    }
}

/// Material value of a piece kind.
pub open spec fn piece_value(k: PieceType) -> u32 {
    match k {
        PieceType::Pawn => 1u32,
        PieceType::Knight => 3u32,
        PieceType::Bishop => 3u32,
        PieceType::Rook => 5u32,
        PieceType::Queen => 9u32,
        PieceType::King => 0u32,
    }
}

/// Kinds a pawn may promote to.
pub open spec fn promotion_eligible(k: PieceType) -> bool {
    k == PieceType::Queen || k == PieceType::Rook || k == PieceType::Bishop || k
        == PieceType::Knight
}

/// The figurine symbol of a colored piece.
pub open spec fn symbol_char(k: PieceType, c: PieceColor) -> char {
    match (k, c) {
        (PieceType::King, PieceColor::White) => '♔',
        (PieceType::Queen, PieceColor::White) => '♕',
        (PieceType::Rook, PieceColor::White) => '♖',
        (PieceType::Bishop, PieceColor::White) => '♗',
        (PieceType::Knight, PieceColor::White) => '♘',
        (PieceType::Pawn, PieceColor::White) => '♙',
        (PieceType::King, PieceColor::Black) => '♚',
        (PieceType::Queen, PieceColor::Black) => '♛',
        (PieceType::Rook, PieceColor::Black) => '♜',
        (PieceType::Bishop, PieceColor::Black) => '♝',
        (PieceType::Knight, PieceColor::Black) => '♞',
        (PieceType::Pawn, PieceColor::Black) => '♟',
    }
}

/// The upper-case letter of a piece kind, as a string slice.
pub(crate) fn piece_letter_str(k: PieceType) -> (r: &'static str)
    ensures
        r@ == seq![piece_letter(k)],
{
    proof {
        reveal_strlit("P");
        reveal_strlit("R");
        reveal_strlit("N");
        reveal_strlit("B");
        reveal_strlit("Q");
        reveal_strlit("K");
    }
    match k {
        PieceType::Pawn => "P",
        PieceType::Rook => "R",
        PieceType::Knight => "N",
        PieceType::Bishop => "B",
        PieceType::Queen => "Q",
        PieceType::King => "K",
    }
}

impl PieceColor {
    pub fn opposite(self) -> (r: PieceColor)
        ensures
            r == opp(self),
    {
        match self {
            PieceColor::White => PieceColor::Black,
            PieceColor::Black => PieceColor::White,
        }
    }

    /// The lower-case display name of the color.
    pub fn to_string(self) -> (r: &'static str)
        ensures
            r@ == color_name(self),
    {
        match self {
            PieceColor::White => "white",
            PieceColor::Black => "black",
        }
    }

    /// White pieces are written with upper-case FEN letters.
    pub fn is_uppercase(self) -> (r: bool)
        ensures
            r == (self == PieceColor::White),
    {
        matches!(self, PieceColor::White)
    }
}

impl PieceType {
    /// The lower-case FEN letter of this kind.
    pub fn to_fen_char(self) -> (r: char)
        ensures
            r == fen_char(self),
    {
        match self {
            PieceType::Pawn => 'p',
            PieceType::Rook => 'r',
            PieceType::Knight => 'n',
            PieceType::Bishop => 'b',
            PieceType::Queen => 'q',
            PieceType::King => 'k',
        }
    }

    /// Reads a FEN letter of either case.
    pub fn from_fen_char(c: char) -> (r: Option<PieceType>)
        ensures
            r == parse_fen_char(c),
    {
        match c {
            'p' | 'P' => Some(PieceType::Pawn),
            'r' | 'R' => Some(PieceType::Rook),
            'n' | 'N' => Some(PieceType::Knight),
            'b' | 'B' => Some(PieceType::Bishop),
            'q' | 'Q' => Some(PieceType::Queen),
            'k' | 'K' => Some(PieceType::King),
            _ => None,
        }
    }

    /// Material value of the kind.
    pub fn value(self) -> (r: u32)
        ensures
            r == piece_value(self),
    {
        match self {
            PieceType::Pawn => 1,
            PieceType::Knight => 3,
            PieceType::Bishop => 3,
            PieceType::Rook => 5,
            PieceType::Queen => 9,
            PieceType::King => 0,
        }
    }

    /// The capitalised display name of the kind.
    pub fn name(self) -> (r: &'static str)
        ensures
            r@ == kind_name(self),
    {
        match self {
            PieceType::Pawn => "Pawn",
            PieceType::Knight => "Knight",
            PieceType::Bishop => "Bishop",
            PieceType::Rook => "Rook",
            PieceType::Queen => "Queen",
            PieceType::King => "King",
        }
    }

    /// The figurine symbol of this kind in the given color.
    pub fn unicode_symbol(self, color: PieceColor) -> (r: char)
        ensures
            r == symbol_char(self, color),
    {
        match (self, color) {
            (PieceType::King, PieceColor::White) => '♔',
            (PieceType::Queen, PieceColor::White) => '♕',
            (PieceType::Rook, PieceColor::White) => '♖',
            (PieceType::Bishop, PieceColor::White) => '♗',
            (PieceType::Knight, PieceColor::White) => '♘',
            (PieceType::Pawn, PieceColor::White) => '♙',
            (PieceType::King, PieceColor::Black) => '♚',
            (PieceType::Queen, PieceColor::Black) => '♛',
            (PieceType::Rook, PieceColor::Black) => '♜',
            (PieceType::Bishop, PieceColor::Black) => '♝',
            (PieceType::Knight, PieceColor::Black) => '♞',
            (PieceType::Pawn, PieceColor::Black) => '♟',
        }
    }

    /// A pawn may promote to this kind.
    pub fn can_promote_to(self) -> (r: bool)
        ensures
            r == promotion_eligible(self),
    {
        matches!(
            self,
            PieceType::Queen | PieceType::Rook | PieceType::Bishop | PieceType::Knight
        )
    }
}

/// The authoritative state of one piece: what it is, where it stands and
/// how it has moved so far.
#[derive(Debug, Clone, Copy)]
pub struct ChessPiece {
    pub piece_type: PieceType,
    pub color: PieceColor,
    pub position: BoardPosition,
    pub has_moved: bool,
    pub move_count: u32,
    pub last_moved_turn: Option<u32>,
}

impl ChessPiece {
    /// A piece that has not moved yet.
    pub fn new(piece_type: PieceType, color: PieceColor, position: BoardPosition) -> (r:
        ChessPiece)
        ensures
            r == (ChessPiece {
                piece_type,
                color,
                position,
                has_moved: false,
                move_count: 0,
                last_moved_turn: None,
            }),
    {
        Self { piece_type, color, position, has_moved: false, move_count: 0, last_moved_turn: None }
    }

    /// The FEN letter of this piece, upper-case for white pieces.
    pub fn to_fen_char(&self) -> (r: char)
        ensures
            r == (if self.color == PieceColor::White {
                piece_letter(self.piece_type)
            } else {
                fen_char(self.piece_type)
            }),
    {
        match self.color {
            PieceColor::White => match self.piece_type {
                PieceType::Pawn => 'P',
                PieceType::Rook => 'R',
                PieceType::Knight => 'N',
                PieceType::Bishop => 'B',
                PieceType::Queen => 'Q',
                PieceType::King => 'K',
            },
            PieceColor::Black => self.piece_type.to_fen_char(),
        }
    }

    /// Display name in the form `white Pawn`.
    pub fn full_name(&self) -> (r: String)
        ensures
            r@ == color_name(self.color) + seq![' '] + kind_name(self.piece_type),
    {
        proof {
            reveal_strlit(" ");
        }
        let mut s = String::from_str(self.color.to_string());
        s.append(" ");
        s.append(self.piece_type.name());
        s
    }

    /// Records that the piece moved on the given turn.
    pub fn mark_moved(&mut self, turn: u32)
        requires
            old(self).move_count < u32::MAX,
        ensures
            *final(self) == (ChessPiece {
                has_moved: true,
                move_count: (old(self).move_count + 1) as u32,
                last_moved_turn: Some(turn),
                ..*old(self)
            }),
    {
        self.has_moved = true;
        self.move_count = self.move_count + 1;
        self.last_moved_turn = Some(turn)
    }

    pub fn set_position(&mut self, new_position: BoardPosition)
        ensures
            *final(self) == (ChessPiece { position: new_position, ..*old(self) }),
    {
        self.position = new_position;
    }

    /// True when this piece does not belong to the given side.
    pub fn is_empty(&self, other_color: PieceColor) -> (r: bool)
        ensures
            r == (self.color != other_color),
    {
        self.color != other_color
    }

    /// True when this piece belongs to the given side.
    pub fn is_ally(&self, other_color: PieceColor) -> (r: bool)
        ensures
            r == (self.color == other_color),
    {
        self.color == other_color
    }

    /// A king or rook that has not moved yet may take part in castling.
    pub fn can_castle(&self) -> (r: bool)
        ensures
            r == (!self.has_moved && (self.piece_type == PieceType::King || self.piece_type
                == PieceType::Rook)),
    {
        !self.has_moved && matches!(self.piece_type, PieceType::King | PieceType::Rook)
    }

    /// A pawn that made its first move, a double step, on the previous turn
    /// may be captured en passant.
    pub fn can_be_captured_en_passant(&self, current_turn: u32) -> (r: bool)
        requires
            current_turn >= 1,
        ensures
            r == (self.piece_type == PieceType::Pawn && self.move_count == 1
                && self.last_moved_turn == Some((current_turn - 1) as u32)),
    {
        self.piece_type == PieceType::Pawn && self.move_count == 1 && self.last_moved_turn == Some(
            current_turn - 1,
        )
    }
}


/// The piece of the standard opening layout on a square, if any: pawns on
/// the second and seventh ranks, the usual back ranks behind them.
pub open spec fn standard_piece(f: int, r: int) -> Option<(PieceType, PieceColor)> {
    if r == 1 {
        Some((PieceType::Pawn, PieceColor::White))
    } else if r == 6 {
        Some((PieceType::Pawn, PieceColor::Black))
    } else if r == 0 || r == 7 {
        let c = if r == 0 {
            PieceColor::White
        } else {
            PieceColor::Black
        };
        if f == 0 || f == 7 {
            Some((PieceType::Rook, c))
        } else if f == 1 || f == 6 {
            Some((PieceType::Knight, c))
        } else if f == 2 || f == 5 {
            Some((PieceType::Bishop, c))
        } else if f == 3 {
            Some((PieceType::Queen, c))
        } else {
            Some((PieceType::King, c))
        }
    } else {
        None
    }
}

/// How many squares with grid index below `i` hold a standard-layout piece.
pub open spec fn standard_count(i: int) -> int {
    if i <= 16 {
        i
    } else if i <= 48 {
        16
    } else {
        i - 32
    }
}

/// A square agrees with the standard opening layout: either it is empty
/// there, or it holds the right piece in its initial state.
pub open spec fn standard_square_ok(
    b: Seq<Option<usize>>,
    ps: Seq<ChessPiece>,
    p: BoardPosition,
) -> bool {
    match standard_piece(p.file as int, p.rank as int) {
        Some(kc) => piece_at(b, ps, p) == Some(
            ChessPiece {
                piece_type: kc.0,
                color: kc.1,
                position: p,
                has_moved: false,
                move_count: 0,
                last_moved_turn: None,
            },
        ),
        None => occ(b, p) is None,
    }
}

/// The board and registry hold exactly the standard opening position,
/// every piece in its initial state and no handle duplicated.
pub open spec fn standard_setup(b: Seq<Option<usize>>, ps: Seq<ChessPiece>) -> bool {
    &&& board_wf(b)
    &&& ps.len() == 32
    &&& handles_unique(b)
    &&& forall|p: BoardPosition| pos_wf(p) ==> #[trigger] standard_square_ok(b, ps, p)
}

/// A scanned square agrees with the standard layout and, when occupied,
/// holds the handle that counts the standard pieces before it.
spec fn setup_prefix_ok(b: Seq<Option<usize>>, ps: Seq<ChessPiece>, p: BoardPosition) -> bool {
    match standard_piece(p.file as int, p.rank as int) {
        Some(kc) => {
            &&& occ(b, p) == Some(standard_count(sqi(p)) as usize)
            &&& standard_count(sqi(p)) < ps.len()
            &&& ps[standard_count(sqi(p))] == (ChessPiece {
                piece_type: kc.0,
                color: kc.1,
                position: p,
                has_moved: false,
                move_count: 0,
                last_moved_turn: None,
            })
        },
        None => occ(b, p) is None,
    }
}

/// The standard-layout piece of a square, as executable data.
fn standard_piece_at(file: u8, rank: u8) -> (r: Option<(PieceType, PieceColor)>)
    requires
        file < 8,
        rank < 8,
    ensures
        r == standard_piece(file as int, rank as int),
{
    let color = if rank <= 1 {
        PieceColor::White
    } else {
        PieceColor::Black
    };
    if rank == 1 || rank == 6 {
        Some((PieceType::Pawn, color))
    } else if rank == 0 || rank == 7 {
        let kind = if file == 0 || file == 7 {
            PieceType::Rook
        } else if file == 1 || file == 6 {
            PieceType::Knight
        } else if file == 2 || file == 5 {
            PieceType::Bishop
        } else if file == 3 {
            PieceType::Queen
        } else {
            PieceType::King
        };
        Some((kind, color))
    } else {
        None
    }
}

/// Populates an empty board and registry with the 32 pieces of the
/// standard opening position, every piece in its initial state.
pub fn spawn_initial_pieces(board: &mut ChessBoard, pieces: &mut Vec<ChessPiece>)
    requires
        old(board).wf(),
        forall|i: int| 0 <= i < 64 ==> old(board)@[i] is None,
        old(pieces)@.len() == 0,
    ensures
        final(board).wf(),
        standard_setup(final(board)@, final(pieces)@),
{
    let mut i: u8 = 0;
    while i < 64
        invariant
            board.wf(),
            i <= 64,
            pieces@.len() == standard_count(i as int),
            forall|j: int| i <= j < 64 ==> board@[j] is None,
            forall|p: BoardPosition|
                pos_wf(p) && sqi(p) < i ==> #[trigger] setup_prefix_ok(board@, pieces@, p),
        decreases 64 - i,
    {
        let pos = BoardPosition { file: i % 8, rank: i / 8 };
        assert(sqi(pos) == i as int);
        let ghost old_b = board@;
        let ghost old_ps = pieces@;
        if let Some((kind, color)) = standard_piece_at(pos.file, pos.rank) {
            let handle = pieces.len();
            pieces.push(ChessPiece::new(kind, color, pos));
            board.set_piece_at(pos, Some(handle));
            assert(occ(board@, pos) == Some(handle));
        }
        proof {
            assert forall|p: BoardPosition| pos_wf(p) && sqi(p) < i + 1 implies #[trigger]
                setup_prefix_ok(board@, pieces@, p) by {
                if sqi(p) == i as int {
                    assert(p == pos);
                } else {
                    assert(setup_prefix_ok(old_b, old_ps, p));
                    assert(occ(board@, p) == occ(old_b, p));
                }
            }
        }
        i = i + 1;
    }
    proof {
        assert forall|p: BoardPosition| pos_wf(p) implies #[trigger] standard_square_ok(
            board@,
            pieces@,
            p,
        ) by {
            assert(0 <= sqi(p) < 64);
            assert(setup_prefix_ok(board@, pieces@, p));
        }
        assert(handles_unique(board@)) by {
            assert forall|x: int, y: int|
                0 <= x < 64 && 0 <= y < 64 && x != y && board@[x] is Some && board@[y] is Some
                implies board@[x]->0 != board@[y]->0 by {
                let px = BoardPosition { file: (x % 8) as u8, rank: (x / 8) as u8 };
                let py = BoardPosition { file: (y % 8) as u8, rank: (y / 8) as u8 };
                assert(sqi(px) == x && sqi(py) == y);
                assert(setup_prefix_ok(board@, pieces@, px));
                assert(setup_prefix_ok(board@, pieces@, py));
            }
        }
    }
}

} // verus!
