//! Board coordinates and the 8x8 occupancy grid.

use vstd::prelude::*;
use vstd::string::StrSliceExecFns;
use vstd::string::StringExecFns;

verus! {

/// The single-letter name of a file, as a string slice.
pub(crate) fn file_letter_str(f: u8) -> (r: &'static str)
    requires
        f < 8,
    ensures
        r@ == seq![file_char(f as int)],
{
    proof {
        reveal_strlit("a");
        reveal_strlit("b");
        reveal_strlit("c");
        reveal_strlit("d");
        reveal_strlit("e");
        reveal_strlit("f");
        reveal_strlit("g");
        reveal_strlit("h");
    }
    match f {
        0 => "a",
        1 => "b",
        2 => "c",
        3 => "d",
        4 => "e",
        5 => "f",
        6 => "g",
        _ => "h",
    }
}

/// The single-digit name of a rank, as a string slice.
pub(crate) fn rank_digit_str(r: u8) -> (s: &'static str)
    requires
        r < 8,
    ensures
        s@ == seq![rank_char(r as int)],
{
    proof {
        reveal_strlit("1");
        reveal_strlit("2");
        reveal_strlit("3");
        reveal_strlit("4");
        reveal_strlit("5");
        reveal_strlit("6");
        reveal_strlit("7");
        reveal_strlit("8");
    }
    match r {
        0 => "1",
        1 => "2",
        2 => "3",
        3 => "4",
        4 => "5",
        5 => "6",
        6 => "7",
        _ => "8",
    }
}

/// A square on the board. Both coordinates are below 8 for every valid
/// position; `new` is the validation gate.
#[derive(Debug, Clone, Copy, PartialEq, Eq, Hash, Structural)]
pub struct BoardPosition {
    pub file: u8,
    pub rank: u8,
}

/// Both coordinates of a position lie on the board.
pub open spec fn pos_wf(p: BoardPosition) -> bool {
    p.file < 8 && p.rank < 8
}

pub open spec fn iabs(x: int) -> int {
    if x >= 0 {
        x
    } else {
        -x
    }
}

pub open spec fn sgn(x: int) -> int {
    if x > 0 {
        1
    } else if x < 0 {
        -1
    } else {
        0
    }
}

pub open spec fn file_delta(a: BoardPosition, b: BoardPosition) -> int {
    b.file - a.file
}

pub open spec fn rank_delta(a: BoardPosition, b: BoardPosition) -> int {
    b.rank - a.rank
}

/// Two distinct squares share a rank or a file.
pub open spec fn orthogonal(a: BoardPosition, b: BoardPosition) -> bool {
    (a.file == b.file && a.rank != b.rank) || (a.file != b.file && a.rank == b.rank)
}

/// Two distinct squares lie on a common diagonal.
pub open spec fn diagonal(a: BoardPosition, b: BoardPosition) -> bool {
    iabs(file_delta(a, b)) == iabs(rank_delta(a, b)) && iabs(file_delta(a, b)) > 0
}

/// The squares lie on a common rank, file or diagonal (and differ).
pub open spec fn aligned(a: BoardPosition, b: BoardPosition) -> bool {
    orthogonal(a, b) || diagonal(a, b)
}

/// The squares differ and are at most one step apart in each direction.
pub open spec fn adjacent(a: BoardPosition, b: BoardPosition) -> bool {
    iabs(file_delta(a, b)) <= 1 && iabs(rank_delta(a, b)) <= 1 && iabs(file_delta(a, b)) + iabs(
        rank_delta(a, b),
    ) > 0
}

/// Number of king steps along the connecting line (Chebyshev distance).
pub open spec fn span(a: BoardPosition, b: BoardPosition) -> int {
    if iabs(file_delta(a, b)) >= iabs(rank_delta(a, b)) {
        iabs(file_delta(a, b))
    } else {
        iabs(rank_delta(a, b))
    }
}

/// File coordinate after `k` unit steps from `a` towards `b`.
pub open spec fn step_file(a: BoardPosition, b: BoardPosition, k: int) -> int {
    a.file + k * sgn(file_delta(a, b))
}

/// Rank coordinate after `k` unit steps from `a` towards `b`.
pub open spec fn step_rank(a: BoardPosition, b: BoardPosition, k: int) -> int {
    a.rank + k * sgn(rank_delta(a, b))
}

/// The square reached after `k` unit steps from `a` towards `b`.
pub open spec fn step_pos(a: BoardPosition, b: BoardPosition, k: int) -> BoardPosition {
    BoardPosition { file: step_file(a, b, k) as u8, rank: step_rank(a, b, k) as u8 }
}

/// The open interval of squares strictly between two aligned squares,
/// ordered from `a` towards `b`; empty when the squares are not aligned.
pub open spec fn between_view(a: BoardPosition, b: BoardPosition) -> Seq<BoardPosition> {
    if aligned(a, b) {
        Seq::new((span(a, b) - 1) as nat, |k: int| step_pos(a, b, k + 1))
    } else {
        Seq::empty()
    }
}

/// The letter naming a file, `'a'` through `'h'`.
pub open spec fn file_char(f: int) -> char {
    if f == 0 {
        'a'
    } else if f == 1 {
        'b'
    } else if f == 2 {
        'c'
    } else if f == 3 {
        'd'
    } else if f == 4 {
        'e'
    } else if f == 5 {
        'f'
    } else if f == 6 {
        'g'
    } else {
        'h'
    }
}

/// The digit naming a rank, `'1'` through `'8'`.
pub open spec fn rank_char(r: int) -> char {
    if r == 0 {
        '1'
    } else if r == 1 {
        '2'
    } else if r == 2 {
        '3'
    } else if r == 3 {
        '4'
    } else if r == 4 {
        '5'
    } else if r == 5 {
        '6'
    } else if r == 6 {
        '7'
    } else {
        '8'
    }
}

/// The two-character algebraic name of a square, file letter then rank digit.
pub open spec fn algebraic_view(p: BoardPosition) -> Seq<char> {
    seq![file_char(p.file as int), rank_char(p.rank as int)]
}

/// Reads a two-character algebraic square name; anything else is rejected.
pub open spec fn parse_algebraic(s: Seq<char>) -> Option<BoardPosition> {
    if s.len() == 2 && 'a' <= s[0] && s[0] <= 'h' && '1' <= s[1] && s[1] <= '8' {
        Some(
            BoardPosition {
                file: (s[0] as int - 'a' as int) as u8,
                rank: (s[1] as int - '1' as int) as u8,
            },
        )
    } else {
        None
    }
}

/// Rendering a square's algebraic name and parsing it back yields the same
/// square, for every square on the board.
pub proof fn lemma_algebraic_round_trip(p: BoardPosition)
    requires
        pos_wf(p),
    ensures
        parse_algebraic(algebraic_view(p)) == Some(p),
{
}

pub open spec fn offset_spec(p: BoardPosition, df: int, dr: int) -> Option<BoardPosition> {
    if 0 <= p.file + df < 8 && 0 <= p.rank + dr < 8 {
        Some(BoardPosition { file: (p.file + df) as u8, rank: (p.rank + dr) as u8 })
    } else {
        None
    }
}

/// Rank-major index of a square in the occupancy grid.
pub open spec fn sqi(p: BoardPosition) -> int {
    p.rank * 8 + p.file
}

/// An occupancy grid covers exactly the 64 squares.
pub open spec fn board_wf(b: Seq<Option<usize>>) -> bool {
    b.len() == 64
}

/// The handle occupying a square, if any.
pub open spec fn occ(b: Seq<Option<usize>>, p: BoardPosition) -> Option<usize> {
    b[sqi(p)]
}

pub open spec fn empty_at(b: Seq<Option<usize>>, p: BoardPosition) -> bool {
    occ(b, p) is None
}

/// No handle occupies two squares at once.
pub open spec fn handles_unique(b: Seq<Option<usize>>) -> bool {
    forall|i: int, j: int|
        0 <= i < 64 && 0 <= j < 64 && i != j && b[i] is Some && b[j] is Some ==> b[i]->0
            != b[j]->0
}

/// The grid after relocating the content of `from` onto `to`: `from` is
/// cleared and `to` receives whatever `from` held.
pub open spec fn after_move(
    b: Seq<Option<usize>>,
    from: BoardPosition,
    to: BoardPosition,
) -> Seq<Option<usize>> {
    b.update(sqi(from), None).update(sqi(to), b[sqi(from)])
}

/// The grid after a whole script of relocations, applied in order.
pub open spec fn after_moves(
    b: Seq<Option<usize>>,
    script: Seq<(BoardPosition, BoardPosition)>,
) -> Seq<Option<usize>>
    decreases script.len(),
{
    if script.len() == 0 {
        b
    } else {
        after_moves(after_move(b, script[0].0, script[0].1), script.drop_first())
    }
}

/// No sequence of relocations ever duplicates a handle: starting from a
/// grid on which every handle occupies at most one square, the same holds
/// after any script of relocations.
pub proof fn lemma_relocation_sequence_preserves_uniqueness(
    b: Seq<Option<usize>>,
    script: Seq<(BoardPosition, BoardPosition)>,
)
    requires
        board_wf(b),
        handles_unique(b),
        forall|i: int|
            0 <= i < script.len() ==> pos_wf(#[trigger] script[i].0) && pos_wf(script[i].1),
    ensures
        board_wf(after_moves(b, script)),
        handles_unique(after_moves(b, script)),
    decreases script.len(),
{
    if script.len() > 0 {
        let b1 = after_move(b, script[0].0, script[0].1);
        lemma_relocate_preserves_uniqueness(b, script[0].0, script[0].1);
        assert(forall|i: int|
            0 <= i < script.drop_first().len() ==> pos_wf(#[trigger] script.drop_first()[i].0)
                && pos_wf(script.drop_first()[i].1));
        lemma_relocation_sequence_preserves_uniqueness(b1, script.drop_first());
    }
}

/// Relocation never duplicates a handle: if no handle occupied two squares
/// before a relocation, none does afterwards.
pub proof fn lemma_relocate_preserves_uniqueness(
    b: Seq<Option<usize>>,
    from: BoardPosition,
    to: BoardPosition,
)
    requires
        board_wf(b),
        pos_wf(from),
        pos_wf(to),
        handles_unique(b),
    ensures
        handles_unique(after_move(b, from, to)),
{
    let b2 = after_move(b, from, to);
    assert(0 <= sqi(from) < 64);
    assert(0 <= sqi(to) < 64);
    assert forall|i: int, j: int|
        0 <= i < 64 && 0 <= j < 64 && i != j && b2[i] is Some && b2[j] is Some implies b2[i]->0
        != b2[j]->0 by {
        assert(b2[i] == if i == sqi(to) {
            b[sqi(from)]
        } else if i == sqi(from) {
            None::<usize>
        } else {
            b[i]
        });
        assert(b2[j] == if j == sqi(to) {
            b[sqi(from)]
        } else if j == sqi(from) {
            None::<usize>
        } else {
            b[j]
        });
    };
}

/// The open interval between two squares contains neither endpoint.
pub proof fn lemma_between_excludes_endpoints(a: BoardPosition, b: BoardPosition, i: int)
    requires
        pos_wf(a),
        pos_wf(b),
        0 <= i < between_view(a, b).len(),
    ensures
        between_view(a, b)[i] != a,
        between_view(a, b)[i] != b,
{
    let sf = sgn(file_delta(a, b));
    let sr = sgn(rank_delta(a, b));
    let k = i + 1;
    lemma_step_on_board(a, b, k);
    lemma_mul_sgn(k, sf);
    lemma_mul_sgn(k, sr);
    lemma_mul_sgn(span(a, b), sf);
    lemma_mul_sgn(span(a, b), sr);
    assert(iabs(file_delta(a, b)) == span(a, b) || sf == 0);
    assert(iabs(rank_delta(a, b)) == span(a, b) || sr == 0);
    assert(b.file == a.file + span(a, b) * sf);
    assert(b.rank == a.rank + span(a, b) * sr);
}

/// Arithmetic facts about multiplication by a unit direction.
pub proof fn lemma_mul_sgn(k: int, s: int)
    ensures
        (k + 1) * s == k * s + s,
        s == 1 ==> k * s == k,
        s == -1 ==> k * s == -k,
        s == 0 ==> k * s == 0,
{
    assert((k + 1) * s == k * s + s) by (nonlinear_arith);
    assert(s == 1 ==> k * s == k) by (nonlinear_arith);
    assert(s == -1 ==> k * s == -k) by (nonlinear_arith);
    assert(s == 0 ==> k * s == 0) by (nonlinear_arith);
}

/// Every square within `span` steps along the line from `a` towards `b`
/// stays on the board.
pub proof fn lemma_step_on_board(a: BoardPosition, b: BoardPosition, k: int)
    requires
        pos_wf(a),
        pos_wf(b),
        aligned(a, b),
        0 <= k <= span(a, b),
    ensures
        0 <= step_file(a, b, k) < 8,
        0 <= step_rank(a, b, k) < 8,
{
    let sf = sgn(file_delta(a, b));
    let sr = sgn(rank_delta(a, b));
    lemma_mul_sgn(k, sf);
    lemma_mul_sgn(k, sr);
    assert(iabs(file_delta(a, b)) == span(a, b) || sf == 0);
    assert(iabs(rank_delta(a, b)) == span(a, b) || sr == 0);
}

impl BoardPosition {
    /// Validating constructor: fails unless both coordinates are below 8.
    pub fn new(file: u8, rank: u8) -> (r: Option<Self>)
        ensures
            r == (if file < 8 && rank < 8 {
                Some(BoardPosition { file, rank })
            } else {
                None::<BoardPosition>
            }),
    {
        if file < 8 && rank < 8 {
            Some(Self { file, rank })
        } else {
            None
        }
    }

    pub fn is_valid(&self) -> (r: bool)
        ensures
            r == pos_wf(*self),
    {
        self.file < 8 && self.rank < 8
    }

    /// Parses a two-character algebraic square name such as `e4`.
    pub fn from_algebraic(notation: &str) -> (r: Option<BoardPosition>)
        ensures
            r == parse_algebraic(notation@),
            r matches Some(p) ==> pos_wf(p),
    {
        if notation.unicode_len() != 2 {
            return None;
        }
        let c0 = notation.get_char(0);
        let c1 = notation.get_char(1);
        let v0 = c0 as u32;
        let v1 = c1 as u32;
        if v0 < 'a' as u32 || v0 > 'h' as u32 {
            return None;
        }
        if v1 < '1' as u32 || v1 > '8' as u32 {
            return None;
        }
        Some(BoardPosition { file: (v0 - 'a' as u32) as u8, rank: (v1 - '1' as u32) as u8 })
    }

    /// Renders the square's algebraic name, file letter then rank digit.
    pub fn to_algebraic(&self) -> (r: String)
        requires
            pos_wf(*self),
        ensures
            r@ == algebraic_view(*self),
    {
        let mut s = String::from_str(file_letter_str(self.file));
        s.append(rank_digit_str(self.rank));
        s
    }

    /// Sum of the file and rank distances to `other`.
    pub fn manhattan_distance_to(&self, other: &BoardPosition) -> (r: u8)
        requires
            pos_wf(*self),
            pos_wf(*other),
        ensures
            r == iabs(file_delta(*self, *other)) + iabs(rank_delta(*self, *other)),
    {
        let dx = if self.file >= other.file {
            self.file - other.file
        } else {
            other.file - self.file
        };
        let dy = if self.rank >= other.rank {
            self.rank - other.rank
        } else {
            other.rank - self.rank
        };
        dx + dy
    }

    pub fn is_diagonal_to(&self, other: &BoardPosition) -> (r: bool)
        requires
            pos_wf(*self),
            pos_wf(*other),
        ensures
            r == diagonal(*self, *other),
    {
        let dx = if self.file >= other.file {
            self.file - other.file
        } else {
            other.file - self.file
        };
        let dy = if self.rank >= other.rank {
            self.rank - other.rank
        } else {
            other.rank - self.rank
        };
        dx == dy && dx > 0
    }

    pub fn is_orthogonal_to(&self, other: &BoardPosition) -> (r: bool)
        ensures
            r == orthogonal(*self, *other),
    {
        (self.file == other.file && self.rank != other.rank) || (self.file != other.file
            && self.rank == other.rank)
    }

    pub fn is_adjacent_to(&self, other: &BoardPosition) -> (r: bool)
        requires
            pos_wf(*self),
            pos_wf(*other),
        ensures
            r == adjacent(*self, *other),
    {
        let dx = if self.file >= other.file {
            self.file - other.file
        } else {
            other.file - self.file
        };
        let dy = if self.rank >= other.rank {
            self.rank - other.rank
        } else {
            other.rank - self.rank
        };
        dx <= 1 && dy <= 1 && dx + dy > 0
    }

    /// Displace by the given deltas; fails if the result leaves the board.
    pub fn offset(&self, file_delta: i8, rank_delta: i8) -> (r: Option<BoardPosition>)
        ensures
            r == offset_spec(*self, file_delta as int, rank_delta as int),
    {
        let nf: i16 = self.file as i16 + file_delta as i16;
        let nr: i16 = self.rank as i16 + rank_delta as i16;
        if 0 <= nf && nf < 8 && 0 <= nr && nr < 8 {
            Some(BoardPosition { file: nf as u8, rank: nr as u8 })
        } else {
            None
        }
    }

    /// True when the file and rank sum to an even number.
    pub fn is_light_square(&self) -> (r: bool)
        requires
            pos_wf(*self),
        ensures
            r == ((self.file + self.rank) % 2 == 0),
    {
        (self.file + self.rank) % 2 == 0
    }

    /// Unit direction (file, rank) pointing from this square towards `other`.
    pub fn direction_to(&self, other: &BoardPosition) -> (r: (i8, i8))
        requires
            pos_wf(*self),
            pos_wf(*other),
        ensures
            r.0 as int == sgn(file_delta(*self, *other)),
            r.1 as int == sgn(rank_delta(*self, *other)),
    {
        let fd: i8 = other.file as i8 - self.file as i8;
        let rd: i8 = other.rank as i8 - self.rank as i8;
        let fs: i8 = if fd > 0 {
            1
        } else if fd < 0 {
            -1
        } else {
            0
        };
        let rs: i8 = if rd > 0 {
            1
        } else if rd < 0 {
            -1
        } else {
            0
        };
        (fs, rs)
    }

    /// The squares strictly between this square and `other`, walking from
    /// this square towards `other`; empty unless the two squares share a
    /// rank, file or diagonal.
    pub fn positions_between(&self, other: &BoardPosition) -> (r: Vec<BoardPosition>)
        requires
            pos_wf(*self),
            pos_wf(*other),
        ensures
            r@ == between_view(*self, *other),
    {
        let mut result: Vec<BoardPosition> = Vec::new();
        if !(self.is_orthogonal_to(other) || self.is_diagonal_to(other)) {
            assert(result@ =~= between_view(*self, *other));
            return result;
        }
        let (fdir, rdir) = self.direction_to(other);
        let dx = if self.file >= other.file {
            self.file - other.file
        } else {
            other.file - self.file
        };
        let dy = if self.rank >= other.rank {
            self.rank - other.rank
        } else {
            other.rank - self.rank
        };
        let n: u8 = if dx >= dy {
            dx
        } else {
            dy
        };
        let mut i: u8 = 1;
        let mut cur: BoardPosition = *self;
        while i < n
            invariant
                pos_wf(*self),
                pos_wf(*other),
                aligned(*self, *other),
                n == span(*self, *other),
                1 <= i <= n,
                fdir as int == sgn(file_delta(*self, *other)),
                rdir as int == sgn(rank_delta(*self, *other)),
                cur.file as int == step_file(*self, *other, i - 1),
                cur.rank as int == step_rank(*self, *other, i - 1),
                result@.len() == i - 1,
                forall|j: int| 0 <= j < i - 1 ==> result@[j] == step_pos(*self, *other, j + 1),
            decreases n - i,
        {
            proof {
                lemma_step_on_board(*self, *other, i as int);
                lemma_mul_sgn(i - 1, sgn(file_delta(*self, *other)));
                lemma_mul_sgn(i - 1, sgn(rank_delta(*self, *other)));
            }
            let nf: i16 = cur.file as i16 + fdir as i16;
            let nr: i16 = cur.rank as i16 + rdir as i16;
            let next = BoardPosition { file: nf as u8, rank: nr as u8 };
            result.push(next);
            cur = next;
            i = i + 1;
        }
        assert(result@ =~= between_view(*self, *other));
        result
    }
}

/// The 8x8 occupancy grid. Each occupied square holds the handle of the
/// piece standing on it; the authoritative piece state lives in a registry
/// indexed by those handles.
pub struct ChessBoard {
    squares: Vec<Option<usize>>,
}

impl View for ChessBoard {
    type V = Seq<Option<usize>>;

    closed spec fn view(&self) -> Seq<Option<usize>> {
        self.squares@
    }
}

impl ChessBoard {
    pub open spec fn wf(&self) -> bool {
        board_wf(self@)
    }

    /// An empty board.
    pub fn new() -> (r: ChessBoard)
        ensures
            r.wf(),
            forall|i: int| 0 <= i < 64 ==> r@[i] is None,
    {
        let mut squares: Vec<Option<usize>> = Vec::new();
        let mut i: u8 = 0;
        while i < 64
            invariant
                i <= 64,
                squares@.len() == i,
                forall|j: int| 0 <= j < i ==> squares@[j] is None,
            decreases 64 - i,
        {
            squares.push(None);
            i = i + 1;
        }
        ChessBoard { squares }
    }

    /// The handle standing on a square, if any.
    pub fn get_piece_at(&self, pos: BoardPosition) -> (r: Option<usize>)
        requires
            self.wf(),
            pos_wf(pos),
        ensures
            r == occ(self@, pos),
    {
        self.squares[pos.rank as usize * 8 + pos.file as usize]
    }

    /// Overwrites a square with the given occupant.
    pub fn set_piece_at(&mut self, pos: BoardPosition, piece: Option<usize>)
        requires
            old(self).wf(),
            pos_wf(pos),
        ensures
            final(self).wf(),
            final(self)@ == old(self)@.update(sqi(pos), piece),
    {
        self.squares.set(pos.rank as usize * 8 + pos.file as usize, piece);
    }

    /// Relocates whatever stands on `from` onto `to`, clearing `from` and
    /// returning the previous occupant of `to` — a non-empty result is the
    /// capture signal. Never duplicates a handle on the grid.
    pub fn move_piece(&mut self, from: BoardPosition, to: BoardPosition) -> (captured: Option<
        usize,
    >)
        requires
            old(self).wf(),
            pos_wf(from),
            pos_wf(to),
        ensures
            final(self).wf(),
            final(self)@ == after_move(old(self)@, from, to),
            captured == occ(old(self)@, to),
            handles_unique(old(self)@) ==> handles_unique(final(self)@),
    {
        proof {
            if handles_unique(self@) {
                lemma_relocate_preserves_uniqueness(self@, from, to);
            }
        }
        let captured_piece = self.get_piece_at(to);
        let moving_piece = self.get_piece_at(from);
        self.set_piece_at(from, None);
        self.set_piece_at(to, moving_piece);
        captured_piece
    }

    /// True when no piece stands on the square.
    pub fn is_empty(&self, pos: BoardPosition) -> (r: bool)
        requires
            self.wf(),
            pos_wf(pos),
        ensures
            r == empty_at(self@, pos),
    {
        self.get_piece_at(pos).is_none()
    }

    /// Removes every piece from the board.
    pub fn clear(&mut self)
        requires
            old(self).wf(),
        ensures
            final(self).wf(),
            forall|i: int| 0 <= i < 64 ==> final(self)@[i] is None,
    {
        let mut i: usize = 0;
        while i < 64
            invariant
                old(self).wf(),
                self@.len() == 64,
                forall|j: int| 0 <= j < i ==> self@[j] is None,
                forall|j: int| i <= j < 64 ==> self@[j] == old(self)@[j],
            decreases 64 - i,
        {
            self.squares.set(i, None);
            i = i + 1;
        }
    }

    /// An identical copy of the board.
    pub fn duplicate(&self) -> (r: ChessBoard)
        requires
            self.wf(),
        ensures
            r@ == self@,
    {
        let mut squares: Vec<Option<usize>> = Vec::new();
        let mut i: usize = 0;
        while i < 64
            invariant
                self.wf(),
                squares@.len() == i,
                i <= 64,
                forall|j: int| 0 <= j < i ==> squares@[j] == self@[j],
            decreases 64 - i,
        {
            squares.push(self.squares[i]);
            i = i + 1;
        }
        let r = ChessBoard { squares };
        assert(r@ =~= self@);
        r
    }

    /// Every occupied square with its handle, rank-major from a1 to h8.
    pub fn get_all_pieces(&self) -> (r: Vec<(BoardPosition, usize)>)
        requires
            self.wf(),
        ensures
            forall|k: int|
                0 <= k < r@.len() ==> pos_wf(#[trigger] r@[k].0) && occ(self@, r@[k].0) == Some(
                    r@[k].1,
                ),
            forall|p: BoardPosition|
                pos_wf(p) && #[trigger] occ(self@, p) is Some ==> r@.contains(
                    (p, occ(self@, p)->0),
                ),
            forall|k1: int, k2: int|
                0 <= k1 < k2 < r@.len() ==> sqi(#[trigger] r@[k1].0) < sqi(#[trigger] r@[k2].0),
    {
        let mut result: Vec<(BoardPosition, usize)> = Vec::new();
        let mut rank: u8 = 0;
        while rank < 8
            invariant
                self.wf(),
                rank <= 8,
                forall|k: int|
                    0 <= k < result@.len() ==> pos_wf(#[trigger] result@[k].0) && occ(
                        self@,
                        result@[k].0,
                    ) == Some(result@[k].1),
                forall|p: BoardPosition|
                    pos_wf(p) && p.rank < rank && #[trigger] occ(self@, p) is Some
                        ==> result@.contains((p, occ(self@, p)->0)),
                forall|k: int| 0 <= k < result@.len() ==> sqi(#[trigger] result@[k].0) < rank * 8,
                forall|k1: int, k2: int|
                    0 <= k1 < k2 < result@.len() ==> sqi(#[trigger] result@[k1].0) < sqi(
                        #[trigger] result@[k2].0,
                    ),
            decreases 8 - rank,
        {
            let mut file: u8 = 0;
            while file < 8
                invariant
                    self.wf(),
                    rank < 8,
                    file <= 8,
                    forall|k: int|
                        0 <= k < result@.len() ==> pos_wf(#[trigger] result@[k].0) && occ(
                            self@,
                            result@[k].0,
                        ) == Some(result@[k].1),
                    forall|p: BoardPosition|
                        pos_wf(p) && (p.rank < rank || (p.rank == rank && p.file < file))
                            && #[trigger] occ(self@, p) is Some ==> result@.contains(
                            (p, occ(self@, p)->0),
                        ),
                    forall|k: int|
                        0 <= k < result@.len() ==> sqi(#[trigger] result@[k].0) < rank * 8 + file,
                    forall|k1: int, k2: int|
                        0 <= k1 < k2 < result@.len() ==> sqi(#[trigger] result@[k1].0) < sqi(
                            #[trigger] result@[k2].0,
                        ),
                decreases 8 - file,
            {
                let pos = BoardPosition { file, rank };
                let ghost prev = result@;
                if let Some(handle) = self.get_piece_at(pos) {
                    result.push((pos, handle));
                    assert(result@ == prev.push((pos, handle)));
                    assert(forall|x: (BoardPosition, usize)|
                        prev.contains(x) ==> #[trigger] result@.contains(x)) by {
                        assert(forall|k: int| 0 <= k < prev.len() ==> result@[k] == prev[k]);
                    }
                    assert(result@[result@.len() - 1] == (pos, handle));
                }
                file = file + 1;
            }
            rank = rank + 1;
        }
        result
    }
}

impl Default for ChessBoard {
    /// An empty board.
    fn default() -> (r: ChessBoard)
        ensures
            r.wf(),
            forall|i: int| 0 <= i < 64 ==> r@[i] is None,
    {
        ChessBoard::new()
    }
}

} // verus!
