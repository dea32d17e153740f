//! The board model the engine reads: colours, piece kinds, squares on the
//! 9-file by 10-rank board, moves in ICCS notation, and a square-indexed
//! board with its side to move.

use vstd::prelude::*;
use crate::text::{chars_of, digit_char, push_char};

verus! {

/// Number of files (columns a..i).
pub const FILES: u8 = 9;
/// Number of ranks (rows 0..9, rank 0 is Red's back rank).
pub const RANKS: u8 = 10;
/// Number of board points.
pub const NUM_SQUARES: usize = 90;

/// Side colour.
#[derive(Debug, Clone, Copy, PartialEq, Eq, Hash, Structural)]
pub enum Color {
    Red,
    Black,
}

impl Color {
    /// The other side.
    pub fn opponent(self) -> (c: Color)
        ensures
            c == self.opponent_spec(),
    {
        match self {
            Color::Red => Color::Black,
            Color::Black => Color::Red,
        }
    }
}

/// Piece kinds.
#[derive(Debug, Clone, Copy, PartialEq, Eq, Hash, Structural)]
pub enum PieceKind {
    King,
    Advisor,
    Elephant,
    Horse,
    Chariot,
    Cannon,
    Pawn,
}

/// A coloured piece.
#[derive(Debug, Clone, Copy, PartialEq, Eq, Hash, Structural)]
pub struct Piece {
    pub color: Color,
    pub kind: PieceKind,
}

impl Piece {
    pub fn new(color: Color, kind: PieceKind) -> (p: Piece)
        ensures
            p.color == color,
            p.kind == kind,
    {
        Piece { color, kind }
    }
}

/// A board point. Valid squares have `file < 9` and `rank < 10`.
#[derive(Debug, Clone, Copy, PartialEq, Eq, Hash, Structural)]
pub struct Square {
    pub file: u8,
    pub rank: u8,
}

/// Row-major index of a point: `rank * 9 + file`.
pub open spec fn square_index(file: int, rank: int) -> int {
    rank * 9 + file
}

impl Square {
    pub open spec fn valid(self) -> bool {
        self.file < 9 && self.rank < 10
    }

    pub open spec fn idx(self) -> int {
        square_index(self.file as int, self.rank as int)
    }

    /// The point at `(file, rank)`, if it lies on the board.
    pub fn new(file: u8, rank: u8) -> (r: Option<Square>)
        ensures
            r is Some <==> (file < 9 && rank < 10),
            r matches Some(s) ==> s.file == file && s.rank == rank && s.valid(),
    {
        if file < FILES && rank < RANKS {
            Some(Square { file, rank })
        } else {
            None
        }
    }

    /// Like [`Square::new`] for signed coordinates (used when stepping off
    /// the edge of the board).
    pub fn try_new(file: i8, rank: i8) -> (r: Option<Square>)
        ensures
            r is Some <==> (0 <= file < 9 && 0 <= rank < 10),
            r matches Some(s) ==> s.file == file && s.rank == rank && s.valid(),
    {
        if 0 <= file && file < 9 && 0 <= rank && rank < 10 {
            Some(Square { file: file as u8, rank: rank as u8 })
        } else {
            None
        }
    }

    pub fn file(&self) -> (f: u8)
        ensures
            f == self.file,
    {
        self.file
    }

    pub fn rank(&self) -> (r: u8)
        ensures
            r == self.rank,
    {
        self.rank
    }

    /// Row-major index `rank * 9 + file`, in `0..90` for a valid square.
    pub fn index(&self) -> (i: usize)
        requires
            self.valid(),
        ensures
            i == self.idx(),
            i < 90,
    {
        self.rank as usize * 9 + self.file as usize
    }
}

/// The square with row-major index `i`.
pub open spec fn square_at(i: int) -> Square {
    Square { file: (i % 9) as u8, rank: (i / 9) as u8 }
}

/// The square with row-major index `i`.
pub fn square_from_index(i: usize) -> (s: Square)
    requires
        i < 90,
    ensures
        s == square_at(i as int),
        s.valid(),
        s.idx() == i,
{
    Square { file: (i % 9) as u8, rank: (i / 9) as u8 }
}

/// A move from one point to another.
#[derive(Debug, Clone, Copy, PartialEq, Eq, Hash, Structural)]
pub struct Move {
    pub from: Square,
    pub to: Square,
}

impl Move {
    pub fn new(from: Square, to: Square) -> (m: Move)
        ensures
            m.from == from,
            m.to == to,
    {
        Move { from, to }
    }

    pub open spec fn valid(self) -> bool {
        self.from.valid() && self.to.valid()
    }
}

/// ICCS letter of a file (`a` for file 0 ... `i` for file 8).
pub open spec fn file_char(f: int) -> char {
    (97 + f) as char
}

/// The square an ICCS file letter and rank digit name.
pub open spec fn iccs_square(fc: char, rc: char) -> Option<Square> {
    if 'a' <= fc && fc <= 'i' && '0' <= rc && rc <= '9' {
        Some(Square { file: (fc as int - 97) as u8, rank: (rc as int - 48) as u8 })
    } else {
        None
    }
}

/// The move that four ICCS characters (`h2e2`) name, if they do.
pub open spec fn iccs_move(s: Seq<char>) -> Option<Move> {
    if s.len() == 4 {
        match (iccs_square(s[0], s[1]), iccs_square(s[2], s[3])) {
            (Some(from), Some(to)) => Some(Move { from, to }),
            _ => None,
        }
    } else {
        None
    }
}

/// ICCS text of a move.
pub open spec fn iccs_text(m: Move) -> Seq<char> {
    seq![
        file_char(m.from.file as int),
        digit_char(m.from.rank as int),
        file_char(m.to.file as int),
        digit_char(m.to.rank as int),
    ]
}

fn square_from_chars(fc: char, rc: char) -> (r: Option<Square>)
    ensures
        r == iccs_square(fc, rc),
{
    if 'a' <= fc && fc <= 'i' && '0' <= rc && rc <= '9' {
        Some(Square { file: (fc as u32 - 97) as u8, rank: (rc as u32 - 48) as u8 })
    } else {
        None
    }
}

fn file_letter(f: u8) -> (c: char)
    requires
        f < 9,
    ensures
        c == file_char(f as int),
{
    let b: u8 = 97u8 + f;
    b as char
}

fn rank_digit(r: u8) -> (c: char)
    requires
        r < 10,
    ensures
        c == digit_char(r as int),
{
    let b: u8 = 48u8 + r;
    b as char
}

impl Move {
    /// Parses ICCS notation (`h2e2`: file letter and rank digit of the
    /// source, then of the destination).
    pub fn from_iccs_chars(s: &[char]) -> (r: Option<Move>)
        ensures
            r == iccs_move(s@),
            r matches Some(m) ==> m.valid(),
    {
        if s.len() != 4 {
            return None;
        }
        match (square_from_chars(s[0], s[1]), square_from_chars(s[2], s[3])) {
            (Some(from), Some(to)) => Some(Move { from, to }),
            _ => None,
        }
    }

    /// Parses ICCS notation (`h2e2`).
    pub fn from_iccs(s: &str) -> (r: Option<Move>)
        ensures
            r == iccs_move(s@),
            r matches Some(m) ==> m.valid(),
    {
        let cs = chars_of(s);
        Move::from_iccs_chars(cs.as_slice())
    }

    /// Appends the ICCS text of the move.
    pub fn push_iccs(&self, out: &mut String)
        requires
            self.valid(),
        ensures
            final(out)@ == old(out)@ + iccs_text(*self),
    {
        push_char(out, file_letter(self.from.file));
        push_char(out, rank_digit(self.from.rank));
        push_char(out, file_letter(self.to.file));
        push_char(out, rank_digit(self.to.rank));
        assert(final(out)@ =~= old(out)@ + iccs_text(*self));
    }

    /// ICCS text of the move.
    pub fn to_iccs(&self) -> (s: String)
        requires
            self.valid(),
        ensures
            s@ == iccs_text(*self),
    {
        let mut s = String::new();
        self.push_iccs(&mut s);
        assert(s@ =~= iccs_text(*self));
        s
    }
}

/// A position: the occupant of each of the 90 points, indexed by
/// [`square_index`], and the side to move.
#[derive(Debug, Clone)]
pub struct Board {
    pub squares: Vec<Option<Piece>>,
    pub side: Color,
}

/// Ninety empty points.
pub open spec fn empty_cells() -> Seq<Option<Piece>> {
    Seq::new(90, |i: int| None)
}

/// First row-major index `>= from` holding a king of `color`, if any.
pub open spec fn king_index_from(cells: Seq<Option<Piece>>, color: Color, from: int) -> Option<int>
    decreases cells.len() - from,
{
    if from < 0 || from >= cells.len() {
        None
    } else if cells[from] == Some(Piece { color, kind: PieceKind::King }) {
        Some(from)
    } else {
        king_index_from(cells, color, from + 1)
    }
}

/// A found king index lies in `from..cells.len()` and holds that king.
pub proof fn lemma_king_index_from(cells: Seq<Option<Piece>>, color: Color, from: int)
    ensures
        king_index_from(cells, color, from) matches Some(i) ==> from <= i < cells.len()
            && cells[i] == Some(Piece { color, kind: PieceKind::King }),
    decreases cells.len() - from,
{
    if 0 <= from < cells.len() && cells[from] != Some(Piece { color, kind: PieceKind::King }) {
        lemma_king_index_from(cells, color, from + 1);
    }
}

impl Board {
    pub open spec fn wf(&self) -> bool {
        self.squares@.len() == 90
    }

    /// Occupant of a point.
    pub open spec fn cell(&self, s: Square) -> Option<Piece> {
        self.squares@[s.idx()]
    }

    /// A board with no pieces, Red to move.
    pub fn empty() -> (b: Board)
        ensures
            b.wf(),
            b.squares@ == empty_cells(),
            b.side == Color::Red,
    {
        let mut squares: Vec<Option<Piece>> = Vec::new();
        let mut i: usize = 0;
        while i < 90
            invariant
                i <= 90,
                squares@ == Seq::new(i as nat, |j: int| None::<Piece>),
            decreases 90 - i,
        {
            squares.push(None);
            i = i + 1;
        }
        Board { squares, side: Color::Red }
    }

    /// Occupant of a point.
    pub fn piece_at(&self, sq: Square) -> (p: Option<Piece>)
        requires
            self.wf(),
            sq.valid(),
        ensures
            p == self.cell(sq),
    {
        self.squares[sq.index()]
    }

    /// Places (or with `None`, removes) a piece.
    pub fn set_piece(&mut self, sq: Square, p: Option<Piece>)
        requires
            old(self).wf(),
            sq.valid(),
        ensures
            final(self).wf(),
            final(self).squares@ == old(self).squares@.update(sq.idx(), p),
            final(self).side == old(self).side,
    {
        let i = sq.index();
        self.squares.set(i, p);
    }

    pub fn side_to_move(&self) -> (c: Color)
        ensures
            c == self.side,
    {
        self.side
    }

    pub fn set_side_to_move(&mut self, c: Color)
        ensures
            final(self).side == c,
            final(self).squares == old(self).squares,
    {
        self.side = c;
    }

    /// The square of `color`'s king: the first in row-major order.
    pub fn king_square(&self, color: Color) -> (r: Option<Square>)
        requires
            self.wf(),
        ensures
            match king_index_from(self.squares@, color, 0) {
                Some(i) => r == Some(square_at(i)),
                None => r is None,
            },
            r matches Some(sq) ==> sq.valid() && self.cell(sq) == Some(
                Piece { color, kind: PieceKind::King },
            ),
    {
        proof {
            lemma_king_index_from(self.squares@, color, 0);
        }
        let mut i: usize = 0;
        while i < 90
            invariant
                self.wf(),
                i <= 90,
                king_index_from(self.squares@, color, 0) == king_index_from(self.squares@, color, i as int),
            decreases 90 - i,
        {
            if let Some(p) = self.squares[i] {
                if p.color == color && p.kind == PieceKind::King {
                    return Some(square_from_index(i));
                }
            }
            i = i + 1;
        }
        None
    }

    /// Moves the piece on `mv.from` to `mv.to` (capturing whatever stands
    /// there) and passes the turn. Returns the captured piece.
    pub fn make_move(&mut self, mv: Move) -> (captured: Option<Piece>)
        requires
            old(self).wf(),
            mv.valid(),
        ensures
            final(self).wf(),
            captured == old(self).cell(mv.to),
            final(self).squares@ == old(self).squares@.update(mv.from.idx(), None).update(
                mv.to.idx(),
                old(self).cell(mv.from),
            ),
            final(self).side == old(self).side.opponent_spec(),
    {
        let moving = self.piece_at(mv.from);
        let captured = self.piece_at(mv.to);
        self.set_piece(mv.from, None);
        self.set_piece(mv.to, moving);
        self.side = self.side.opponent();
        captured
    }
}

impl Color {
    pub open spec fn opponent_spec(self) -> Color {
        match self {
            Color::Red => Color::Black,
            Color::Black => Color::Red,
        }
    }
}

/// Back-rank piece order from file a to file i.
pub open spec fn back_rank_kind(f: int) -> PieceKind {
    if f == 0 || f == 8 {
        PieceKind::Chariot
    } else if f == 1 || f == 7 {
        PieceKind::Horse
    } else if f == 2 || f == 6 {
        PieceKind::Elephant
    } else if f == 3 || f == 5 {
        PieceKind::Advisor
    } else {
        PieceKind::King
    }
}

/// Occupant of point `i` in the standard starting position.
pub open spec fn start_cell(i: int) -> Option<Piece> {
    let f = i % 9;
    let r = i / 9;
    let color = if r <= 4 {
        Color::Red
    } else {
        Color::Black
    };
    if r == 0 || r == 9 {
        Some(Piece { color, kind: back_rank_kind(f) })
    } else if (r == 2 || r == 7) && (f == 1 || f == 7) {
        Some(Piece { color, kind: PieceKind::Cannon })
    } else if (r == 3 || r == 6) && f % 2 == 0 {
        Some(Piece { color, kind: PieceKind::Pawn })
    } else {
        None
    }
}

pub open spec fn start_cells() -> Seq<Option<Piece>> {
    Seq::new(90, |i: int| start_cell(i))
}

fn back_rank_kind_exec(f: usize) -> (k: PieceKind)
    requires
        f < 9,
    ensures
        k == back_rank_kind(f as int),
{
    if f == 0 || f == 8 {
        PieceKind::Chariot
    } else if f == 1 || f == 7 {
        PieceKind::Horse
    } else if f == 2 || f == 6 {
        PieceKind::Elephant
    } else if f == 3 || f == 5 {
        PieceKind::Advisor
    } else {
        PieceKind::King
    }
}

fn start_cell_exec(i: usize) -> (p: Option<Piece>)
    requires
        i < 90,
    ensures
        p == start_cell(i as int),
{
    let f = i % 9;
    let r = i / 9;
    let color = if r <= 4 {
        Color::Red
    } else {
        Color::Black
    };
    if r == 0 || r == 9 {
        Some(Piece { color, kind: back_rank_kind_exec(f) })
    } else if (r == 2 || r == 7) && (f == 1 || f == 7) {
        Some(Piece { color, kind: PieceKind::Cannon })
    } else if (r == 3 || r == 6) && f % 2 == 0 {
        Some(Piece { color, kind: PieceKind::Pawn })
    } else {
        None
    }
}

/// The piece a FEN letter stands for: upper case Red, lower case Black;
/// K king, A advisor, B or E elephant, N or H horse, R chariot, C cannon,
/// P pawn.
pub open spec fn fen_piece(c: char) -> Option<Piece> {
    if c == 'K' { Some(Piece { color: Color::Red, kind: PieceKind::King }) }
    else if c == 'A' { Some(Piece { color: Color::Red, kind: PieceKind::Advisor }) }
    else if c == 'B' || c == 'E' { Some(Piece { color: Color::Red, kind: PieceKind::Elephant }) }
    else if c == 'N' || c == 'H' { Some(Piece { color: Color::Red, kind: PieceKind::Horse }) }
    else if c == 'R' { Some(Piece { color: Color::Red, kind: PieceKind::Chariot }) }
    else if c == 'C' { Some(Piece { color: Color::Red, kind: PieceKind::Cannon }) }
    else if c == 'P' { Some(Piece { color: Color::Red, kind: PieceKind::Pawn }) }
    else if c == 'k' { Some(Piece { color: Color::Black, kind: PieceKind::King }) }
    else if c == 'a' { Some(Piece { color: Color::Black, kind: PieceKind::Advisor }) }
    else if c == 'b' || c == 'e' { Some(Piece { color: Color::Black, kind: PieceKind::Elephant }) }
    else if c == 'n' || c == 'h' { Some(Piece { color: Color::Black, kind: PieceKind::Horse }) }
    else if c == 'r' { Some(Piece { color: Color::Black, kind: PieceKind::Chariot }) }
    else if c == 'c' { Some(Piece { color: Color::Black, kind: PieceKind::Cannon }) }
    else if c == 'p' { Some(Piece { color: Color::Black, kind: PieceKind::Pawn }) }
    else { None }
}

/// FEN letter written for a piece.
pub open spec fn piece_letter(p: Piece) -> char {
    let lower = match p.kind {
        PieceKind::King => 'k',
        PieceKind::Advisor => 'a',
        PieceKind::Elephant => 'b',
        PieceKind::Horse => 'n',
        PieceKind::Chariot => 'r',
        PieceKind::Cannon => 'c',
        PieceKind::Pawn => 'p',
    };
    match p.color {
        Color::Red => (lower as int - 32) as char,
        Color::Black => lower,
    }
}

/// Reading state after a prefix of a FEN placement field: the cells filled
/// so far, the row being read (0 is rank 9) and the next file.
pub open spec fn fen_step(st: (Seq<Option<Piece>>, int, int), c: char) -> Option<
    (Seq<Option<Piece>>, int, int),
> {
    let (cells, row, col) = st;
    if '1' <= c && c <= '9' {
        let d = c as int - 48;
        if col + d <= 9 {
            Some((cells, row, col + d))
        } else {
            None
        }
    } else if c == '/' {
        if col == 9 && row < 9 {
            Some((cells, row + 1, 0))
        } else {
            None
        }
    } else {
        match fen_piece(c) {
            Some(p) => if col < 9 {
                Some((cells.update(square_index(col, 9 - row), Some(p)), row, col + 1))
            } else {
                None
            },
            None => None,
        }
    }
}

/// Reading state after the first `n` characters of a placement field.
pub open spec fn fen_prefix(s: Seq<char>, n: int) -> Option<(Seq<Option<Piece>>, int, int)>
    decreases n,
{
    if n <= 0 {
        Some((empty_cells(), 0, 0))
    } else {
        match fen_prefix(s, n - 1) {
            Some(st) => fen_step(st, s[n - 1]),
            None => None,
        }
    }
}

/// Length of the placement field: up to the first space.
pub open spec fn placement_len(s: Seq<char>, from: int) -> int
    decreases s.len() - from,
{
    if from < 0 || from >= s.len() {
        s.len() as int
    } else if s[from] == ' ' {
        from
    } else {
        placement_len(s, from + 1)
    }
}

/// The side named after the placement field: none given means Red; `w` or
/// `r` Red; `b` Black.
pub open spec fn fen_side(s: Seq<char>, n: int) -> Option<Color> {
    if n >= s.len() {
        Some(Color::Red)
    } else if n + 1 < s.len() && (s[n + 1] == 'w' || s[n + 1] == 'r') {
        Some(Color::Red)
    } else if n + 1 < s.len() && s[n + 1] == 'b' {
        Some(Color::Black)
    } else {
        None
    }
}

/// The position a FEN string describes: all ten rows of nine points read,
/// and a known side letter. Fields after the side are not read.
pub open spec fn fen_position(s: Seq<char>) -> Option<(Seq<Option<Piece>>, Color)> {
    let n = placement_len(s, 0);
    match (fen_prefix(s, n), fen_side(s, n)) {
        (Some((cells, row, col)), Some(side)) => if row == 9 && col == 9 {
            Some((cells, side))
        } else {
            None
        },
        _ => None,
    }
}

fn fen_piece_exec(c: char) -> (r: Option<Piece>)
    ensures
        r == fen_piece(c),
{
    if c == 'K' { Some(Piece { color: Color::Red, kind: PieceKind::King }) }
    else if c == 'A' { Some(Piece { color: Color::Red, kind: PieceKind::Advisor }) }
    else if c == 'B' || c == 'E' { Some(Piece { color: Color::Red, kind: PieceKind::Elephant }) }
    else if c == 'N' || c == 'H' { Some(Piece { color: Color::Red, kind: PieceKind::Horse }) }
    else if c == 'R' { Some(Piece { color: Color::Red, kind: PieceKind::Chariot }) }
    else if c == 'C' { Some(Piece { color: Color::Red, kind: PieceKind::Cannon }) }
    else if c == 'P' { Some(Piece { color: Color::Red, kind: PieceKind::Pawn }) }
    else if c == 'k' { Some(Piece { color: Color::Black, kind: PieceKind::King }) }
    else if c == 'a' { Some(Piece { color: Color::Black, kind: PieceKind::Advisor }) }
    else if c == 'b' || c == 'e' { Some(Piece { color: Color::Black, kind: PieceKind::Elephant }) }
    else if c == 'n' || c == 'h' { Some(Piece { color: Color::Black, kind: PieceKind::Horse }) }
    else if c == 'r' { Some(Piece { color: Color::Black, kind: PieceKind::Chariot }) }
    else if c == 'c' { Some(Piece { color: Color::Black, kind: PieceKind::Cannon }) }
    else if c == 'p' { Some(Piece { color: Color::Black, kind: PieceKind::Pawn }) }
    else { None }
}

fn piece_letter_exec(p: Piece) -> (c: char)
    ensures
        c == piece_letter(p),
{
    let lower: u8 = match p.kind {
        PieceKind::King => 107u8,
        PieceKind::Advisor => 97u8,
        PieceKind::Elephant => 98u8,
        PieceKind::Horse => 110u8,
        PieceKind::Chariot => 114u8,
        PieceKind::Cannon => 99u8,
        PieceKind::Pawn => 112u8,
    };
    match p.color {
        Color::Red => (lower - 32) as char,
        Color::Black => lower as char,
    }
}

/// FEN text of row `rank`, from file `f` on, with `run` empty points
/// already pending.
pub open spec fn row_text(cells: Seq<Option<Piece>>, rank: int, f: int, run: int) -> Seq<char>
    decreases 9 - f,
{
    if f >= 9 {
        if run > 0 {
            seq![digit_char(run)]
        } else {
            seq![]
        }
    } else {
        match cells[square_index(f, rank)] {
            None => row_text(cells, rank, f + 1, run + 1),
            Some(p) => (if run > 0 {
                seq![digit_char(run)]
            } else {
                seq![]
            }) + seq![piece_letter(p)] + row_text(cells, rank, f + 1, 0),
        }
    }
}

/// FEN placement text of ranks `rank` down to 0, separated by `/`.
pub open spec fn rows_text(cells: Seq<Option<Piece>>, rank: int) -> Seq<char>
    decreases rank,
{
    if rank <= 0 {
        row_text(cells, 0, 0, 0)
    } else {
        row_text(cells, rank, 0, 0) + seq!['/'] + rows_text(cells, rank - 1)
    }
}

/// FEN of a position: placement, side letter (`w` for Red, `b` for Black)
/// and the fixed trailer ` - - 0 1`.
pub open spec fn fen_text(cells: Seq<Option<Piece>>, side: Color) -> Seq<char> {
    rows_text(cells, 9) + seq![' ', if side == Color::Red { 'w' } else { 'b' }] + seq![
        ' ',
        '-',
        ' ',
        '-',
        ' ',
        '0',
        ' ',
        '1',
    ]
}

fn push_row(out: &mut String, cells: &Vec<Option<Piece>>, rank: usize, f: usize, run: usize)
    requires
        cells@.len() == 90,
        rank < 10,
        f <= 9,
        run <= f,
    ensures
        final(out)@ == old(out)@ + row_text(cells@, rank as int, f as int, run as int),
    decreases 9 - f,
{
    if f >= 9 {
        if run > 0 {
            push_char(out, rank_digit(run as u8));
        }
        assert(final(out)@ =~= old(out)@ + row_text(cells@, rank as int, f as int, run as int));
    } else {
        match cells[rank * 9 + f] {
            None => {
                push_row(out, cells, rank, f + 1, run + 1);
            },
            Some(p) => {
                if run > 0 {
                    push_char(out, rank_digit(run as u8));
                }
                push_char(out, piece_letter_exec(p));
                let ghost mid = out@;
                push_row(out, cells, rank, f + 1, 0);
                assert(final(out)@ =~= old(out)@ + row_text(cells@, rank as int, f as int, run as int));
            },
        }
    }
}

fn push_rows(out: &mut String, cells: &Vec<Option<Piece>>, rank: usize)
    requires
        cells@.len() == 90,
        rank < 10,
    ensures
        final(out)@ == old(out)@ + rows_text(cells@, rank as int),
    decreases rank,
{
    push_row(out, cells, rank, 0, 0);
    if rank > 0 {
        push_char(out, '/');
        push_rows(out, cells, rank - 1);
        assert(final(out)@ =~= old(out)@ + rows_text(cells@, rank as int));
    }
}

proof fn lemma_fen_prefix_stays_none(s: Seq<char>, k: int, m: int)
    requires
        0 <= k <= m,
        fen_prefix(s, k) is None,
    ensures
        fen_prefix(s, m) is None,
    decreases m - k,
{
    if k < m {
        lemma_fen_prefix_stays_none(s, k, m - 1);
    }
}

proof fn lemma_placement_len_bounds(s: Seq<char>, from: int)
    requires
        0 <= from <= s.len(),
    ensures
        from <= placement_len(s, from) <= s.len(),
    decreases s.len() - from,
{
    if from < s.len() && s[from] != ' ' {
        lemma_placement_len_bounds(s, from + 1);
    }
}

/// A failed step at position `i` of the placement field makes the whole
/// FEN unreadable.
proof fn lemma_fen_fails_at(s: Seq<char>, i: int)
    requires
        0 <= i < s.len(),
        s[i] != ' ',
        placement_len(s, 0) == placement_len(s, i),
        fen_prefix(s, i + 1) is None,
    ensures
        fen_position(s) is None,
{
    lemma_placement_len_bounds(s, i + 1);
    lemma_fen_prefix_stays_none(s, i + 1, placement_len(s, 0));
}

impl Board {
    /// The standard starting position, Red to move.
    pub fn start_position() -> (b: Board)
        ensures
            b.wf(),
            b.squares@ == start_cells(),
            b.side == Color::Red,
    {
        let mut squares: Vec<Option<Piece>> = Vec::new();
        let mut i: usize = 0;
        while i < 90
            invariant
                i <= 90,
                squares@ == Seq::new(i as nat, |j: int| start_cell(j)),
            decreases 90 - i,
        {
            squares.push(start_cell_exec(i));
            i = i + 1;
        }
        Board { squares, side: Color::Red }
    }

    /// Reads a position from FEN (see [`fen_position`]).
    pub fn from_fen(fen: &str) -> (r: Option<Board>)
        ensures
            match fen_position(fen@) {
                Some((cells, side)) => r matches Some(b) && b.wf() && b.squares@ == cells && b.side
                    == side,
                None => r is None,
            },
    {
        let s = chars_of(fen);
        let mut board = Board::empty();
        let mut row: usize = 0;
        let mut col: usize = 0;
        let mut i: usize = 0;
        while i < s.len() && s[i] != ' '
            invariant
                board.wf(),
                i <= s@.len(),
                s@ == fen@,
                row <= 9,
                col <= 9,
                placement_len(s@, 0) == placement_len(s@, i as int),
                fen_prefix(s@, i as int) == Some((board.squares@, row as int, col as int)),
            decreases s@.len() - i,
        {
            let c = s[i];
            if '1' <= c && c <= '9' {
                let d = (c as u32 - 48) as usize;
                if col + d <= 9 {
                    col = col + d;
                } else {
                    proof {
                            assert(fen_prefix(s@, i + 1) is None);
                            lemma_fen_fails_at(s@, i as int);
                        }
                        return None;
                }
            } else if c == '/' {
                if col == 9 && row < 9 {
                    row = row + 1;
                    col = 0;
                } else {
                    proof {
                            assert(fen_prefix(s@, i + 1) is None);
                            lemma_fen_fails_at(s@, i as int);
                        }
                        return None;
                }
            } else {
                match fen_piece_exec(c) {
                    Some(p) => {
                        if col < 9 {
                            let sq = Square { file: col as u8, rank: (9 - row) as u8 };
                            board.set_piece(sq, Some(p));
                            col = col + 1;
                        } else {
                            proof {
                            assert(fen_prefix(s@, i + 1) is None);
                            lemma_fen_fails_at(s@, i as int);
                        }
                        return None;
                        }
                    },
                    None => {
                        proof {
                            assert(fen_prefix(s@, i + 1) is None);
                            lemma_fen_fails_at(s@, i as int);
                        }
                        return None;
                    },
                }
            }
            i = i + 1;
        }
        if !(row == 9 && col == 9) {
            return None;
        }
        let side = if i >= s.len() {
            Color::Red
        } else if i + 1 < s.len() && (s[i + 1] == 'w' || s[i + 1] == 'r') {
            Color::Red
        } else if i + 1 < s.len() && s[i + 1] == 'b' {
            Color::Black
        } else {
            return None;
        };
        board.side = side;
        Some(board)
    }

    /// FEN text of the position (see [`fen_text`]).
    pub fn to_fen(&self) -> (s: String)
        requires
            self.wf(),
        ensures
            s@ == fen_text(self.squares@, self.side),
    {
        let mut out = String::new();
        push_rows(&mut out, &self.squares, 9);
        push_char(&mut out, ' ');
        push_char(
            &mut out,
            match self.side {
                Color::Red => 'w',
                Color::Black => 'b',
            },
        );
        push_char(&mut out, ' ');
        push_char(&mut out, '-');
        push_char(&mut out, ' ');
        push_char(&mut out, '-');
        push_char(&mut out, ' ');
        push_char(&mut out, '0');
        push_char(&mut out, ' ');
        push_char(&mut out, '1');
        assert(out@ =~= fen_text(self.squares@, self.side));
        out
    }
}

/// Whether a point on `color`'s board has crossed the river: ranks 5..9
/// for Red, ranks 0..4 for Black.
pub open spec fn crossed_river(sq: Square, color: Color) -> bool {
    match color {
        Color::Red => sq.rank >= 5,
        Color::Black => sq.rank <= 4,
    }
}

/// Whether `sq` lies across the river from `color`'s home half.
pub fn square_crossed_river(sq: Square, color: Color) -> (b: bool)
    ensures
        b == crossed_river(sq, color),
{
    match color {
        Color::Red => sq.rank >= 5,
        Color::Black => sq.rank <= 4,
    }
}

/// Whether signed coordinates lie on the board.
pub open spec fn on_board(f: int, r: int) -> bool {
    0 <= f < 9 && 0 <= r < 10
}

/// Occupant of the on-board point `(f, r)`.
pub open spec fn cell_at(cells: Seq<Option<Piece>>, f: int, r: int) -> Option<Piece> {
    cells[square_index(f, r)]
}

/// Why a game was won.
#[derive(Debug, Clone, Copy, PartialEq, Eq, Structural)]
pub enum WinReason {
    Checkmate,
    Stalemate,
    PerpetualCheck,
    Resignation,
    Timeout,
}

/// Why a game was drawn.
#[derive(Debug, Clone, Copy, PartialEq, Eq, Structural)]
pub enum DrawReason {
    Agreement,
    Repetition,
    /// Sixty moves without a capture.
    NoCapture,
}

/// The outcome of a finished game.
#[derive(Debug, Clone, Copy, PartialEq, Eq, Structural)]
pub enum GameResult {
    Win { winner: Color, reason: WinReason },
    Draw(DrawReason),
}

} // verus!
