//! Opening book: common Xiangqi openings as sequences of ICCS moves with
//! selection weights, keyed by the FEN of each position along the lines so
//! transpositions are found too.

use vstd::prelude::*;
use crate::text::{chars_eq, chars_of, split_whitespace, tokens};
use crate::xiangqi::{
    fen_text, iccs_move, start_cells, Board, Color, Move, Piece,
};

verus! {

/// A candidate move with its selection weight.
#[derive(Debug, Clone, Copy, PartialEq, Eq, Structural)]
pub struct BookMove {
    pub mv: Move,
    pub weight: u32,
}

/// Position FENs with their candidate moves; each FEN appears once.
pub struct OpeningBook {
    fens: Vec<Vec<char>>,
    moves: Vec<Vec<BookMove>>,
}

/// Book contents: FEN and candidates of each entry, in insertion order.
pub type BookView = Seq<(Seq<char>, Seq<BookMove>)>;

impl View for OpeningBook {
    type V = BookView;

    closed spec fn view(&self) -> BookView {
        Seq::new(self.fens@.len(), |i: int| (self.fens@[i]@, self.moves@[i]@))
    }
}

impl OpeningBook {
    /// One candidate list per FEN.
    pub closed spec fn wf(&self) -> bool {
        self.fens@.len() == self.moves@.len()
    }
}

/// Index of the first entry for `fen` at or after `from`.
pub open spec fn book_find(es: BookView, fen: Seq<char>, from: int) -> Option<int>
    decreases es.len() - from,
{
    if from < 0 || from >= es.len() {
        None
    } else if es[from].0 == fen {
        Some(from)
    } else {
        book_find(es, fen, from + 1)
    }
}

/// Candidates recorded for `fen`.
pub open spec fn book_candidates(es: BookView, fen: Seq<char>) -> Option<Seq<BookMove>> {
    match book_find(es, fen, 0) {
        Some(i) => Some(es[i].1),
        None => None,
    }
}

/// Book after recording `bm` for `fen`: appended to the FEN's entry, or a
/// new entry at the end.
pub open spec fn book_add(es: BookView, fen: Seq<char>, bm: BookMove) -> BookView {
    match book_find(es, fen, 0) {
        Some(i) => es.update(i, (es[i].0, es[i].1.push(bm))),
        None => es.push((fen, seq![bm])),
    }
}

/// Weight of ply `i` of a line: its listed weight, or 50 past the list.
pub open spec fn line_weight(ws: Seq<u32>, i: int) -> u32 {
    if 0 <= i < ws.len() {
        ws[i]
    } else {
        50
    }
}

/// Book after replaying the moves `toks[i..]` of a line from the position
/// `(cells, side)`: each readable move is recorded for the current FEN with
/// its weight and then played; unreadable moves are skipped.
pub open spec fn replay_line(
    es: BookView,
    cells: Seq<Option<Piece>>,
    side: Color,
    toks: Seq<Seq<char>>,
    ws: Seq<u32>,
    i: int,
) -> BookView
    decreases toks.len() - i,
{
    if i < 0 || i >= toks.len() {
        es
    } else {
        match iccs_move(toks[i]) {
            Some(mv) => {
                let es2 = book_add(es, fen_text(cells, side), BookMove { mv, weight: line_weight(ws, i) });
                let cells2 = cells.update(mv.from.idx(), None).update(mv.to.idx(), cells[mv.from.idx()]);
                replay_line(es2, cells2, side.opponent_spec(), toks, ws, i + 1)
            },
            None => replay_line(es, cells, side, toks, ws, i + 1),
        }
    }
}

/// Number of opening lines.
pub const OPENING_LINE_COUNT: usize = 62;

/// Opening line `k`: space-separated ICCS moves and the weight of each ply.
pub open spec fn opening_line(k: usize) -> (Seq<char>, Seq<u32>) {
    match k {
        // Central cannon and Black's replies.
        0 => ("h2e2"@, seq![100u32]),
        1 => ("h2e2 h9g7"@, seq![100u32, 90]),
        2 => ("h2e2 b9c7"@, seq![100u32, 85]),
        3 => ("h2e2 c9e7"@, seq![100u32, 70]),
        4 => ("h2e2 a9a8"@, seq![100u32, 60]),
        5 => ("h2e2 h9g7 b0c2"@, seq![100u32, 90, 95]),
        6 => ("h2e2 h9g7 h0g2"@, seq![100u32, 90, 90]),
        7 => ("h2e2 h9g7 a0a1"@, seq![100u32, 90, 75]),
        8 => ("h2e2 h9g7 b0c2 b7b6"@, seq![100u32, 90, 95, 85]),
        9 => ("h2e2 h9g7 b0c2 i9h9"@, seq![100u32, 90, 95, 80]),
        10 => ("h2e2 h9g7 h0g2 b9c7"@, seq![100u32, 90, 90, 85]),
        11 => ("h2e2 h9g7 h0g2 i9h9"@, seq![100u32, 90, 90, 80]),
        12 => ("h2e2 b9c7 b0c2"@, seq![100u32, 85, 90]),
        13 => ("h2e2 b9c7 h0g2"@, seq![100u32, 85, 85]),
        14 => ("h2e2 b9c7 b0c2 h9g7"@, seq![100u32, 85, 90, 90]),
        15 => ("h2e2 b9c7 b0c2 a9a8"@, seq![100u32, 85, 90, 75]),
        // Pawn opening.
        16 => ("e3e4"@, seq![80u32]),
        17 => ("e3e4 e6e5"@, seq![80u32, 90]),
        18 => ("e3e4 h9g7"@, seq![80u32, 85]),
        19 => ("e3e4 b9c7"@, seq![80u32, 80]),
        20 => ("e3e4 c9e7"@, seq![80u32, 70]),
        21 => ("e3e4 e6e5 b0c2"@, seq![80u32, 90, 85]),
        22 => ("e3e4 e6e5 h0g2"@, seq![80u32, 90, 80]),
        23 => ("e3e4 e6e5 b0c2 b9c7"@, seq![80u32, 90, 85, 85]),
        24 => ("e3e4 e6e5 h0g2 h9g7"@, seq![80u32, 90, 80, 85]),
        25 => ("e3e4 h9g7 b0c2"@, seq![80u32, 85, 85]),
        26 => ("e3e4 h9g7 h0g2"@, seq![80u32, 85, 80]),
        27 => ("e3e4 h9g7 b0c2 i9h9"@, seq![80u32, 85, 85, 80]),
        // Elephant opening.
        28 => ("c0e2"@, seq![70u32]),
        29 => ("c0e2 h9g7"@, seq![70u32, 85]),
        30 => ("c0e2 b9c7"@, seq![70u32, 80]),
        31 => ("c0e2 c6c5"@, seq![70u32, 75]),
        32 => ("c0e2 h9g7 b0c2"@, seq![70u32, 85, 85]),
        33 => ("c0e2 h9g7 h0g2"@, seq![70u32, 85, 80]),
        34 => ("c0e2 b9c7 b0c2"@, seq![70u32, 80, 85]),
        35 => ("c0e2 b9c7 h0g2"@, seq![70u32, 80, 80]),
        // Horse openings.
        36 => ("b0c2"@, seq![60u32]),
        37 => ("b0c2 b9c7"@, seq![60u32, 80]),
        38 => ("b0c2 h9g7"@, seq![60u32, 85]),
        39 => ("b0c2 c6c5"@, seq![60u32, 75]),
        40 => ("b0c2 b9c7 c3c4"@, seq![60u32, 80, 75]),
        41 => ("b0c2 h9g7 c3c4"@, seq![60u32, 85, 75]),
        42 => ("h0g2"@, seq![55u32]),
        43 => ("h0g2 h9g7"@, seq![55u32, 85]),
        44 => ("h0g2 b9c7"@, seq![55u32, 80]),
        45 => ("h0g2 h9g7 g3g4"@, seq![55u32, 85, 75]),
        46 => ("h0g2 b9c7 g3g4"@, seq![55u32, 80, 75]),
        // Palace cannon.
        47 => ("b2d2"@, seq![50u32]),
        48 => ("b2d2 h9g7"@, seq![50u32, 85]),
        49 => ("b2d2 b9c7"@, seq![50u32, 80]),
        50 => ("b2d2 h9g7 h0g2"@, seq![50u32, 85, 80]),
        // Edge horse.
        51 => ("a0a1"@, seq![40u32]),
        52 => ("a0a1 h9g7"@, seq![40u32, 85]),
        53 => ("a0a1 b9c7"@, seq![40u32, 80]),
        // Edge pawn.
        54 => ("a3a4"@, seq![35u32]),
        55 => ("a3a4 h9g7"@, seq![35u32, 85]),
        56 => ("a3a4 b9c7"@, seq![35u32, 80]),
        // 5-6 cannon.
        57 => ("h2e2 h9g7 b0c2 i9h9 a0b0"@, seq![100u32, 90, 95, 80, 85]),
        58 => ("h2e2 h9g7 h0g2 i9h9 a0b0"@, seq![100u32, 90, 90, 80, 85]),
        // 5-7 cannon.
        59 => ("h2e2 h9g7 b0c2 i9h9 a0a1"@, seq![100u32, 90, 95, 80, 80]),
        60 => ("h2e2 h9g7 h0g2 i9h9 a0a1"@, seq![100u32, 90, 90, 80, 80]),
        // River patrol cannon.
        61 => ("h2e2 h9g7 b0c2 b7b6 h7h8"@, seq![100u32, 90, 95, 85, 75]),
        _ => (Seq::empty(), Seq::empty()),
    }
}

/// Book after replaying the first `n` opening lines, each from the start
/// position.
pub open spec fn replay_lines(es: BookView, n: int) -> BookView
    decreases n,
{
    if n <= 0 {
        es
    } else {
        let prev = replay_lines(es, n - 1);
        let line = opening_line((n - 1) as usize);
        replay_line(prev, start_cells(), Color::Red, tokens(line.0), line.1, 0)
    }
}

/// The default book's contents.
pub open spec fn default_book_view() -> BookView {
    replay_lines(Seq::empty(), OPENING_LINE_COUNT as int)
}

/// Among the first `n` candidates, the last one of greatest weight whose
/// move is in `legal`.
pub open spec fn best_legal(cands: Seq<BookMove>, legal: Seq<Move>, n: int) -> Option<BookMove>
    decreases n,
{
    if n <= 0 {
        None
    } else {
        let prev = best_legal(cands, legal, n - 1);
        let c = cands[n - 1];
        if legal.contains(c.mv) {
            match prev {
                Some(p) => if c.weight >= p.weight {
                    Some(c)
                } else {
                    prev
                },
                None => Some(c),
            }
        } else {
            prev
        }
    }
}

/// The move the book plays in the position with FEN `fen`, given the legal
/// moves there.
pub open spec fn book_choice(es: BookView, fen: Seq<char>, legal: Seq<Move>) -> Option<Move> {
    match book_candidates(es, fen) {
        Some(cands) => match best_legal(cands, legal, cands.len() as int) {
            Some(bm) => Some(bm.mv),
            None => None,
        },
        None => None,
    }
}

/// What [`best_legal`] picks among the first `n` candidates: one of them,
/// with a legal move, weighing at least as much as every candidate there
/// whose move is legal and strictly more than every later one whose move is
/// legal; nothing only when none of them is legal.
proof fn lemma_best_legal(cands: Seq<BookMove>, legal: Seq<Move>, n: int)
    requires
        0 <= n <= cands.len(),
    ensures
        match best_legal(cands, legal, n) {
            Some(c) => {
                &&& exists|i: int|
                    #![trigger cands[i]]
                    0 <= i < n && cands[i] == c && forall|j: int|
                        i < j < n && legal.contains(#[trigger] cands[j].mv) ==> cands[j].weight
                            < c.weight
                &&& legal.contains(c.mv)
                &&& forall|j: int|
                    0 <= j < n && legal.contains(#[trigger] cands[j].mv) ==> cands[j].weight
                        <= c.weight
            },
            None => forall|j: int| 0 <= j < n ==> !legal.contains(#[trigger] cands[j].mv),
        },
    decreases n,
{
    if n > 0 {
        lemma_best_legal(cands, legal, n - 1);
        let c = cands[n - 1];
        match best_legal(cands, legal, n - 1) {
            Some(p) => {
                let i = choose|i: int|
                    #![trigger cands[i]]
                    0 <= i < n - 1 && cands[i] == p && forall|j: int|
                        i < j < n - 1 && legal.contains(#[trigger] cands[j].mv)
                            ==> cands[j].weight < p.weight;
                assert(0 <= i < n && cands[i] == p);
            },
            None => {},
        }
        if legal.contains(c.mv) {
            assert(0 <= n - 1 < n && cands[n - 1] == c);
        }
    }
}

/// The book plays the heaviest legal candidate: when the choice for `fen`
/// is `Some(m)`, some candidate recorded for `fen` has move `m`, `m` is
/// legal, no candidate with a legal move weighs more than that one, and
/// every later one with a legal move weighs less (of equal weights the last
/// recorded wins); the choice is `None` exactly when `fen` has no entry or
/// none of its candidates is legal.
pub proof fn law_book_choice_is_heaviest_legal(es: BookView, fen: Seq<char>, legal: Seq<Move>)
    ensures
        match book_choice(es, fen, legal) {
            Some(m) => book_candidates(es, fen) matches Some(cands) && exists|i: int|
                #![trigger cands[i]]
                0 <= i < cands.len() && cands[i].mv == m && legal.contains(m) && (forall|j: int|
                    0 <= j < cands.len() && legal.contains(#[trigger] cands[j].mv)
                        ==> cands[j].weight <= cands[i].weight) && (forall|j: int|
                    i < j < cands.len() && legal.contains(#[trigger] cands[j].mv)
                        ==> cands[j].weight < cands[i].weight),
            None => match book_candidates(es, fen) {
                Some(cands) => forall|j: int|
                    0 <= j < cands.len() ==> !legal.contains(#[trigger] cands[j].mv),
                None => true,
            },
        },
{
    match book_candidates(es, fen) {
        Some(cands) => {
            lemma_best_legal(cands, legal, cands.len() as int);
            match best_legal(cands, legal, cands.len() as int) {
                Some(c) => {
                    let i = choose|i: int|
                        #![trigger cands[i]]
                        0 <= i < cands.len() && cands[i] == c && forall|j: int|
                            i < j < cands.len() && legal.contains(#[trigger] cands[j].mv)
                                ==> cands[j].weight < c.weight;
                    assert(0 <= i < cands.len() && cands[i].mv == c.mv);
                },
                None => {},
            }
        },
        None => {},
    }
}

fn opening_line_exec(k: usize) -> (r: (&'static str, Vec<u32>))
    requires
        k < OPENING_LINE_COUNT,
    ensures
        r.0@ == opening_line(k).0,
        r.1@ == opening_line(k).1,
{
    match k {
        // Central cannon and Black's replies.
        0 => ("h2e2", vec![100u32]),
        1 => ("h2e2 h9g7", vec![100u32, 90]),
        2 => ("h2e2 b9c7", vec![100u32, 85]),
        3 => ("h2e2 c9e7", vec![100u32, 70]),
        4 => ("h2e2 a9a8", vec![100u32, 60]),
        5 => ("h2e2 h9g7 b0c2", vec![100u32, 90, 95]),
        6 => ("h2e2 h9g7 h0g2", vec![100u32, 90, 90]),
        7 => ("h2e2 h9g7 a0a1", vec![100u32, 90, 75]),
        8 => ("h2e2 h9g7 b0c2 b7b6", vec![100u32, 90, 95, 85]),
        9 => ("h2e2 h9g7 b0c2 i9h9", vec![100u32, 90, 95, 80]),
        10 => ("h2e2 h9g7 h0g2 b9c7", vec![100u32, 90, 90, 85]),
        11 => ("h2e2 h9g7 h0g2 i9h9", vec![100u32, 90, 90, 80]),
        12 => ("h2e2 b9c7 b0c2", vec![100u32, 85, 90]),
        13 => ("h2e2 b9c7 h0g2", vec![100u32, 85, 85]),
        14 => ("h2e2 b9c7 b0c2 h9g7", vec![100u32, 85, 90, 90]),
        15 => ("h2e2 b9c7 b0c2 a9a8", vec![100u32, 85, 90, 75]),
        // Pawn opening.
        16 => ("e3e4", vec![80u32]),
        17 => ("e3e4 e6e5", vec![80u32, 90]),
        18 => ("e3e4 h9g7", vec![80u32, 85]),
        19 => ("e3e4 b9c7", vec![80u32, 80]),
        20 => ("e3e4 c9e7", vec![80u32, 70]),
        21 => ("e3e4 e6e5 b0c2", vec![80u32, 90, 85]),
        22 => ("e3e4 e6e5 h0g2", vec![80u32, 90, 80]),
        23 => ("e3e4 e6e5 b0c2 b9c7", vec![80u32, 90, 85, 85]),
        24 => ("e3e4 e6e5 h0g2 h9g7", vec![80u32, 90, 80, 85]),
        25 => ("e3e4 h9g7 b0c2", vec![80u32, 85, 85]),
        26 => ("e3e4 h9g7 h0g2", vec![80u32, 85, 80]),
        27 => ("e3e4 h9g7 b0c2 i9h9", vec![80u32, 85, 85, 80]),
        // Elephant opening.
        28 => ("c0e2", vec![70u32]),
        29 => ("c0e2 h9g7", vec![70u32, 85]),
        30 => ("c0e2 b9c7", vec![70u32, 80]),
        31 => ("c0e2 c6c5", vec![70u32, 75]),
        32 => ("c0e2 h9g7 b0c2", vec![70u32, 85, 85]),
        33 => ("c0e2 h9g7 h0g2", vec![70u32, 85, 80]),
        34 => ("c0e2 b9c7 b0c2", vec![70u32, 80, 85]),
        35 => ("c0e2 b9c7 h0g2", vec![70u32, 80, 80]),
        // Horse openings.
        36 => ("b0c2", vec![60u32]),
        37 => ("b0c2 b9c7", vec![60u32, 80]),
        38 => ("b0c2 h9g7", vec![60u32, 85]),
        39 => ("b0c2 c6c5", vec![60u32, 75]),
        40 => ("b0c2 b9c7 c3c4", vec![60u32, 80, 75]),
        41 => ("b0c2 h9g7 c3c4", vec![60u32, 85, 75]),
        42 => ("h0g2", vec![55u32]),
        43 => ("h0g2 h9g7", vec![55u32, 85]),
        44 => ("h0g2 b9c7", vec![55u32, 80]),
        45 => ("h0g2 h9g7 g3g4", vec![55u32, 85, 75]),
        46 => ("h0g2 b9c7 g3g4", vec![55u32, 80, 75]),
        // Palace cannon.
        47 => ("b2d2", vec![50u32]),
        48 => ("b2d2 h9g7", vec![50u32, 85]),
        49 => ("b2d2 b9c7", vec![50u32, 80]),
        50 => ("b2d2 h9g7 h0g2", vec![50u32, 85, 80]),
        // Edge horse.
        51 => ("a0a1", vec![40u32]),
        52 => ("a0a1 h9g7", vec![40u32, 85]),
        53 => ("a0a1 b9c7", vec![40u32, 80]),
        // Edge pawn.
        54 => ("a3a4", vec![35u32]),
        55 => ("a3a4 h9g7", vec![35u32, 85]),
        56 => ("a3a4 b9c7", vec![35u32, 80]),
        // 5-6 cannon.
        57 => ("h2e2 h9g7 b0c2 i9h9 a0b0", vec![100u32, 90, 95, 80, 85]),
        58 => ("h2e2 h9g7 h0g2 i9h9 a0b0", vec![100u32, 90, 90, 80, 85]),
        // 5-7 cannon.
        59 => ("h2e2 h9g7 b0c2 i9h9 a0a1", vec![100u32, 90, 95, 80, 80]),
        60 => ("h2e2 h9g7 h0g2 i9h9 a0a1", vec![100u32, 90, 90, 80, 80]),
        // River patrol cannon.
        61 => ("h2e2 h9g7 b0c2 b7b6 h7h8", vec![100u32, 90, 95, 85, 75]),
        _ => ("", Vec::new()),
    }
}

proof fn lemma_find_skip(es: BookView, fen: Seq<char>, i: int)
    requires
        0 <= i < es.len(),
        es[i].0 != fen,
    ensures
        book_find(es, fen, i) == book_find(es, fen, i + 1),
{
}

impl OpeningBook {
    /// An empty book.
    pub fn new() -> (b: OpeningBook)
        ensures
            b.wf(),
            b@ == Seq::<(Seq<char>, Seq<BookMove>)>::empty(),
    {
        let b = OpeningBook { fens: Vec::new(), moves: Vec::new() };
        assert(b@ =~= Seq::<(Seq<char>, Seq<BookMove>)>::empty());
        b
    }

    /// Index of the entry for `fen`.
    fn find(&self, fen: &[char]) -> (r: Option<usize>)
        requires
            self.wf(),
        ensures
            match r {
                Some(i) => book_find(self@, fen@, 0) == Some(i as int),
                None => book_find(self@, fen@, 0) is None,
            },
            r matches Some(i) ==> i < self@.len() && self@[i as int].0 == fen@,
    {
        let mut i: usize = 0;
        while i < self.fens.len()
            invariant
                self.wf(),
                i <= self@.len(),
                book_find(self@, fen@, 0) == book_find(self@, fen@, i as int),
            decreases self@.len() - i,
        {
            assert(self@[i as int].0 == self.fens@[i as int]@);
            if chars_eq(self.fens[i].as_slice(), fen) {
                return Some(i);
            }
            proof {
                lemma_find_skip(self@, fen@, i as int);
            }
            i = i + 1;
        }
        None
    }

    /// Records `bm` as a candidate for the position `fen`.
    fn add_move(&mut self, fen: Vec<char>, bm: BookMove)
        requires
            old(self).wf(),
        ensures
            final(self).wf(),
            final(self)@ == book_add(old(self)@, fen@, bm),
    {
        match self.find(fen.as_slice()) {
            Some(i) => {
                let ghost before = self.moves@[i as int]@;
                self.moves[i].push(bm);
                assert(self.moves@[i as int]@ == before.push(bm));
                assert forall|j: int| 0 <= j < self@.len() && j != i implies self@[j] == old(self)@[j] by {
                    assert(self.moves@[j] == old(self).moves@[j]);
                }
                assert(self@ =~= book_add(old(self)@, fen@, bm));
            },
            None => {
                self.fens.push(fen);
                let mut one: Vec<BookMove> = Vec::new();
                one.push(bm);
                self.moves.push(one);
                assert(self@ =~= book_add(old(self)@, fen@, bm));
            },
        }
    }

    /// Records the move `mv_iccs` with `weight` for the position `fen`, if
    /// the move text is readable.
    fn add(&mut self, fen: &[char], mv_iccs: &[char], weight: u32)
        requires
            old(self).wf(),
        ensures
            final(self).wf(),
            final(self)@ == match iccs_move(mv_iccs@) {
                Some(mv) => book_add(old(self)@, fen@, BookMove { mv, weight }),
                None => old(self)@,
            },
    {
        if let Some(mv) = Move::from_iccs_chars(mv_iccs) {
            let mut key: Vec<char> = Vec::new();
            let mut i: usize = 0;
            while i < fen.len()
                invariant
                    i <= fen@.len(),
                    key@ == fen@.take(i as int),
                decreases fen@.len() - i,
            {
                key.push(fen[i]);
                i = i + 1;
            }
            assert(key@ =~= fen@);
            self.add_move(key, BookMove { mv, weight });
        }
    }

    /// Replays one line from the start position, recording each readable
    /// move with its weight (50 past the end of `weights`) for the position
    /// it is played in.
    fn add_line(&mut self, line: &str, weights: &[u32])
        requires
            old(self).wf(),
        ensures
            final(self).wf(),
            final(self)@ == replay_line(old(self)@, start_cells(), Color::Red, tokens(line@), weights@, 0),
    {
        let cs = chars_of(line);
        let toks = split_whitespace(cs.as_slice());
        let mut board = Board::start_position();
        let mut i: usize = 0;
        while i < toks.len()
            invariant
                self.wf(),
                board.wf(),
                i <= toks@.len(),
                toks@.len() == tokens(line@).len(),
                forall|k: int| 0 <= k < toks@.len() ==> #[trigger] toks@[k]@ == tokens(line@)[k],
                replay_line(old(self)@, start_cells(), Color::Red, tokens(line@), weights@, 0)
                    == replay_line(self@, board.squares@, board.side, tokens(line@), weights@, i as int),
            decreases toks@.len() - i,
        {
            let fen = board.to_fen();
            let fen_chars = chars_of(fen.as_str());
            let tok = toks[i].as_slice();
            assert(tok@ == tokens(line@)[i as int]);
            match Move::from_iccs_chars(tok) {
                Some(mv) => {
                    let w: u32 = if i < weights.len() {
                        weights[i]
                    } else {
                        50
                    };
                    self.add(fen_chars.as_slice(), tok, w);
                    board.make_move(mv);
                },
                None => {},
            }
            i = i + 1;
        }
    }

    /// Replays every opening line.
    fn add_openings(&mut self)
        requires
            old(self).wf(),
        ensures
            final(self).wf(),
            final(self)@ == replay_lines(old(self)@, OPENING_LINE_COUNT as int),
    {
        let mut k: usize = 0;
        while k < OPENING_LINE_COUNT
            invariant
                self.wf(),
                k <= OPENING_LINE_COUNT,
                self@ == replay_lines(old(self)@, k as int),
            decreases OPENING_LINE_COUNT - k,
        {
            let (line, weights) = opening_line_exec(k);
            self.add_line(line, weights.as_slice());
            k = k + 1;
        }
    }

    /// The book of common openings.
    pub fn default_book() -> (b: OpeningBook)
        ensures
            b.wf(),
            b@ == default_book_view(),
    {
        let mut b = OpeningBook::new();
        b.add_openings();
        b
    }

    /// The candidates recorded for the position with FEN `fen`.
    pub fn candidates(&self, fen: &str) -> (r: Option<Vec<BookMove>>)
        requires
            self.wf(),
        ensures
            match book_candidates(self@, fen@) {
                Some(c) => r matches Some(v) && v@ == c,
                None => r is None,
            },
    {
        let key = chars_of(fen);
        match self.find(key.as_slice()) {
            Some(i) => {
                let src = &self.moves[i];
                assert(src@ == self@[i as int].1);
                let mut out: Vec<BookMove> = Vec::new();
                let mut j: usize = 0;
                while j < src.len()
                    invariant
                        j <= src@.len(),
                        out@ == src@.take(j as int),
                    decreases src@.len() - j,
                {
                    out.push(src[j]);
                    j = j + 1;
                }
                assert(out@ =~= src@);
                Some(out)
            },
            None => None,
        }
    }

    /// The book move for `board`: among its candidates that are in `legal`,
    /// the last one of greatest weight; `None` where the position is not in
    /// the book or no candidate is legal.
    pub fn lookup(&self, board: &Board, legal: &[Move]) -> (r: Option<Move>)
        requires
            self.wf(),
            board.wf(),
        ensures
            r == book_choice(self@, fen_text(board.squares@, board.side), legal@),
            r matches Some(m) ==> legal@.contains(m),
    {
        let fen = board.to_fen();
        let key = chars_of(fen.as_str());
        match self.find(key.as_slice()) {
            Some(i) => {
                let cands = &self.moves[i];
                assert(cands@ == self@[i as int].1);
                let mut best: Option<BookMove> = None;
                let mut j: usize = 0;
                while j < cands.len()
                    invariant
                        j <= cands@.len(),
                        best == best_legal(cands@, legal@, j as int),
                        best matches Some(b) ==> legal@.contains(b.mv),
                    decreases cands@.len() - j,
                {
                    let c = cands[j];
                    if move_in(legal, c.mv) {
                        match best {
                            Some(p) => {
                                if c.weight >= p.weight {
                                    best = Some(c);
                                }
                            },
                            None => {
                                best = Some(c);
                            },
                        }
                    }
                    j = j + 1;
                }
                match best {
                    Some(b) => Some(b.mv),
                    None => None,
                }
            },
            None => None,
        }
    }
}

/// Whether `mv` occurs in `moves`.
fn move_in(moves: &[Move], mv: Move) -> (b: bool)
    ensures
        b == moves@.contains(mv),
{
    let mut i: usize = 0;
    while i < moves.len()
        invariant
            i <= moves@.len(),
            forall|j: int| 0 <= j < i ==> moves@[j] != mv,
        decreases moves@.len() - i,
    {
        let m = moves[i];
        if m.from.file == mv.from.file && m.from.rank == mv.from.rank && m.to.file == mv.to.file
            && m.to.rank == mv.to.rank {
            assert(moves@[i as int] == mv);
            return true;
        }
        i = i + 1;
    }
    false
}

} // verus!
