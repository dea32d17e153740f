//! Endgame knowledge: recognises a few theoretical wins and draws by the
//! pieces each side has left, where the general evaluation misjudges them.

use vstd::prelude::*;
use crate::eval::count_pieces;
use crate::xiangqi::{Board, Color, Piece, PieceKind};

verus! {

/// Result of endgame classification.
#[derive(Debug, Clone, Copy, PartialEq, Eq, Structural)]
pub enum EndgameResult {
    /// Theoretical win for the given side.
    Win(Color),
    /// Theoretical draw.
    Draw,
    /// Not a known endgame: use the general evaluation.
    Unknown,
}

/// Kind counted in slot `k` of a count array: king, advisor, elephant,
/// horse, chariot, cannon, pawn.
pub open spec fn kind_at(k: int) -> PieceKind {
    if k == 0 {
        PieceKind::King
    } else if k == 1 {
        PieceKind::Advisor
    } else if k == 2 {
        PieceKind::Elephant
    } else if k == 3 {
        PieceKind::Horse
    } else if k == 4 {
        PieceKind::Chariot
    } else if k == 5 {
        PieceKind::Cannon
    } else {
        PieceKind::Pawn
    }
}

/// Pieces of each kind a side has on the board, in [`kind_at`] order.
pub open spec fn piece_counts(cells: Seq<Option<crate::xiangqi::Piece>>, color: Color) -> Seq<int> {
    Seq::new(7, |k: int| count_pieces(cells, color, kind_at(k), 90))
}

/// Non-king pieces in a count array.
pub open spec fn non_king(c: Seq<int>) -> int {
    c[1] + c[2] + c[3] + c[4] + c[5] + c[6]
}

/// Few pieces left: at most three non-king pieces a side and at most one
/// chariot a side.
pub open spec fn simple_endgame(r: Seq<int>, b: Seq<int>) -> bool {
    non_king(r) <= 3 && non_king(b) <= 3 && r[4] <= 1 && b[4] <= 1
}

/// One lone minor piece (advisor, elephant, horse or cannon) against a bare
/// king cannot force mate.
pub open spec fn lone_minor(c: Seq<int>) -> bool {
    c[1] == 1 || c[2] == 1 || c[3] == 1 || c[5] == 1
}

/// Classification from the two sides' counts.
pub open spec fn classify(r: Seq<int>, b: Seq<int>) -> EndgameResult {
    let ra = non_king(r);
    let ba = non_king(b);
    if r[0] != 1 || b[0] != 1 {
        EndgameResult::Unknown
    } else if !simple_endgame(r, b) {
        EndgameResult::Unknown
    } else if ra == 0 && ba == 0 {
        EndgameResult::Draw
    } else if ra == 0 && ba == 1 && lone_minor(b) {
        EndgameResult::Draw
    } else if ra == 0 && ba == 1 && b[6] == 1 {
        EndgameResult::Unknown
    } else if ba == 0 && ra == 1 && lone_minor(r) {
        EndgameResult::Draw
    } else if ba == 0 && ra == 1 && r[6] == 1 {
        EndgameResult::Unknown
    } else if ra == 1 && ba == 0 && r[4] == 1 {
        EndgameResult::Win(Color::Red)
    } else if ba == 1 && ra == 0 && b[4] == 1 {
        EndgameResult::Win(Color::Black)
    } else if r[4] == 1 && b[4] == 0 && ra == 1 && ba <= 2 {
        // Chariot against minor pieces.
        EndgameResult::Win(Color::Red)
    } else if b[4] == 1 && r[4] == 0 && ba == 1 && ra <= 2 {
        EndgameResult::Win(Color::Black)
    } else if r[3] == 2 && ra == 2 && ba == 0 {
        // Two horses against a bare king.
        EndgameResult::Win(Color::Red)
    } else if b[3] == 2 && ba == 2 && ra == 0 {
        EndgameResult::Win(Color::Black)
    } else if r[3] == 1 && r[5] == 1 && ra == 2 && ba == 0 {
        // Horse and cannon against a bare king.
        EndgameResult::Win(Color::Red)
    } else if b[3] == 1 && b[5] == 1 && ba == 2 && ra == 0 {
        EndgameResult::Win(Color::Black)
    } else {
        EndgameResult::Unknown
    }
}

/// Counts `color`'s pieces by kind, in [`kind_at`] order.
pub fn count_pieces_by_kind(board: &Board, color: Color) -> (counts: [usize; 7])
    requires
        board.wf(),
    ensures
        forall|k: int| 0 <= k < 7 ==> counts@[k] == piece_counts(board.squares@, color)[k],
        forall|k: int| 0 <= k < 7 ==> counts@[k] <= 90,
{
    let ghost cells = board.squares@;
    let mut c0: usize = 0;
    let mut c1: usize = 0;
    let mut c2: usize = 0;
    let mut c3: usize = 0;
    let mut c4: usize = 0;
    let mut c5: usize = 0;
    let mut c6: usize = 0;
    let mut i: usize = 0;
    while i < 90
        invariant
            board.wf(),
            cells == board.squares@,
            i <= 90,
            c0 == count_pieces(cells, color, PieceKind::King, i as int),
            c1 == count_pieces(cells, color, PieceKind::Advisor, i as int),
            c2 == count_pieces(cells, color, PieceKind::Elephant, i as int),
            c3 == count_pieces(cells, color, PieceKind::Horse, i as int),
            c4 == count_pieces(cells, color, PieceKind::Chariot, i as int),
            c5 == count_pieces(cells, color, PieceKind::Cannon, i as int),
            c6 == count_pieces(cells, color, PieceKind::Pawn, i as int),
            c0 <= i && c1 <= i && c2 <= i && c3 <= i && c4 <= i && c5 <= i && c6 <= i,
        decreases 90 - i,
    {
        if let Some(p) = board.squares[i] {
            if p.color == color {
                match p.kind {
                    PieceKind::King => {
                        c0 = c0 + 1;
                    },
                    PieceKind::Advisor => {
                        c1 = c1 + 1;
                    },
                    PieceKind::Elephant => {
                        c2 = c2 + 1;
                    },
                    PieceKind::Horse => {
                        c3 = c3 + 1;
                    },
                    PieceKind::Chariot => {
                        c4 = c4 + 1;
                    },
                    PieceKind::Cannon => {
                        c5 = c5 + 1;
                    },
                    PieceKind::Pawn => {
                        c6 = c6 + 1;
                    },
                }
            }
        }
        i = i + 1;
    }
    [c0, c1, c2, c3, c4, c5, c6]
}

/// Whether the position is a simple endgame (see [`simple_endgame`]).
pub fn is_simple_endgame(red_counts: &[usize; 7], black_counts: &[usize; 7]) -> (b: bool)
    requires
        red_counts@[1] + red_counts@[2] + red_counts@[3] + red_counts@[4] + red_counts@[5]
            + red_counts@[6] <= usize::MAX,
        black_counts@[1] + black_counts@[2] + black_counts@[3] + black_counts@[4]
            + black_counts@[5] + black_counts@[6] <= usize::MAX,
    ensures
        b == simple_endgame(
            Seq::new(7, |k: int| red_counts@[k] as int),
            Seq::new(7, |k: int| black_counts@[k] as int),
        ),
{
    let red_pieces = red_counts[1] + red_counts[2] + red_counts[3] + red_counts[4] + red_counts[5]
        + red_counts[6];
    let black_pieces = black_counts[1] + black_counts[2] + black_counts[3] + black_counts[4]
        + black_counts[5] + black_counts[6];
    red_pieces <= 3 && black_pieces <= 3 && red_counts[4] <= 1 && black_counts[4] <= 1
}

/// Classifies the position (see [`classify`]).
pub fn classify_endgame(board: &Board) -> (r: EndgameResult)
    requires
        board.wf(),
    ensures
        r == classify(
            piece_counts(board.squares@, Color::Red),
            piece_counts(board.squares@, Color::Black),
        ),
{
    let red_counts = count_pieces_by_kind(board, Color::Red);
    let black_counts = count_pieces_by_kind(board, Color::Black);
    let ghost r = piece_counts(board.squares@, Color::Red);
    let ghost b = piece_counts(board.squares@, Color::Black);
    assert(Seq::new(7, |k: int| red_counts@[k] as int) =~= r);
    assert(Seq::new(7, |k: int| black_counts@[k] as int) =~= b);

    if red_counts[0] != 1 || black_counts[0] != 1 {
        return EndgameResult::Unknown;
    }
    if !is_simple_endgame(&red_counts, &black_counts) {
        return EndgameResult::Unknown;
    }
    let red_attackers = red_counts[1] + red_counts[2] + red_counts[3] + red_counts[4]
        + red_counts[5] + red_counts[6];
    let black_attackers = black_counts[1] + black_counts[2] + black_counts[3] + black_counts[4]
        + black_counts[5] + black_counts[6];

    // King against king.
    if red_attackers == 0 && black_attackers == 0 {
        return EndgameResult::Draw;
    }
    // A single minor piece against a bare king.
    if red_attackers == 0 {
        if black_attackers == 1 {
            if black_counts[1] == 1 || black_counts[2] == 1 || black_counts[3] == 1
                || black_counts[5] == 1 {
                return EndgameResult::Draw;
            }
            // A single pawn depends on the position.
            if black_counts[6] == 1 {
                return EndgameResult::Unknown;
            }
        }
    }
    if black_attackers == 0 {
        if red_attackers == 1 {
            if red_counts[1] == 1 || red_counts[2] == 1 || red_counts[3] == 1 || red_counts[5]
                == 1 {
                return EndgameResult::Draw;
            }
            if red_counts[6] == 1 {
                return EndgameResult::Unknown;
            }
        }
    }
    // A single chariot against a bare king.
    if red_attackers == 1 && black_attackers == 0 && red_counts[4] == 1 {
        return EndgameResult::Win(Color::Red);
    }
    if black_attackers == 1 && red_attackers == 0 && black_counts[4] == 1 {
        return EndgameResult::Win(Color::Black);
    }
    // A chariot against minor pieces.
    if red_counts[4] == 1 && black_counts[4] == 0 && red_attackers == 1 && black_attackers <= 2 {
        return EndgameResult::Win(Color::Red);
    }
    if black_counts[4] == 1 && red_counts[4] == 0 && black_attackers == 1 && red_attackers <= 2 {
        return EndgameResult::Win(Color::Black);
    }
    // Two horses against a bare king.
    if red_counts[3] == 2 && red_attackers == 2 && black_attackers == 0 {
        return EndgameResult::Win(Color::Red);
    }
    if black_counts[3] == 2 && black_attackers == 2 && red_attackers == 0 {
        return EndgameResult::Win(Color::Black);
    }
    // Horse and cannon against a bare king.
    if red_counts[3] == 1 && red_counts[5] == 1 && red_attackers == 2 && black_attackers == 0 {
        return EndgameResult::Win(Color::Red);
    }
    if black_counts[3] == 1 && black_counts[5] == 1 && black_attackers == 2 && red_attackers == 0 {
        return EndgameResult::Win(Color::Black);
    }
    EndgameResult::Unknown
}

/// Score (Red's view) for a recognised endgame.
pub open spec fn endgame_score(r: EndgameResult) -> Option<int> {
    match r {
        EndgameResult::Win(Color::Red) => Some(800),
        EndgameResult::Win(Color::Black) => Some(-800),
        EndgameResult::Draw => Some(0),
        EndgameResult::Unknown => None,
    }
}

/// Evaluation override for recognised endgames, from Red's view: +800 for
/// a Red win, -800 for a Black win, 0 for a draw, `None` otherwise.
pub fn endgame_eval(board: &Board) -> (v: Option<i32>)
    requires
        board.wf(),
    ensures
        match v {
            Some(x) => endgame_score(
                classify(
                    piece_counts(board.squares@, Color::Red),
                    piece_counts(board.squares@, Color::Black),
                ),
            ) == Some(x as int),
            None => endgame_score(
                classify(
                    piece_counts(board.squares@, Color::Red),
                    piece_counts(board.squares@, Color::Black),
                ),
            ) is None,
        },
{
    match classify_endgame(board) {
        EndgameResult::Win(Color::Red) => Some(800),
        EndgameResult::Win(Color::Black) => Some(-800),
        EndgameResult::Draw => Some(0),
        EndgameResult::Unknown => None,
    }
}

/// The classification is colour-symmetric: swapping the two sides' counts
/// swaps the winner and keeps draws and unknowns.
pub proof fn law_classify_symmetric(r: Seq<int>, b: Seq<int>)
    requires
        r.len() == 7,
        b.len() == 7,
    ensures
        classify(b, r) == match classify(r, b) {
            EndgameResult::Win(c) => EndgameResult::Win(c.opponent_spec()),
            other => other,
        },
{
}

/// A lone chariot wins against minor pieces: with both kings on the board,
/// when one side's only piece besides its king is a single chariot and the
/// other side has no chariot and at most two pieces besides its king, the
/// position is a win for the chariot side, scored ±800 from Red's view.
/// Counts are in [`kind_at`] order (king, advisor, elephant, horse,
/// chariot, cannon, pawn).
pub proof fn law_lone_chariot_beats_minor_pieces(r: Seq<int>, b: Seq<int>)
    requires
        r.len() == 7,
        b.len() == 7,
        forall|k: int| 0 <= k < 7 ==> r[k] >= 0 && b[k] >= 0,
        r[0] == 1,
        b[0] == 1,
    ensures
        (r[4] == 1 && r[1] + r[2] + r[3] + r[5] + r[6] == 0 && b[4] == 0
            && b[1] + b[2] + b[3] + b[5] + b[6] <= 2) ==> classify(r, b) == EndgameResult::Win(
            Color::Red,
        ) && endgame_score(classify(r, b)) == Some(800int),
        (b[4] == 1 && b[1] + b[2] + b[3] + b[5] + b[6] == 0 && r[4] == 0
            && r[1] + r[2] + r[3] + r[5] + r[6] <= 2) ==> classify(r, b) == EndgameResult::Win(
            Color::Black,
        ) && endgame_score(classify(r, b)) == Some(-800int),
{
    assert(r[1] >= 0 && r[2] >= 0 && r[3] >= 0 && r[5] >= 0 && r[6] >= 0);
    assert(b[1] >= 0 && b[2] >= 0 && b[3] >= 0 && b[5] >= 0 && b[6] >= 0);
}

/// The other recognised endings, stated from Red's side (Black's follow by
/// [`law_classify_symmetric`]), with counts in [`kind_at`] order and
/// `rn`, `bn` the two sides' numbers of pieces besides the king:
/// a missing king, more than three pieces besides the king or two chariots
/// on a side leave the position unknown; two bare kings draw; a single
/// advisor, elephant, horse or cannon against a bare king draws; a single
/// pawn against a bare king is left unknown; two horses, or a horse and a
/// cannon, against a bare king win.
pub proof fn law_endgame_catalogue(r: Seq<int>, b: Seq<int>)
    requires
        r.len() == 7,
        b.len() == 7,
        forall|k: int| 0 <= k < 7 ==> r[k] >= 0 && b[k] >= 0,
    ensures
        ({
            let rn = r[1] + r[2] + r[3] + r[4] + r[5] + r[6];
            let bn = b[1] + b[2] + b[3] + b[4] + b[5] + b[6];
            &&& (r[0] != 1 || b[0] != 1) ==> classify(r, b) == EndgameResult::Unknown
            &&& (rn > 3 || bn > 3 || r[4] > 1 || b[4] > 1) ==> classify(r, b)
                == EndgameResult::Unknown
            &&& (r[0] == 1 && b[0] == 1 && rn == 0 && bn == 0) ==> classify(r, b)
                == EndgameResult::Draw
            &&& (r[0] == 1 && b[0] == 1 && bn == 0 && rn == 1 && r[4] == 0 && r[6] == 0)
                ==> classify(r, b) == EndgameResult::Draw
            &&& (r[0] == 1 && b[0] == 1 && bn == 0 && r[6] == 1 && rn == 1) ==> classify(r, b)
                == EndgameResult::Unknown
            &&& (r[0] == 1 && b[0] == 1 && bn == 0 && r[3] == 2 && rn == 2) ==> classify(r, b)
                == EndgameResult::Win(Color::Red)
            &&& (r[0] == 1 && b[0] == 1 && bn == 0 && r[3] == 1 && r[5] == 1 && rn == 2)
                ==> classify(r, b) == EndgameResult::Win(Color::Red)
        }),
{
    assert(r[1] >= 0 && r[2] >= 0 && r[3] >= 0 && r[4] >= 0 && r[5] >= 0 && r[6] >= 0);
    assert(b[1] >= 0 && b[2] >= 0 && b[3] >= 0 && b[4] >= 0 && b[5] >= 0 && b[6] >= 0);
}

/// A point's occupant with its colour swapped.
pub open spec fn swap_colour(p: Option<Piece>) -> Option<Piece> {
    match p {
        Some(q) => Some(Piece { color: q.color.opponent_spec(), kind: q.kind }),
        None => None,
    }
}

/// The board with every piece's colour swapped, each on its own point.
pub open spec fn colours_swapped(cells: Seq<Option<Piece>>) -> Seq<Option<Piece>> {
    Seq::new(cells.len(), |i: int| swap_colour(cells[i]))
}

proof fn lemma_swap_matches(x: Option<Piece>, color: Color, kind: PieceKind)
    ensures
        (swap_colour(x) == Some(Piece { color, kind })) == (x == Some(
            Piece { color: color.opponent_spec(), kind },
        )),
{
}

proof fn lemma_count_swapped(cells: Seq<Option<Piece>>, color: Color, kind: PieceKind, n: int)
    requires
        n <= cells.len(),
    ensures
        count_pieces(colours_swapped(cells), color, kind, n) == count_pieces(
            cells,
            color.opponent_spec(),
            kind,
            n,
        ),
    decreases n,
{
    if n > 0 {
        lemma_count_swapped(cells, color, kind, n - 1);
        lemma_swap_matches(cells[n - 1], color, kind);
    }
}

/// Counting a side's pieces of a kind counts them in the multiset of the
/// board's points.
proof fn lemma_count_is_multiset_count(cells: Seq<Option<Piece>>, color: Color, kind: PieceKind, n: int)
    requires
        0 <= n <= cells.len(),
    ensures
        count_pieces(cells, color, kind, n) == cells.take(n).to_multiset().count(
            Some(Piece { color, kind }),
        ),
    decreases n,
{
    broadcast use vstd::seq_lib::group_to_multiset_ensures;

    if n == 0 {
        assert(cells.take(0) =~= Seq::<Option<Piece>>::empty());
    } else {
        lemma_count_is_multiset_count(cells, color, kind, n - 1);
        assert(cells.take(n) =~= cells.take(n - 1).push(cells[n - 1]));
    }
}

/// A board that holds exactly the pieces of another with every colour
/// swapped, on any points (its points, as a multiset, are those of the
/// colour-swapped board), gets the swapped classification: a win goes to
/// the other side, draws and unknowns stay.
pub proof fn law_classify_colour_swap(cells: Seq<Option<Piece>>, swapped: Seq<Option<Piece>>)
    requires
        cells.len() == 90,
        swapped.len() == 90,
        swapped.to_multiset() == colours_swapped(cells).to_multiset(),
    ensures
        classify(piece_counts(swapped, Color::Red), piece_counts(swapped, Color::Black)) == match classify(
            piece_counts(cells, Color::Red),
            piece_counts(cells, Color::Black),
        ) {
            EndgameResult::Win(c) => EndgameResult::Win(c.opponent_spec()),
            other => other,
        },
{
    assert forall|color: Color, k: int| 0 <= k < 7 implies #[trigger] piece_counts(swapped, color)[k]
        == piece_counts(cells, color.opponent_spec())[k] by {
        let kind = kind_at(k);
        let cs = colours_swapped(cells);
        lemma_count_is_multiset_count(swapped, color, kind, 90);
        lemma_count_is_multiset_count(cs, color, kind, 90);
        assert(swapped.take(90) =~= swapped);
        assert(cs.take(90) =~= cs);
        lemma_count_swapped(cells, color, kind, 90);
    }
    assert(piece_counts(swapped, Color::Red) =~= piece_counts(cells, Color::Black));
    assert(piece_counts(swapped, Color::Black) =~= piece_counts(cells, Color::Red));
    law_classify_symmetric(piece_counts(cells, Color::Red), piece_counts(cells, Color::Black));
}

} // verus!
