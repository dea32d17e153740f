//! Static exchange evaluation: the material result of the capture sequence
//! a capture starts on its target point, each side recapturing with its
//! least valuable piece that has a legal move onto the point.
//!
//! Which moves are legal on the board comes from the caller, as a list.

use vstd::prelude::*;
use crate::xiangqi::{square_at, square_from_index, Board, Color, Move, Piece, PieceKind, Square};

verus! {

/// Piece values of the exchange: the king counts as 60000.
pub open spec fn exchange_value(k: PieceKind) -> int {
    match k {
        PieceKind::King => 60_000,
        PieceKind::Chariot => 1000,
        PieceKind::Cannon => 500,
        PieceKind::Horse => 450,
        PieceKind::Elephant => 200,
        PieceKind::Advisor => 200,
        PieceKind::Pawn => 100,
    }
}

fn exchange_value_of(k: PieceKind) -> (v: i32)
    ensures
        v == exchange_value(k),
{
    match k {
        PieceKind::King => 60_000,
        PieceKind::Chariot => 1000,
        PieceKind::Cannon => 500,
        PieceKind::Horse => 450,
        PieceKind::Elephant => 200,
        PieceKind::Advisor => 200,
        PieceKind::Pawn => 100,
    }
}

/// The occupied points among the first `n` board points, in index order.
pub open spec fn pieces_upto(cells: Seq<Option<Piece>>, n: int) -> Seq<(Square, Piece)>
    decreases n,
{
    if n <= 0 {
        seq![]
    } else {
        let p = pieces_upto(cells, n - 1);
        match cells[n - 1] {
            Some(pc) => p.push((square_at(n - 1), pc)),
            None => p,
        }
    }
}

/// Whether entry `e` is a piece of `side` with a legal move onto `target`.
pub open spec fn can_recapture(e: (Square, Piece), side: Color, target: Square, legal: Seq<Move>) -> bool {
    e.1.color == side && legal.contains(Move { from: e.0, to: target })
}

/// Among the first `n` entries, the first least valuable one that can
/// recapture: its index and value.
pub open spec fn cheapest_attacker(
    occ: Seq<(Square, Piece)>,
    side: Color,
    target: Square,
    legal: Seq<Move>,
    n: int,
) -> Option<(int, int)>
    decreases n,
{
    if n <= 0 {
        None
    } else {
        let prev = cheapest_attacker(occ, side, target, legal, n - 1);
        let v = exchange_value(occ[n - 1].1.kind);
        if can_recapture(occ[n - 1], side, target, legal) && match prev {
            Some((_, pv)) => v < pv,
            None => true,
        } {
            Some((n - 1, v))
        } else {
            prev
        }
    }
}

/// Entries not on `sq`.
pub open spec fn off_point(sq: Square) -> spec_fn((Square, Piece)) -> bool {
    |e: (Square, Piece)| e.0 != sq
}

/// The pieces after the recapture of entry `i` by `side`: the capturer
/// leaves its point and whatever stood on the target is replaced by a pawn
/// of `side` (only its colour matters from then on).
pub open spec fn after_recapture(
    occ: Seq<(Square, Piece)>,
    i: int,
    side: Color,
    target: Square,
) -> Seq<(Square, Piece)> {
    occ.remove(i).filter(off_point(target)).push(
        (target, Piece { color: side, kind: PieceKind::Pawn }),
    )
}

/// The gains of the exchange: up to `rounds` more recaptures, `side` to
/// recapture next, `last` the value of the piece standing on the target.
pub open spec fn exchange_gains(
    occ: Seq<(Square, Piece)>,
    side: Color,
    target: Square,
    legal: Seq<Move>,
    last: int,
    gains: Seq<int>,
    rounds: nat,
) -> Seq<int>
    decreases rounds,
{
    if rounds == 0 {
        gains
    } else {
        match cheapest_attacker(occ, side, target, legal, occ.len() as int) {
            None => gains,
            Some((i, v)) => exchange_gains(
                after_recapture(occ, i, side, target),
                side.opponent_spec(),
                target,
                legal,
                v,
                gains.push(last),
                (rounds - 1) as nat,
            ),
        }
    }
}

/// The gains folded from the end: each entry becomes the negation of the
/// larger of itself and the negated folded value after it.
pub open spec fn resolve(g: Seq<int>, i: int) -> int
    decreases g.len() - i,
{
    if i >= g.len() - 1 {
        g[i]
    } else {
        let v = resolve(g, i + 1);
        -(if g[i] > -v {
            g[i]
        } else {
            -v
        })
    }
}

/// Most recaptures followed.
pub const EXCHANGE_ROUNDS: u32 = 15;

/// The exchange value of `mv` on a board whose side to move is `side`:
/// 0 for a move onto an empty point; otherwise the capture sequence is
/// played out (see [`exchange_gains`]) and folded (see [`resolve`]).
pub open spec fn see_spec(cells: Seq<Option<Piece>>, side: Color, mv: Move, legal: Seq<Move>) -> int {
    let target = mv.to;
    match cells[target.idx()] {
        None => 0,
        Some(victim) => {
            let attacker = cells[mv.from.idx()];
            let occ0 = pieces_upto(cells, 90).filter(off_point(target)).filter(off_point(mv.from));
            let occ = match attacker {
                Some(p) => occ0.push((target, p)),
                None => occ0,
            };
            let last = match attacker {
                Some(p) => exchange_value(p.kind),
                None => 0,
            };
            let gains = exchange_gains(
                occ,
                side.opponent_spec(),
                target,
                legal,
                last,
                seq![exchange_value(victim.kind)],
                EXCHANGE_ROUNDS as nat,
            );
            resolve(gains, 0)
        },
    }
}

/// Gains and folded values stay within the king's value.
pub open spec fn bounded(g: Seq<int>) -> bool {
    forall|j: int| 0 <= j < g.len() ==> 0 <= #[trigger] g[j] <= 60_000
}

proof fn lemma_resolve_bounds(g: Seq<int>, i: int)
    requires
        bounded(g),
        0 <= i < g.len(),
    ensures
        -60_000 <= resolve(g, i) <= 60_000,
    decreases g.len() - i,
{
    if i < g.len() - 1 {
        lemma_resolve_bounds(g, i + 1);
    }
}

proof fn lemma_cheapest_bounds(
    occ: Seq<(Square, Piece)>,
    side: Color,
    target: Square,
    legal: Seq<Move>,
    n: int,
)
    requires
        n <= occ.len(),
    ensures
        cheapest_attacker(occ, side, target, legal, n) matches Some((i, v)) ==> 0 <= i < n && v
            == exchange_value(occ[i].1.kind) && can_recapture(occ[i], side, target, legal),
    decreases n,
{
    if n > 0 {
        lemma_cheapest_bounds(occ, side, target, legal, n - 1);
    }
}

proof fn lemma_gains_bounded(
    occ: Seq<(Square, Piece)>,
    side: Color,
    target: Square,
    legal: Seq<Move>,
    last: int,
    gains: Seq<int>,
    rounds: nat,
)
    requires
        bounded(gains),
        gains.len() >= 1,
        0 <= last <= 60_000,
    ensures
        bounded(exchange_gains(occ, side, target, legal, last, gains, rounds)),
        exchange_gains(occ, side, target, legal, last, gains, rounds).len() >= 1,
        exchange_gains(occ, side, target, legal, last, gains, rounds).len() <= gains.len() + rounds,
    decreases rounds,
{
    if rounds > 0 {
        lemma_cheapest_bounds(occ, side, target, legal, occ.len() as int);
        match cheapest_attacker(occ, side, target, legal, occ.len() as int) {
            None => {},
            Some((i, v)) => {
                assert(bounded(gains.push(last)));
                lemma_gains_bounded(
                    after_recapture(occ, i, side, target),
                    side.opponent_spec(),
                    target,
                    legal,
                    v,
                    gains.push(last),
                    (rounds - 1) as nat,
                );
            },
        }
    }
}

/// Whether `m` is in `moves`.
fn contains_move(moves: &[Move], m: Move) -> (b: bool)
    ensures
        b == moves@.contains(m),
{
    let mut i: usize = 0;
    while i < moves.len()
        invariant
            i <= moves@.len(),
            forall|j: int| 0 <= j < i ==> moves@[j] != m,
        decreases moves@.len() - i,
    {
        if moves[i] == m {
            return true;
        }
        i = i + 1;
    }
    false
}

/// The entries not on `sq`, in order.
fn without_point(occ: &Vec<(Square, Piece)>, sq: Square) -> (v: Vec<(Square, Piece)>)
    ensures
        v@ == occ@.filter(off_point(sq)),
{
    let ghost pred = off_point(sq);
    let mut v: Vec<(Square, Piece)> = Vec::new();
    let mut i: usize = 0;
    while i < occ.len()
        invariant
            i <= occ@.len(),
            pred == off_point(sq),
            v@ == occ@.take(i as int).filter(pred),
        decreases occ@.len() - i,
    {
        let e = occ[i];
        proof {
            assert(occ@.take(i + 1).drop_last() =~= occ@.take(i as int));
            assert(occ@.take(i + 1).last() == e);
            reveal(Seq::filter);
        }
        if e.0 != sq {
            v.push(e);
        }
        i = i + 1;
    }
    assert(occ@.take(occ@.len() as int) =~= occ@);
    v
}

/// The occupied points of the board, in index order.
fn board_pieces(board: &Board) -> (v: Vec<(Square, Piece)>)
    requires
        board.wf(),
    ensures
        v@ == pieces_upto(board.squares@, 90),
{
    let mut v: Vec<(Square, Piece)> = Vec::new();
    let mut i: usize = 0;
    while i < 90
        invariant
            i <= 90,
            board.wf(),
            v@ == pieces_upto(board.squares@, i as int),
        decreases 90 - i,
    {
        match board.squares[i] {
            Some(p) => {
                v.push((square_from_index(i), p));
            },
            None => {},
        }
        i = i + 1;
    }
    v
}

/// The first least valuable entry that can recapture (see
/// [`cheapest_attacker`]).
fn find_cheapest(occ: &Vec<(Square, Piece)>, side: Color, target: Square, legal: &[Move]) -> (r:
    Option<(usize, i32)>)
    ensures
        match cheapest_attacker(occ@, side, target, legal@, occ@.len() as int) {
            Some((i, v)) => r == Some((i as usize, v as i32)),
            None => r is None,
        },
{
    let mut best: Option<(usize, i32)> = None;
    let mut i: usize = 0;
    while i < occ.len()
        invariant
            i <= occ@.len(),
            match cheapest_attacker(occ@, side, target, legal@, i as int) {
                Some((j, v)) => best == Some((j as usize, v as i32)) && 0 <= j < i && 0 <= v
                    <= 60_000,
                None => best is None,
            },
        decreases occ@.len() - i,
    {
        let (sq, p) = occ[i];
        let v = exchange_value_of(p.kind);
        let eligible = p.color == side && contains_move(legal, Move { from: sq, to: target });
        let better = match best {
            Some((_, bv)) => v < bv,
            None => true,
        };
        if eligible && better {
            best = Some((i, v));
        }
        i = i + 1;
    }
    best
}

/// The exchange value of capturing with `mv` (see [`see_spec`]); `legal`
/// lists the legal moves of `board`.
pub fn see(board: &Board, mv: Move, legal: &[Move]) -> (r: i32)
    requires
        board.wf(),
        mv.valid(),
    ensures
        r == see_spec(board.squares@, board.side, mv, legal@),
{
    let target = mv.to;
    let victim = match board.piece_at(target) {
        Some(p) => p,
        None => {
            return 0;
        },
    };
    let mut gains: Vec<i32> = Vec::new();
    gains.push(exchange_value_of(victim.kind));
    let all = board_pieces(board);
    let no_victim = without_point(&all, target);
    let mut occ = without_point(&no_victim, mv.from);
    let attacker = board.piece_at(mv.from);
    match attacker {
        Some(p) => {
            occ.push((target, p));
        },
        None => {},
    }
    let mut last: i32 = match attacker {
        Some(p) => exchange_value_of(p.kind),
        None => 0,
    };
    let mut side = board.side.opponent();
    let ghost goal = exchange_gains(
        occ@,
        side,
        target,
        legal@,
        last as int,
        gains@.map_values(|g: i32| g as int),
        EXCHANGE_ROUNDS as nat,
    );
    assert(gains@.map_values(|g: i32| g as int) =~= seq![exchange_value(victim.kind)]);
    let mut round: u32 = 0;
    while round < EXCHANGE_ROUNDS
        invariant_except_break
            round <= EXCHANGE_ROUNDS,
            0 <= last <= 60_000,
            gains@.len() >= 1,
            gains@.len() <= round + 1,
            forall|j: int| 0 <= j < gains@.len() ==> 0 <= #[trigger] gains@[j] <= 60_000,
            goal == exchange_gains(
                occ@,
                side,
                target,
                legal@,
                last as int,
                gains@.map_values(|g: i32| g as int),
                (EXCHANGE_ROUNDS - round) as nat,
            ),
        ensures
            gains@.len() >= 1,
            forall|j: int| 0 <= j < gains@.len() ==> 0 <= #[trigger] gains@[j] <= 60_000,
            goal == gains@.map_values(|g: i32| g as int),
        decreases EXCHANGE_ROUNDS - round,
    {
        proof {
            lemma_cheapest_bounds(occ@, side, target, legal@, occ@.len() as int);
        }
        let found = find_cheapest(&occ, side, target, legal);
        match found {
            None => {
                break;
            },
            Some((i, v)) => {
                let ghost before = gains@;
                let ghost occ_old = occ@;
                let ghost side_old = side;
                let ghost last_old = last;
                gains.push(last);
                assert(gains@.map_values(|g: i32| g as int) =~= before.map_values(|g: i32| g as int).push(
                    last as int,
                ));
                occ.remove(i);
                let mut next = without_point(&occ, target);
                next.push((target, Piece { color: side, kind: PieceKind::Pawn }));
                occ = next;
                last = v;
                side = side.opponent();
                round = round + 1;
                proof {
                    assert(occ@ =~= after_recapture(occ_old, i as int, side_old, target));
                    assert(goal == exchange_gains(
                        occ@,
                        side,
                        target,
                        legal@,
                        last as int,
                        gains@.map_values(|g: i32| g as int),
                        (EXCHANGE_ROUNDS - round) as nat,
                    ));
                }
            },
        }
    }
    proof {
        assert(bounded(goal));
        lemma_resolve_bounds(goal, 0);
    }
    let n0 = gains.len();
    let ghost g0 = goal;
    let mut n: usize = n0;
    while n > 1
        invariant
            1 <= n <= n0,
            n0 == g0.len(),
            gains@.len() == n0,
            bounded(g0),
            gains@[n - 1] == resolve(g0, n - 1),
            forall|j: int| 0 <= j < n - 1 ==> #[trigger] gains@[j] == g0[j],
        decreases n,
    {
        n = n - 1;
        proof {
            lemma_resolve_bounds(g0, n as int);
        }
        let a = gains[n - 1];
        let b = gains[n];
        let m = if a > -b {
            a
        } else {
            -b
        };
        gains.set(n - 1, -m);
    }
    gains[0]
}

} // verus!
