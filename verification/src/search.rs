//! Search heuristics of the built-in alpha-beta engine: mate-score
//! adjustment for the transposition table, the history and killer tables,
//! move ordering, and the pruning and reduction decisions the negamax and
//! quiescence searches take at each node.
//!
//! The recursive search itself generates legal moves and makes and unmakes
//! them on the core board; it calls these functions for every decision.

use vstd::prelude::*;
use crate::eval::MATE;
use crate::tt::{Bound, TtEntry};
use crate::xiangqi::{Board, Color, Move, Piece, PieceKind, Square};

verus! {

/// Maximum search depth, used to size per-ply tables.
pub const MAX_PLY: usize = 128;
/// Killer move slots per ply.
pub const NUM_KILLERS: usize = 2;
/// Minimum depth for null-move pruning.
pub const NULL_MOVE_MIN_DEPTH: u32 = 3;
/// Depth reduction of the null-move search.
pub const NULL_MOVE_REDUCTION: u32 = 2;
/// Minimum depth for late move reductions.
pub const LMR_MIN_DEPTH: u32 = 3;
/// Quiescence delta margin, slightly above a chariot.
pub const DELTA_MARGIN: i32 = 1100;
/// Minimum move index at which late move reductions apply.
pub const LMR_MIN_MOVE: usize = 3;
/// History scores above this halve the piece's whole row.
pub const HISTORY_LIMIT: i32 = 1_000_000;

/// Futility margin at depth 1..3.
pub open spec fn futility_margin(depth: int) -> int {
    if depth == 1 {
        200
    } else if depth == 2 {
        450
    } else if depth == 3 {
        750
    } else {
        0
    }
}

/// Quiet moves searched at depth 1..3 before late move pruning skips the
/// rest.
pub open spec fn lmp_move_count(depth: int) -> int {
    if depth == 1 {
        5
    } else if depth == 2 {
        8
    } else if depth == 3 {
        12
    } else {
        0
    }
}

/// A score within `MAX_PLY` of a mate score encodes distance from the root.
pub open spec fn is_mate_zone_high(score: int) -> bool {
    score > MATE - MAX_PLY as int
}

pub open spec fn is_mate_zone_low(score: int) -> bool {
    score < -MATE + MAX_PLY as int
}

/// Mate scores stored in the table count from the position, not the root.
pub open spec fn spec_score_to_tt(score: int, ply: int) -> int {
    if is_mate_zone_high(score) {
        score + ply
    } else if is_mate_zone_low(score) {
        score - ply
    } else {
        score
    }
}

/// Mate scores read from the table are made root-relative again.
pub open spec fn spec_score_from_tt(score: int, ply: int) -> int {
    if is_mate_zone_high(score) {
        score - ply
    } else if is_mate_zone_low(score) {
        score + ply
    } else {
        score
    }
}

/// Adjusts a mate score for storage: converts ply-relative to
/// position-relative.
pub fn score_to_tt(score: i32, ply: u32) -> (r: i32)
    requires
        ply <= i32::MAX,
        is_mate_zone_high(score as int) ==> score + ply <= i32::MAX,
        is_mate_zone_low(score as int) ==> score - ply >= i32::MIN,
    ensures
        r == spec_score_to_tt(score as int, ply as int),
{
    if score > MATE - MAX_PLY as i32 {
        score + ply as i32
    } else if score < -MATE + MAX_PLY as i32 {
        score - ply as i32
    } else {
        score
    }
}

/// Reverses [`score_to_tt`] for the current search path.
pub fn score_from_tt(score: i32, ply: u32) -> (r: i32)
    requires
        ply <= i32::MAX,
        is_mate_zone_high(score as int) ==> score - ply >= i32::MIN,
        is_mate_zone_low(score as int) ==> score + ply <= i32::MAX,
    ensures
        r == spec_score_from_tt(score as int, ply as int),
{
    if score > MATE - MAX_PLY as i32 {
        score - ply as i32
    } else if score < -MATE + MAX_PLY as i32 {
        score + ply as i32
    } else {
        score
    }
}

/// Reading back a stored score at the ply it was stored from gives the
/// score that was stored: the two adjustments undo each other.
pub proof fn law_tt_score_roundtrip(score: int, ply: int)
    requires
        0 <= ply <= MAX_PLY as int,
    ensures
        spec_score_from_tt(spec_score_to_tt(score, ply), ply) == score,
{
}

/// Row of the history table for a piece: Red 0..6, Black 7..13, in the
/// order king, advisor, elephant, horse, chariot, cannon, pawn.
pub open spec fn history_row(p: Piece) -> int {
    (match p.color {
        Color::Red => 0int,
        Color::Black => 7int,
    }) + match p.kind {
        PieceKind::King => 0int,
        PieceKind::Advisor => 1,
        PieceKind::Elephant => 2,
        PieceKind::Horse => 3,
        PieceKind::Chariot => 4,
        PieceKind::Cannon => 5,
        PieceKind::Pawn => 6,
    }
}

/// History heuristic: per piece and destination, the squared depths of the
/// quiet moves that caused cutoffs. The view is the 14 x 90 table in
/// row-major order.
pub struct HistoryTable {
    table: Vec<i32>,
}

/// Row `row` of a history table after adding `bonus` to column `to`: the
/// row is halved when the new value passes [`HISTORY_LIMIT`].
pub open spec fn history_after(t: Seq<i32>, row: int, to: int, bonus: int) -> Seq<i32> {
    let v = t[row * 90 + to] + bonus;
    if v > HISTORY_LIMIT {
        Seq::new(
            t.len(),
            |j: int|
                if row * 90 <= j < row * 90 + 90 {
                    (if j == row * 90 + to {
                        v / 2
                    } else {
                        t[j] / 2
                    }) as i32
                } else {
                    t[j]
                },
        )
    } else {
        t.update(row * 90 + to, v as i32)
    }
}

impl View for HistoryTable {
    type V = Seq<i32>;

    closed spec fn view(&self) -> Seq<i32> {
        self.table@
    }
}

impl HistoryTable {
    /// Well-formed: 14 rows of 90, every entry in `0..=HISTORY_LIMIT`.
    pub open spec fn wf(&self) -> bool {
        &&& self@.len() == 14 * 90
        &&& forall|j: int| 0 <= j < self@.len() ==> 0 <= #[trigger] self@[j] <= HISTORY_LIMIT
    }

    /// An all-zero table.
    pub fn new() -> (h: HistoryTable)
        ensures
            h.wf(),
            h@ == Seq::new(14 * 90, |j: int| 0i32),
    {
        let mut table: Vec<i32> = Vec::new();
        let mut i: usize = 0;
        while i < 14 * 90
            invariant
                i <= 14 * 90,
                table@ == Seq::new(i as nat, |j: int| 0i32),
            decreases 14 * 90 - i,
        {
            table.push(0);
            i = i + 1;
        }
        HistoryTable { table }
    }

    /// History row of a piece (see [`history_row`]).
    pub fn piece_index(piece: Piece) -> (i: usize)
        ensures
            i == history_row(piece),
            i < 14,
    {
        let c: usize = match piece.color {
            Color::Red => 0,
            Color::Black => 7,
        };
        let k: usize = match piece.kind {
            PieceKind::King => 0,
            PieceKind::Advisor => 1,
            PieceKind::Elephant => 2,
            PieceKind::Horse => 3,
            PieceKind::Chariot => 4,
            PieceKind::Cannon => 5,
            PieceKind::Pawn => 6,
        };
        c + k
    }

    /// Credits the quiet move `mv` (played by the piece on `mv.from`) with
    /// `depth * depth`; nothing happens when `mv.from` is empty.
    ///
    /// The bonus may be at most [`HISTORY_LIMIT`]: only then does halving
    /// the row bring an entry that went over the limit back under it, so
    /// that the table stays within the limit and later bonuses cannot
    /// overflow `i32`. Search depths stay under [`MAX_PLY`], whose square is
    /// far below the limit.
    pub fn record_cutoff(&mut self, board: &Board, mv: Move, depth: u32)
        requires
            old(self).wf(),
            board.wf(),
            mv.valid(),
            depth * depth <= HISTORY_LIMIT,
        ensures
            final(self).wf(),
            final(self)@ == match board.cell(mv.from) {
                Some(p) => history_after(
                    old(self)@,
                    history_row(p),
                    mv.to.idx(),
                    (depth * depth) as int,
                ),
                None => old(self)@,
            },
    {
        if let Some(piece) = board.piece_at(mv.from) {
            let row = Self::piece_index(piece);
            let to = mv.to.index();
            let bonus: i32 = (depth * depth) as i32;
            assert(0 <= self.table@[row * 90 + to] <= HISTORY_LIMIT);
            let v = self.table[row * 90 + to] + bonus;
            if v > HISTORY_LIMIT {
                let ghost t = self.table@;
                self.table.set(row * 90 + to, v);
                let ghost u = self.table@;
                let mut sq: usize = 0;
                while sq < 90
                    invariant
                        t == old(self)@,
                        t.len() == 14 * 90,
                        forall|j: int| 0 <= j < t.len() ==> 0 <= #[trigger] t[j] <= HISTORY_LIMIT,
                        row < 14,
                        to < 90,
                        v == t[row * 90 + to] + bonus,
                        v > HISTORY_LIMIT,
                        v <= 2 * HISTORY_LIMIT,
                        u == t.update(row * 90 + to, v),
                        sq <= 90,
                        self.table@.len() == t.len(),
                        forall|j: int|
                            0 <= j < t.len() ==> #[trigger] self.table@[j] == if row * 90 <= j < row
                                * 90 + sq {
                                (u[j] / 2) as i32
                            } else {
                                u[j]
                            },
                    decreases 90 - sq,
                {
                    let cur = self.table[row * 90 + sq];
                    self.table.set(row * 90 + sq, cur / 2);
                    sq = sq + 1;
                }
                assert(self.table@ =~= history_after(t, row as int, to as int, bonus as int));
            } else {
                self.table.set(row * 90 + to, v);
            }
        }
    }

    /// History score of `mv`: the entry of the moving piece's row at the
    /// destination, or 0 when `mv.from` is empty.
    pub fn score(&self, board: &Board, mv: Move) -> (s: i32)
        requires
            self.wf(),
            board.wf(),
            mv.valid(),
        ensures
            s == match board.cell(mv.from) {
                Some(p) => self@[history_row(p) * 90 + mv.to.idx()] as int,
                None => 0,
            },
            0 <= s <= HISTORY_LIMIT,
    {
        if let Some(piece) = board.piece_at(mv.from) {
            self.table[Self::piece_index(piece) * 90 + mv.to.index()]
        } else {
            0
        }
    }
}

/// Killer moves: per ply, the last two distinct quiet moves that caused
/// a cutoff, most recent first. The view holds slot `2 * ply + k`.
pub struct Killers {
    slots: Vec<Option<Move>>,
}

impl View for Killers {
    type V = Seq<Option<Move>>;

    closed spec fn view(&self) -> Seq<Option<Move>> {
        self.slots@
    }
}

/// Slots after recording killer `mv` at `ply`: a move already first is
/// kept as is; otherwise the first slot moves to the second and `mv`
/// becomes first. Plies beyond the table are ignored.
pub open spec fn killers_after(k: Seq<Option<Move>>, ply: int, mv: Move) -> Seq<Option<Move>> {
    if ply >= MAX_PLY as int || k[2 * ply] == Some(mv) {
        k
    } else {
        k.update(2 * ply + 1, k[2 * ply]).update(2 * ply, Some(mv))
    }
}

fn is_move(slot: Option<Move>, mv: Move) -> (b: bool)
    ensures
        b == (slot == Some(mv)),
{
    match slot {
        Some(m) => m.from.file == mv.from.file && m.from.rank == mv.from.rank && m.to.file
            == mv.to.file && m.to.rank == mv.to.rank,
        None => false,
    }
}

impl Killers {
    pub open spec fn wf(&self) -> bool {
        self@.len() == 2 * MAX_PLY
    }

    /// No killers at any ply.
    pub fn new() -> (k: Killers)
        ensures
            k.wf(),
            k@ == Seq::new(2 * MAX_PLY as nat, |i: int| None::<Move>),
    {
        let mut slots: Vec<Option<Move>> = Vec::new();
        let mut i: usize = 0;
        while i < 2 * MAX_PLY
            invariant
                i <= 2 * MAX_PLY,
                slots@ == Seq::new(i as nat, |j: int| None::<Move>),
            decreases 2 * MAX_PLY - i,
        {
            slots.push(None);
            i = i + 1;
        }
        Killers { slots }
    }

    /// Records a quiet cutoff move at `ply` (see [`killers_after`]).
    pub fn store_killer(&mut self, ply: usize, mv: Move)
        requires
            old(self).wf(),
        ensures
            final(self).wf(),
            final(self)@ == killers_after(old(self)@, ply as int, mv),
    {
        if ply >= MAX_PLY {
            return;
        }
        if is_move(self.slots[2 * ply], mv) {
            return;
        }
        let first = self.slots[2 * ply];
        self.slots.set(2 * ply + 1, first);
        self.slots.set(2 * ply, Some(mv));
    }

    /// The two killers of `ply`; none beyond the table.
    pub fn at(&self, ply: usize) -> (r: (Option<Move>, Option<Move>))
        requires
            self.wf(),
        ensures
            ply < MAX_PLY ==> r == (self@[2 * ply as int], self@[2 * ply + 1]),
            ply >= MAX_PLY ==> r == (None::<Move>, None::<Move>),
    {
        if ply < MAX_PLY {
            (self.slots[2 * ply], self.slots[2 * ply + 1])
        } else {
            (None, None)
        }
    }
}

/// MVV-LVA values used to order captures.
pub open spec fn mvv_lva(kind: PieceKind) -> int {
    match kind {
        PieceKind::King => 6000,
        PieceKind::Chariot => 600,
        PieceKind::Cannon => 300,
        PieceKind::Horse => 270,
        PieceKind::Elephant | PieceKind::Advisor => 120,
        PieceKind::Pawn => 60,
    }
}

fn mvv_lva_val(kind: PieceKind) -> (v: i32)
    ensures
        v == mvv_lva(kind),
{
    match kind {
        PieceKind::King => 6000,
        PieceKind::Chariot => 600,
        PieceKind::Cannon => 300,
        PieceKind::Horse => 270,
        PieceKind::Elephant | PieceKind::Advisor => 120,
        PieceKind::Pawn => 60,
    }
}

/// Ordering key of a move (lower is searched first): the table move, then
/// captures by most valuable victim and least valuable attacker, then the
/// two killers, then quiet moves by history score.
pub open spec fn order_key(
    cells: Seq<Option<Piece>>,
    m: Move,
    tt_move: Option<Move>,
    killers: (Option<Move>, Option<Move>),
    history_score: int,
) -> int {
    if tt_move == Some(m) {
        -10_000_000
    } else if cells[m.to.idx()] is Some {
        let victim = mvv_lva(cells[m.to.idx()]->0.kind);
        let attacker = match cells[m.from.idx()] {
            Some(p) => mvv_lva(p.kind),
            None => 0,
        };
        -(5_000_000 + victim * 16 - attacker)
    } else if killers.0 == Some(m) {
        -4_000_000
    } else if killers.1 == Some(m) {
        -3_900_000
    } else {
        -history_score
    }
}

/// Ordering key of `m` (see [`order_key`]).
pub fn move_order_key(
    board: &Board,
    m: Move,
    tt_move: Option<Move>,
    killers: (Option<Move>, Option<Move>),
    history: &HistoryTable,
) -> (k: i32)
    requires
        board.wf(),
        history.wf(),
        m.valid(),
    ensures
        k == order_key(
            board.squares@,
            m,
            tt_move,
            killers,
            match board.cell(m.from) {
                Some(p) => history@[history_row(p) * 90 + m.to.idx()] as int,
                None => 0,
            },
        ),
{
    if is_move(tt_move, m) {
        return -10_000_000;
    }
    if let Some(victim_piece) = board.piece_at(m.to) {
        let victim = mvv_lva_val(victim_piece.kind);
        let attacker = match board.piece_at(m.from) {
            Some(p) => mvv_lva_val(p.kind),
            None => 0,
        };
        return -(5_000_000 + victim * 16 - attacker);
    }
    if is_move(killers.0, m) {
        return -4_000_000;
    }
    if is_move(killers.1, m) {
        return -3_900_000;
    }
    -history.score(board, m)
}

/// Captures are searched most valuable victim first: of two captures that
/// are not the table move, where the first takes a strictly more valuable
/// victim (by [`mvv_lva`]) with an attacker worth no more than the second
/// one's, the first has the strictly smaller key. (Without the attacker
/// condition the weights can cross: a chariot taking a cannon keys after a
/// pawn taking a horse.)
pub proof fn law_more_valuable_victim_first(
    cells: Seq<Option<Piece>>,
    m1: Move,
    m2: Move,
    tt_move: Option<Move>,
    killers: (Option<Move>, Option<Move>),
    h1: int,
    h2: int,
    victim1: Piece,
    victim2: Piece,
    attacker1: Piece,
    attacker2: Piece,
)
    requires
        tt_move != Some(m1),
        tt_move != Some(m2),
        cells[m1.to.idx()] == Some(victim1),
        cells[m2.to.idx()] == Some(victim2),
        cells[m1.from.idx()] == Some(attacker1),
        cells[m2.from.idx()] == Some(attacker2),
        mvv_lva(victim1.kind) > mvv_lva(victim2.kind),
        mvv_lva(attacker1.kind) <= mvv_lva(attacker2.kind),
    ensures
        order_key(cells, m1, tt_move, killers, h1) < order_key(cells, m2, tt_move, killers, h2),
{
}

/// Among captures of equally valuable victims (neither the table move), the
/// one made by the strictly less valuable attacker has the strictly smaller
/// key.
pub proof fn law_least_valuable_attacker_first(
    cells: Seq<Option<Piece>>,
    m1: Move,
    m2: Move,
    tt_move: Option<Move>,
    killers: (Option<Move>, Option<Move>),
    h1: int,
    h2: int,
    victim1: Piece,
    victim2: Piece,
    attacker1: Piece,
    attacker2: Piece,
)
    requires
        tt_move != Some(m1),
        tt_move != Some(m2),
        cells[m1.to.idx()] == Some(victim1),
        cells[m2.to.idx()] == Some(victim2),
        cells[m1.from.idx()] == Some(attacker1),
        cells[m2.from.idx()] == Some(attacker2),
        mvv_lva(victim1.kind) == mvv_lva(victim2.kind),
        mvv_lva(attacker1.kind) < mvv_lva(attacker2.kind),
    ensures
        order_key(cells, m1, tt_move, killers, h1) < order_key(cells, m2, tt_move, killers, h2),
{
}

/// The table move comes before everything, and every capture (not the table
/// move) comes before every move that is neither the table move nor a
/// capture: killers and quiet moves, whose history score lies in
/// `0..=HISTORY_LIMIT`.
pub proof fn law_captures_before_quiet_moves(
    cells: Seq<Option<Piece>>,
    capture: Move,
    other: Move,
    tt_move: Option<Move>,
    killers: (Option<Move>, Option<Move>),
    h_capture: int,
    h_other: int,
)
    requires
        tt_move != Some(capture),
        tt_move != Some(other),
        cells[capture.to.idx()] is Some,
        cells[other.to.idx()] is None,
        0 <= h_other <= HISTORY_LIMIT,
    ensures
        order_key(cells, capture, tt_move, killers, h_capture) < order_key(
            cells,
            other,
            tt_move,
            killers,
            h_other,
        ),
        tt_move is Some ==> order_key(cells, tt_move->0, tt_move, killers, h_other) < order_key(
            cells,
            capture,
            tt_move,
            killers,
            h_capture,
        ),
{
}

/// Among moves that are neither the table move nor captures, the first
/// killer comes before the second, both come before every other quiet move
/// (history scores in `0..=HISTORY_LIMIT`), and of two other quiet moves
/// the one with the strictly higher history score comes first.
pub proof fn law_killers_then_history(
    cells: Seq<Option<Piece>>,
    m1: Move,
    m2: Move,
    tt_move: Option<Move>,
    killers: (Option<Move>, Option<Move>),
    h1: int,
    h2: int,
)
    requires
        tt_move != Some(m1),
        tt_move != Some(m2),
        cells[m1.to.idx()] is None,
        cells[m2.to.idx()] is None,
        0 <= h1 <= HISTORY_LIMIT,
        0 <= h2 <= HISTORY_LIMIT,
    ensures
        killers.0 == Some(m1) && killers.1 == Some(m2) && m1 != m2 ==> order_key(
            cells,
            m1,
            tt_move,
            killers,
            h1,
        ) < order_key(cells, m2, tt_move, killers, h2),
        (killers.0 == Some(m1) || killers.1 == Some(m1)) && killers.0 != Some(m2) && killers.1
            != Some(m2) ==> order_key(cells, m1, tt_move, killers, h1) < order_key(
            cells,
            m2,
            tt_move,
            killers,
            h2,
        ),
        killers.0 != Some(m1) && killers.1 != Some(m1) && killers.0 != Some(m2) && killers.1
            != Some(m2) && h1 > h2 ==> order_key(cells, m1, tt_move, killers, h1) < order_key(
            cells,
            m2,
            tt_move,
            killers,
            h2,
        ),
{
}

/// Late move reduction: 2 plies deep in the tree for late moves, else 1.
pub fn lmr_reduction(depth: u32, move_index: usize) -> (r: u32)
    ensures
        r == if depth >= 6 && move_index >= 6 {
            2u32
        } else {
            1u32
        },
{
    if depth >= 6 && move_index >= 6 {
        2
    } else {
        1
    }
}

/// Whether the side to move has a piece other than king, pawns, advisors
/// and elephants (null-move pruning is unsafe in such zugzwang-prone
/// endings).
pub open spec fn has_null_move_material(cells: Seq<Option<Piece>>, side: Color) -> bool {
    exists|i: int|
        0 <= i < 90 && #[trigger] cells[i] is Some && cells[i]->0.color == side && (
        cells[i]->0.kind == PieceKind::Horse || cells[i]->0.kind == PieceKind::Chariot
            || cells[i]->0.kind == PieceKind::Cannon)
}

/// Null-move pruning is safe for the side to move (see
/// [`has_null_move_material`]).
pub fn can_do_null_move(board: &Board) -> (b: bool)
    requires
        board.wf(),
    ensures
        b == has_null_move_material(board.squares@, board.side),
{
    let side = board.side_to_move();
    let mut i: usize = 0;
    while i < 90
        invariant
            board.wf(),
            side == board.side,
            i <= 90,
            forall|j: int|
                0 <= j < i ==> !(#[trigger] board.squares@[j] is Some && board.squares@[j]->0.color
                    == side && (board.squares@[j]->0.kind == PieceKind::Horse
                    || board.squares@[j]->0.kind == PieceKind::Chariot
                    || board.squares@[j]->0.kind == PieceKind::Cannon)),
        decreases 90 - i,
    {
        if let Some(p) = board.squares[i] {
            if p.color == side {
                match p.kind {
                    PieceKind::King | PieceKind::Pawn | PieceKind::Advisor
                    | PieceKind::Elephant => {},
                    _ => {
                        return true;
                    },
                }
            }
        }
        i = i + 1;
    }
    false
}

/// Outcome of consulting the table at a node.
#[derive(Debug, Clone, Copy, PartialEq, Eq, Structural)]
pub enum TtProbe {
    /// The cached result settles the node with this score.
    Cutoff(i32),
    /// Search on, with this (possibly raised) alpha.
    Continue(i32),
}

/// What a cached entry decides at a node searched to `depth` at `ply`:
/// an entry at least as deep returns its exact score, a lower bound at or
/// above beta, or an upper bound at or below alpha; a lower bound above
/// alpha raises alpha. Shallower entries decide nothing.
pub open spec fn tt_decision(entry: TtEntry, depth: u32, ply: u32, alpha: i32, beta: i32) -> TtProbe {
    if entry.depth >= depth as u16 {
        let s = spec_score_from_tt(entry.score as int, ply as int);
        match entry.bound {
            Bound::Exact => TtProbe::Cutoff(s as i32),
            Bound::Lower => if s >= beta {
                TtProbe::Cutoff(s as i32)
            } else if s > alpha {
                TtProbe::Continue(s as i32)
            } else {
                TtProbe::Continue(alpha)
            },
            Bound::Upper => if s <= alpha {
                TtProbe::Cutoff(s as i32)
            } else {
                TtProbe::Continue(alpha)
            },
        }
    } else {
        TtProbe::Continue(alpha)
    }
}

/// Decides a node from its cached entry (see [`tt_decision`]).
pub fn tt_node_decision(entry: TtEntry, depth: u32, ply: u32, alpha: i32, beta: i32) -> (r: TtProbe)
    requires
        ply <= MAX_PLY,
    ensures
        r == tt_decision(entry, depth, ply, alpha, beta),
{
    if entry.depth >= depth as u16 {
        let tt_score = score_from_tt(entry.score, ply);
        match entry.bound {
            Bound::Exact => TtProbe::Cutoff(tt_score),
            Bound::Lower => {
                if tt_score >= beta {
                    TtProbe::Cutoff(tt_score)
                } else if tt_score > alpha {
                    TtProbe::Continue(tt_score)
                } else {
                    TtProbe::Continue(alpha)
                }
            },
            Bound::Upper => {
                if tt_score <= alpha {
                    TtProbe::Cutoff(tt_score)
                } else {
                    TtProbe::Continue(alpha)
                }
            },
        }
    } else {
        TtProbe::Continue(alpha)
    }
}

/// Bound kind of a node's result: at or below the alpha the node started with an upper
/// bound, at or above beta a lower bound, otherwise exact.
pub fn node_bound(best: i32, orig_alpha: i32, beta: i32) -> (b: Bound)
    ensures
        b == if best <= orig_alpha {
            Bound::Upper
        } else if best >= beta {
            Bound::Lower
        } else {
            Bound::Exact
        },
{
    if best <= orig_alpha {
        Bound::Upper
    } else if best >= beta {
        Bound::Lower
    } else {
        Bound::Exact
    }
}

/// Score of a node with no legal move: mated, `ply` moves from the root.
pub fn mated_score(ply: u32) -> (s: i32)
    requires
        ply <= MAX_PLY,
    ensures
        s == -MATE + ply,
{
    -MATE + ply as i32
}

/// Depth of a node after the check extension: one more ply when in check.
pub fn extended_depth(depth: u32, in_check: bool) -> (d: u32)
    requires
        depth < u32::MAX,
    ensures
        d == if in_check {
            depth + 1
        } else {
            depth as int
        },
{
    if in_check {
        depth + 1
    } else {
        depth
    }
}

/// Internal iterative deepening runs (at depth - 3) when no table move is
/// known at a node of depth 5 or more that is not in check.
pub fn iid_applies(has_tt_move: bool, depth: u32, in_check: bool) -> (b: bool)
    ensures
        b == (!has_tt_move && depth >= 5 && !in_check),
{
    !has_tt_move && depth >= 5 && !in_check
}

/// Null-move pruning is tried when allowed, not in check, at depth 3 or
/// more, with enough material (see [`can_do_null_move`]).
pub fn null_move_applies(board: &Board, allow_null: bool, in_check: bool, depth: u32) -> (b: bool)
    requires
        board.wf(),
    ensures
        b == (allow_null && !in_check && depth >= NULL_MOVE_MIN_DEPTH && has_null_move_material(
            board.squares@,
            board.side,
        )),
{
    allow_null && !in_check && depth >= NULL_MOVE_MIN_DEPTH && can_do_null_move(board)
}

/// Depth of the null-move search: `depth - 3`, at least 0.
pub fn null_move_depth(depth: u32) -> (d: u32)
    ensures
        d == if depth >= NULL_MOVE_REDUCTION + 1 {
            depth - NULL_MOVE_REDUCTION - 1
        } else {
            0
        },
{
    depth.saturating_sub(NULL_MOVE_REDUCTION + 1)
}

/// Futility pruning at frontier nodes: not in check, depth 1..3, and the
/// static evaluation plus the depth's margin cannot reach alpha.
pub fn futility_applies(in_check: bool, depth: u32, static_eval: i32, alpha: i32) -> (b: bool)
    requires
        -10_000_000 <= static_eval <= 10_000_000,
    ensures
        b == (!in_check && depth <= 3 && static_eval + futility_margin(depth as int) <= alpha),
{
    if in_check || depth > 3 {
        return false;
    }
    let margin: i32 = if depth == 1 {
        200
    } else if depth == 2 {
        450
    } else if depth == 3 {
        750
    } else {
        0
    };
    static_eval + margin <= alpha
}

/// Whether the `i`-th move of a node is skipped: a later quiet move at a
/// futile node, or a quiet move past the late-move-pruning count at depth
/// 1..3 when not in check.
pub fn skip_move(futile: bool, in_check: bool, is_capture: bool, depth: u32, i: usize) -> (b: bool)
    ensures
        b == ((futile && i > 0 && !is_capture) || (!in_check && !is_capture && depth <= 3 && i
            >= lmp_move_count(depth as int))),
{
    if futile && i > 0 && !is_capture {
        return true;
    }
    if !in_check && !is_capture && depth <= 3 {
        let count: usize = if depth == 1 {
            5
        } else if depth == 2 {
            8
        } else if depth == 3 {
            12
        } else {
            0
        };
        return i >= count;
    }
    false
}

/// Reduction of a later move: quiet, non-checking moves out of check, at
/// depth 3 or more and index 3 or more, get [`lmr_reduction`]; others none.
pub fn move_reduction(is_capture: bool, gives_check: bool, in_check: bool, depth: u32, i: usize) -> (r: u32)
    ensures
        r == if !is_capture && !gives_check && !in_check && depth >= LMR_MIN_DEPTH && i
            >= LMR_MIN_MOVE {
            if depth >= 6 && i >= 6 {
                2u32
            } else {
                1u32
            }
        } else {
            0u32
        },
{
    if !is_capture && !gives_check && !in_check && depth >= LMR_MIN_DEPTH && i >= LMR_MIN_MOVE {
        lmr_reduction(depth, i)
    } else {
        0
    }
}

/// The search window of an iterative-deepening step: from depth 4, a
/// window of 50 either side of the previous score unless it is near mate;
/// otherwise the full window.
pub fn aspiration_window(depth: u32, prev_score: i32) -> (w: (i32, i32))
    requires
        prev_score > i32::MIN,
    ensures
        w == if depth >= 4 && -(MATE - 1000) < prev_score < MATE - 1000 {
            ((prev_score - 50) as i32, (prev_score + 50) as i32)
        } else {
            ((-MATE * 2) as i32, (MATE * 2) as i32)
        },
{
    if depth >= 4 && (if prev_score < 0 {
        -prev_score
    } else {
        prev_score
    }) < MATE - 1000 {
        (prev_score - 50, prev_score + 50)
    } else {
        (-MATE * 2, MATE * 2)
    }
}

/// Whether a root result fell outside the aspiration window and needs a
/// full-window search.
pub fn aspiration_failed(best: i32, window: (i32, i32)) -> (b: bool)
    ensures
        b == (best <= window.0 || best >= window.1),
{
    best <= window.0 || best >= window.1
}

/// Iterative deepening stops when time ran out or a mate was found.
pub fn deepening_done(stopped: bool, best_score: i32) -> (b: bool)
    requires
        best_score > i32::MIN,
    ensures
        b == (stopped || best_score >= MATE - 1000 || best_score <= -(MATE - 1000)),
{
    stopped || (if best_score < 0 {
        -best_score
    } else {
        best_score
    }) >= MATE - 1000
}

/// Outcome of the stand-pat test in quiescence search.
#[derive(Debug, Clone, Copy, PartialEq, Eq, Structural)]
pub enum StandPat {
    /// Return this score without searching captures.
    Return(i32),
    /// Search captures with this alpha.
    Search(i32),
}

/// Stand-pat decision: at or above beta return beta; otherwise raise alpha
/// to the static score, and return alpha when even a chariot-sized gain
/// ([`DELTA_MARGIN`]) cannot reach it.
pub open spec fn stand_pat_decision(stand_pat: int, alpha: int, beta: int) -> StandPat {
    if stand_pat >= beta {
        StandPat::Return(beta as i32)
    } else {
        let a = if stand_pat > alpha {
            stand_pat
        } else {
            alpha
        };
        if stand_pat + DELTA_MARGIN < a {
            StandPat::Return(a as i32)
        } else {
            StandPat::Search(a as i32)
        }
    }
}

/// Stand-pat decision of a quiescence node (see [`stand_pat_decision`]).
pub fn quiescence_stand_pat(stand_pat: i32, alpha: i32, beta: i32) -> (d: StandPat)
    requires
        -10_000_000 <= stand_pat <= 10_000_000,
    ensures
        d == stand_pat_decision(stand_pat as int, alpha as int, beta as int),
{
    if stand_pat >= beta {
        return StandPat::Return(beta);
    }
    let mut a = alpha;
    if stand_pat > a {
        a = stand_pat;
    }
    if stand_pat + DELTA_MARGIN < a {
        StandPat::Return(a)
    } else {
        StandPat::Search(a)
    }
}

/// A null-window result of a later move needs a full-depth re-search when
/// it beat alpha after a reduction.
pub fn needs_full_depth_research(score: i32, alpha: i32, reduction: u32) -> (b: bool)
    ensures
        b == (score > alpha && reduction > 0),
{
    score > alpha && reduction > 0
}

/// A null-window result needs a full-window re-search when it falls
/// strictly inside the window (a new principal variation).
pub fn needs_full_window_research(score: i32, alpha: i32, beta: i32) -> (b: bool)
    ensures
        b == (score > alpha && score < beta),
{
    score > alpha && score < beta
}

/// `p` is a permutation of `0..n`.
pub open spec fn is_permutation(p: Seq<int>, n: int) -> bool {
    &&& p.len() == n
    &&& forall|a: int| 0 <= a < n ==> 0 <= #[trigger] p[a] < n
    &&& forall|a: int, b: int| 0 <= a < n && 0 <= b < n && a != b ==> #[trigger] p[a] != #[trigger] p[b]
}

/// `out` is `items` stably sorted by `keys` (one key per item): a
/// reordering by a permutation under which keys do not decrease and items
/// with equal keys keep their order.
pub open spec fn stable_sorted(items: Seq<Move>, keys: Seq<int>, out: Seq<Move>) -> bool {
    exists|p: Seq<int>|
        {
            &&& is_permutation(p, items.len() as int)
            &&& out.len() == items.len()
            &&& forall|a: int| 0 <= a < out.len() ==> #[trigger] out[a] == items[p[a]]
            &&& forall|a: int, b: int|
                0 <= a < b < out.len() ==> keys[#[trigger] p[a]] <= keys[#[trigger] p[b]]
            &&& forall|a: int, b: int|
                0 <= a < b < out.len() && keys[p[a]] == keys[p[b]] ==> #[trigger] p[a]
                    < #[trigger] p[b]
        }
}

/// Stable insertion sort of `moves` by `keys` (parallel vectors).
fn sort_by_keys(keys: &mut Vec<i32>, moves: &mut Vec<Move>)
    requires
        old(keys)@.len() == old(moves)@.len(),
    ensures
        stable_sorted(
            old(moves)@,
            Seq::new(old(keys)@.len(), |a: int| old(keys)@[a] as int),
            final(moves)@,
        ),
{
    let ghost k0 = keys@;
    let ghost m0 = moves@;
    let ghost kk = Seq::new(k0.len(), |a: int| k0[a] as int);
    let n = keys.len();
    let ghost mut p: Seq<int> = Seq::new(n as nat, |a: int| a);
    let mut i: usize = 0;
    while i < n
        invariant
            n == keys@.len(),
            n == moves@.len(),
            n == k0.len(),
            n == m0.len(),
            kk == Seq::new(k0.len(), |a: int| k0[a] as int),
            i <= n,
            is_permutation(p, n as int),
            forall|a: int| 0 <= a < n ==> #[trigger] moves@[a] == m0[p[a]],
            forall|a: int| 0 <= a < n ==> #[trigger] keys@[a] == k0[p[a]],
            forall|a: int| i <= a < n ==> #[trigger] p[a] == a,
            forall|a: int| 0 <= a < i ==> #[trigger] p[a] < i,
            forall|a: int, b: int| 0 <= a < b < i ==> keys@[a] <= keys@[b],
            forall|a: int, b: int|
                0 <= a < b < i && keys@[a] == keys@[b] ==> #[trigger] p[a] < #[trigger] p[b],
        decreases n - i,
    {
        let mut j: usize = i;
        while j > 0 && keys[j - 1] > keys[j]
            invariant
                n == keys@.len(),
                n == moves@.len(),
                n == k0.len(),
                n == m0.len(),
                i < n,
                j <= i,
                is_permutation(p, n as int),
                forall|a: int| 0 <= a < n ==> #[trigger] moves@[a] == m0[p[a]],
                forall|a: int| 0 <= a < n ==> #[trigger] keys@[a] == k0[p[a]],
                forall|a: int| i < a < n ==> #[trigger] p[a] == a,
                p[j as int] == i,
                forall|a: int| 0 <= a <= i && a != j ==> #[trigger] p[a] < i,
                forall|a: int, b: int| 0 <= a < b < j ==> keys@[a] <= keys@[b],
                forall|a: int, b: int| j < a < b <= i ==> keys@[a] <= keys@[b],
                forall|a: int, b: int| 0 <= a < j && j < b <= i ==> keys@[a] <= keys@[b],
                forall|b: int| j < b <= i ==> keys@[j as int] < #[trigger] keys@[b],
                forall|a: int, b: int|
                    0 <= a < b <= i && a != j && b != j && keys@[a] == keys@[b] ==> #[trigger] p[a]
                        < #[trigger] p[b],
            decreases j,
        {
            let kt = keys[j - 1];
            let kj = keys[j];
            keys.set(j - 1, kj);
            keys.set(j, kt);
            let mt = moves[j - 1];
            let mj = moves[j];
            moves.set(j - 1, mj);
            moves.set(j, mt);
            proof {
                let old_p = p;
                p = p.update(j - 1, old_p[j as int]).update(j as int, old_p[j - 1]);
                assert forall|a: int, b: int| 0 <= a < n && 0 <= b < n && a != b implies #[trigger] p[a]
                    != #[trigger] p[b] by {
                    let oa = if a == j - 1 {
                        j as int
                    } else if a == j {
                        j - 1
                    } else {
                        a
                    };
                    let ob = if b == j - 1 {
                        j as int
                    } else if b == j {
                        j - 1
                    } else {
                        b
                    };
                    assert(p[a] == old_p[oa]);
                    assert(p[b] == old_p[ob]);
                }
            }
            j = j - 1;
        }
        proof {
            assert forall|a: int, b: int|
                0 <= a < b < i + 1 && keys@[a] == keys@[b] implies #[trigger] p[a] < #[trigger] p[b] by {
                if a == j {
                    assert(keys@[a] < keys@[b]);
                } else if b == j {
                    assert(p[a] < i);
                }
            }
            assert forall|a: int, b: int| 0 <= a < b < i + 1 implies keys@[a] <= keys@[b] by {
                if a < j && b == j {
                    if j > 0 {
                        if a < j - 1 {
                            assert(keys@[a] <= keys@[j - 1]);
                        }
                    }
                }
            }
        }
        i = i + 1;
    }
    proof {
        assert forall|a: int| 0 <= a < moves@.len() implies #[trigger] moves@[a] == m0[p[a]] by {}
        assert forall|a: int, b: int| 0 <= a < b < moves@.len() implies kk[#[trigger] p[a]] <= kk[#[trigger] p[b]] by {
            assert(keys@[a] <= keys@[b]);
        }
        assert forall|a: int, b: int|
            0 <= a < b < moves@.len() && kk[p[a]] == kk[p[b]] implies #[trigger] p[a] < #[trigger] p[b] by {
            assert(keys@[a] == keys@[b]);
        }
    }
}

/// Orders `moves` for search: stably by [`order_key`], computing each key
/// once.
pub fn order_moves(
    board: &Board,
    moves: &mut Vec<Move>,
    tt_move: Option<Move>,
    killers: (Option<Move>, Option<Move>),
    history: &HistoryTable,
)
    requires
        board.wf(),
        history.wf(),
        forall|a: int| 0 <= a < old(moves)@.len() ==> (#[trigger] old(moves)@[a]).valid(),
    ensures
        stable_sorted(
            old(moves)@,
            Seq::new(
                old(moves)@.len(),
                |a: int|
                    order_key(
                        board.squares@,
                        old(moves)@[a],
                        tt_move,
                        killers,
                        match board.cell(old(moves)@[a].from) {
                            Some(p) => history@[history_row(p) * 90 + old(moves)@[a].to.idx()] as int,
                            None => 0,
                        },
                    ),
            ),
            final(moves)@,
        ),
{
    let ghost m0 = moves@;
    let mut keys: Vec<i32> = Vec::new();
    let mut i: usize = 0;
    while i < moves.len()
        invariant
            moves@ == m0,
            board.wf(),
            history.wf(),
            forall|a: int| 0 <= a < m0.len() ==> (#[trigger] m0[a]).valid(),
            i <= m0.len(),
            keys@.len() == i,
            forall|a: int|
                0 <= a < i ==> #[trigger] keys@[a] == order_key(
                    board.squares@,
                    m0[a],
                    tt_move,
                    killers,
                    match board.cell(m0[a].from) {
                        Some(p) => history@[history_row(p) * 90 + m0[a].to.idx()] as int,
                        None => 0,
                    },
                ),
        decreases m0.len() - i,
    {
        let k = move_order_key(board, moves[i], tt_move, killers, history);
        keys.push(k);
        i = i + 1;
    }
    let ghost k0 = keys@;
    sort_by_keys(&mut keys, moves);
    assert(Seq::new(k0.len(), |a: int| k0[a] as int) =~= Seq::new(
        m0.len(),
        |a: int|
            order_key(
                board.squares@,
                m0[a],
                tt_move,
                killers,
                match board.cell(m0[a].from) {
                    Some(p) => history@[history_row(p) * 90 + m0[a].to.idx()] as int,
                    None => 0,
                },
            ),
    ));
}

} // verus!
