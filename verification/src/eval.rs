//! Static evaluation for the built-in engine.
//!
//! Scores are in centipawns from Red's point of view (positive favours Red)
//! until [`evaluate`] turns them to the requested side. The evaluation adds:
//!
//! 1. material, by standard piece values;
//! 2. piece-square tables for pawns, horses, chariots and cannons;
//! 3. mobility: reachable points of chariots, horses and cannons, weighted;
//! 4. king safety: advisors and elephants kept, king on the centre file and
//!    on the home rank;
//! 5. pawn structure: pawns across the river and pawns on adjacent files;
//! 6. in endgames, driving the losing king out of its palace centre and the
//!    kings toward each other.

use vstd::prelude::*;
use crate::xiangqi::{
    cell_at, crossed_river, king_index_from, on_board, square_at, square_crossed_river,
    square_from_index, square_index,
    Board, Color, Piece, PieceKind, Square,
};

verus! {

/// A decisive (mate) score, kept well below `i32::MAX` so that
/// `±MATE - ply` stays representable and orderable.
pub const MATE: i32 = 1_000_000;

/// Piece values in centipawns.
pub open spec fn material(kind: PieceKind) -> int {
    match kind {
        PieceKind::King => 60000,
        PieceKind::Chariot => 1000,
        PieceKind::Cannon => 500,
        PieceKind::Horse => 450,
        PieceKind::Elephant => 200,
        PieceKind::Advisor => 200,
        PieceKind::Pawn => 100,
    }
}

/// Piece value in centipawns.
pub fn material_value(kind: PieceKind) -> (v: i32)
    ensures
        v == material(kind),
{
    match kind {
        PieceKind::King => 60_000,
        PieceKind::Chariot => 1_000,
        PieceKind::Cannon => 500,
        PieceKind::Horse => 450,
        PieceKind::Elephant => 200,
        PieceKind::Advisor => 200,
        PieceKind::Pawn => 100,
    }
}

// Piece-square tables, indexed from Red's side (rank 0 first).

pub const PAWN_PST: [i32; 90] = [
    0, 0, 0, 0, 0, 0, 0, 0, 0,
    0, 0, 0, 0, 0, 0, 0, 0, 0,
    0, 0, 0, 0, 0, 0, 0, 0, 0,
    2, 0, 4, 0, 6, 0, 4, 0, 2,
    6, 12, 18, 24, 30, 24, 18, 12, 6,
    20, 30, 40, 50, 55, 50, 40, 30, 20,
    20, 30, 45, 55, 60, 55, 45, 30, 20,
    20, 28, 40, 50, 55, 50, 40, 28, 20,
    0, 0, 0, 0, 0, 0, 0, 0, 0,
    0, 0, 0, 0, 0, 0, 0, 0, 0,
];

pub const HORSE_PST: [i32; 90] = [
    0, -4, 0, 0, 0, 0, 0, -4, 0,
    -4, 2, 6, 6, 4, 6, 6, 2, -4,
    2, 6, 10, 12, 12, 12, 10, 6, 2,
    4, 12, 14, 16, 16, 16, 14, 12, 4,
    6, 14, 18, 20, 22, 20, 18, 14, 6,
    6, 14, 18, 20, 22, 20, 18, 14, 6,
    4, 12, 16, 18, 18, 18, 16, 12, 4,
    2, 8, 12, 14, 14, 14, 12, 8, 2,
    0, 4, 8, 10, 10, 10, 8, 4, 0,
    0, 0, 4, 6, 6, 6, 4, 0, 0,
];

pub const CHARIOT_PST: [i32; 90] = [
    -2, 4, 4, 8, 8, 8, 4, 4, -2,
    4, 8, 8, 12, 12, 12, 8, 8, 4,
    2, 6, 6, 10, 10, 10, 6, 6, 2,
    6, 10, 10, 14, 14, 14, 10, 10, 6,
    8, 12, 12, 16, 16, 16, 12, 12, 8,
    8, 12, 12, 16, 16, 16, 12, 12, 8,
    8, 12, 12, 16, 16, 16, 12, 12, 8,
    8, 14, 14, 18, 18, 18, 14, 14, 8,
    10, 14, 14, 18, 18, 18, 14, 14, 10,
    6, 10, 10, 14, 14, 14, 10, 10, 6,
];

pub const CANNON_PST: [i32; 90] = [
    2, 2, 0, -2, -4, -2, 0, 2, 2,
    0, 2, 0, 2, 4, 2, 0, 2, 0,
    2, 2, 0, 6, 8, 6, 0, 2, 2,
    0, 0, 2, 8, 10, 8, 2, 0, 0,
    0, 2, 4, 8, 12, 8, 4, 2, 0,
    0, 0, 4, 8, 12, 8, 4, 0, 0,
    2, 2, 4, 10, 12, 10, 4, 2, 2,
    2, 2, 4, 8, 10, 8, 4, 2, 2,
    0, 2, 2, 6, 8, 6, 2, 2, 0,
    0, 0, 2, 4, 6, 4, 2, 0, 0,
];

/// Table index of a point seen from `color`'s side: Black's ranks are
/// mirrored so both sides read the tables from their own back rank.
pub open spec fn pst_index(sq: Square, color: Color) -> int {
    match color {
        Color::Red => sq.idx(),
        Color::Black => square_index(sq.file as int, 9 - sq.rank),
    }
}

/// Piece-square bonus; kings, advisors and elephants have none.
pub open spec fn pst(kind: PieceKind, sq: Square, color: Color) -> int {
    let i = pst_index(sq, color);
    match kind {
        PieceKind::Pawn => PAWN_PST@[i] as int,
        PieceKind::Horse => HORSE_PST@[i] as int,
        PieceKind::Chariot => CHARIOT_PST@[i] as int,
        PieceKind::Cannon => CANNON_PST@[i] as int,
        _ => 0,
    }
}

/// Every table entry lies in `-4..=60`.
proof fn lemma_pst_bounds(kind: PieceKind, sq: Square, color: Color)
    requires
        sq.valid(),
    ensures
        -4i32 <= pst(kind, sq, color) <= 60,
{
    let i = pst_index(sq, color);
    assert(0 <= i < 90);
    assert(forall|j: int| 0 <= j < 90 ==> -4i32 <= #[trigger] PAWN_PST@[j] <= 60) by {
        assert(PAWN_PST@ =~= seq![
            0i32, 0, 0, 0, 0, 0, 0, 0, 0,
            0, 0, 0, 0, 0, 0, 0, 0, 0,
            0, 0, 0, 0, 0, 0, 0, 0, 0,
            2, 0, 4, 0, 6, 0, 4, 0, 2,
            6, 12, 18, 24, 30, 24, 18, 12, 6,
            20, 30, 40, 50, 55, 50, 40, 30, 20,
            20, 30, 45, 55, 60, 55, 45, 30, 20,
            20, 28, 40, 50, 55, 50, 40, 28, 20,
            0, 0, 0, 0, 0, 0, 0, 0, 0,
            0, 0, 0, 0, 0, 0, 0, 0, 0,
        ]);
    }
    assert(forall|j: int| 0 <= j < 90 ==> -4i32 <= #[trigger] HORSE_PST@[j] <= 60) by {
        assert(HORSE_PST@ =~= seq![
            0i32, -4i32, 0, 0, 0, 0, 0, -4i32, 0,
            -4i32, 2, 6, 6, 4, 6, 6, 2, -4i32,
            2, 6, 10, 12, 12, 12, 10, 6, 2,
            4, 12, 14, 16, 16, 16, 14, 12, 4,
            6, 14, 18, 20, 22, 20, 18, 14, 6,
            6, 14, 18, 20, 22, 20, 18, 14, 6,
            4, 12, 16, 18, 18, 18, 16, 12, 4,
            2, 8, 12, 14, 14, 14, 12, 8, 2,
            0, 4, 8, 10, 10, 10, 8, 4, 0,
            0, 0, 4, 6, 6, 6, 4, 0, 0,
        ]);
    }
    assert(forall|j: int| 0 <= j < 90 ==> -4i32 <= #[trigger] CHARIOT_PST@[j] <= 60) by {
        assert(CHARIOT_PST@ =~= seq![
            -2i32, 4, 4, 8, 8, 8, 4, 4, -2i32,
            4, 8, 8, 12, 12, 12, 8, 8, 4,
            2, 6, 6, 10, 10, 10, 6, 6, 2,
            6, 10, 10, 14, 14, 14, 10, 10, 6,
            8, 12, 12, 16, 16, 16, 12, 12, 8,
            8, 12, 12, 16, 16, 16, 12, 12, 8,
            8, 12, 12, 16, 16, 16, 12, 12, 8,
            8, 14, 14, 18, 18, 18, 14, 14, 8,
            10, 14, 14, 18, 18, 18, 14, 14, 10,
            6, 10, 10, 14, 14, 14, 10, 10, 6,
        ]);
    }
    assert(forall|j: int| 0 <= j < 90 ==> -4i32 <= #[trigger] CANNON_PST@[j] <= 60) by {
        assert(CANNON_PST@ =~= seq![
            2i32, 2, 0, -2i32, -4i32, -2i32, 0, 2, 2,
            0, 2, 0, 2, 4, 2, 0, 2, 0,
            2, 2, 0, 6, 8, 6, 0, 2, 2,
            0, 0, 2, 8, 10, 8, 2, 0, 0,
            0, 2, 4, 8, 12, 8, 4, 2, 0,
            0, 0, 4, 8, 12, 8, 4, 0, 0,
            2, 2, 4, 10, 12, 10, 4, 2, 2,
            2, 2, 4, 8, 10, 8, 4, 2, 2,
            0, 2, 2, 6, 8, 6, 2, 2, 0,
            0, 0, 2, 4, 6, 4, 2, 0, 0,
        ]);
    }
}

fn pst_value(kind: PieceKind, sq: Square, color: Color) -> (v: i32)
    requires
        sq.valid(),
    ensures
        v == pst(kind, sq, color),
{
    let idx: usize = match color {
        Color::Red => sq.index(),
        Color::Black => ((9 - sq.rank) as usize) * 9 + sq.file as usize,
    };
    match kind {
        PieceKind::Pawn => PAWN_PST[idx],
        PieceKind::Horse => HORSE_PST[idx],
        PieceKind::Chariot => CHARIOT_PST[idx],
        PieceKind::Cannon => CANNON_PST[idx],
        _ => 0,
    }
}

/// The piece-square bonus of a Red piece on `(file, rank)` is the table
/// entry at `rank * 9 + file`: the tables are written from Red's back rank.
pub proof fn law_pst_red_reads_row_major(kind: PieceKind, sq: Square)
    requires
        sq.valid(),
    ensures
        pst(kind, sq, Color::Red) == (match kind {
            PieceKind::Pawn => PAWN_PST@[sq.rank * 9 + sq.file] as int,
            PieceKind::Horse => HORSE_PST@[sq.rank * 9 + sq.file] as int,
            PieceKind::Chariot => CHARIOT_PST@[sq.rank * 9 + sq.file] as int,
            PieceKind::Cannon => CANNON_PST@[sq.rank * 9 + sq.file] as int,
            _ => 0,
        }),
{
}

/// A Black piece on `(file, rank)` gets the bonus of a Red piece of the same
/// kind on `(file, 9 - rank)`: both sides read the tables from their own
/// back rank.
pub proof fn law_pst_black_mirrors_red(kind: PieceKind, sq: Square, mirrored: Square)
    requires
        sq.valid(),
        mirrored.file == sq.file,
        mirrored.rank == 9 - sq.rank,
    ensures
        pst(kind, sq, Color::Black) == pst(kind, mirrored, Color::Red),
{
}

/// A pawn that has crossed the river and not yet reached the last two
/// ranks earns at least 20, while one still on its own side short of the
/// river bank earns at most 6: advancing is rewarded. Stated for Red on
/// ranks `5..=7` against ranks `0..=3` (Black mirrors it).
pub proof fn law_pst_rewards_advanced_pawns(sq: Square)
    requires
        sq.valid(),
    ensures
        5 <= sq.rank <= 7 ==> pst(PieceKind::Pawn, sq, Color::Red) >= 20,
        sq.rank <= 3 ==> pst(PieceKind::Pawn, sq, Color::Red) <= 6,
{
    let table = seq![
        0i32, 0, 0, 0, 0, 0, 0, 0, 0,
        0, 0, 0, 0, 0, 0, 0, 0, 0,
        0, 0, 0, 0, 0, 0, 0, 0, 0,
        2, 0, 4, 0, 6, 0, 4, 0, 2,
        6, 12, 18, 24, 30, 24, 18, 12, 6,
        20, 30, 40, 50, 55, 50, 40, 30, 20,
        20, 30, 45, 55, 60, 55, 45, 30, 20,
        20, 28, 40, 50, 55, 50, 40, 28, 20,
        0, 0, 0, 0, 0, 0, 0, 0, 0,
        0, 0, 0, 0, 0, 0, 0, 0, 0,
    ];
    assert(PAWN_PST@ =~= table);
    assert(forall|j: int| 45 <= j < 72 ==> #[trigger] table[j] >= 20);
    assert(forall|j: int| 0 <= j < 36 ==> #[trigger] table[j] <= 6);
}

/// A unit step along a file or rank.
pub open spec fn rook_step(df: int, dr: int) -> bool {
    (df == 0 && (dr == 1 || dr == -1)) || (dr == 0 && (df == 1 || df == -1))
}

/// Points a chariot reaches from just before `(f, r)` stepping by
/// `(df, dr)`: the empty points, plus the first occupied one when it holds
/// an enemy piece. `fuel` bounds the walk (ten steps leave the board).
pub open spec fn chariot_ray(
    cells: Seq<Option<Piece>>,
    f: int,
    r: int,
    df: int,
    dr: int,
    me: Color,
    fuel: nat,
) -> int
    decreases fuel,
{
    if fuel == 0 || !on_board(f, r) {
        0
    } else {
        match cell_at(cells, f, r) {
            None => 1 + chariot_ray(cells, f + df, r + dr, df, dr, me, (fuel - 1) as nat),
            Some(p) => if p.color != me {
                1
            } else {
                0
            },
        }
    }
}

/// Points a cannon reaches along a ray: empty points before the first
/// piece (the screen), then the first piece beyond the screen when it is
/// an enemy.
pub open spec fn cannon_ray(
    cells: Seq<Option<Piece>>,
    f: int,
    r: int,
    df: int,
    dr: int,
    me: Color,
    jumped: bool,
    fuel: nat,
) -> int
    decreases fuel,
{
    if fuel == 0 || !on_board(f, r) {
        0
    } else {
        match cell_at(cells, f, r) {
            None => (if !jumped {
                1int
            } else {
                0int
            }) + cannon_ray(cells, f + df, r + dr, df, dr, me, jumped, (fuel - 1) as nat),
            Some(p) => if !jumped {
                cannon_ray(cells, f + df, r + dr, df, dr, me, true, (fuel - 1) as nat)
            } else if p.color != me {
                1
            } else {
                0
            },
        }
    }
}

/// Leg (blocking point) offset of horse move `k`.
pub open spec fn horse_leg(k: int) -> (int, int) {
    if k == 0 || k == 1 {
        (0, 1)
    } else if k == 2 || k == 3 {
        (0, -1)
    } else if k == 4 || k == 5 {
        (1, 0)
    } else {
        (-1, 0)
    }
}

/// Target offset of horse move `k`.
pub open spec fn horse_target(k: int) -> (int, int) {
    if k == 0 {
        (1, 2)
    } else if k == 1 {
        (-1, 2)
    } else if k == 2 {
        (1, -2)
    } else if k == 3 {
        (-1, -2)
    } else if k == 4 {
        (2, 1)
    } else if k == 5 {
        (2, -1)
    } else if k == 6 {
        (-2, 1)
    } else {
        (-2, -1)
    }
}

/// Whether horse move `k` from `(f, r)` reaches a point: the leg is on the
/// board and empty, and the target is on the board and not own-occupied.
pub open spec fn horse_move_counts(cells: Seq<Option<Piece>>, f: int, r: int, me: Color, k: int) -> bool {
    let (lf, lr) = horse_leg(k);
    let (tf, tr) = horse_target(k);
    &&& on_board(f + lf, r + lr)
    &&& cell_at(cells, f + lf, r + lr) is None
    &&& on_board(f + tf, r + tr)
    &&& match cell_at(cells, f + tf, r + tr) {
        Some(p) => p.color != me,
        None => true,
    }
}

/// Horse moves among the first `n` of the eight that reach a point.
pub open spec fn horse_count(cells: Seq<Option<Piece>>, f: int, r: int, me: Color, n: int) -> int
    decreases n,
{
    if n <= 0 {
        0
    } else {
        horse_count(cells, f, r, me, n - 1) + if horse_move_counts(cells, f, r, me, n - 1) {
            1int
        } else {
            0int
        }
    }
}

/// Reachable points of a piece on `sq` (a mobility proxy that ignores
/// pins and checks). Only chariots, horses and cannons are counted.
pub open spec fn mobility(cells: Seq<Option<Piece>>, sq: Square, piece: Piece) -> int {
    let f = sq.file as int;
    let r = sq.rank as int;
    let me = piece.color;
    match piece.kind {
        PieceKind::Chariot => chariot_ray(cells, f, r + 1, 0, 1, me, 10) + chariot_ray(
            cells,
            f,
            r - 1,
            0,
            -1,
            me,
            10,
        ) + chariot_ray(cells, f + 1, r, 1, 0, me, 10) + chariot_ray(cells, f - 1, r, -1, 0, me, 10),
        PieceKind::Horse => horse_count(cells, f, r, me, 8),
        PieceKind::Cannon => cannon_ray(cells, f, r + 1, 0, 1, me, false, 10) + cannon_ray(
            cells,
            f,
            r - 1,
            0,
            -1,
            me,
            false,
            10,
        ) + cannon_ray(cells, f + 1, r, 1, 0, me, false, 10) + cannon_ray(
            cells,
            f - 1,
            r,
            -1,
            0,
            me,
            false,
            10,
        ),
        _ => 0,
    }
}

/// Centipawns per reachable point.
pub open spec fn mobility_weight(kind: PieceKind) -> int {
    match kind {
        PieceKind::Chariot => 3,
        PieceKind::Horse => 5,
        PieceKind::Cannon => 2,
        _ => 0,
    }
}

fn mobility_weight_exec(kind: PieceKind) -> (w: i32)
    ensures
        w == mobility_weight(kind),
{
    match kind {
        PieceKind::Chariot => 3,
        PieceKind::Horse => 5,
        PieceKind::Cannon => 2,
        _ => 0,
    }
}

proof fn lemma_chariot_ray_bounds(
    cells: Seq<Option<Piece>>,
    f: int,
    r: int,
    df: int,
    dr: int,
    me: Color,
    fuel: nat,
)
    ensures
        0 <= chariot_ray(cells, f, r, df, dr, me, fuel) <= fuel,
    decreases fuel,
{
    if fuel > 0 && on_board(f, r) {
        lemma_chariot_ray_bounds(cells, f + df, r + dr, df, dr, me, (fuel - 1) as nat);
    }
}

proof fn lemma_cannon_ray_bounds(
    cells: Seq<Option<Piece>>,
    f: int,
    r: int,
    df: int,
    dr: int,
    me: Color,
    jumped: bool,
    fuel: nat,
)
    ensures
        0 <= cannon_ray(cells, f, r, df, dr, me, jumped, fuel) <= fuel,
    decreases fuel,
{
    if fuel > 0 && on_board(f, r) {
        lemma_cannon_ray_bounds(cells, f + df, r + dr, df, dr, me, jumped, (fuel - 1) as nat);
        lemma_cannon_ray_bounds(cells, f + df, r + dr, df, dr, me, true, (fuel - 1) as nat);
    }
}

proof fn lemma_horse_count_bounds(cells: Seq<Option<Piece>>, f: int, r: int, me: Color, n: int)
    ensures
        0 <= horse_count(cells, f, r, me, n) <= if n > 0 { n } else { 0 },
    decreases n,
{
    if n > 0 {
        lemma_horse_count_bounds(cells, f, r, me, n - 1);
    }
}

proof fn lemma_mobility_bounds(cells: Seq<Option<Piece>>, sq: Square, piece: Piece)
    ensures
        0 <= mobility(cells, sq, piece) <= 40,
{
    let f = sq.file as int;
    let r = sq.rank as int;
    let me = piece.color;
    lemma_chariot_ray_bounds(cells, f, r + 1, 0, 1, me, 10);
    lemma_chariot_ray_bounds(cells, f, r - 1, 0, -1, me, 10);
    lemma_chariot_ray_bounds(cells, f + 1, r, 1, 0, me, 10);
    lemma_chariot_ray_bounds(cells, f - 1, r, -1, 0, me, 10);
    lemma_cannon_ray_bounds(cells, f, r + 1, 0, 1, me, false, 10);
    lemma_cannon_ray_bounds(cells, f, r - 1, 0, -1, me, false, 10);
    lemma_cannon_ray_bounds(cells, f + 1, r, 1, 0, me, false, 10);
    lemma_cannon_ray_bounds(cells, f - 1, r, -1, 0, me, false, 10);
    lemma_horse_count_bounds(cells, f, r, me, 8);
}

/// Walk of a chariot ray starting at `(f + df, r + dr)`.
fn chariot_ray_count(board: &Board, f: i8, r: i8, df: i8, dr: i8, me: Color) -> (c: i32)
    requires
        board.wf(),
        on_board(f as int, r as int),
        rook_step(df as int, dr as int),
    ensures
        c == chariot_ray(board.squares@, f + df, r + dr, df as int, dr as int, me, 10),
        0 <= c <= 10,
{
    let ghost cells = board.squares@;
    let mut count: i32 = 0;
    let mut cf: i8 = f + df;
    let mut cr: i8 = r + dr;
    let ghost mut k: int = 0;
    proof {
        lemma_chariot_ray_bounds(cells, cf as int, cr as int, df as int, dr as int, me, 10);
    }
    loop
        invariant
            board.wf(),
            cells == board.squares@,
            on_board(f as int, r as int),
            rook_step(df as int, dr as int),
            0 <= k <= 10,
            df == 1 ==> cf == f + k + 1,
            df == -1 ==> cf == f - k - 1,
            df == 0 ==> cf == f,
            dr == 1 ==> cr == r + k + 1,
            dr == -1 ==> cr == r - k - 1,
            dr == 0 ==> cr == r,
            0 <= count <= k,
            count + chariot_ray(cells, cf as int, cr as int, df as int, dr as int, me, (10 - k) as nat)
                == chariot_ray(cells, f + df, r + dr, df as int, dr as int, me, 10),
        decreases 10 - k,
    {
        let sq = match Square::try_new(cf, cr) {
            Some(s) => s,
            None => {
                return count;
            },
        };
        assert(k < 9);
        match board.piece_at(sq) {
            None => {
                count = count + 1;
            },
            Some(p) => {
                if p.color != me {
                    count = count + 1;
                }
                return count;
            },
        }
        cf = cf + df;
        cr = cr + dr;
        proof {
            k = k + 1;
        }
    }
}

/// Walk of a cannon ray starting at `(f + df, r + dr)`.
fn cannon_ray_count(board: &Board, f: i8, r: i8, df: i8, dr: i8, me: Color) -> (c: i32)
    requires
        board.wf(),
        on_board(f as int, r as int),
        rook_step(df as int, dr as int),
    ensures
        c == cannon_ray(board.squares@, f + df, r + dr, df as int, dr as int, me, false, 10),
        0 <= c <= 10,
{
    let ghost cells = board.squares@;
    proof {
        lemma_cannon_ray_bounds(cells, f + df, r + dr, df as int, dr as int, me, false, 10);
    }
    let mut count: i32 = 0;
    let mut cf: i8 = f + df;
    let mut cr: i8 = r + dr;
    let mut jumped = false;
    let ghost mut k: int = 0;
    loop
        invariant
            board.wf(),
            cells == board.squares@,
            on_board(f as int, r as int),
            rook_step(df as int, dr as int),
            0 <= k <= 10,
            df == 1 ==> cf == f + k + 1,
            df == -1 ==> cf == f - k - 1,
            df == 0 ==> cf == f,
            dr == 1 ==> cr == r + k + 1,
            dr == -1 ==> cr == r - k - 1,
            dr == 0 ==> cr == r,
            0 <= count <= k,
            count + cannon_ray(
                cells,
                cf as int,
                cr as int,
                df as int,
                dr as int,
                me,
                jumped,
                (10 - k) as nat,
            ) == cannon_ray(cells, f + df, r + dr, df as int, dr as int, me, false, 10),
        decreases 10 - k,
    {
        let sq = match Square::try_new(cf, cr) {
            Some(s) => s,
            None => {
                return count;
            },
        };
        assert(k < 9);
        match board.piece_at(sq) {
            None => {
                if !jumped {
                    count = count + 1;
                }
            },
            Some(p) => {
                if !jumped {
                    jumped = true;
                } else {
                    if p.color != me {
                        count = count + 1;
                    }
                    return count;
                }
            },
        }
        cf = cf + df;
        cr = cr + dr;
        proof {
            k = k + 1;
        }
    }
}

fn horse_offsets(k: usize) -> (o: (i8, i8, i8, i8))
    requires
        k < 8,
    ensures
        (o.0 as int, o.1 as int) == horse_leg(k as int),
        (o.2 as int, o.3 as int) == horse_target(k as int),
{
    if k == 0 {
        (0, 1, 1, 2)
    } else if k == 1 {
        (0, 1, -1, 2)
    } else if k == 2 {
        (0, -1, 1, -2)
    } else if k == 3 {
        (0, -1, -1, -2)
    } else if k == 4 {
        (1, 0, 2, 1)
    } else if k == 5 {
        (1, 0, 2, -1)
    } else if k == 6 {
        (-1, 0, -2, 1)
    } else {
        (-1, 0, -2, -1)
    }
}

fn horse_mobility(board: &Board, f: i8, r: i8, me: Color) -> (c: i32)
    requires
        board.wf(),
        on_board(f as int, r as int),
    ensures
        c == horse_count(board.squares@, f as int, r as int, me, 8),
{
    let mut count: i32 = 0;
    let mut k: usize = 0;
    while k < 8
        invariant
            board.wf(),
            on_board(f as int, r as int),
            k <= 8,
            count == horse_count(board.squares@, f as int, r as int, me, k as int),
            0 <= count <= k,
        decreases 8 - k,
    {
        let (lf, lr, tf, tr) = horse_offsets(k);
        let ok = match Square::try_new(f + lf, r + lr) {
            None => false,
            Some(leg) => {
                if board.piece_at(leg).is_some() {
                    false
                } else {
                    match Square::try_new(f + tf, r + tr) {
                        None => false,
                        Some(to) => match board.piece_at(to) {
                            Some(p) => p.color != me,
                            None => true,
                        },
                    }
                }
            },
        };
        if ok {
            count = count + 1;
        }
        k = k + 1;
    }
    count
}

/// Reachable points of `piece` standing on `sq` (see [`mobility`]).
pub fn piece_mobility(board: &Board, sq: Square, piece: Piece) -> (c: i32)
    requires
        board.wf(),
        sq.valid(),
    ensures
        c == mobility(board.squares@, sq, piece),
{
    let me = piece.color;
    let f = sq.file as i8;
    let r = sq.rank as i8;
    proof {
        lemma_mobility_bounds(board.squares@, sq, piece);
    }
    match piece.kind {
        PieceKind::Chariot => {
            let a = chariot_ray_count(board, f, r, 0, 1, me);
            let b = chariot_ray_count(board, f, r, 0, -1, me);
            let c = chariot_ray_count(board, f, r, 1, 0, me);
            let d = chariot_ray_count(board, f, r, -1, 0, me);
            a + b + c + d
        },
        PieceKind::Horse => horse_mobility(board, f, r, me),
        PieceKind::Cannon => {
            let a = cannon_ray_count(board, f, r, 0, 1, me);
            let b = cannon_ray_count(board, f, r, 0, -1, me);
            let c = cannon_ray_count(board, f, r, 1, 0, me);
            let d = cannon_ray_count(board, f, r, -1, 0, me);
            a + b + c + d
        },
        _ => 0,
    }
}

/// Number of `color` `kind` pieces among the first `n` points.
pub open spec fn count_pieces(cells: Seq<Option<Piece>>, color: Color, kind: PieceKind, n: int) -> int
    decreases n,
{
    if n <= 0 {
        0
    } else {
        count_pieces(cells, color, kind, n - 1) + if cells[n - 1] == Some(Piece { color, kind }) {
            1int
        } else {
            0int
        }
    }
}

proof fn lemma_count_pieces_bounds(cells: Seq<Option<Piece>>, color: Color, kind: PieceKind, n: int)
    ensures
        0 <= count_pieces(cells, color, kind, n) <= if n > 0 { n } else { 0 },
    decreases n,
{
    if n > 0 {
        lemma_count_pieces_bounds(cells, color, kind, n - 1);
    }
}

/// Rank a side's king starts on: 0 for Red, 9 for Black.
pub open spec fn home_rank(color: Color) -> int {
    match color {
        Color::Red => 0,
        Color::Black => 9,
    }
}

/// King safety: -500 without a king; otherwise 15 per advisor and 10 per
/// elephant kept, -10 off the centre file, +8 on the home rank.
pub open spec fn king_safety(cells: Seq<Option<Piece>>, color: Color) -> int {
    match king_index_from(cells, color, 0) {
        None => -500,
        Some(i) => {
            let k = square_at(i);
            count_pieces(cells, color, PieceKind::Advisor, 90) * 15 + count_pieces(
                cells,
                color,
                PieceKind::Elephant,
                90,
            ) * 10 - (if k.file != 4 {
                10int
            } else {
                0int
            }) + (if k.rank == home_rank(color) {
                8int
            } else {
                0int
            })
        },
    }
}

/// King safety of `color` on `board` (see [`king_safety`]).
pub fn king_safety_score(board: &Board, color: Color) -> (v: i32)
    requires
        board.wf(),
    ensures
        v == king_safety(board.squares@, color),
        -500 <= v <= 2258,
{
    let king_sq = match board.king_square(color) {
        Some(sq) => sq,
        None => {
            return -500;
        },
    };
    let mut advisors: i32 = 0;
    let mut elephants: i32 = 0;
    let mut i: usize = 0;
    while i < 90
        invariant
            board.wf(),
            i <= 90,
            advisors == count_pieces(board.squares@, color, PieceKind::Advisor, i as int),
            elephants == count_pieces(board.squares@, color, PieceKind::Elephant, i as int),
            0 <= advisors <= i,
            0 <= elephants <= i,
        decreases 90 - i,
    {
        if let Some(p) = board.squares[i] {
            if p.color == color {
                match p.kind {
                    PieceKind::Advisor => {
                        advisors = advisors + 1;
                    },
                    PieceKind::Elephant => {
                        elephants = elephants + 1;
                    },
                    _ => {},
                }
            }
        }
        i = i + 1;
    }
    let mut score: i32 = advisors * 15 + elephants * 10;
    if king_sq.file != 4 {
        score = score - 10;
    }
    let home: u8 = match color {
        Color::Red => 0,
        Color::Black => 9,
    };
    if king_sq.rank == home {
        score = score + 8;
    }
    score
}

/// Whether point `i` holds a pawn of `color`.
pub open spec fn is_pawn_of(cells: Seq<Option<Piece>>, color: Color, i: int) -> bool {
    cells[i] == Some(Piece { color, kind: PieceKind::Pawn })
}

/// Bonus for `color`'s pawns across the river among the first `n` points:
/// 15 each, 8 more on the central files d..f.
pub open spec fn crossed_pawn_bonus(cells: Seq<Option<Piece>>, color: Color, n: int) -> int
    decreases n,
{
    if n <= 0 {
        0
    } else {
        let sq = square_at(n - 1);
        crossed_pawn_bonus(cells, color, n - 1) + if is_pawn_of(cells, color, n - 1)
            && crossed_river(sq, color) {
            15 + if 3 <= sq.file <= 5 {
                8int
            } else {
                0int
            }
        } else {
            0int
        }
    }
}

/// Whether some `color` pawn stands on file `v`.
pub open spec fn file_has_pawn(cells: Seq<Option<Piece>>, color: Color, v: int) -> bool {
    exists|i: int| 0 <= i < 90 && i % 9 == v && is_pawn_of(cells, color, i)
}

/// Adjacent file pairs `(v, v + 1)` with `v < n` that both hold `color`
/// pawns. This is the number of neighbouring pairs differing by one in
/// the sorted list of pawn files.
pub open spec fn connected_pairs(cells: Seq<Option<Piece>>, color: Color, n: int) -> int
    decreases n,
{
    if n <= 0 {
        0
    } else {
        connected_pairs(cells, color, n - 1) + if file_has_pawn(cells, color, n - 1)
            && file_has_pawn(cells, color, n) {
            1int
        } else {
            0int
        }
    }
}

/// Pawn structure: the river bonus plus 10 per pair of pawns on adjacent
/// files.
pub open spec fn pawn_structure(cells: Seq<Option<Piece>>, color: Color) -> int {
    crossed_pawn_bonus(cells, color, 90) + 10 * connected_pairs(cells, color, 8)
}

proof fn lemma_crossed_bonus_bounds(cells: Seq<Option<Piece>>, color: Color, n: int)
    ensures
        0 <= crossed_pawn_bonus(cells, color, n) <= 23 * (if n > 0 { n } else { 0 }),
    decreases n,
{
    if n > 0 {
        lemma_crossed_bonus_bounds(cells, color, n - 1);
    }
}

proof fn lemma_connected_bounds(cells: Seq<Option<Piece>>, color: Color, n: int)
    ensures
        0 <= connected_pairs(cells, color, n) <= if n > 0 { n } else { 0 },
    decreases n,
{
    if n > 0 {
        lemma_connected_bounds(cells, color, n - 1);
    }
}

/// Pawn structure of `color` on `board` (see [`pawn_structure`]).
pub fn pawn_structure_score(board: &Board, color: Color) -> (v: i32)
    requires
        board.wf(),
    ensures
        v == pawn_structure(board.squares@, color),
        0 <= v <= 2150,
{
    let ghost cells = board.squares@;
    let mut score: i32 = 0;
    let mut present: Vec<bool> = Vec::new();
    let mut f: usize = 0;
    while f < 9
        invariant
            f <= 9,
            present@ == Seq::new(f as nat, |j: int| false),
        decreases 9 - f,
    {
        present.push(false);
        f = f + 1;
    }
    let mut i: usize = 0;
    while i < 90
        invariant
            board.wf(),
            cells == board.squares@,
            i <= 90,
            present@.len() == 9,
            forall|v: int|
                0 <= v < 9 ==> (#[trigger] present@[v] <==> exists|j: int|
                    0 <= j < i && j % 9 == v && is_pawn_of(cells, color, j)),
            score == crossed_pawn_bonus(cells, color, i as int),
            0 <= score <= 23 * i,
        decreases 90 - i,
    {
        if let Some(p) = board.squares[i] {
            if p.color == color && p.kind == PieceKind::Pawn {
                let sq = square_from_index(i);
                present.set(sq.file as usize, true);
                if square_crossed_river(sq, color) {
                    score = score + 15;
                    if 3 <= sq.file && sq.file <= 5 {
                        score = score + 8;
                    }
                }
            }
        }
        proof {
            assert forall|v: int| 0 <= v < 9 implies (#[trigger] present@[v] <==> exists|j: int|
                0 <= j < i + 1 && j % 9 == v && is_pawn_of(cells, color, j)) by {
                if present@[v] && !(exists|j: int|
                    0 <= j < i && j % 9 == v && is_pawn_of(cells, color, j)) {
                    assert(i as int % 9 == v && is_pawn_of(cells, color, i as int));
                }
            }
        }
        i = i + 1;
    }
    let mut pairs: i32 = 0;
    let mut v: usize = 0;
    while v < 8
        invariant
            v <= 8,
            present@.len() == 9,
            forall|w: int| 0 <= w < 9 ==> (#[trigger] present@[w] <==> file_has_pawn(cells, color, w)),
            pairs == connected_pairs(cells, color, v as int),
            0 <= pairs <= v,
        decreases 8 - v,
    {
        if present[v] && present[v + 1] {
            pairs = pairs + 1;
        }
        v = v + 1;
    }
    score + 10 * pairs
}

/// Material of `color`'s pieces other than the king among the first `n`
/// points.
pub open spec fn total_material(cells: Seq<Option<Piece>>, color: Color, n: int) -> int
    decreases n,
{
    if n <= 0 {
        0
    } else {
        total_material(cells, color, n - 1) + match cells[n - 1] {
            Some(p) => if p.color == color && p.kind != PieceKind::King {
                material(p.kind)
            } else {
                0
            },
            None => 0,
        }
    }
}

proof fn lemma_total_material_bounds(cells: Seq<Option<Piece>>, color: Color, n: int)
    ensures
        0 <= total_material(cells, color, n) <= 1000 * (if n > 0 { n } else { 0 }),
    decreases n,
{
    if n > 0 {
        lemma_total_material_bounds(cells, color, n - 1);
    }
}

/// Non-king material of `color` on `board`.
pub fn total_material_of(board: &Board, color: Color) -> (v: i32)
    requires
        board.wf(),
    ensures
        v == total_material(board.squares@, color, 90),
        0 <= v <= 90000,
{
    let mut sum: i32 = 0;
    let mut i: usize = 0;
    while i < 90
        invariant
            board.wf(),
            i <= 90,
            sum == total_material(board.squares@, color, i as int),
            0 <= sum <= 1000 * i,
        decreases 90 - i,
    {
        if let Some(p) = board.squares[i] {
            if p.color == color && p.kind != PieceKind::King {
                sum = sum + material_value(p.kind);
            }
        }
        i = i + 1;
    }
    sum
}

/// Endgame: both sides' non-king material together below 3000.
pub open spec fn is_endgame(cells: Seq<Option<Piece>>) -> bool {
    total_material(cells, Color::Red, 90) + total_material(cells, Color::Black, 90) < 3000
}

pub open spec fn abs_int(x: int) -> int {
    if x < 0 {
        -x
    } else {
        x
    }
}

/// Endgame king term (Red's view). With both kings present: if one side
/// leads by more than 200 in material, 5 per step the losing king stands
/// from its palace centre (file 4, rank 8 for Black, rank 1 for Red) plus
/// 2 per unit of king proximity `14 - file distance - rank distance`, in
/// the leader's favour; otherwise, or with a king missing, 0.
pub open spec fn endgame_king_distance(cells: Seq<Option<Piece>>) -> int {
    match (king_index_from(cells, Color::Red, 0), king_index_from(cells, Color::Black, 0)) {
        (Some(ri), Some(bi)) => {
            let rk = square_at(ri);
            let bk = square_at(bi);
            let proximity = 14 - abs_int(rk.file - bk.file) - abs_int(rk.rank - bk.rank);
            let red_mat = total_material(cells, Color::Red, 90);
            let black_mat = total_material(cells, Color::Black, 90);
            if red_mat > black_mat + 200 {
                (abs_int(bk.file - 4) + abs_int(bk.rank - 8)) * 5 + proximity * 2
            } else if black_mat > red_mat + 200 {
                -((abs_int(rk.file - 4) + abs_int(rk.rank - 1)) * 5 + proximity * 2)
            } else {
                0
            }
        },
        _ => 0,
    }
}

fn abs_i32(x: i32) -> (y: i32)
    requires
        x > i32::MIN,
    ensures
        y == abs_int(x as int),
{
    if x < 0 {
        -x
    } else {
        x
    }
}

/// Endgame king term of `board` (see [`endgame_king_distance`]).
pub fn endgame_king_distance_score(board: &Board) -> (v: i32)
    requires
        board.wf(),
    ensures
        v == endgame_king_distance(board.squares@),
        -200 <= v <= 200,
{
    let red_king = match board.king_square(Color::Red) {
        Some(sq) => sq,
        None => {
            return 0;
        },
    };
    let black_king = match board.king_square(Color::Black) {
        Some(sq) => sq,
        None => {
            return 0;
        },
    };
    let file_dist = abs_i32(red_king.file as i32 - black_king.file as i32);
    let rank_dist = abs_i32(red_king.rank as i32 - black_king.rank as i32);
    let proximity = 14 - file_dist - rank_dist;
    let red_mat = total_material_of(board, Color::Red);
    let black_mat = total_material_of(board, Color::Black);
    if red_mat > black_mat + 200 {
        let bk_center_dist = abs_i32(black_king.file as i32 - 4) + abs_i32(
            black_king.rank as i32 - 8,
        );
        bk_center_dist * 5 + proximity * 2
    } else if black_mat > red_mat + 200 {
        let rk_center_dist = abs_i32(red_king.file as i32 - 4) + abs_i32(red_king.rank as i32 - 1);
        -(rk_center_dist * 5 + proximity * 2)
    } else {
        0
    }
}

/// Material, table and mobility term of point `i`, signed for Red.
pub open spec fn piece_term(cells: Seq<Option<Piece>>, i: int) -> int {
    match cells[i] {
        None => 0,
        Some(p) => {
            let sq = square_at(i);
            let v = material(p.kind) + pst(p.kind, sq, p.color) + mobility(cells, sq, p)
                * mobility_weight(p.kind);
            match p.color {
                Color::Red => v,
                Color::Black => -v,
            }
        },
    }
}

/// Sum of the piece terms of the first `n` points.
pub open spec fn piece_terms(cells: Seq<Option<Piece>>, n: int) -> int
    decreases n,
{
    if n <= 0 {
        0
    } else {
        piece_terms(cells, n - 1) + piece_term(cells, n - 1)
    }
}

/// Evaluation from Red's side.
pub open spec fn red_eval(cells: Seq<Option<Piece>>) -> int {
    piece_terms(cells, 90) + king_safety(cells, Color::Red) - king_safety(cells, Color::Black)
        + pawn_structure(cells, Color::Red) - pawn_structure(cells, Color::Black) + if is_endgame(
        cells,
    ) {
        endgame_king_distance(cells)
    } else {
        0
    }
}

/// Evaluation from `side`'s point of view.
pub open spec fn evaluation(cells: Seq<Option<Piece>>, side: Color) -> int {
    match side {
        Color::Red => red_eval(cells),
        Color::Black => -red_eval(cells),
    }
}

/// Static evaluation of `board` from `side`'s point of view (positive is
/// good for `side`); see [`evaluation`].
pub fn evaluate(board: &Board, side: Color) -> (v: i32)
    requires
        board.wf(),
    ensures
        v == evaluation(board.squares@, side),
        -5_500_000 <= v <= 5_500_000,
{
    let ghost cells = board.squares@;
    let mut red: i32 = 0;
    let mut i: usize = 0;
    while i < 90
        invariant
            board.wf(),
            cells == board.squares@,
            i <= 90,
            red == piece_terms(cells, i as int),
            -60300 * i <= red <= 60300 * i,
        decreases 90 - i,
    {
        if let Some(piece) = board.squares[i] {
            let sq = square_from_index(i);
            proof {
                lemma_pst_bounds(piece.kind, sq, piece.color);
                lemma_mobility_bounds(cells, sq, piece);
            }
            let mat = material_value(piece.kind) + pst_value(piece.kind, sq, piece.color);
            let mob = piece_mobility(board, sq, piece) * mobility_weight_exec(piece.kind);
            let v = mat + mob;
            match piece.color {
                Color::Red => {
                    red = red + v;
                },
                Color::Black => {
                    red = red - v;
                },
            }
        }
        i = i + 1;
    }
    red = red + king_safety_score(board, Color::Red);
    red = red - king_safety_score(board, Color::Black);
    red = red + pawn_structure_score(board, Color::Red);
    red = red - pawn_structure_score(board, Color::Black);
    let red_mat = total_material_of(board, Color::Red);
    let black_mat = total_material_of(board, Color::Black);
    if red_mat + black_mat < 3000 {
        red = red + endgame_king_distance_score(board);
    }
    match side {
        Color::Red => red,
        Color::Black => -red,
    }
}

} // verus!
