//! Reading back what is written: the placement and side that
//! [`fen_text`](crate::xiangqi::fen_text) writes are exactly what
//! [`fen_position`](crate::xiangqi::fen_position) reads, and a move's ICCS
//! text reads back as the move.

use vstd::prelude::*;
use crate::text::digit_char;
use crate::xiangqi::{
    empty_cells, fen_piece, fen_position, fen_prefix, fen_side, fen_step, fen_text, iccs_move, iccs_text,
    piece_letter, placement_len, row_text, rows_text, square_index, Color, Move, Piece, PieceKind,
};

verus! {

/// Reading state after a text, from a given state.
pub open spec fn fen_fold(st: Option<(Seq<Option<Piece>>, int, int)>, s: Seq<char>) -> Option<
    (Seq<Option<Piece>>, int, int),
>
    decreases s.len(),
{
    if s.len() == 0 {
        st
    } else {
        match fen_fold(st, s.drop_last()) {
            Some(x) => fen_step(x, s.last()),
            None => None,
        }
    }
}

proof fn lemma_fold_none(s: Seq<char>)
    ensures
        fen_fold(None, s) is None,
    decreases s.len(),
{
    if s.len() > 0 {
        lemma_fold_none(s.drop_last());
    }
}

proof fn lemma_fold_concat(st: Option<(Seq<Option<Piece>>, int, int)>, a: Seq<char>, b: Seq<char>)
    ensures
        fen_fold(st, a + b) == fen_fold(fen_fold(st, a), b),
    decreases b.len(),
{
    if b.len() == 0 {
        assert(a + b =~= a);
    } else {
        assert((a + b).drop_last() =~= a + b.drop_last());
        assert((a + b).last() == b.last());
        lemma_fold_concat(st, a, b.drop_last());
    }
}

proof fn lemma_prefix_is_fold(s: Seq<char>, n: int)
    requires
        0 <= n <= s.len(),
    ensures
        fen_prefix(s, n) == fen_fold(Some((empty_cells(), 0, 0)), s.take(n)),
    decreases n,
{
    if n > 0 {
        lemma_prefix_is_fold(s, n - 1);
        assert(s.take(n).drop_last() =~= s.take(n - 1));
        assert(s.take(n).last() == s[n - 1]);
    } else {
        assert(s.take(0).len() == 0);
    }
}

proof fn lemma_fold_single(x: (Seq<Option<Piece>>, int, int), c: char)
    ensures
        fen_fold(Some(x), seq![c]) == fen_step(x, c),
{
    assert(seq![c].drop_last() =~= Seq::<char>::empty());
    assert(fen_fold(Some(x), Seq::<char>::empty()) == Some(x));
    assert(seq![c].last() == c);
}

proof fn lemma_digit(run: int)
    requires
        1 <= run <= 9,
    ensures
        '1' <= digit_char(run) <= '9',
        digit_char(run) as int - 48 == run,
        digit_char(run) != ' ',
        digit_char(run) != '/',
        digit_char(run) != '\n',
{
}

proof fn lemma_letter_reads_back(p: Piece)
    ensures
        fen_piece(piece_letter(p)) == Some(p),
        !('1' <= piece_letter(p) && piece_letter(p) <= '9'),
        piece_letter(p) != '/',
        piece_letter(p) != ' ',
        piece_letter(p) != '\n',
{
    match p.kind {
        PieceKind::King => {},
        PieceKind::Advisor => {},
        PieceKind::Elephant => {},
        PieceKind::Horse => {},
        PieceKind::Chariot => {},
        PieceKind::Cannon => {},
        PieceKind::Pawn => {},
    }
}

/// Row `rank` of `acc` with the pieces of `cells` on files `f` and up.
pub open spec fn row_fill(acc: Seq<Option<Piece>>, cells: Seq<Option<Piece>>, rank: int, f: int) -> Seq<
    Option<Piece>,
>
    decreases 9 - f,
{
    if f >= 9 {
        acc
    } else {
        let i = square_index(f, rank);
        let acc2 = match cells[i] {
            Some(p) => acc.update(i, Some(p)),
            None => acc,
        };
        row_fill(acc2, cells, rank, f + 1)
    }
}

proof fn lemma_row_reads(acc: Seq<Option<Piece>>, cells: Seq<Option<Piece>>, rank: int, f: int, run: int)
    requires
        0 <= rank < 10,
        0 <= run <= f <= 9,
        cells.len() == 90,
        acc.len() == 90,
    ensures
        fen_fold(Some((acc, 9 - rank, f - run)), row_text(cells, rank, f, run)) == Some(
            (row_fill(acc, cells, rank, f), 9 - rank, 9int),
        ),
    decreases 9 - f,
{
    let st = Some((acc, 9 - rank, f - run));
    if f >= 9 {
        if run > 0 {
            let d = digit_char(run);
            assert(row_text(cells, rank, f, run) == seq![d]);
            lemma_fold_single((acc, 9 - rank, f - run), d);
            lemma_digit(run);
        } else {
            assert(row_text(cells, rank, f, run) =~= Seq::<char>::empty());
        }
    } else {
        let i = square_index(f, rank);
        match cells[i] {
            None => {
                lemma_row_reads(acc, cells, rank, f + 1, run + 1);
            },
            Some(p) => {
                let head: Seq<char> = if run > 0 {
                    seq![digit_char(run)]
                } else {
                    seq![]
                };
                let acc2 = acc.update(i, Some(p));
                let tail = row_text(cells, rank, f + 1, 0);
                assert(row_text(cells, rank, f, run) == head + seq![piece_letter(p)] + tail);
                lemma_fold_concat(st, head + seq![piece_letter(p)], tail);
                lemma_fold_concat(st, head, seq![piece_letter(p)]);
                let after_head = fen_fold(st, head);
                if run > 0 {
                    lemma_fold_single((acc, 9 - rank, f - run), digit_char(run));
                    lemma_digit(run);
                    assert(after_head == Some((acc, 9 - rank, f)));
                } else {
                    assert(head.len() == 0);
                    assert(after_head == Some((acc, 9 - rank, f)));
                }
                lemma_letter_reads_back(p);
                lemma_fold_single((acc, 9 - rank, f), piece_letter(p));
                assert(9 - (9 - rank) == rank);
                assert(fen_step((acc, 9 - rank, f), piece_letter(p)) == Some((acc2, 9 - rank, f + 1)));
                lemma_row_reads(acc2, cells, rank, f + 1, 0);
            },
        }
    }
}

/// Rows `rank` down to 0 of `acc` filled from `cells`.
pub open spec fn rows_fill(acc: Seq<Option<Piece>>, cells: Seq<Option<Piece>>, rank: int) -> Seq<Option<Piece>>
    decreases rank,
{
    if rank <= 0 {
        row_fill(acc, cells, 0, 0)
    } else {
        rows_fill(row_fill(acc, cells, rank, 0), cells, rank - 1)
    }
}

proof fn lemma_row_fill_len(acc: Seq<Option<Piece>>, cells: Seq<Option<Piece>>, rank: int, f: int)
    requires
        0 <= rank < 10,
        0 <= f <= 9,
        cells.len() == 90,
        acc.len() == 90,
    ensures
        row_fill(acc, cells, rank, f).len() == 90,
        forall|i: int|
            0 <= i < 90 ==> #[trigger] row_fill(acc, cells, rank, f)[i] == if i / 9 == rank && i % 9 >= f
                && cells[i] is Some {
                cells[i]
            } else {
                acc[i]
            },
    decreases 9 - f,
{
    if f < 9 {
        let i = square_index(f, rank);
        let acc2 = match cells[i] {
            Some(p) => acc.update(i, Some(p)),
            None => acc,
        };
        lemma_row_fill_len(acc2, cells, rank, f + 1);
        assert forall|j: int| 0 <= j < 90 implies #[trigger] row_fill(acc, cells, rank, f)[j] == if j / 9 == rank
            && j % 9 >= f && cells[j] is Some {
            cells[j]
        } else {
            acc[j]
        } by {
            if j == i {
                assert(j / 9 == rank && j % 9 == f);
            } else if j / 9 == rank && j % 9 == f {
                assert(j == rank * 9 + f);
            }
        }
    }
}

proof fn lemma_rows_read(acc: Seq<Option<Piece>>, cells: Seq<Option<Piece>>, rank: int)
    requires
        0 <= rank < 10,
        cells.len() == 90,
        acc.len() == 90,
    ensures
        fen_fold(Some((acc, 9 - rank, 0)), rows_text(cells, rank)) == Some((rows_fill(acc, cells, rank), 9int, 9int)),
    decreases rank,
{
    if rank <= 0 {
        lemma_row_reads(acc, cells, 0, 0, 0);
    } else {
        let st = Some((acc, 9 - rank, 0));
        let row = row_text(cells, rank, 0, 0);
        let rest = rows_text(cells, rank - 1);
        assert(rows_text(cells, rank) == row + seq!['/'] + rest);
        lemma_row_reads(acc, cells, rank, 0, 0);
        lemma_fold_concat(st, row + seq!['/'], rest);
        lemma_fold_concat(st, row, seq!['/']);
        let acc2 = row_fill(acc, cells, rank, 0);
        lemma_fold_single((acc2, 9 - rank, 9), '/');
        assert(fen_step((acc2, 9 - rank, 9), '/') == Some((acc2, 9 - (rank - 1), 0int)));
        lemma_row_fill_len(acc, cells, rank, 0);
        lemma_rows_read(acc2, cells, rank - 1);
    }
}

proof fn lemma_rows_fill_values(acc: Seq<Option<Piece>>, cells: Seq<Option<Piece>>, rank: int)
    requires
        0 <= rank < 10,
        cells.len() == 90,
        acc.len() == 90,
    ensures
        rows_fill(acc, cells, rank).len() == 90,
        forall|i: int|
            0 <= i < 90 ==> #[trigger] rows_fill(acc, cells, rank)[i] == if i / 9 <= rank && cells[i] is Some {
                cells[i]
            } else {
                acc[i]
            },
    decreases rank,
{
    if rank <= 0 {
        lemma_row_fill_len(acc, cells, 0, 0);
    } else {
        lemma_row_fill_len(acc, cells, rank, 0);
        lemma_rows_fill_values(row_fill(acc, cells, rank, 0), cells, rank - 1);
    }
}

/// A character of the placement text: neither a space nor a line break.
pub open spec fn plain_char(c: char) -> bool {
    c != ' ' && c != '\n'
}

/// Characters of the rows text: no spaces or line breaks.
proof fn lemma_row_no_space(cells: Seq<Option<Piece>>, rank: int, f: int, run: int)
    requires
        0 <= rank < 10,
        0 <= run <= f <= 9,
        cells.len() == 90,
    ensures
        forall|k: int| 0 <= k < row_text(cells, rank, f, run).len() ==> plain_char(
            #[trigger] row_text(cells, rank, f, run)[k],
        ),
    decreases 9 - f,
{
    if f >= 9 {
        if run > 0 {
            lemma_digit(run);
            assert(row_text(cells, rank, f, run) == seq![digit_char(run)]);
        } else {
            assert(row_text(cells, rank, f, run).len() == 0);
        }
    } else {
        let i = square_index(f, rank);
        match cells[i] {
            None => {
                lemma_row_no_space(cells, rank, f + 1, run + 1);
                assert(row_text(cells, rank, f, run) == row_text(cells, rank, f + 1, run + 1));
            },
            Some(p) => {
                lemma_row_no_space(cells, rank, f + 1, 0);
                lemma_letter_reads_back(p);
                let head: Seq<char> = if run > 0 {
                    seq![digit_char(run)]
                } else {
                    seq![]
                };
                let tail = row_text(cells, rank, f + 1, 0);
                assert(row_text(cells, rank, f, run) == head + seq![piece_letter(p)] + tail);
                if run > 0 {
                    lemma_digit(run);
                }
                assert forall|k: int| 0 <= k < row_text(cells, rank, f, run).len() implies plain_char(
                    #[trigger] row_text(cells, rank, f, run)[k],
                ) by {
                    if k < head.len() {
                        assert(row_text(cells, rank, f, run)[k] == head[k]);
                    } else if k == head.len() {
                        assert(row_text(cells, rank, f, run)[k] == piece_letter(p));
                    } else {
                        assert(row_text(cells, rank, f, run)[k] == tail[k - head.len() - 1]);
                    }
                }
            },
        }
    }
}

proof fn lemma_rows_no_space(cells: Seq<Option<Piece>>, rank: int)
    requires
        0 <= rank < 10,
        cells.len() == 90,
    ensures
        forall|k: int| 0 <= k < rows_text(cells, rank).len() ==> plain_char(#[trigger] rows_text(cells, rank)[k]),
    decreases rank,
{
    lemma_row_no_space(cells, rank, 0, 0);
    if rank > 0 {
        lemma_rows_no_space(cells, rank - 1);
        let row = row_text(cells, rank, 0, 0);
        let rest = rows_text(cells, rank - 1);
        assert forall|k: int| 0 <= k < rows_text(cells, rank).len() implies plain_char(
            #[trigger] rows_text(cells, rank)[k],
        ) by {
            if k < row.len() {
                assert(rows_text(cells, rank)[k] == row[k]);
            } else if k > row.len() {
                assert(rows_text(cells, rank)[k] == rest[k - row.len() - 1]);
            }
        }
    }
}

proof fn lemma_placement_len(s: Seq<char>, from: int, k: int)
    requires
        0 <= from <= k < s.len(),
        s[k] == ' ',
        forall|j: int| from <= j < k ==> s[j] != ' ',
    ensures
        placement_len(s, from) == k,
    decreases k - from,
{
    if from < k {
        lemma_placement_len(s, from + 1, k);
    }
}

/// What `fen_text` writes, `fen_position` reads back: the same points and
/// the same side to move.
pub proof fn law_fen_round_trip(cells: Seq<Option<Piece>>, side: Color)
    requires
        cells.len() == 90,
    ensures
        fen_position(fen_text(cells, side)) == Some((cells, side)),
{
    let s = fen_text(cells, side);
    let rows = rows_text(cells, 9);
    let n = rows.len() as int;
    lemma_rows_no_space(cells, 9);
    assert(s[n] == ' ');
    assert forall|j: int| 0 <= j < n implies s[j] != ' ' by {
        assert(s[j] == rows[j]);
    }
    lemma_placement_len(s, 0, n);
    lemma_prefix_is_fold(s, n);
    assert(s.take(n) =~= rows);
    lemma_rows_read(empty_cells(), cells, 9);
    lemma_rows_fill_values(empty_cells(), cells, 9);
    assert(rows_fill(empty_cells(), cells, 9) =~= cells);
    assert(fen_side(s, n) == Some(side));
}

/// A move's ICCS text reads back as the same move.
pub proof fn law_iccs_round_trip(m: Move)
    requires
        m.valid(),
    ensures
        iccs_move(iccs_text(m)) == Some(m),
{
    let t = iccs_text(m);
    assert(t.len() == 4);
    assert(t[0] as int == 97 + m.from.file);
    assert(t[1] as int == 48 + m.from.rank);
    assert(t[2] as int == 97 + m.to.file);
    assert(t[3] as int == 48 + m.to.rank);
}

/// A FEN written by the board has no line break.
pub proof fn law_fen_has_no_line_break(cells: Seq<Option<Piece>>, side: Color)
    requires
        cells.len() == 90,
    ensures
        forall|k: int| 0 <= k < fen_text(cells, side).len() ==> #[trigger] fen_text(cells, side)[k] != '\n',
{
    lemma_rows_no_space(cells, 9);
    let rows = rows_text(cells, 9);
    assert forall|k: int| 0 <= k < fen_text(cells, side).len() implies #[trigger] fen_text(cells, side)[k]
        != '\n' by {
        if k < rows.len() {
            assert(fen_text(cells, side)[k] == rows[k]);
            assert(plain_char(rows[k]));
        }
    }
}

} // verus!
