//! The captured-pieces tray: which pieces each side has taken over the
//! game, listed most valuable first, and the material-balance caption.

use vstd::prelude::*;
use vstd::multiset::Multiset;
use crate::text::{nat_text, push_str, push_u64};
use crate::xiangqi::{Color, Piece, PieceKind};

verus! {

/// Position of a piece kind in the tray: chariot first, king last.
pub open spec fn tray_rank(k: PieceKind) -> int {
    match k {
        PieceKind::Chariot => 0,
        PieceKind::Cannon => 1,
        PieceKind::Horse => 2,
        PieceKind::Elephant => 3,
        PieceKind::Advisor => 4,
        PieceKind::Pawn => 5,
        PieceKind::King => 6,
    }
}

/// Number of tray positions.
pub const TRAY_RANKS: u8 = 7;

/// The tray position of `k` (see [`tray_rank`]).
pub fn tray_rank_of(k: PieceKind) -> (r: u8)
    ensures
        r == tray_rank(k),
        r < TRAY_RANKS,
{
    match k {
        PieceKind::Chariot => 0,
        PieceKind::Cannon => 1,
        PieceKind::Horse => 2,
        PieceKind::Elephant => 3,
        PieceKind::Advisor => 4,
        PieceKind::Pawn => 5,
        PieceKind::King => 6,
    }
}

/// The kinds in `s` whose tray position is `r`, in their order in `s`.
pub open spec fn of_rank(s: Seq<PieceKind>, r: int) -> Seq<PieceKind> {
    s.filter(|k: PieceKind| tray_rank(k) == r)
}

/// The kinds of `s` with tray position below `r`, grouped by position in
/// increasing order, each group in its order in `s`.
pub open spec fn tray_prefix(s: Seq<PieceKind>, r: int) -> Seq<PieceKind>
    decreases r,
{
    if r <= 0 {
        Seq::empty()
    } else {
        tray_prefix(s, r - 1) + of_rank(s, r - 1)
    }
}

/// `s` in tray order: a stable sort by [`tray_rank`].
pub open spec fn tray_order(s: Seq<PieceKind>) -> Seq<PieceKind> {
    tray_prefix(s, TRAY_RANKS as int)
}

/// The kinds of the pieces of colour `victim` captured over a game, in
/// move order; `caps` holds what each move captured.
pub open spec fn captured_kinds(caps: Seq<Option<Piece>>, victim: Color) -> Seq<PieceKind>
    decreases caps.len(),
{
    if caps.len() == 0 {
        Seq::empty()
    } else {
        let rest = captured_kinds(caps.drop_last(), victim);
        match caps.last() {
            Some(p) => if p.color == victim {
                rest.push(p.kind)
            } else {
                rest
            },
            None => rest,
        }
    }
}

/// Every kind a filter keeps comes from the filtered sequence.
proof fn lemma_filter_from(s: Seq<PieceKind>, pred: spec_fn(PieceKind) -> bool)
    ensures
        forall|i: int| 0 <= i < s.filter(pred).len() ==> s.contains(#[trigger] s.filter(pred)[i]),
    decreases s.len(),
{
    reveal(Seq::filter);
    if s.len() > 0 {
        let d = s.drop_last();
        lemma_filter_from(d, pred);
        let f = s.filter(pred);
        assert forall|i: int| 0 <= i < f.len() implies s.contains(#[trigger] f[i]) by {
            if pred(s.last()) && i == f.len() - 1 {
                assert(s[s.len() - 1] == f[i]);
            } else {
                assert(f[i] == d.filter(pred)[i]);
                let j = choose|j: int| 0 <= j < d.len() && d[j] == f[i];
                assert(s[j] == f[i]);
            }
        }
    }
}

/// The groups below position `r`: ranks under `r`, in non-decreasing
/// order, every kind of `s` ranked under `r` present, nothing foreign.
proof fn lemma_tray_prefix(s: Seq<PieceKind>, r: int)
    requires
        0 <= r,
    ensures
        ({
            let p = tray_prefix(s, r);
            &&& forall|i: int| 0 <= i < p.len() ==> tray_rank(#[trigger] p[i]) < r
            &&& forall|i: int, j: int|
                0 <= i < j < p.len() ==> tray_rank(#[trigger] p[i]) <= tray_rank(#[trigger] p[j])
            &&& forall|i: int| 0 <= i < s.len() && tray_rank(s[i]) < r ==> p.contains(#[trigger] s[i])
            &&& forall|i: int| 0 <= i < p.len() ==> s.contains(#[trigger] p[i])
        }),
    decreases r,
{
    broadcast use vstd::seq_lib::group_filter_ensures;

    if r > 0 {
        lemma_tray_prefix(s, r - 1);
        let a = tray_prefix(s, r - 1);
        let pred = |k: PieceKind| tray_rank(k) == r - 1;
        let f = s.filter(pred);
        let p = tray_prefix(s, r);
        assert(p == a + f);
        lemma_filter_from(s, pred);
        assert forall|i: int| 0 <= i < f.len() implies tray_rank(#[trigger] f[i]) == r - 1 by {
            assert(pred(f[i]));
        }
        assert forall|i: int| 0 <= i < p.len() implies tray_rank(#[trigger] p[i]) < r by {
            if i >= a.len() {
                assert(p[i] == f[i - a.len()]);
            }
        }
        assert forall|i: int, j: int|
            0 <= i < j < p.len() implies tray_rank(#[trigger] p[i]) <= tray_rank(#[trigger] p[j]) by {
            if j >= a.len() {
                assert(p[j] == f[j - a.len()]);
                if i >= a.len() {
                    assert(p[i] == f[i - a.len()]);
                }
            }
        }
        assert forall|i: int| 0 <= i < s.len() && tray_rank(s[i]) < r implies p.contains(
            #[trigger] s[i],
        ) by {
            if tray_rank(s[i]) < r - 1 {
                let k = choose|k: int| 0 <= k < a.len() && a[k] == s[i];
                assert(p[k] == s[i]);
            } else {
                assert(pred(s[i]));
                assert(f.contains(s[i]));
                let k = choose|k: int| 0 <= k < f.len() && f[k] == s[i];
                assert(p[a.len() + k] == s[i]);
            }
        }
        assert forall|i: int| 0 <= i < p.len() implies s.contains(#[trigger] p[i]) by {
            if i < a.len() {
                assert(p[i] == a[i]);
            } else {
                assert(p[i] == f[i - a.len()]);
            }
        }
    }
}

/// Dropping the last kind shortens the groups below `r` by one exactly
/// when that kind ranks below `r`.
proof fn lemma_tray_prefix_len(s: Seq<PieceKind>, r: int)
    requires
        s.len() > 0,
        0 <= r,
    ensures
        tray_prefix(s, r).len() == tray_prefix(s.drop_last(), r).len() + if tray_rank(s.last()) < r {
            1int
        } else {
            0int
        },
    decreases r,
{
    reveal(Seq::filter);
    if r > 0 {
        lemma_tray_prefix_len(s, r - 1);
        let pred = |k: PieceKind| tray_rank(k) == r - 1;
        assert(s.filter(pred) == if pred(s.last()) {
            s.drop_last().filter(pred).push(s.last())
        } else {
            s.drop_last().filter(pred)
        });
    }
}

/// The tray has as many entries as there were captures.
proof fn lemma_tray_order_len(s: Seq<PieceKind>)
    ensures
        tray_order(s).len() == s.len(),
    decreases s.len(),
{
    if s.len() == 0 {
        lemma_tray_prefix(s, TRAY_RANKS as int);
        if tray_order(s).len() > 0 {
            assert(s.contains(tray_order(s)[0]));
        }
    } else {
        lemma_tray_order_len(s.drop_last());
        lemma_tray_prefix_len(s, TRAY_RANKS as int);
    }
}

/// Dropping the last kind removes it from the groups below `r` exactly
/// when it ranks below `r`.
proof fn lemma_tray_prefix_multiset(s: Seq<PieceKind>, r: int)
    requires
        s.len() > 0,
        0 <= r,
    ensures
        tray_prefix(s, r).to_multiset() == tray_prefix(s.drop_last(), r).to_multiset().add(
            if tray_rank(s.last()) < r {
                Multiset::singleton(s.last())
            } else {
                Multiset::empty()
            },
        ),
    decreases r,
{
    broadcast use vstd::seq_lib::group_to_multiset_ensures;
    broadcast use vstd::seq_lib::lemma_multiset_commutative;

    reveal(Seq::filter);
    let d = s.drop_last();
    if r == 0 {
        assert(tray_prefix(s, r) =~= Seq::<PieceKind>::empty());
        assert(tray_prefix(d, r) =~= Seq::<PieceKind>::empty());
        assert(tray_prefix(s, r).to_multiset() =~= tray_prefix(d, r).to_multiset().add(
            Multiset::empty(),
        ));
    } else {
        lemma_tray_prefix_multiset(s, r - 1);
        let pred = |k: PieceKind| tray_rank(k) == r - 1;
        let fs = s.filter(pred);
        let fd = d.filter(pred);
        assert(fs == if pred(s.last()) {
            fd.push(s.last())
        } else {
            fd
        });
        let a = tray_prefix(s, r - 1);
        let b = tray_prefix(d, r - 1);
        assert(tray_prefix(s, r) == a + fs);
        assert(tray_prefix(d, r) == b + fd);
        assert((a + fs).to_multiset() =~= a.to_multiset().add(fs.to_multiset()));
        assert((b + fd).to_multiset() =~= b.to_multiset().add(fd.to_multiset()));
        if pred(s.last()) {
            assert(fs.to_multiset() =~= fd.to_multiset().insert(s.last()));
        }
        assert(tray_prefix(s, r).to_multiset() =~= tray_prefix(d, r).to_multiset().add(
            if tray_rank(s.last()) < r {
                Multiset::singleton(s.last())
            } else {
                Multiset::empty()
            },
        ));
    }
}

/// The tray holds exactly the captures: as multisets they are equal.
proof fn lemma_tray_order_multiset(s: Seq<PieceKind>)
    ensures
        tray_order(s).to_multiset() == s.to_multiset(),
    decreases s.len(),
{
    broadcast use vstd::seq_lib::group_to_multiset_ensures;

    if s.len() == 0 {
        lemma_tray_order_len(s);
        assert(tray_order(s) =~= s);
    } else {
        let d = s.drop_last();
        lemma_tray_order_multiset(d);
        lemma_tray_prefix_multiset(s, TRAY_RANKS as int);
        assert(s == d.push(s.last()));
        assert(tray_order(s).to_multiset() =~= s.to_multiset());
    }
}

/// The tray lists the most valuable captures first: its order never goes
/// down in [`tray_rank`], and it holds exactly the captures, each as
/// often as it was captured.
pub proof fn law_tray_order_sorted(s: Seq<PieceKind>)
    ensures
        forall|i: int, j: int|
            0 <= i < j < tray_order(s).len() ==> tray_rank(#[trigger] tray_order(s)[i]) <= tray_rank(
                #[trigger] tray_order(s)[j],
            ),
        forall|i: int| 0 <= i < s.len() ==> tray_order(s).contains(#[trigger] s[i]),
        forall|i: int| 0 <= i < tray_order(s).len() ==> s.contains(#[trigger] tray_order(s)[i]),
        tray_order(s).len() == s.len(),
        tray_order(s).to_multiset() == s.to_multiset(),
{
    lemma_tray_prefix(s, TRAY_RANKS as int);
    lemma_tray_order_len(s);
    lemma_tray_order_multiset(s);
    assert forall|i: int| 0 <= i < s.len() implies tray_order(s).contains(#[trigger] s[i]) by {
        assert(tray_rank(s[i]) < TRAY_RANKS);
    }
}

/// Sorts piece kinds into tray order, keeping equal kinds in their order.
pub fn sort_for_tray(kinds: &[PieceKind]) -> (v: Vec<PieceKind>)
    ensures
        v@ == tray_order(kinds@),
{
    let mut out: Vec<PieceKind> = Vec::new();
    let mut r: u8 = 0;
    while r < TRAY_RANKS
        invariant
            r <= TRAY_RANKS,
            out@ == tray_prefix(kinds@, r as int),
        decreases TRAY_RANKS - r,
    {
        let ghost start = out@;
        let ghost pred = |k: PieceKind| tray_rank(k) == r;
        let mut i: usize = 0;
        while i < kinds.len()
            invariant
                i <= kinds@.len(),
                r < TRAY_RANKS,
                pred == (|k: PieceKind| tray_rank(k) == r),
                out@ == start + kinds@.take(i as int).filter(pred),
            decreases kinds@.len() - i,
        {
            let k = kinds[i];
            proof {
                assert(kinds@.take(i + 1).drop_last() =~= kinds@.take(i as int));
                assert(kinds@.take(i + 1).last() == k);
                reveal(Seq::filter);
            }
            if tray_rank_of(k) == r {
                out.push(k);
                proof {
                    assert(out@ =~= start + kinds@.take(i + 1).filter(pred));
                }
            }
            i = i + 1;
        }
        proof {
            assert(kinds@.take(kinds@.len() as int) =~= kinds@);
        }
        r = r + 1;
    }
    out
}

/// What the tray shows: the kinds each side has captured, in tray order,
/// and which colour lost a piece on the latest move while the game runs.
pub struct CapturedTray {
    /// Black pieces taken by Red.
    pub red_captured: Vec<PieceKind>,
    /// Red pieces taken by Black.
    pub black_captured: Vec<PieceKind>,
    /// Colour of the piece captured by the last move, if the last move
    /// captured and the game is not over.
    pub last_capture: Option<Color>,
}

/// Collects the captures of each move (`caps`, in move order) into the
/// tray contents.
pub fn captured_tray(caps: &[Option<Piece>], game_over: bool) -> (t: CapturedTray)
    ensures
        t.red_captured@ == tray_order(captured_kinds(caps@, Color::Black)),
        t.black_captured@ == tray_order(captured_kinds(caps@, Color::Red)),
        t.last_capture == (if !game_over && caps@.len() > 0 {
            match caps@.last() {
                Some(p) => Some(p.color),
                None => None,
            }
        } else {
            None
        }),
{
    let mut red: Vec<PieceKind> = Vec::new();
    let mut black: Vec<PieceKind> = Vec::new();
    let mut i: usize = 0;
    while i < caps.len()
        invariant
            i <= caps@.len(),
            red@ == captured_kinds(caps@.take(i as int), Color::Black),
            black@ == captured_kinds(caps@.take(i as int), Color::Red),
        decreases caps@.len() - i,
    {
        proof {
            assert(caps@.take(i + 1).drop_last() =~= caps@.take(i as int));
        }
        match caps[i] {
            Some(p) => match p.color {
                Color::Black => red.push(p.kind),
                Color::Red => black.push(p.kind),
            },
            None => {},
        }
        i = i + 1;
    }
    proof {
        assert(caps@.take(caps@.len() as int) =~= caps@);
    }
    let last_capture = if !game_over && caps.len() > 0 {
        match caps[caps.len() - 1] {
            Some(p) => Some(p.color),
            None => None,
        }
    } else {
        None
    };
    CapturedTray {
        red_captured: sort_for_tray(red.as_slice()),
        black_captured: sort_for_tray(black.as_slice()),
        last_capture,
    }
}

/// The caption after a side's captures: total value and count, shown when
/// the value is positive.
pub open spec fn row_caption_text(value: int, count: nat) -> Seq<char> {
    if value > 0 {
        " ("@ + nat_text(value as nat) + ", "@ + nat_text(count) + "子)"@
    } else {
        Seq::empty()
    }
}

/// The caption after a side's captured pieces (see [`row_caption_text`]).
pub fn row_caption(value: i32, count: usize) -> (s: String)
    ensures
        s@ == row_caption_text(value as int, count as nat),
{
    let mut s = String::new();
    if value > 0 {
        push_str(&mut s, " (");
        push_u64(&mut s, value as u64);
        push_str(&mut s, ", ");
        push_u64(&mut s, count as u64);
        push_str(&mut s, "子)");
    }
    s
}

/// The material-balance line: which side is ahead and by how much (a lead
/// of 6 or more is a large one), with the number of pieces captured.
pub open spec fn balance_text(advantage: int, total: nat) -> Seq<char> {
    let lead = if advantage > 0 {
        (if advantage >= 6 {
            "红方大优"@
        } else {
            "红方优势"@
        }) + " +"@ + nat_text(advantage as nat)
    } else if advantage < 0 {
        (if -advantage >= 6 {
            "黑方大优"@
        } else {
            "黑方优势"@
        }) + " +"@ + nat_text((-advantage) as nat)
    } else {
        "「衡」 子力平衡"@
    };
    lead + " (吃"@ + nat_text(total) + "子)"@
}

/// The balance line for the captured values of each side and the number
/// of captured pieces (see [`balance_text`]).
pub fn balance_caption(red_value: i32, black_value: i32, total: usize) -> (s: String)
    requires
        i32::MIN < red_value - black_value <= i32::MAX,
    ensures
        s@ == balance_text(red_value - black_value, total as nat),
{
    let advantage: i32 = red_value - black_value;
    let mut s = String::new();
    if advantage > 0 {
        if advantage >= 6 {
            push_str(&mut s, "红方大优");
        } else {
            push_str(&mut s, "红方优势");
        }
        push_str(&mut s, " +");
        push_u64(&mut s, advantage as u64);
    } else if advantage < 0 {
        if -advantage >= 6 {
            push_str(&mut s, "黑方大优");
        } else {
            push_str(&mut s, "黑方优势");
        }
        push_str(&mut s, " +");
        push_u64(&mut s, (-advantage) as u64);
    } else {
        push_str(&mut s, "「衡」 子力平衡");
    }
    push_str(&mut s, " (吃");
    push_u64(&mut s, total as u64);
    push_str(&mut s, "子)");
    s
}

} // verus!
