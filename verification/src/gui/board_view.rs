//! The board's drawing decisions that do not depend on pixels: the
//! coordinate labels, and the plan that reconciles the piece sprites
//! already on screen with a new position (which sprites stay, which board
//! pieces need a new sprite, which sprite slides along the last move and
//! which captured sprite waits for that slide to finish).

use vstd::prelude::*;
use crate::xiangqi::{Color, Piece, Square};

verus! {

/// How the board edges are labelled.
#[derive(Debug, Clone, Copy, PartialEq, Eq, Structural)]
pub enum CoordinateStyle {
    /// Chinese numerals on Red's side, Arabic numerals on Black's side.
    Traditional,
    /// Letters a to i on both sides.
    Algebraic,
}

impl CoordinateStyle {
    /// The other style.
    pub fn next(self) -> (s: CoordinateStyle)
        ensures
            s == (match self {
                CoordinateStyle::Traditional => CoordinateStyle::Algebraic,
                CoordinateStyle::Algebraic => CoordinateStyle::Traditional,
            }),
    {
        match self {
            CoordinateStyle::Traditional => CoordinateStyle::Algebraic,
            CoordinateStyle::Algebraic => CoordinateStyle::Traditional,
        }
    }

    /// Name shown in the settings.
    pub fn label(self) -> (s: &'static str)
        ensures
            s@ == (match self {
                CoordinateStyle::Traditional => "传统"@,
                CoordinateStyle::Algebraic => "代数"@,
            }),
    {
        match self {
            CoordinateStyle::Traditional => "传统",
            CoordinateStyle::Algebraic => "代数",
        }
    }
}

/// Red's file numerals, from file 0 to file 8.
pub open spec fn red_file_numeral(f: int) -> char {
    seq!['九', '八', '七', '六', '五', '四', '三', '二', '一'][f]
}

/// The labels under and over file `f`.
pub open spec fn file_label_chars(style: CoordinateStyle, f: int) -> (char, char) {
    match style {
        CoordinateStyle::Traditional => (red_file_numeral(f), (49 + f) as char),
        CoordinateStyle::Algebraic => ((97 + f) as char, (97 + f) as char),
    }
}

/// The labels drawn below and above file `f` (see [`file_label_chars`]).
pub fn file_labels(style: CoordinateStyle, f: u8) -> (r: (char, char))
    requires
        f < 9,
    ensures
        r == file_label_chars(style, f as int),
{
    match style {
        CoordinateStyle::Traditional => {
            let red = ['九', '八', '七', '六', '五', '四', '三', '二', '一'];
            let black: u8 = 49u8 + f;
            let c = red[f as usize];
            assert(c == red_file_numeral(f as int));
            (c, black as char)
        },
        CoordinateStyle::Algebraic => {
            let b: u8 = 97u8 + f;
            (b as char, b as char)
        },
    }
}

/// The first index in `j..n` where `p` holds, or `n` when there is none.
pub open spec fn first_where(n: int, p: spec_fn(int) -> bool, j: int) -> int
    decreases n - j,
{
    if j >= n {
        n
    } else if p(j) {
        j
    } else {
        first_where(n, p, j + 1)
    }
}

/// Skipping indices where `p` fails does not change the first match.
pub proof fn lemma_first_where_skip(n: int, p: spec_fn(int) -> bool, a: int, j: int)
    requires
        a <= j,
        forall|k: int| a <= k < j ==> !#[trigger] p(k),
    ensures
        first_where(n, p, a) == first_where(n, p, j),
    decreases j - a,
{
    if a < j {
        lemma_first_where_skip(n, p, a + 1, j);
    }
}

/// The first match is a match, and no index before it matches.
proof fn lemma_first_where_found(n: int, p: spec_fn(int) -> bool, j: int)
    requires
        0 <= j <= n,
    ensures
        j <= first_where(n, p, j) <= n,
        first_where(n, p, j) < n ==> p(first_where(n, p, j)),
    decreases n - j,
{
    if j < n && !p(j) {
        lemma_first_where_found(n, p, j + 1);
    }
}

/// How many entries are `true`.
pub open spec fn count_true(s: Seq<bool>) -> nat
    decreases s.len(),
{
    if s.len() == 0 {
        0
    } else {
        count_true(s.drop_last()) + if s.last() {
            1nat
        } else {
            0nat
        }
    }
}

proof fn lemma_count_true_update(s: Seq<bool>, j: int)
    requires
        0 <= j < s.len(),
        !s[j],
    ensures
        count_true(s.update(j, true)) == count_true(s) + 1,
    decreases s.len(),
{
    let u = s.update(j, true);
    if j == s.len() - 1 {
        assert(u.drop_last() =~= s.drop_last());
    } else {
        lemma_count_true_update(s.drop_last(), j);
        assert(u.drop_last() =~= s.drop_last().update(j, true));
    }
}

proof fn lemma_count_true_all_false(n: nat)
    ensures
        count_true(Seq::new(n, |k: int| false)) == 0,
    decreases n,
{
    if n > 0 {
        lemma_count_true_all_false((n - 1) as nat);
        assert(Seq::new(n, |k: int| false).drop_last() =~= Seq::new((n - 1) as nat, |k: int| false));
    }
}

/// A sprite (square and piece) and an uncovered board piece that agree.
pub open spec fn exact_pred(
    board: Seq<(Square, Piece)>,
    covered: Seq<bool>,
    x: (Square, Piece),
) -> spec_fn(int) -> bool {
    |k: int| !covered[k] && board[k] == x
}

/// First pass over the sprites: each sprite, in order, claims the first
/// unclaimed board piece with the same square and piece. The result is
/// which of the first `n` sprites stay, and which board pieces are claimed.
pub open spec fn exact_matches(
    sprites: Seq<(Square, Piece)>,
    board: Seq<(Square, Piece)>,
    n: int,
) -> (Seq<bool>, Seq<bool>)
    decreases n,
{
    if n <= 0 {
        (Seq::empty(), Seq::new(board.len(), |k: int| false))
    } else {
        let prev = exact_matches(sprites, board, n - 1);
        let j = first_where(board.len() as int, exact_pred(board, prev.1, sprites[n - 1]), 0);
        if j < board.len() {
            (prev.0.push(true), prev.1.update(j, true))
        } else {
            (prev.0.push(false), prev.1)
        }
    }
}

/// Staying sprites and claimed board pieces correspond: as many of each,
/// every staying sprite among the first `n` shows a claimed piece on its
/// point, and every claimed piece is shown by a staying sprite.
pub open spec fn paired(
    sprites: Seq<(Square, Piece)>,
    board: Seq<(Square, Piece)>,
    n: int,
    kept: Seq<bool>,
    covered: Seq<bool>,
) -> bool {
    &&& kept.len() == n
    &&& covered.len() == board.len()
    &&& count_true(kept) == count_true(covered)
    &&& forall|i: int|
        0 <= i < n && #[trigger] kept[i] ==> exists|j: int|
            0 <= j < board.len() && covered[j] && board[j] == sprites[i]
    &&& forall|j: int|
        0 <= j < board.len() && #[trigger] covered[j] ==> exists|i: int|
            0 <= i < n && kept[i] && sprites[i] == board[j]
}

proof fn lemma_pair_claim(
    sprites: Seq<(Square, Piece)>,
    board: Seq<(Square, Piece)>,
    n: int,
    kept: Seq<bool>,
    covered: Seq<bool>,
    j: int,
)
    requires
        0 < n <= sprites.len(),
        paired(sprites, board, n - 1, kept, covered),
        0 <= j < board.len(),
        !covered[j],
        board[j] == sprites[n - 1],
    ensures
        paired(sprites, board, n, kept.push(true), covered.update(j, true)),
{
    let k2 = kept.push(true);
    let c2 = covered.update(j, true);
    assert(k2.drop_last() =~= kept);
    lemma_count_true_update(covered, j);
    assert forall|i: int| 0 <= i < n && #[trigger] k2[i] implies exists|jj: int|
        0 <= jj < board.len() && c2[jj] && board[jj] == sprites[i] by {
        if i == n - 1 {
            assert(c2[j] && board[j] == sprites[i]);
        } else {
            assert(kept[i]);
            let jj = choose|jj: int| 0 <= jj < board.len() && covered[jj] && board[jj] == sprites[i];
            assert(c2[jj]);
        }
    }
    assert forall|jj: int| 0 <= jj < board.len() && #[trigger] c2[jj] implies exists|i: int|
        0 <= i < n && k2[i] && sprites[i] == board[jj] by {
        if jj == j {
            assert(k2[n - 1] && sprites[n - 1] == board[jj]);
        } else {
            assert(covered[jj]);
            let i = choose|i: int| 0 <= i < n - 1 && kept[i] && sprites[i] == board[jj];
            assert(k2[i]);
        }
    }
}

proof fn lemma_pair_skip(
    sprites: Seq<(Square, Piece)>,
    board: Seq<(Square, Piece)>,
    n: int,
    kept: Seq<bool>,
    covered: Seq<bool>,
)
    requires
        0 < n <= sprites.len(),
        paired(sprites, board, n - 1, kept, covered),
    ensures
        paired(sprites, board, n, kept.push(false), covered),
{
    let k2 = kept.push(false);
    assert(k2.drop_last() =~= kept);
    assert(count_true(k2) == count_true(kept));
    assert forall|i: int| 0 <= i < n && #[trigger] k2[i] implies exists|jj: int|
        0 <= jj < board.len() && covered[jj] && board[jj] == sprites[i] by {
        assert(kept[i]);
    }
    assert forall|jj: int| 0 <= jj < board.len() && #[trigger] covered[jj] implies exists|i: int|
        0 <= i < n && k2[i] && sprites[i] == board[jj] by {
        assert(covered[jj]);
        let i = choose|i: int| 0 <= i < n - 1 && kept[i] && sprites[i] == board[jj];
        assert(k2[i]);
    }
}

/// The exact pass pairs sprites with board pieces one to one (see
/// [`paired`]).
pub proof fn law_exact_matches_pair(
    sprites: Seq<(Square, Piece)>,
    board: Seq<(Square, Piece)>,
    n: int,
)
    requires
        0 <= n <= sprites.len(),
    ensures
        paired(sprites, board, n, exact_matches(sprites, board, n).0, exact_matches(sprites, board, n).1),
    decreases n,
{
    if n == 0 {
        lemma_count_true_all_false(board.len());
    } else {
        law_exact_matches_pair(sprites, board, n - 1);
        let prev = exact_matches(sprites, board, n - 1);
        let p = exact_pred(board, prev.1, sprites[n - 1]);
        let j = first_where(board.len() as int, p, 0);
        lemma_first_where_found(board.len() as int, p, 0);
        if j < board.len() {
            lemma_pair_claim(sprites, board, n, prev.0, prev.1, j);
        } else {
            lemma_pair_skip(sprites, board, n, prev.0, prev.1);
        }
    }
}

/// An unclaimed board piece on `to`.
pub open spec fn arrival_pred(
    board: Seq<(Square, Piece)>,
    covered: Seq<bool>,
    to: Square,
) -> spec_fn(int) -> bool {
    |k: int| board[k].0 == to && !covered[k]
}

/// A sprite that does not stay, on `from`, showing `piece`.
pub open spec fn mover_pred(
    sprites: Seq<(Square, Piece)>,
    kept: Seq<bool>,
    from: Square,
    piece: Piece,
) -> spec_fn(int) -> bool {
    |i: int| !kept[i] && sprites[i].0 == from && sprites[i].1 == piece
}

/// A sprite that does not stay, on `to`, of the colour other than `c`.
pub open spec fn victim_pred(
    sprites: Seq<(Square, Piece)>,
    kept: Seq<bool>,
    to: Square,
    c: Color,
) -> spec_fn(int) -> bool {
    |i: int| !kept[i] && sprites[i].0 == to && sprites[i].1.color != c
}

/// The plan: which sprites stay, which board pieces have a sprite, the
/// sprite that slides and the captured sprite kept until the slide ends.
/// After the exact matches, and only outside history viewing, the last
/// move `from -> to` is looked for: the first unclaimed board piece on
/// `to`, then the first leftover sprite on `from` showing that piece; that
/// sprite slides and claims the board piece, and the first leftover sprite
/// on `to` of the other colour is the captured one.
pub open spec fn sprite_plan(
    sprites: Seq<(Square, Piece)>,
    board: Seq<(Square, Piece)>,
    last_move: Option<(Square, Square)>,
    viewing_history: bool,
) -> (Seq<bool>, Seq<bool>, Option<int>, Option<int>) {
    let (kept, covered) = exact_matches(sprites, board, sprites.len() as int);
    let unchanged = (kept, covered, None::<int>, None::<int>);
    if viewing_history {
        unchanged
    } else {
        match last_move {
            None => unchanged,
            Some((from, to)) => {
                let jt = first_where(board.len() as int, arrival_pred(board, covered, to), 0);
                if jt >= board.len() {
                    unchanged
                } else {
                    let piece = board[jt].1;
                    let im = first_where(
                        sprites.len() as int,
                        mover_pred(sprites, kept, from, piece),
                        0,
                    );
                    if im >= sprites.len() {
                        unchanged
                    } else {
                        let kept2 = kept.update(im, true);
                        let covered2 = covered.update(jt, true);
                        let ic = first_where(
                            sprites.len() as int,
                            victim_pred(sprites, kept2, to, piece.color),
                            0,
                        );
                        if ic >= sprites.len() {
                            (kept2, covered2, Some(im), None)
                        } else {
                            (kept2.update(ic, true), covered2, Some(im), Some(ic))
                        }
                    }
                }
            },
        }
    }
}

/// What to do with the sprites (see [`sprite_plan`]).
pub struct SpritePlan {
    /// Per sprite: it stays on screen.
    pub kept: Vec<bool>,
    /// Per board piece: a sprite already shows it.
    pub covered: Vec<bool>,
    /// The sprite that slides along the last move.
    pub mover: Option<usize>,
    /// The captured sprite that stays until the slide ends.
    pub captured: Option<usize>,
}

/// The index of the first unclaimed board piece equal to `x`, or the
/// number of board pieces.
fn find_exact(board: &[(Square, Piece)], covered: &Vec<bool>, x: (Square, Piece)) -> (j: usize)
    requires
        covered@.len() == board@.len(),
    ensures
        j == first_where(board@.len() as int, exact_pred(board@, covered@, x), 0),
{
    let ghost p = exact_pred(board@, covered@, x);
    let mut j: usize = 0;
    while j < board.len()
        invariant
            j <= board@.len(),
            covered@.len() == board@.len(),
            p == exact_pred(board@, covered@, x),
            forall|k: int| 0 <= k < j ==> !#[trigger] p(k),
        decreases board@.len() - j,
    {
        let (sq, pc) = board[j];
        if !covered[j] && sq == x.0 && pc == x.1 {
            proof {
                lemma_first_where_skip(board@.len() as int, p, 0, j as int);
            }
            return j;
        }
        j = j + 1;
    }
    proof {
        lemma_first_where_skip(board@.len() as int, p, 0, j as int);
    }
    j
}

/// The index of the first unclaimed board piece on `to`, or the number of
/// board pieces.
fn find_arrival(board: &[(Square, Piece)], covered: &Vec<bool>, to: Square) -> (j: usize)
    requires
        covered@.len() == board@.len(),
    ensures
        j == first_where(board@.len() as int, arrival_pred(board@, covered@, to), 0),
{
    let ghost p = arrival_pred(board@, covered@, to);
    let mut j: usize = 0;
    while j < board.len()
        invariant
            j <= board@.len(),
            covered@.len() == board@.len(),
            p == arrival_pred(board@, covered@, to),
            forall|k: int| 0 <= k < j ==> !#[trigger] p(k),
        decreases board@.len() - j,
    {
        let (sq, _) = board[j];
        if sq == to && !covered[j] {
            proof {
                lemma_first_where_skip(board@.len() as int, p, 0, j as int);
            }
            return j;
        }
        j = j + 1;
    }
    proof {
        lemma_first_where_skip(board@.len() as int, p, 0, j as int);
    }
    j
}

/// The index of the first leftover sprite on `from` showing `piece`, or
/// the number of sprites.
fn find_mover(sprites: &[(Square, Piece)], kept: &Vec<bool>, from: Square, piece: Piece) -> (i:
    usize)
    requires
        kept@.len() == sprites@.len(),
    ensures
        i == first_where(sprites@.len() as int, mover_pred(sprites@, kept@, from, piece), 0),
{
    let ghost p = mover_pred(sprites@, kept@, from, piece);
    let mut i: usize = 0;
    while i < sprites.len()
        invariant
            i <= sprites@.len(),
            kept@.len() == sprites@.len(),
            p == mover_pred(sprites@, kept@, from, piece),
            forall|k: int| 0 <= k < i ==> !#[trigger] p(k),
        decreases sprites@.len() - i,
    {
        let (sq, pc) = sprites[i];
        if !kept[i] && sq == from && pc == piece {
            proof {
                lemma_first_where_skip(sprites@.len() as int, p, 0, i as int);
            }
            return i;
        }
        i = i + 1;
    }
    proof {
        lemma_first_where_skip(sprites@.len() as int, p, 0, i as int);
    }
    i
}

/// The index of the first leftover sprite on `to` of the colour other than
/// `c`, or the number of sprites.
fn find_victim(sprites: &[(Square, Piece)], kept: &Vec<bool>, to: Square, c: Color) -> (i: usize)
    requires
        kept@.len() == sprites@.len(),
    ensures
        i == first_where(sprites@.len() as int, victim_pred(sprites@, kept@, to, c), 0),
{
    let ghost p = victim_pred(sprites@, kept@, to, c);
    let mut i: usize = 0;
    while i < sprites.len()
        invariant
            i <= sprites@.len(),
            kept@.len() == sprites@.len(),
            p == victim_pred(sprites@, kept@, to, c),
            forall|k: int| 0 <= k < i ==> !#[trigger] p(k),
        decreases sprites@.len() - i,
    {
        let (sq, pc) = sprites[i];
        if !kept[i] && sq == to && pc.color != c {
            proof {
                lemma_first_where_skip(sprites@.len() as int, p, 0, i as int);
            }
            return i;
        }
        i = i + 1;
    }
    proof {
        lemma_first_where_skip(sprites@.len() as int, p, 0, i as int);
    }
    i
}

/// Plans how the sprites on screen (`sprites`) follow the pieces of the
/// position now shown (`board`); see [`sprite_plan`].
pub fn plan_sprites(
    sprites: &[(Square, Piece)],
    board: &[(Square, Piece)],
    last_move: Option<(Square, Square)>,
    viewing_history: bool,
) -> (r: SpritePlan)
    ensures
        ({
            let s = sprite_plan(sprites@, board@, last_move, viewing_history);
            &&& r.kept@ == s.0
            &&& r.covered@ == s.1
            &&& r.mover.is_some() == s.2.is_some()
            &&& r.mover.is_some() ==> s.2 == Some(r.mover.unwrap() as int)
            &&& r.captured.is_some() == s.3.is_some()
            &&& r.captured.is_some() ==> s.3 == Some(r.captured.unwrap() as int)
        }),
{
    let mut kept: Vec<bool> = Vec::new();
    let mut covered: Vec<bool> = Vec::new();
    let mut k: usize = 0;
    while k < board.len()
        invariant
            k <= board@.len(),
            covered@ == Seq::new(k as nat, |q: int| false),
        decreases board@.len() - k,
    {
        covered.push(false);
        k = k + 1;
        assert(covered@ =~= Seq::new(k as nat, |q: int| false));
    }
    assert(covered@ =~= exact_matches(sprites@, board@, 0).1);
    let mut i: usize = 0;
    while i < sprites.len()
        invariant
            i <= sprites@.len(),
            (kept@, covered@) == exact_matches(sprites@, board@, i as int),
            covered@.len() == board@.len(),
            kept@.len() == i,
        decreases sprites@.len() - i,
    {
        let j = find_exact(board, &covered, sprites[i]);
        if j < board.len() {
            kept.push(true);
            covered.set(j, true);
        } else {
            kept.push(false);
        }
        i = i + 1;
    }
    let ghost base = (kept@, covered@);
    if viewing_history {
        return SpritePlan { kept, covered, mover: None, captured: None };
    }
    match last_move {
        None => SpritePlan { kept, covered, mover: None, captured: None },
        Some((from, to)) => {
            let jt = find_arrival(board, &covered, to);
            if jt >= board.len() {
                return SpritePlan { kept, covered, mover: None, captured: None };
            }
            let piece = board[jt].1;
            let im = find_mover(sprites, &kept, from, piece);
            if im >= sprites.len() {
                return SpritePlan { kept, covered, mover: None, captured: None };
            }
            kept.set(im, true);
            covered.set(jt, true);
            let ic = find_victim(sprites, &kept, to, piece.color);
            if ic >= sprites.len() {
                SpritePlan { kept, covered, mover: Some(im), captured: None }
            } else {
                kept.set(ic, true);
                SpritePlan { kept, covered, mover: Some(im), captured: Some(ic) }
            }
        },
    }
}

/// Whether a press on the board may pick up a piece: no animation plays,
/// the live position is shown, the peer is connected and present, the
/// game goes on and the local player is to move.
pub fn can_interact(
    animating: bool,
    viewing_history: bool,
    awaiting_peer: bool,
    peer_disconnected: bool,
    game_over: bool,
    local_to_move: bool,
) -> (b: bool)
    ensures
        b == (!animating && !viewing_history && !awaiting_peer && !peer_disconnected && !game_over
            && local_to_move),
{
    !animating && !viewing_history && !awaiting_peer && !peer_disconnected && !game_over
        && local_to_move
}

/// The point a dragged piece is tried on: where it was dropped, unless it
/// was dropped off the board or back on its own point.
pub fn drop_target(drop: Option<Square>, from: Square) -> (r: Option<Square>)
    ensures
        r == (match drop {
            Some(to) => if to != from {
                Some(to)
            } else {
                None
            },
            None => None,
        }),
{
    match drop {
        Some(to) => {
            if to.file != from.file || to.rank != from.rank {
                Some(to)
            } else {
                None
            }
        },
        None => None,
    }
}

/// How a drag ends.
#[derive(Debug, Clone, Copy, PartialEq, Eq, Structural)]
pub enum DropOutcome {
    /// The move was made; the piece stays where it was dropped.
    Applied,
    /// The piece goes back to its point; `invalid` asks for the invalid
    /// flash and sound.
    SnapBack { invalid: bool },
}

/// The end of a drag: applied when the tried move was legal, else the
/// piece snaps back, with the invalid flash and sound exactly when it was
/// dropped on another point of the board.
pub fn drop_outcome(drop: Option<Square>, from: Square, applied: bool) -> (r: DropOutcome)
    ensures
        r == (if applied {
            DropOutcome::Applied
        } else {
            DropOutcome::SnapBack {
                invalid: match drop {
                    Some(sq) => sq != from,
                    None => false,
                },
            }
        }),
{
    if applied {
        DropOutcome::Applied
    } else {
        let invalid = match drop {
            Some(sq) => sq.file != from.file || sq.rank != from.rank,
            None => false,
        };
        DropOutcome::SnapBack { invalid }
    }
}

} // verus!
