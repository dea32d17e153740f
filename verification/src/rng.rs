//! Small non-cryptographic generator that gives the engine move variety.
//!
//! xorshift64* with a fixed seed offset. It only picks chess moves; it is
//! not for cryptography. Seeding from wall-clock entropy is done by the
//! caller (the application), which hands the seed to [`SmallRng::from_seed`].

use vstd::prelude::*;
use crate::xiangqi::Move;

verus! {

/// Offset added to every seed, so that the small seeds in common use do
/// not start at the all-zero fixed point of xorshift. Seeding stays
/// one-to-one, so exactly one seed, `0x61C8_8646_80B5_83EB`, still gives
/// the zero state.
pub const SEED_OFFSET: u64 = 0x9E37_79B9_7F4A_7C15;

/// Output multiplier of xorshift64*.
pub const OUTPUT_MULTIPLIER: u64 = 0x2545_F491_4F6C_DD1D;

/// xorshift64* generator; its view is the 64-bit state.
#[derive(Debug, Clone)]
pub struct SmallRng(u64);

impl View for SmallRng {
    type V = u64;

    closed spec fn view(&self) -> u64 {
        self.0
    }
}

/// The state transition: shifts 12 right, 25 left, 27 right.
pub open spec fn xorshift(x: u64) -> u64 {
    let a = x ^ (x >> 12u64);
    let b = a ^ (a << 25u64);
    b ^ (b >> 27u64)
}

/// The output drawn from a (new) state: multiplication modulo 2^64.
pub open spec fn scramble(x: u64) -> u64 {
    ((x as nat * OUTPUT_MULTIPLIER as nat) % 0x1_0000_0000_0000_0000nat) as u64
}

/// State after seeding: the seed plus the offset, modulo 2^64.
pub open spec fn seeded_state(seed: u64) -> u64 {
    ((seed as nat + SEED_OFFSET as nat) % 0x1_0000_0000_0000_0000nat) as u64
}

/// The value the next draw yields from state `s`.
pub open spec fn next_output(s: u64) -> u64 {
    scramble(xorshift(s))
}

impl SmallRng {
    /// Seeds deterministically: the state is `seed + SEED_OFFSET` (mod 2^64),
    /// so distinct seeds give distinct states.
    pub fn from_seed(seed: u64) -> (r: SmallRng)
        ensures
            r@ == seeded_state(seed),
    {
        SmallRng(seed.wrapping_add(SEED_OFFSET))
    }

    /// Advances the state one xorshift step and returns the scrambled state.
    pub fn next_u64(&mut self) -> (out: u64)
        ensures
            final(self)@ == xorshift(old(self)@),
            out == scramble(final(self)@),
    {
        let mut x = self.0;
        x = x ^ (x >> 12u64);
        x = x ^ (x << 25u64);
        x = x ^ (x >> 27u64);
        self.0 = x;
        x.wrapping_mul(OUTPUT_MULTIPLIER)
    }

    /// A value in `0..n`: the next draw modulo `n`.
    pub fn below(&mut self, n: u64) -> (out: u64)
        requires
            n > 0,
        ensures
            final(self)@ == xorshift(old(self)@),
            out == next_output(old(self)@) % n,
            out < n,
    {
        self.next_u64() % n
    }
}

/// Highest score among the first `n` entries (`n >= 1`).
pub open spec fn max_score_upto(scores: Seq<(Move, i32)>, n: int) -> int
    decreases n,
{
    if n <= 1 {
        scores[0].1 as int
    } else {
        let m = max_score_upto(scores, n - 1);
        if scores[n - 1].1 > m {
            scores[n - 1].1 as int
        } else {
            m
        }
    }
}

/// Highest score of a non-empty list.
pub open spec fn max_score(scores: Seq<(Move, i32)>) -> int {
    max_score_upto(scores, scores.len() as int)
}

/// Moves among the first `n` entries whose score is within `window` of
/// `best`, in list order.
pub open spec fn window_candidates(scores: Seq<(Move, i32)>, best: int, window: int, n: int) -> Seq<
    Move,
>
    decreases n,
{
    if n <= 0 {
        seq![]
    } else {
        let rest = window_candidates(scores, best, window, n - 1);
        if best - scores[n - 1].1 <= window {
            rest.push(scores[n - 1].0)
        } else {
            rest
        }
    }
}

proof fn lemma_max_score_bounds(scores: Seq<(Move, i32)>, n: int)
    requires
        1 <= n <= scores.len(),
    ensures
        forall|i: int| 0 <= i < n ==> scores[i].1 <= max_score_upto(scores, n),
        exists|i: int| 0 <= i < n && scores[i].1 == max_score_upto(scores, n),
    decreases n,
{
    if n > 1 {
        lemma_max_score_bounds(scores, n - 1);
        let m = max_score_upto(scores, n - 1);
        if scores[n - 1].1 > m {
            assert(scores[n - 1].1 == max_score_upto(scores, n));
        } else {
            let w = choose|i: int| 0 <= i < n - 1 && scores[i].1 == m;
            assert(scores[w].1 == max_score_upto(scores, n));
        }
    } else {
        assert(scores[0].1 == max_score_upto(scores, n));
    }
}

proof fn lemma_candidates_within(scores: Seq<(Move, i32)>, best: int, window: int, n: int)
    requires
        0 <= n <= scores.len(),
    ensures
        forall|k: int|
            0 <= k < window_candidates(scores, best, window, n).len() ==> exists|i: int|
                0 <= i < n && scores[i].0 == #[trigger] window_candidates(scores, best, window, n)[k]
                    && best - scores[i].1 <= window,
        (exists|i: int| 0 <= i < n && best - scores[i].1 <= window) ==> window_candidates(
            scores,
            best,
            window,
            n,
        ).len() > 0,
    decreases n,
{
    if n > 0 {
        lemma_candidates_within(scores, best, window, n - 1);
        let rest = window_candidates(scores, best, window, n - 1);
        if best - scores[n - 1].1 <= window {
            assert forall|k: int|
                0 <= k < window_candidates(scores, best, window, n).len() implies exists|i: int|
                0 <= i < n && scores[i].0 == #[trigger] window_candidates(scores, best, window, n)[k]
                    && best - scores[i].1 <= window by {
                if k < rest.len() {
                    assert(window_candidates(scores, best, window, n)[k] == rest[k]);
                } else {
                    assert(scores[n - 1].0 == window_candidates(scores, best, window, n)[k]);
                }
            }
        }
    }
}

/// Among root moves whose score is within `window` of the best, picks one
/// uniformly with one draw of `rng`; `None` only for an empty list. With
/// `window == 0` only best-scoring moves can be picked.
pub fn pick_within_window(scores: &[(Move, i32)], window: i32, rng: &mut SmallRng) -> (r: Option<
    Move,
>)
    requires
        window >= 0,
        scores@.len() > 0 ==> forall|i: int|
            0 <= i < scores@.len() ==> max_score(scores@) - #[trigger] scores@[i].1 <= i32::MAX,
    ensures
        scores@.len() == 0 ==> r is None && final(rng)@ == old(rng)@,
        scores@.len() > 0 ==> {
            let cands = window_candidates(
                scores@,
                max_score(scores@),
                window as int,
                scores@.len() as int,
            );
            &&& cands.len() > 0
            &&& final(rng)@ == xorshift(old(rng)@)
            &&& r == Some(cands[(next_output(old(rng)@) % (cands.len() as u64)) as int])
        },
        r matches Some(m) ==> exists|i: int|
            0 <= i < scores@.len() && scores@[i].0 == m && max_score(scores@) - scores@[i].1
                <= window,
{
    if scores.len() == 0 {
        return None;
    }
    let mut best: i32 = scores[0].1;
    let mut i: usize = 1;
    while i < scores.len()
        invariant
            1 <= i <= scores@.len(),
            best == max_score_upto(scores@, i as int),
        decreases scores@.len() - i,
    {
        if scores[i].1 > best {
            best = scores[i].1;
        }
        i = i + 1;
    }
    proof {
        lemma_max_score_bounds(scores@, scores@.len() as int);
    }
    let mut candidates: Vec<Move> = Vec::new();
    let mut j: usize = 0;
    while j < scores.len()
        invariant
            j <= scores@.len(),
            best == max_score(scores@),
            forall|k: int| 0 <= k < scores@.len() ==> best - #[trigger] scores@[k].1 <= i32::MAX,
            forall|k: int| 0 <= k < scores@.len() ==> #[trigger] scores@[k].1 <= best,
            candidates@ == window_candidates(scores@, best as int, window as int, j as int),
        decreases scores@.len() - j,
    {
        let s = scores[j].1;
        if best - s <= window {
            candidates.push(scores[j].0);
        }
        j = j + 1;
    }
    proof {
        lemma_candidates_within(scores@, best as int, window as int, scores@.len() as int);
        let w = choose|k: int| 0 <= k < scores@.len() && scores@[k].1 == best;
        assert(best - scores@[w].1 <= window);
    }
    let idx = rng.below(candidates.len() as u64) as usize;
    let m = candidates[idx];
    proof {
        assert(window_candidates(scores@, best as int, window as int, scores@.len() as int)[idx as int] == m);
    }
    Some(m)
}

/// Two generators in the same state produce the same next value and the
/// same successor state: a fixed seed replays a fixed stream.
pub proof fn law_same_state_same_stream(a: u64, b: u64)
    requires
        a == b,
    ensures
        next_output(a) == next_output(b),
        xorshift(a) == xorshift(b),
{
}

/// Every value `below(n)` can return lies in `0..n`.
pub proof fn law_below_in_range(state: u64, n: u64)
    requires
        n > 0,
    ensures
        next_output(state) % n < n,
{
}

} // verus!
