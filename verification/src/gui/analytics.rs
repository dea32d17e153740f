//! Performance analytics: results by time control, game lengths and
//! opening success.

use vstd::prelude::*;
use crate::collections::TextCounts;

verus! {

/// Time-control category of a game.
#[derive(Debug, Clone, Copy, PartialEq, Eq, Hash, Structural)]
pub enum TimeControlCategory {
    /// Under 3 minutes.
    Bullet,
    /// 3 to 9 minutes.
    Blitz,
    /// 10 to 29 minutes.
    Rapid,
    /// 30 minutes or more.
    Classical,
    /// No time control.
    Unlimited,
}

/// Category of a game of `minutes` per side (0: no time control).
pub open spec fn category_of(minutes: u32) -> TimeControlCategory {
    if minutes == 0 {
        TimeControlCategory::Unlimited
    } else if minutes <= 2 {
        TimeControlCategory::Bullet
    } else if minutes <= 9 {
        TimeControlCategory::Blitz
    } else if minutes <= 29 {
        TimeControlCategory::Rapid
    } else {
        TimeControlCategory::Classical
    }
}

/// Slot of a category.
pub open spec fn category_slot(c: TimeControlCategory) -> int {
    match c {
        TimeControlCategory::Bullet => 0,
        TimeControlCategory::Blitz => 1,
        TimeControlCategory::Rapid => 2,
        TimeControlCategory::Classical => 3,
        TimeControlCategory::Unlimited => 4,
    }
}

impl TimeControlCategory {
    /// Chinese label.
    pub fn label_cn(&self) -> (s: &'static str)
        ensures
            s@ == match *self {
                TimeControlCategory::Bullet => "子弹棋"@,
                TimeControlCategory::Blitz => "快棋"@,
                TimeControlCategory::Rapid => "快速"@,
                TimeControlCategory::Classical => "慢棋"@,
                TimeControlCategory::Unlimited => "无限"@,
            },
    {
        match self {
            TimeControlCategory::Bullet => "子弹棋",
            TimeControlCategory::Blitz => "快棋",
            TimeControlCategory::Rapid => "快速",
            TimeControlCategory::Classical => "慢棋",
            TimeControlCategory::Unlimited => "无限",
        }
    }

    /// Category of a game of `minutes` per side.
    pub fn from_minutes(minutes: u32) -> (c: TimeControlCategory)
        ensures
            c == category_of(minutes),
    {
        if minutes == 0 {
            TimeControlCategory::Unlimited
        } else if minutes <= 2 {
            TimeControlCategory::Bullet
        } else if minutes <= 9 {
            TimeControlCategory::Blitz
        } else if minutes <= 29 {
            TimeControlCategory::Rapid
        } else {
            TimeControlCategory::Classical
        }
    }

    fn slot(self) -> (i: usize)
        ensures
            i == category_slot(self),
    {
        match self {
            TimeControlCategory::Bullet => 0,
            TimeControlCategory::Blitz => 1,
            TimeControlCategory::Rapid => 2,
            TimeControlCategory::Classical => 3,
            TimeControlCategory::Unlimited => 4,
        }
    }
}

/// A game's outcome for the player.
#[derive(Debug, Clone, Copy, PartialEq, Eq, Structural)]
pub enum GameOutcome {
    Win,
    Loss,
    Draw,
}

/// Wins, losses and draws.
#[derive(Debug, Clone, Copy, PartialEq, Eq, Structural)]
pub struct Tally {
    pub wins: u32,
    pub losses: u32,
    pub draws: u32,
}

/// A tally after one more game.
pub open spec fn tally_add(t: Tally, o: GameOutcome) -> Tally {
    match o {
        GameOutcome::Win => Tally { wins: (t.wins + 1) as u32, ..t },
        GameOutcome::Loss => Tally { losses: (t.losses + 1) as u32, ..t },
        GameOutcome::Draw => Tally { draws: (t.draws + 1) as u32, ..t },
    }
}

/// Whether adding a game of outcome `o` keeps the tally in range.
pub open spec fn tally_room(t: Tally, o: GameOutcome) -> bool {
    match o {
        GameOutcome::Win => t.wins < u32::MAX,
        GameOutcome::Loss => t.losses < u32::MAX,
        GameOutcome::Draw => t.draws < u32::MAX,
    }
}

/// Games in a tally.
pub open spec fn tally_games(t: Option<Tally>) -> int {
    match t {
        Some(t) => t.wins + t.losses + t.draws,
        None => 0,
    }
}

/// The zero tally.
pub open spec fn zero_tally() -> Tally {
    Tally { wins: 0, losses: 0, draws: 0 }
}

/// Whether `(w1, t1)` wins at least as often as `(w2, t2)`: `w1/t1 >= w2/t2`.
pub open spec fn rate_at_least(w1: int, t1: int, w2: int, t2: int) -> bool {
    w1 * t2 >= w2 * t1
}

/// Analytics over the recorded games.
pub struct Analytics {
    /// Tally per time-control category, in slot order (`None` before the
    /// category's first game).
    pub by_time_control: Vec<Option<Tally>>,
    /// Game lengths in moves, in recording order.
    pub game_lengths: Vec<u32>,
    /// Wins per opening name.
    pub opening_wins: TextCounts,
    /// Games per opening name.
    pub opening_games: TextCounts,
    /// Rating history.
    pub rating_history: Vec<i32>,
}

/// Wins recorded for opening `k`.
pub open spec fn wins_of(wins: Map<Seq<char>, u32>, k: Seq<char>) -> int {
    if wins.contains_key(k) {
        wins[k] as int
    } else {
        0
    }
}

/// Among the first `n` openings of `ks` with at least 3 games, the index of
/// the last one with the best win rate.
pub open spec fn best_opening_index(
    ks: Seq<Seq<char>>,
    wins: Map<Seq<char>, u32>,
    games: Map<Seq<char>, u32>,
    n: int,
) -> Option<int>
    decreases n,
{
    if n <= 0 {
        None
    } else {
        let prev = best_opening_index(ks, wins, games, n - 1);
        let k = ks[n - 1];
        if games[k] >= 3 {
            match prev {
                Some(p) => if rate_at_least(wins_of(wins, k), games[k] as int, wins_of(wins, ks[p]), games[ks[p]] as int) {
                    Some(n - 1)
                } else {
                    prev
                },
                None => Some(n - 1),
            }
        } else {
            prev
        }
    }
}

impl Analytics {
    /// One slot per time-control category; the opening tables keep their
    /// keys unique.
    pub open spec fn wf(&self) -> bool {
        &&& self.by_time_control@.len() == 5
        &&& self.opening_wins.wf()
        &&& self.opening_games.wf()
    }

    /// The tally of a category, `None` before its first game.
    pub open spec fn tally(&self, c: TimeControlCategory) -> Option<Tally> {
        self.by_time_control@[category_slot(c)]
    }

    /// Games recorded over all categories.
    pub open spec fn games_total(&self) -> int {
        tally_games(self.tally(TimeControlCategory::Bullet)) + tally_games(self.tally(TimeControlCategory::Blitz))
            + tally_games(self.tally(TimeControlCategory::Rapid)) + tally_games(
            self.tally(TimeControlCategory::Classical),
        ) + tally_games(self.tally(TimeControlCategory::Unlimited))
    }

    /// Nothing recorded.
    pub fn new() -> (a: Analytics)
        ensures
            a.wf(),
            forall|c: TimeControlCategory| a.tally(c) is None,
            a.game_lengths@.len() == 0,
            a.opening_wins@ == Map::<Seq<char>, u32>::empty(),
            a.opening_games@ == Map::<Seq<char>, u32>::empty(),
            a.rating_history@.len() == 0,
    {
        let mut by: Vec<Option<Tally>> = Vec::new();
        let mut i: usize = 0;
        while i < 5
            invariant
                i <= 5,
                by@.len() == i,
                forall|j: int| 0 <= j < i ==> by@[j] is None,
            decreases 5 - i,
        {
            by.push(None);
            i = i + 1;
        }
        Analytics {
            by_time_control: by,
            game_lengths: Vec::new(),
            opening_wins: TextCounts::new(),
            opening_games: TextCounts::new(),
            rating_history: Vec::new(),
        }
    }

    /// Forgets everything recorded.
    pub fn reset(&mut self)
        ensures
            final(self).wf(),
            forall|c: TimeControlCategory| final(self).tally(c) is None,
            final(self).game_lengths@.len() == 0,
            final(self).opening_wins@ == Map::<Seq<char>, u32>::empty(),
            final(self).opening_games@ == Map::<Seq<char>, u32>::empty(),
            final(self).rating_history@.len() == 0,
    {
        *self = Analytics::new();
    }

    /// The tally of a category.
    pub fn time_control_tally(&self, c: TimeControlCategory) -> (t: Option<Tally>)
        requires
            self.wf(),
        ensures
            t == self.tally(c),
    {
        self.by_time_control[c.slot()]
    }

    /// Records a game: its category's tally, its length, and, when the
    /// opening is known, the opening's games and wins.
    pub fn record_game(&mut self, time_minutes: u32, outcome: GameOutcome, move_count: u32, opening: Option<&str>)
        requires
            old(self).wf(),
            tally_room(
                match old(self).tally(category_of(time_minutes)) {
                    Some(t) => t,
                    None => zero_tally(),
                },
                outcome,
            ),
            opening matches Some(name) ==> (old(self).opening_games@.contains_key(name@)
                ==> old(self).opening_games@[name@] < u32::MAX) && (outcome == GameOutcome::Win
                && old(self).opening_wins@.contains_key(name@) ==> old(self).opening_wins@[name@] < u32::MAX),
        ensures
            final(self).wf(),
            forall|c: TimeControlCategory| #[trigger] final(self).tally(c) == if c == category_of(time_minutes) {
                Some(
                    tally_add(
                        match old(self).tally(c) {
                            Some(t) => t,
                            None => zero_tally(),
                        },
                        outcome,
                    ),
                )
            } else {
                old(self).tally(c)
            },
            final(self).game_lengths@ == old(self).game_lengths@.push(move_count),
            final(self).opening_games@ == match opening {
                Some(name) => old(self).opening_games@.insert(
                    name@,
                    (if old(self).opening_games@.contains_key(name@) {
                        old(self).opening_games@[name@] + 1
                    } else {
                        1
                    }) as u32,
                ),
                None => old(self).opening_games@,
            },
            final(self).opening_wins@ == match opening {
                Some(name) => if outcome == GameOutcome::Win {
                    old(self).opening_wins@.insert(
                        name@,
                        (if old(self).opening_wins@.contains_key(name@) {
                            old(self).opening_wins@[name@] + 1
                        } else {
                            1
                        }) as u32,
                    )
                } else {
                    old(self).opening_wins@
                },
                None => old(self).opening_wins@,
            },
            final(self).rating_history@ == old(self).rating_history@,
    {
        let tc = TimeControlCategory::from_minutes(time_minutes);
        let i = tc.slot();
        let t = match self.by_time_control[i] {
            Some(t) => t,
            None => Tally { wins: 0, losses: 0, draws: 0 },
        };
        let t2 = match outcome {
            GameOutcome::Win => Tally { wins: t.wins + 1, ..t },
            GameOutcome::Loss => Tally { losses: t.losses + 1, ..t },
            GameOutcome::Draw => Tally { draws: t.draws + 1, ..t },
        };
        self.by_time_control[i] = Some(t2);
        self.game_lengths.push(move_count);
        if let Some(name) = opening {
            self.opening_games.increment(name);
            if outcome == GameOutcome::Win {
                self.opening_wins.increment(name);
            }
        }
    }

    /// Wins and games of an opening, if it was ever recorded.
    pub fn opening_stats(&self, name: &str) -> (r: Option<(u32, u32)>)
        requires
            self.wf(),
        ensures
            match r {
                Some((w, t)) => self.opening_games@.contains_key(name@) && t == self.opening_games@[name@]
                    && w == wins_of(self.opening_wins@, name@),
                None => !self.opening_games@.contains_key(name@),
            },
    {
        match self.opening_games.get(name) {
            Some(t) => {
                let w = match self.opening_wins.get(name) {
                    Some(w) => w,
                    None => 0,
                };
                Some((w, t))
            },
            None => None,
        }
    }

    /// Games recorded over all categories.
    pub fn total_games(&self) -> (n: u32)
        requires
            self.wf(),
            self.games_total() <= u32::MAX,
        ensures
            n == self.games_total(),
    {
        let mut n: u32 = 0;
        let mut i: usize = 0;
        while i < 5
            invariant
                self.wf(),
                self.games_total() <= u32::MAX,
                i <= 5,
                n == tally_games(self.by_time_control@[0]) * (if i > 0 { 1int } else { 0 }) + tally_games(
                    self.by_time_control@[1],
                ) * (if i > 1 { 1int } else { 0 }) + tally_games(self.by_time_control@[2]) * (if i > 2 {
                    1int
                } else {
                    0
                }) + tally_games(self.by_time_control@[3]) * (if i > 3 { 1int } else { 0 }) + tally_games(
                    self.by_time_control@[4],
                ) * (if i > 4 { 1int } else { 0 }),
            decreases 5 - i,
        {
            proof {
                assert(self.tally(TimeControlCategory::Bullet) == self.by_time_control@[0]);
                assert(self.tally(TimeControlCategory::Blitz) == self.by_time_control@[1]);
                assert(self.tally(TimeControlCategory::Rapid) == self.by_time_control@[2]);
                assert(self.tally(TimeControlCategory::Classical) == self.by_time_control@[3]);
                assert(self.tally(TimeControlCategory::Unlimited) == self.by_time_control@[4]);
            }
            match self.by_time_control[i] {
                Some(t) => {
                    n = n + t.wins + t.losses + t.draws;
                },
                None => {},
            }
            i = i + 1;
        }
        proof {
            assert(self.tally(TimeControlCategory::Bullet) == self.by_time_control@[0]);
            assert(self.tally(TimeControlCategory::Blitz) == self.by_time_control@[1]);
            assert(self.tally(TimeControlCategory::Rapid) == self.by_time_control@[2]);
            assert(self.tally(TimeControlCategory::Classical) == self.by_time_control@[3]);
            assert(self.tally(TimeControlCategory::Unlimited) == self.by_time_control@[4]);
        }
        n
    }

    /// Total wins and games over all categories, for the overall win rate.
    pub fn win_totals(&self) -> (r: (u64, u64))
        requires
            self.wf(),
        ensures
            r.1 == self.games_total(),
            r.0 == (match self.tally(TimeControlCategory::Bullet) {
                Some(t) => t.wins as int,
                None => 0,
            }) + (match self.tally(TimeControlCategory::Blitz) {
                Some(t) => t.wins as int,
                None => 0,
            }) + (match self.tally(TimeControlCategory::Rapid) {
                Some(t) => t.wins as int,
                None => 0,
            }) + (match self.tally(TimeControlCategory::Classical) {
                Some(t) => t.wins as int,
                None => 0,
            }) + (match self.tally(TimeControlCategory::Unlimited) {
                Some(t) => t.wins as int,
                None => 0,
            }),
    {
        let mut w: u64 = 0;
        let mut n: u64 = 0;
        let mut i: usize = 0;
        while i < 5
            invariant
                self.wf(),
                i <= 5,
                w <= i * 0x1_0000_0000,
                n <= i * 0x3_0000_0000,
                w == (if i > 0 { wins_in(self.by_time_control@[0]) } else { 0 }) + (if i > 1 {
                    wins_in(self.by_time_control@[1])
                } else {
                    0
                }) + (if i > 2 { wins_in(self.by_time_control@[2]) } else { 0 }) + (if i > 3 {
                    wins_in(self.by_time_control@[3])
                } else {
                    0
                }) + (if i > 4 { wins_in(self.by_time_control@[4]) } else { 0 }),
                n == (if i > 0 { tally_games(self.by_time_control@[0]) } else { 0 }) + (if i > 1 {
                    tally_games(self.by_time_control@[1])
                } else {
                    0
                }) + (if i > 2 { tally_games(self.by_time_control@[2]) } else { 0 }) + (if i > 3 {
                    tally_games(self.by_time_control@[3])
                } else {
                    0
                }) + (if i > 4 { tally_games(self.by_time_control@[4]) } else { 0 }),
            decreases 5 - i,
        {
            match self.by_time_control[i] {
                Some(t) => {
                    w = w + t.wins as u64;
                    n = n + t.wins as u64 + t.losses as u64 + t.draws as u64;
                },
                None => {},
            }
            i = i + 1;
        }
        proof {
            assert(self.tally(TimeControlCategory::Bullet) == self.by_time_control@[0]);
            assert(self.tally(TimeControlCategory::Blitz) == self.by_time_control@[1]);
            assert(self.tally(TimeControlCategory::Rapid) == self.by_time_control@[2]);
            assert(self.tally(TimeControlCategory::Classical) == self.by_time_control@[3]);
            assert(self.tally(TimeControlCategory::Unlimited) == self.by_time_control@[4]);
        }
        (w, n)
    }

    /// Total and count of the recorded game lengths, for the average.
    pub fn length_totals(&self) -> (r: (u64, usize))
        requires
            self.game_lengths@.len() <= u32::MAX,
        ensures
            r.0 == sum_lengths(self.game_lengths@, self.game_lengths@.len() as int),
            r.1 == self.game_lengths@.len(),
    {
        let mut s: u64 = 0;
        let mut i: usize = 0;
        while i < self.game_lengths.len()
            invariant
                self.game_lengths@.len() <= u32::MAX,
                i <= self.game_lengths@.len(),
                s == sum_lengths(self.game_lengths@, i as int),
                s <= i * 0xFFFF_FFFF,
            decreases self.game_lengths@.len() - i,
        {
            s = s + self.game_lengths[i] as u64;
            i = i + 1;
        }
        (s, self.game_lengths.len())
    }

    /// The opening with the best win rate among those with at least 3
    /// games (the last such in recording order on a tie): its name, wins
    /// and games.
    pub fn best_opening(&self) -> (r: Option<(String, u32, u32)>)
        requires
            self.wf(),
        ensures
            match best_opening_index(
                self.opening_games.keys(),
                self.opening_wins@,
                self.opening_games@,
                self.opening_games.keys().len() as int,
            ) {
                Some(i) => r matches Some((name, w, t)) && name@ == self.opening_games.keys()[i]
                    && t == self.opening_games@[name@] && w == wins_of(self.opening_wins@, name@),
                None => r is None,
            },
    {
        let n = self.opening_games.len();
        let mut best: Option<(usize, u32, u32)> = None;
        let mut i: usize = 0;
        while i < n
            invariant
                self.wf(),
                n == self.opening_games.keys().len(),
                i <= n,
                match best_opening_index(
                    self.opening_games.keys(),
                    self.opening_wins@,
                    self.opening_games@,
                    i as int,
                ) {
                    Some(j) => best matches Some((bj, bw, bt)) && bj == j && j < i && bt
                        == self.opening_games@[self.opening_games.keys()[j]] && bw == wins_of(
                        self.opening_wins@,
                        self.opening_games.keys()[j],
                    ),
                    None => best is None,
                },
            decreases n - i,
        {
            let (name, t) = self.opening_games.entry_at(i);
            if t >= 3 {
                let w = match self.opening_wins.get(name.as_str()) {
                    Some(w) => w,
                    None => 0,
                };
                match best {
                    Some((_, bw, bt)) => {
                        let lhs: u64 = wide_mul(w, bt);
                        let rhs: u64 = wide_mul(bw, t);
                        if lhs >= rhs {
                            best = Some((i, w, t));
                        }
                    },
                    None => {
                        best = Some((i, w, t));
                    },
                }
            }
            i = i + 1;
        }
        match best {
            Some((j, w, t)) => {
                let (name, _) = self.opening_games.entry_at(j);
                Some((name.clone(), w, t))
            },
            None => None,
        }
    }
}

fn wide_mul(a: u32, b: u32) -> (r: u64)
    ensures
        r == a * b,
{
    assert((a as int) * (b as int) <= 0xFFFF_FFFF * 0xFFFF_FFFF) by (nonlinear_arith)
        requires
            a <= 0xFFFF_FFFF,
            b <= 0xFFFF_FFFF,
    ;
    (a as u64) * (b as u64)
}

/// Wins in a tally.
pub open spec fn wins_in(t: Option<Tally>) -> int {
    match t {
        Some(t) => t.wins as int,
        None => 0,
    }
}

/// Sum of the first `n` lengths.
pub open spec fn sum_lengths(ls: Seq<u32>, n: int) -> int
    decreases n,
{
    if n <= 0 {
        0
    } else {
        sum_lengths(ls, n - 1) + ls[n - 1]
    }
}

} // verus!
