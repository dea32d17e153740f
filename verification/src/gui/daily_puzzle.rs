//! The daily endgame puzzle: one puzzle per date, picked by a hash of the
//! date text, and the completion streak over consecutive days.

use vstd::prelude::*;
use crate::text::{chars_of, nat_text, parse_in_range, parse_int, push_str, push_u64, split_from, split_on};
use vstd::string::StringSliceAdditionalSpecFns;

verus! {

/// A puzzle for one date.
pub struct DailyPuzzle {
    /// The date, `YYYY-MM-DD`.
    pub date: String,
    /// Starting position.
    pub fen: String,
    /// Solution moves (ICCS).
    pub solution: Vec<String>,
    /// Hint in Chinese.
    pub hint_cn: String,
    /// Difficulty, 1 to 5.
    pub difficulty: u8,
}

/// Number of puzzles to choose from.
pub const DAILY_PUZZLE_COUNT: u64 = 3;

/// FEN of puzzle `k`.
pub open spec fn puzzle_fen(k: int) -> Seq<char> {
    if k == 0 {
        "4k4/9/9/9/9/9/9/9/4R4/4K4 w - - 0 1"@
    } else if k == 1 {
        "3k5/9/9/9/9/9/9/9/R8/4K4 w - - 0 1"@
    } else {
        "4k4/9/9/9/9/9/9/4R4/9/4K4 w - - 0 1"@
    }
}

/// Hash of the first `n` bytes: `h = h * 31 + b`, wrapping.
pub open spec fn date_hash(bytes: Seq<u8>, n: int) -> u64
    decreases n,
{
    if n <= 0 {
        0
    } else {
        vstd::wrapping::u64_specs::wrapping_add(
            vstd::wrapping::u64_specs::wrapping_mul(date_hash(bytes, n - 1), 31),
            bytes[n - 1] as u64,
        )
    }
}

/// Index of the puzzle of a date.
pub open spec fn puzzle_index(date: &str) -> int {
    (date_hash(date.spec_bytes(), date.spec_bytes().len() as int) as int) % (DAILY_PUZZLE_COUNT as int)
}

/// `(year, month, day)` of `YYYY-MM-DD` text: three dash-separated fields,
/// the year an `i32`, month and day `u32`s.
pub open spec fn parse_date(s: Seq<char>) -> Option<(int, int, int)> {
    let parts = split_from(s, 0, '-');
    if parts.len() != 3 {
        None
    } else {
        match (
            parse_in_range(parts[0], -0x8000_0000, 0x7fff_ffff),
            parse_in_range(parts[1], 0, 0xffff_ffff),
            parse_in_range(parts[2], 0, 0xffff_ffff),
        ) {
            (Some(y), Some(m), Some(d)) => Some((y, m, d)),
            _ => None,
        }
    }
}

/// Day count of a date, 365-day years and 30-day months, with the month
/// and day converted to `i32` as the date arithmetic does.
pub open spec fn day_count(y: int, m: int, d: int) -> int {
    y * 365 + (m as u32 as i32) * 30 + (d as u32 as i32)
}

/// Whether the day count of a parsed date stays within `i32` at each step.
pub open spec fn day_count_fits(s: Seq<char>) -> bool {
    match parse_date(s) {
        Some((y, m, d)) => {
            let a = y * 365;
            let b = (m as u32 as i32) * 30;
            &&& i32::MIN <= a <= i32::MAX
            &&& i32::MIN <= b <= i32::MAX
            &&& i32::MIN <= a + b <= i32::MAX
            &&& i32::MIN <= a + b + (d as u32 as i32) <= i32::MAX
        },
        None => true,
    }
}

/// Whether `curr` is the day after `prev` (both parsed, and their day
/// counts differing by one).
pub open spec fn consecutive_days(prev: Seq<char>, curr: Seq<char>) -> bool {
    match (parse_date(prev), parse_date(curr)) {
        (Some((py, pm, pd)), Some((cy, cm, cd))) => day_count(cy, cm, cd) - day_count(py, pm, pd) == 1,
        _ => false,
    }
}

fn parse_date_exec(s: &str) -> (r: Option<(i32, u32, u32)>)
    ensures
        match parse_date(s@) {
            Some((y, m, d)) => r matches Some((ey, em, ed)) && ey == y && em == m && ed == d,
            None => r is None,
        },
{
    let cs = chars_of(s);
    let parts = split_on(cs.as_slice(), '-');
    if parts.len() != 3 {
        return None;
    }
    let y = parse_int(parts[0].as_slice(), -0x8000_0000, 0x7fff_ffff);
    let m = parse_int(parts[1].as_slice(), 0, 0xffff_ffff);
    let d = parse_int(parts[2].as_slice(), 0, 0xffff_ffff);
    match (y, m, d) {
        (Some(y), Some(m), Some(d)) => Some((y as i32, m as u32, d as u32)),
        _ => None,
    }
}

/// Whether `curr` is the day after `prev` (see [`consecutive_days`]).
pub fn is_consecutive_day(prev: &str, curr: &str) -> (b: bool)
    requires
        day_count_fits(prev@),
        day_count_fits(curr@),
        match (parse_date(prev@), parse_date(curr@)) {
            (Some((py, pm, pd)), Some((cy, cm, cd))) => i32::MIN <= day_count(cy, cm, cd) - day_count(
                py,
                pm,
                pd,
            ) <= i32::MAX,
            _ => true,
        },
    ensures
        b == consecutive_days(prev@, curr@),
{
    let p = parse_date_exec(prev);
    let c = parse_date_exec(curr);
    match (p, c) {
        (Some((py, pm, pd)), Some((cy, cm, cd))) => {
            let prev_days = py * 365 + pm as i32 * 30 + pd as i32;
            let curr_days = cy * 365 + cm as i32 * 30 + cd as i32;
            curr_days - prev_days == 1
        },
        _ => false,
    }
}

/// Daily puzzle progress.
pub struct DailyPuzzleChallenge {
    /// Today's puzzle.
    pub current_puzzle: Option<DailyPuzzle>,
    /// Whether today's puzzle is done.
    pub completed_today: bool,
    /// Puzzles completed.
    pub total_completed: u32,
    /// Consecutive days completed.
    pub daily_streak: u32,
    /// Longest streak.
    pub longest_streak: u32,
    /// Date of the last completion.
    pub last_completed_date: Option<String>,
}

impl Default for DailyPuzzleChallenge {
    fn default() -> (c: DailyPuzzleChallenge)
        ensures
            c.current_puzzle is None,
            !c.completed_today,
            c.total_completed == 0,
            c.daily_streak == 0,
            c.longest_streak == 0,
            c.last_completed_date is None,
    {
        DailyPuzzleChallenge {
            current_puzzle: None,
            completed_today: false,
            total_completed: 0,
            daily_streak: 0,
            longest_streak: 0,
            last_completed_date: None,
        }
    }
}

fn date_hash_exec(s: &str) -> (h: u64)
    ensures
        h == date_hash(s.spec_bytes(), s.spec_bytes().len() as int),
{
    let bytes = s.as_bytes();
    let mut h: u64 = 0;
    let mut i: usize = 0;
    while i < bytes.len()
        invariant
            i <= bytes@.len(),
            bytes@ == s.spec_bytes(),
            h == date_hash(bytes@, i as int),
        decreases bytes@.len() - i,
    {
        h = h.wrapping_mul(31).wrapping_add(bytes[i] as u64);
        i = i + 1;
    }
    h
}

fn puzzle_at(k: u64, date: &str) -> (p: DailyPuzzle)
    requires
        k < DAILY_PUZZLE_COUNT,
    ensures
        p.date@ == date@,
        p.fen@ == puzzle_fen(k as int),
        p.solution@.len() == 1,
{
    let mut solution: Vec<String> = Vec::new();
    if k == 0 {
        solution.push("e1e2".to_owned());
        DailyPuzzle {
            date: date.to_owned(),
            fen: "4k4/9/9/9/9/9/9/9/4R4/4K4 w - - 0 1".to_owned(),
            solution,
            hint_cn: "车占中路，控制对方将帅".to_owned(),
            difficulty: 1,
        }
    } else if k == 1 {
        solution.push("a1a9".to_owned());
        DailyPuzzle {
            date: date.to_owned(),
            fen: "3k5/9/9/9/9/9/9/9/R8/4K4 w - - 0 1".to_owned(),
            solution,
            hint_cn: "利用底线将军".to_owned(),
            difficulty: 2,
        }
    } else {
        solution.push("e3e9".to_owned());
        DailyPuzzle {
            date: date.to_owned(),
            fen: "4k4/9/9/9/9/9/9/4R4/9/4K4 w - - 0 1".to_owned(),
            solution,
            hint_cn: "直接沉底将军".to_owned(),
            difficulty: 1,
        }
    }
}

/// `每日残局: <已|未>完成 | 连续<n>天 | 最长连续<m>天`.
pub open spec fn challenge_summary_text(done: bool, streak: u32, longest: u32) -> Seq<char> {
    "每日残局: "@ + (if done { "已"@ } else { "未"@ }) + "完成 | 连续"@ + nat_text(streak as nat)
        + "天 | 最长连续"@ + nat_text(longest as nat) + "天"@
}

impl DailyPuzzleChallenge {
    /// Sets the puzzle of `date_str` (picked by the hash of its bytes) as
    /// today's, not yet completed.
    pub fn generate_puzzle_for_date(&mut self, date_str: &str)
        ensures
            final(self).current_puzzle matches Some(p) && p.date@ == date_str@ && p.fen@ == puzzle_fen(
                puzzle_index(date_str),
            ),
            !final(self).completed_today,
            final(self).total_completed == old(self).total_completed,
            final(self).daily_streak == old(self).daily_streak,
            final(self).longest_streak == old(self).longest_streak,
    {
        let hash = date_hash_exec(date_str);
        let idx = hash % DAILY_PUZZLE_COUNT;
        self.current_puzzle = Some(puzzle_at(idx, date_str));
        self.completed_today = false;
    }

    /// Records today's completion on `date`: the streak grows when `date`
    /// follows the last completion's date and restarts at 1 otherwise.
    pub fn record_completion(&mut self, date: &str)
        requires
            old(self).total_completed < u32::MAX,
            old(self).daily_streak < u32::MAX,
            day_count_fits(date@),
            old(self).last_completed_date matches Some(last) ==> {
                &&& day_count_fits(last@)
                &&& match (parse_date(last@), parse_date(date@)) {
                    (Some((py, pm, pd)), Some((cy, cm, cd))) => i32::MIN <= day_count(cy, cm, cd) - day_count(
                        py,
                        pm,
                        pd,
                    ) <= i32::MAX,
                    _ => true,
                }
            },
        ensures
            final(self).completed_today,
            final(self).total_completed == old(self).total_completed + 1,
            final(self).daily_streak == match old(self).last_completed_date {
                Some(last) => if consecutive_days(last@, date@) {
                    old(self).daily_streak + 1
                } else {
                    1
                },
                None => 1,
            },
            final(self).longest_streak == if final(self).daily_streak > old(self).longest_streak {
                final(self).daily_streak
            } else {
                old(self).longest_streak
            },
            final(self).last_completed_date matches Some(d) && d@ == date@,
    {
        self.completed_today = true;
        self.total_completed = self.total_completed + 1;
        let next = match &self.last_completed_date {
            Some(last) => {
                if is_consecutive_day(last.as_str(), date) {
                    self.daily_streak + 1
                } else {
                    1
                }
            },
            None => 1,
        };
        self.daily_streak = next;
        if self.daily_streak > self.longest_streak {
            self.longest_streak = self.daily_streak;
        }
        self.last_completed_date = Some(date.to_owned());
    }

    /// Progress line (see [`challenge_summary_text`]).
    pub fn summary(&self) -> (s: String)
        ensures
            s@ == challenge_summary_text(self.completed_today, self.daily_streak, self.longest_streak),
    {
        let mut s = String::new();
        push_str(&mut s, "每日残局: ");
        push_str(&mut s, if self.completed_today {
            "已"
        } else {
            "未"
        });
        push_str(&mut s, "完成 | 连续");
        push_u64(&mut s, self.daily_streak as u64);
        push_str(&mut s, "天 | 最长连续");
        push_u64(&mut s, self.longest_streak as u64);
        push_str(&mut s, "天");
        s
    }
}

} // verus!
