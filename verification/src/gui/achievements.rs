//! Achievements: milestones for wins, streaks, openings, puzzles, speed and
//! exploring features, and the tracker that unlocks them.

use vstd::prelude::*;
use crate::collections::{TextCounts, TextSet};

verus! {

/// Achievement categories.
#[derive(Debug, Clone, Copy, PartialEq, Eq, Structural)]
pub enum AchievementCategory {
    /// Wins and streaks.
    Combat,
    /// Opening knowledge.
    Opening,
    /// Puzzle solving.
    Puzzle,
    /// Time-based achievements.
    Speed,
    /// Trying different features.
    Exploration,
}

impl AchievementCategory {
    /// Chinese label.
    pub fn label_cn(&self) -> (s: &'static str)
        ensures
            s@ == category_label(*self),
    {
        match self {
            AchievementCategory::Combat => "战斗",
            AchievementCategory::Opening => "开局",
            AchievementCategory::Puzzle => "残局",
            AchievementCategory::Speed => "速度",
            AchievementCategory::Exploration => "探索",
        }
    }
}

/// Chinese label of a category.
pub open spec fn category_label(c: AchievementCategory) -> Seq<char> {
    match c {
        AchievementCategory::Combat => "战斗"@,
        AchievementCategory::Opening => "开局"@,
        AchievementCategory::Puzzle => "残局"@,
        AchievementCategory::Speed => "速度"@,
        AchievementCategory::Exploration => "探索"@,
    }
}

/// An achievement definition.
#[derive(Debug, Clone, Copy)]
pub struct Achievement {
    /// Unique identifier.
    pub id: &'static str,
    /// Chinese name.
    pub name_cn: &'static str,
    /// Description.
    pub description: &'static str,
    /// Category.
    pub category: AchievementCategory,
}

/// Number of achievements.
pub const ACHIEVEMENT_COUNT: usize = 20;

/// Identifier of achievement `k` of the catalogue.
pub open spec fn achievement_id(k: usize) -> Seq<char> {
    match k {
        0 => "first_win"@,
        1 => "win_streak_3"@,
        2 => "win_streak_5"@,
        3 => "win_streak_10"@,
        4 => "win_10_games"@,
        5 => "win_50_games"@,
        6 => "win_as_black"@,
        7 => "opening_central_cannon"@,
        8 => "opening_flying_elephant"@,
        9 => "opening_diversity"@,
        10 => "puzzle_first"@,
        11 => "puzzle_10"@,
        12 => "puzzle_50"@,
        13 => "speed_bullets"@,
        14 => "speed_marathon"@,
        15 => "speed_quick_think"@,
        16 => "try_analysis"@,
        17 => "try_replay"@,
        18 => "try_board_theme"@,
        19 => "try_difficulty"@,
        _ => Seq::empty(),
    }
}

/// Category of achievement `k` of the catalogue.
pub open spec fn achievement_category(k: usize) -> AchievementCategory {
    match k {
        0 => AchievementCategory::Combat,
        1 => AchievementCategory::Combat,
        2 => AchievementCategory::Combat,
        3 => AchievementCategory::Combat,
        4 => AchievementCategory::Combat,
        5 => AchievementCategory::Combat,
        6 => AchievementCategory::Combat,
        7 => AchievementCategory::Opening,
        8 => AchievementCategory::Opening,
        9 => AchievementCategory::Opening,
        10 => AchievementCategory::Puzzle,
        11 => AchievementCategory::Puzzle,
        12 => AchievementCategory::Puzzle,
        13 => AchievementCategory::Speed,
        14 => AchievementCategory::Speed,
        15 => AchievementCategory::Speed,
        16 => AchievementCategory::Exploration,
        17 => AchievementCategory::Exploration,
        18 => AchievementCategory::Exploration,
        19 => AchievementCategory::Exploration,
        _ => AchievementCategory::Exploration,
    }
}

/// Achievement `k` of the catalogue.
pub fn achievement_at(k: usize) -> (a: Achievement)
    requires
        k < ACHIEVEMENT_COUNT,
    ensures
        a.id@ == achievement_id(k),
        a.category == achievement_category(k),
{
    match k {
        0 => Achievement {
            id: "first_win",
            name_cn: "初战告捷",
            description: "赢得第一场对局",
            category: AchievementCategory::Combat,
        },
        1 => Achievement {
            id: "win_streak_3",
            name_cn: "三连胜",
            description: "连续赢得3场对局",
            category: AchievementCategory::Combat,
        },
        2 => Achievement {
            id: "win_streak_5",
            name_cn: "五连胜",
            description: "连续赢得5场对局",
            category: AchievementCategory::Combat,
        },
        3 => Achievement {
            id: "win_streak_10",
            name_cn: "十连胜",
            description: "连续赢得10场对局",
            category: AchievementCategory::Combat,
        },
        4 => Achievement {
            id: "win_10_games",
            name_cn: "十胜将军",
            description: "总共赢得10场对局",
            category: AchievementCategory::Combat,
        },
        5 => Achievement {
            id: "win_50_games",
            name_cn: "五十胜将军",
            description: "总共赢得50场对局",
            category: AchievementCategory::Combat,
        },
        6 => Achievement {
            id: "win_as_black",
            name_cn: "后手制胜",
            description: "作为黑方赢得一场对局",
            category: AchievementCategory::Combat,
        },
        7 => Achievement {
            id: "opening_central_cannon",
            name_cn: "中炮大师",
            description: "使用中炮开局赢得5场对局",
            category: AchievementCategory::Opening,
        },
        8 => Achievement {
            id: "opening_flying_elephant",
            name_cn: "飞相高手",
            description: "使用飞相局赢得5场对局",
            category: AchievementCategory::Opening,
        },
        9 => Achievement {
            id: "opening_diversity",
            name_cn: "开局大师",
            description: "使用5种不同的开局各赢一场",
            category: AchievementCategory::Opening,
        },
        10 => Achievement {
            id: "puzzle_first",
            name_cn: "残局入门",
            description: "完成第一个残局题",
            category: AchievementCategory::Puzzle,
        },
        11 => Achievement {
            id: "puzzle_10",
            name_cn: "残局达人",
            description: "完成10个残局题",
            category: AchievementCategory::Puzzle,
        },
        12 => Achievement {
            id: "puzzle_50",
            name_cn: "残局大师",
            description: "完成50个残局题",
            category: AchievementCategory::Puzzle,
        },
        13 => Achievement {
            id: "speed_bullets",
            name_cn: "闪电战",
            description: "在60步以内赢得对局",
            category: AchievementCategory::Speed,
        },
        14 => Achievement {
            id: "speed_marathon",
            name_cn: "持久战",
            description: "完成一场超过100步的对局",
            category: AchievementCategory::Speed,
        },
        15 => Achievement {
            id: "speed_quick_think",
            name_cn: "快思",
            description: "平均每步思考不超过5秒赢得对局",
            category: AchievementCategory::Speed,
        },
        16 => Achievement {
            id: "try_analysis",
            name_cn: "分析探索",
            description: "使用分析模式查看局面",
            category: AchievementCategory::Exploration,
        },
        17 => Achievement {
            id: "try_replay",
            name_cn: "回放体验",
            description: "使用回放模式回顾对局",
            category: AchievementCategory::Exploration,
        },
        18 => Achievement {
            id: "try_board_theme",
            name_cn: "主题收藏",
            description: "尝试所有棋盘主题",
            category: AchievementCategory::Exploration,
        },
        19 => Achievement {
            id: "try_difficulty",
            name_cn: "难度挑战",
            description: "在最高难度下赢得对局",
            category: AchievementCategory::Exploration,
        },
        _ => Achievement {
            id: "",
            name_cn: "",
            description: "",
            category: AchievementCategory::Exploration,
        },
    }
}

/// Whether the counters meet the condition of achievement `k`. The
/// conditions of the other achievements are not tracked.
pub open spec fn unlock_rule(k: usize, total_wins: u32, streak: u32, puzzles: u32, openings: nat) -> bool {
    match k {
        0 => total_wins >= 1,
        1 => streak >= 3,
        2 => streak >= 5,
        3 => streak >= 10,
        4 => total_wins >= 10,
        5 => total_wins >= 50,
        9 => openings >= 5,
        10 => puzzles >= 1,
        11 => puzzles >= 10,
        12 => puzzles >= 50,
        _ => false,
    }
}

/// Achievements unlocked after checking the first `n` of the catalogue,
/// starting from `unlocked`.
pub open spec fn unlocked_after(
    unlocked: Set<Seq<char>>,
    total_wins: u32,
    streak: u32,
    puzzles: u32,
    openings: nat,
    n: nat,
) -> Set<Seq<char>>
    decreases n,
{
    if n == 0 {
        unlocked
    } else {
        let u = unlocked_after(unlocked, total_wins, streak, puzzles, openings, (n - 1) as nat);
        let k = (n - 1) as usize;
        if !u.contains(achievement_id(k)) && unlock_rule(k, total_wins, streak, puzzles, openings) {
            u.insert(achievement_id(k))
        } else {
            u
        }
    }
}

/// Catalogue indices newly unlocked while checking the first `n`.
pub open spec fn newly_unlocked(
    unlocked: Set<Seq<char>>,
    total_wins: u32,
    streak: u32,
    puzzles: u32,
    openings: nat,
    n: nat,
) -> Seq<usize>
    decreases n,
{
    if n == 0 {
        seq![]
    } else {
        let prev = newly_unlocked(unlocked, total_wins, streak, puzzles, openings, (n - 1) as nat);
        let u = unlocked_after(unlocked, total_wins, streak, puzzles, openings, (n - 1) as nat);
        let k = (n - 1) as usize;
        if !u.contains(achievement_id(k)) && unlock_rule(k, total_wins, streak, puzzles, openings) {
            prev.push(k)
        } else {
            prev
        }
    }
}

/// Progress towards the achievements.
pub struct AchievementTracker {
    /// Identifiers of unlocked achievements.
    pub unlocked: TextSet,
    /// Total wins.
    pub total_wins: u32,
    /// Current win streak.
    pub current_streak: u32,
    /// Longest win streak ever.
    pub longest_streak: u32,
    /// Puzzles solved.
    pub puzzles_solved: u32,
    /// Wins per opening name.
    pub opening_wins: TextCounts,
    /// Openings won with.
    pub unique_opening_wins: TextSet,
    /// Whether to show achievement notifications.
    pub notifications_enabled: bool,
}

impl AchievementTracker {
    /// The sets and tables keep their keys unique.
    pub open spec fn wf(&self) -> bool {
        &&& self.unlocked.wf()
        &&& self.opening_wins.wf()
        &&& self.unique_opening_wins.wf()
    }
}

impl Default for AchievementTracker {
    fn default() -> (t: AchievementTracker)
        ensures
            t.wf(),
            t.unlocked@ == Set::<Seq<char>>::empty(),
            t.total_wins == 0,
            t.current_streak == 0,
            t.longest_streak == 0,
            t.puzzles_solved == 0,
            t.opening_wins@ == Map::<Seq<char>, u32>::empty(),
            t.unique_opening_wins@ == Set::<Seq<char>>::empty(),
            t.notifications_enabled,
    {
        AchievementTracker {
            unlocked: TextSet::new(),
            total_wins: 0,
            current_streak: 0,
            longest_streak: 0,
            puzzles_solved: 0,
            opening_wins: TextCounts::new(),
            unique_opening_wins: TextSet::new(),
            notifications_enabled: true,
        }
    }
}

impl AchievementTracker {
    /// Whether the achievement `id` is unlocked.
    pub fn is_unlocked(&self, id: &str) -> (b: bool)
        ensures
            b == self.unlocked@.contains(id@),
    {
        self.unlocked.contains(id)
    }

    /// Unlocks `id`; returns whether it was locked before.
    pub fn try_unlock(&mut self, id: &str) -> (newly: bool)
        requires
            old(self).wf(),
        ensures
            final(self).wf(),
            final(self).unlocked@ == old(self).unlocked@.insert(id@),
            newly == !old(self).unlocked@.contains(id@),
            final(self).total_wins == old(self).total_wins,
            final(self).current_streak == old(self).current_streak,
            final(self).longest_streak == old(self).longest_streak,
            final(self).puzzles_solved == old(self).puzzles_solved,
            final(self).opening_wins@ == old(self).opening_wins@,
            final(self).unique_opening_wins@ == old(self).unique_opening_wins@,
            final(self).notifications_enabled == old(self).notifications_enabled,
    {
        self.unlocked.insert(id)
    }

    /// Records a win, with the opening it was won with when known.
    pub fn record_win(&mut self, opening: Option<&str>)
        requires
            old(self).wf(),
            old(self).total_wins < u32::MAX,
            old(self).current_streak < u32::MAX,
            opening matches Some(name) ==> (old(self).opening_wins@.contains_key(name@)
                ==> old(self).opening_wins@[name@] < u32::MAX),
        ensures
            final(self).wf(),
            final(self).total_wins == old(self).total_wins + 1,
            final(self).current_streak == old(self).current_streak + 1,
            final(self).longest_streak == if old(self).current_streak + 1 > old(self).longest_streak {
                old(self).current_streak + 1
            } else {
                old(self).longest_streak as int
            },
            final(self).opening_wins@ == match opening {
                Some(name) => old(self).opening_wins@.insert(
                    name@,
                    (if old(self).opening_wins@.contains_key(name@) {
                        old(self).opening_wins@[name@] + 1
                    } else {
                        1
                    }) as u32,
                ),
                None => old(self).opening_wins@,
            },
            final(self).unique_opening_wins@ == match opening {
                Some(name) => old(self).unique_opening_wins@.insert(name@),
                None => old(self).unique_opening_wins@,
            },
            final(self).unlocked@ == old(self).unlocked@,
            final(self).puzzles_solved == old(self).puzzles_solved,
            final(self).notifications_enabled == old(self).notifications_enabled,
    {
        self.total_wins = self.total_wins + 1;
        self.current_streak = self.current_streak + 1;
        if self.current_streak > self.longest_streak {
            self.longest_streak = self.current_streak;
        }
        if let Some(name) = opening {
            self.opening_wins.increment(name);
            self.unique_opening_wins.insert(name);
        }
    }

    /// Records a loss: the streak ends.
    pub fn record_loss(&mut self)
        ensures
            final(self).current_streak == 0,
            final(self).total_wins == old(self).total_wins,
            final(self).longest_streak == old(self).longest_streak,
            final(self).puzzles_solved == old(self).puzzles_solved,
            final(self).unlocked == old(self).unlocked,
            final(self).opening_wins == old(self).opening_wins,
            final(self).unique_opening_wins == old(self).unique_opening_wins,
            final(self).notifications_enabled == old(self).notifications_enabled,
    {
        self.current_streak = 0;
    }

    /// Records a solved puzzle.
    pub fn record_puzzle(&mut self)
        requires
            old(self).puzzles_solved < u32::MAX,
        ensures
            final(self).puzzles_solved == old(self).puzzles_solved + 1,
            final(self).total_wins == old(self).total_wins,
            final(self).current_streak == old(self).current_streak,
            final(self).longest_streak == old(self).longest_streak,
            final(self).unlocked == old(self).unlocked,
            final(self).opening_wins == old(self).opening_wins,
            final(self).unique_opening_wins == old(self).unique_opening_wins,
            final(self).notifications_enabled == old(self).notifications_enabled,
    {
        self.puzzles_solved = self.puzzles_solved + 1;
    }

    /// Unlocks, in catalogue order, every locked achievement whose condition
    /// the counters meet, and returns them.
    pub fn check_achievements(&mut self) -> (newly: Vec<Achievement>)
        requires
            old(self).wf(),
        ensures
            final(self).wf(),
            ({
                let o = old(self);
                let ks = newly_unlocked(o.unlocked@, o.total_wins, o.current_streak, o.puzzles_solved,
                    o.unique_opening_wins@.len(), ACHIEVEMENT_COUNT as nat);
                &&& newly@.len() == ks.len()
                &&& forall|i: int| 0 <= i < ks.len() ==> (#[trigger] newly@[i]).id@ == achievement_id(ks[i])
                    && newly@[i].category == achievement_category(ks[i])
                &&& final(self).unlocked@ == unlocked_after(o.unlocked@, o.total_wins, o.current_streak,
                    o.puzzles_solved, o.unique_opening_wins@.len(), ACHIEVEMENT_COUNT as nat)
            }),
            final(self).total_wins == old(self).total_wins,
            final(self).current_streak == old(self).current_streak,
            final(self).longest_streak == old(self).longest_streak,
            final(self).puzzles_solved == old(self).puzzles_solved,
            final(self).opening_wins@ == old(self).opening_wins@,
            final(self).unique_opening_wins@ == old(self).unique_opening_wins@,
            final(self).notifications_enabled == old(self).notifications_enabled,
    {
        let openings = self.unique_opening_wins.len();
        let ghost u0 = self.unlocked@;
        let mut newly: Vec<Achievement> = Vec::new();
        let mut k: usize = 0;
        while k < ACHIEVEMENT_COUNT
            invariant
                self.wf(),
                k <= ACHIEVEMENT_COUNT,
                openings == self.unique_opening_wins@.len(),
                self.total_wins == old(self).total_wins,
                self.current_streak == old(self).current_streak,
                self.longest_streak == old(self).longest_streak,
                self.puzzles_solved == old(self).puzzles_solved,
                self.opening_wins@ == old(self).opening_wins@,
                self.unique_opening_wins@ == old(self).unique_opening_wins@,
                self.notifications_enabled == old(self).notifications_enabled,
                u0 == old(self).unlocked@,
                self.unlocked@ == unlocked_after(u0, self.total_wins, self.current_streak,
                    self.puzzles_solved, openings as nat, k as nat),
                ({
                    let ks = newly_unlocked(u0, self.total_wins, self.current_streak,
                        self.puzzles_solved, openings as nat, k as nat);
                    &&& newly@.len() == ks.len()
                    &&& forall|i: int| 0 <= i < ks.len() ==> (#[trigger] newly@[i]).id@ == achievement_id(ks[i])
                        && newly@[i].category == achievement_category(ks[i])
                }),
            decreases ACHIEVEMENT_COUNT - k,
        {
            let a = achievement_at(k);
            if !self.is_unlocked(a.id) && unlock_rule_holds(k, self.total_wins, self.current_streak,
                self.puzzles_solved, openings) {
                self.try_unlock(a.id);
                newly.push(a);
            }
            k = k + 1;
        }
        newly
    }

    /// Number of unlocked achievements.
    pub fn unlocked_count(&self) -> (n: usize)
        requires
            self.wf(),
        ensures
            n == self.unlocked@.len(),
    {
        self.unlocked.len()
    }

    /// Number of achievements in the catalogue.
    pub fn total_count(&self) -> (n: usize)
        ensures
            n == ACHIEVEMENT_COUNT,
    {
        ACHIEVEMENT_COUNT
    }

    /// The whole catalogue, in order.
    pub fn all_achievements() -> (v: Vec<Achievement>)
        ensures
            v@.len() == ACHIEVEMENT_COUNT,
            forall|k: int| 0 <= k < ACHIEVEMENT_COUNT ==> (#[trigger] v@[k]).id@ == achievement_id(k as usize)
                && v@[k].category == achievement_category(k as usize),
    {
        let mut v: Vec<Achievement> = Vec::new();
        let mut k: usize = 0;
        while k < ACHIEVEMENT_COUNT
            invariant
                k <= ACHIEVEMENT_COUNT,
                v@.len() == k,
                forall|j: int| 0 <= j < k ==> (#[trigger] v@[j]).id@ == achievement_id(j as usize)
                    && v@[j].category == achievement_category(j as usize),
            decreases ACHIEVEMENT_COUNT - k,
        {
            v.push(achievement_at(k));
            k = k + 1;
        }
        v
    }
}

fn unlock_rule_holds(k: usize, total_wins: u32, streak: u32, puzzles: u32, openings: usize) -> (b: bool)
    ensures
        b == unlock_rule(k, total_wins, streak, puzzles, openings as nat),
{
    match k {
        0 => total_wins >= 1,
        1 => streak >= 3,
        2 => streak >= 5,
        3 => streak >= 10,
        4 => total_wins >= 10,
        5 => total_wins >= 50,
        9 => openings >= 5,
        10 => puzzles >= 1,
        11 => puzzles >= 10,
        12 => puzzles >= 50,
        _ => false,
    }
}

/// Checking keeps what was unlocked, and afterwards holds every checked
/// achievement whose rule is met.
proof fn lemma_unlocked_after(
    unlocked: Set<Seq<char>>,
    total_wins: u32,
    streak: u32,
    puzzles: u32,
    openings: nat,
    n: nat,
)
    ensures
        unlocked.subset_of(unlocked_after(unlocked, total_wins, streak, puzzles, openings, n)),
        forall|k: usize|
            k < n && #[trigger] unlock_rule(k, total_wins, streak, puzzles, openings)
                ==> unlocked_after(unlocked, total_wins, streak, puzzles, openings, n).contains(
                achievement_id(k),
            ),
    decreases n,
{
    if n > 0 {
        lemma_unlocked_after(unlocked, total_wins, streak, puzzles, openings, (n - 1) as nat);
    }
}

/// Re-checking a set in which every checked achievement with a met rule
/// is unlocked changes nothing and reports nothing.
proof fn lemma_recheck(
    done: Set<Seq<char>>,
    total_wins: u32,
    streak: u32,
    puzzles: u32,
    openings: nat,
    n: nat,
)
    requires
        forall|k: usize|
            k < n && #[trigger] unlock_rule(k, total_wins, streak, puzzles, openings) ==> done.contains(
                achievement_id(k),
            ),
    ensures
        unlocked_after(done, total_wins, streak, puzzles, openings, n) == done,
        newly_unlocked(done, total_wins, streak, puzzles, openings, n) == Seq::<usize>::empty(),
    decreases n,
{
    if n > 0 {
        lemma_recheck(done, total_wins, streak, puzzles, openings, (n - 1) as nat);
        let k = (n - 1) as usize;
        if unlock_rule(k, total_wins, streak, puzzles, openings) {
            assert(done.contains(achievement_id(k)));
        }
    }
}

/// Unlocking is for good: a check never removes an unlocked achievement,
/// and it unlocks every achievement whose rule the statistics meet.
pub proof fn law_unlocks_are_kept(
    unlocked: Set<Seq<char>>,
    total_wins: u32,
    streak: u32,
    puzzles: u32,
    openings: nat,
)
    ensures
        unlocked.subset_of(
            unlocked_after(unlocked, total_wins, streak, puzzles, openings, ACHIEVEMENT_COUNT as nat),
        ),
        forall|k: usize|
            k < ACHIEVEMENT_COUNT && #[trigger] unlock_rule(k, total_wins, streak, puzzles, openings)
                ==> unlocked_after(
                unlocked,
                total_wins,
                streak,
                puzzles,
                openings,
                ACHIEVEMENT_COUNT as nat,
            ).contains(achievement_id(k)),
{
    lemma_unlocked_after(unlocked, total_wins, streak, puzzles, openings, ACHIEVEMENT_COUNT as nat);
}

/// Checking twice with the same statistics is checking once: the second
/// check unlocks nothing and reports nothing new.
pub proof fn law_check_is_idempotent(
    unlocked: Set<Seq<char>>,
    total_wins: u32,
    streak: u32,
    puzzles: u32,
    openings: nat,
)
    ensures
        ({
            let n = ACHIEVEMENT_COUNT as nat;
            let once = unlocked_after(unlocked, total_wins, streak, puzzles, openings, n);
            &&& unlocked_after(once, total_wins, streak, puzzles, openings, n) == once
            &&& newly_unlocked(once, total_wins, streak, puzzles, openings, n).len() == 0
        }),
{
    let n = ACHIEVEMENT_COUNT as nat;
    lemma_unlocked_after(unlocked, total_wins, streak, puzzles, openings, n);
    let once = unlocked_after(unlocked, total_wins, streak, puzzles, openings, n);
    lemma_recheck(once, total_wins, streak, puzzles, openings, n);
}

} // verus!
