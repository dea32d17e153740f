//! The opponent's difficulty ladder, with adaptive stepping, and its
//! playing personality.

use vstd::prelude::*;

verus! {

/// Difficulty ladder, weakest first.
#[derive(Debug, Clone, Copy, PartialEq, Eq, Structural)]
pub enum DifficultyLevel {
    Beginner,
    Easy,
    Medium,
    Hard,
    Expert,
    Master,
}

/// Rung of a level, 0 for Beginner.
pub open spec fn level_rank(l: DifficultyLevel) -> int {
    match l {
        DifficultyLevel::Beginner => 0,
        DifficultyLevel::Easy => 1,
        DifficultyLevel::Medium => 2,
        DifficultyLevel::Hard => 3,
        DifficultyLevel::Expert => 4,
        DifficultyLevel::Master => 5,
    }
}

/// The level after `l`; Master wraps around to Beginner.
pub open spec fn level_next(l: DifficultyLevel) -> DifficultyLevel {
    match l {
        DifficultyLevel::Beginner => DifficultyLevel::Easy,
        DifficultyLevel::Easy => DifficultyLevel::Medium,
        DifficultyLevel::Medium => DifficultyLevel::Hard,
        DifficultyLevel::Hard => DifficultyLevel::Expert,
        DifficultyLevel::Expert => DifficultyLevel::Master,
        DifficultyLevel::Master => DifficultyLevel::Beginner,
    }
}

/// The level below `l`; Beginner stays.
pub open spec fn level_below(l: DifficultyLevel) -> DifficultyLevel {
    match l {
        DifficultyLevel::Beginner => DifficultyLevel::Beginner,
        DifficultyLevel::Easy => DifficultyLevel::Beginner,
        DifficultyLevel::Medium => DifficultyLevel::Easy,
        DifficultyLevel::Hard => DifficultyLevel::Medium,
        DifficultyLevel::Expert => DifficultyLevel::Hard,
        DifficultyLevel::Master => DifficultyLevel::Expert,
    }
}

impl DifficultyLevel {
    /// Chinese label.
    pub fn label_cn(&self) -> (s: &'static str)
        ensures
            s@ == match *self {
                DifficultyLevel::Beginner => "新手"@,
                DifficultyLevel::Easy => "简单"@,
                DifficultyLevel::Medium => "中等"@,
                DifficultyLevel::Hard => "困难"@,
                DifficultyLevel::Expert => "专家"@,
                DifficultyLevel::Master => "大师"@,
            },
    {
        match self {
            DifficultyLevel::Beginner => "新手",
            DifficultyLevel::Easy => "简单",
            DifficultyLevel::Medium => "中等",
            DifficultyLevel::Hard => "困难",
            DifficultyLevel::Expert => "专家",
            DifficultyLevel::Master => "大师",
        }
    }

    /// Search depth limit: two plies per rung, from 2.
    pub fn depth_limit(&self) -> (d: u32)
        ensures
            d == 2 * level_rank(*self) + 2,
    {
        match self {
            DifficultyLevel::Beginner => 2,
            DifficultyLevel::Easy => 4,
            DifficultyLevel::Medium => 6,
            DifficultyLevel::Hard => 8,
            DifficultyLevel::Expert => 10,
            DifficultyLevel::Master => 12,
        }
    }

    /// Think time in milliseconds.
    pub fn time_limit_ms(&self) -> (t: u32)
        ensures
            t == match *self {
                DifficultyLevel::Beginner => 100u32,
                DifficultyLevel::Easy => 500,
                DifficultyLevel::Medium => 1000,
                DifficultyLevel::Hard => 2000,
                DifficultyLevel::Expert => 5000,
                DifficultyLevel::Master => 10000,
            },
    {
        match self {
            DifficultyLevel::Beginner => 100,
            DifficultyLevel::Easy => 500,
            DifficultyLevel::Medium => 1000,
            DifficultyLevel::Hard => 2000,
            DifficultyLevel::Expert => 5000,
            DifficultyLevel::Master => 10000,
        }
    }

    /// The next level, wrapping around.
    pub fn next(&self) -> (l: DifficultyLevel)
        ensures
            l == level_next(*self),
    {
        match self {
            DifficultyLevel::Beginner => DifficultyLevel::Easy,
            DifficultyLevel::Easy => DifficultyLevel::Medium,
            DifficultyLevel::Medium => DifficultyLevel::Hard,
            DifficultyLevel::Hard => DifficultyLevel::Expert,
            DifficultyLevel::Expert => DifficultyLevel::Master,
            DifficultyLevel::Master => DifficultyLevel::Beginner,
        }
    }

    /// The level below, staying at Beginner.
    pub fn below(&self) -> (l: DifficultyLevel)
        ensures
            l == level_below(*self),
    {
        match self {
            DifficultyLevel::Beginner => DifficultyLevel::Beginner,
            DifficultyLevel::Easy => DifficultyLevel::Beginner,
            DifficultyLevel::Medium => DifficultyLevel::Easy,
            DifficultyLevel::Hard => DifficultyLevel::Medium,
            DifficultyLevel::Expert => DifficultyLevel::Hard,
            DifficultyLevel::Master => DifficultyLevel::Expert,
        }
    }
}

/// Adaptive difficulty: without adaptation the level stays; with it, a
/// player who wins often (`winning`: win rate above 70%) gets the next
/// level and one who loses often (`losing`: below 30%) the level below.
pub fn adjusted_level(current: DifficultyLevel, adaptive: bool, winning: bool, losing: bool) -> (l:
    DifficultyLevel)
    ensures
        l == if !adaptive {
            current
        } else if winning {
            level_next(current)
        } else if losing {
            level_below(current)
        } else {
            current
        },
{
    if !adaptive {
        current
    } else if winning {
        current.next()
    } else if losing {
        current.below()
    } else {
        current
    }
}

/// Deeper search as the level rises.
pub proof fn law_depth_grows_with_level(a: DifficultyLevel, b: DifficultyLevel)
    requires
        level_rank(a) < level_rank(b),
    ensures
        2 * level_rank(a) + 2 < 2 * level_rank(b) + 2,
{
}

/// Stepping down never goes above the current rung, and stays put only at
/// the bottom.
pub proof fn law_step_down(l: DifficultyLevel)
    ensures
        level_rank(level_below(l)) == if level_rank(l) == 0 { 0 } else { level_rank(l) - 1 },
{
}

/// Six steps up cycle through every level back to the start.
pub proof fn law_level_cycle(l: DifficultyLevel)
    ensures
        level_next(level_next(level_next(level_next(level_next(level_next(l)))))) == l,
{
}

/// Playing personalities.
#[derive(Debug, Clone, Copy, PartialEq, Eq, Structural)]
pub enum AiPersonality {
    Aggressive,
    Balanced,
    Defensive,
    Tactical,
    Positional,
    Creative,
}

impl AiPersonality {
    /// Chinese label.
    pub fn label_cn(&self) -> (s: &'static str)
        ensures
            s@ == match *self {
                AiPersonality::Aggressive => "激进"@,
                AiPersonality::Balanced => "均衡"@,
                AiPersonality::Defensive => "防守"@,
                AiPersonality::Tactical => "战术"@,
                AiPersonality::Positional => "局面"@,
                AiPersonality::Creative => "创新"@,
            },
    {
        match self {
            AiPersonality::Aggressive => "激进",
            AiPersonality::Balanced => "均衡",
            AiPersonality::Defensive => "防守",
            AiPersonality::Tactical => "战术",
            AiPersonality::Positional => "局面",
            AiPersonality::Creative => "创新",
        }
    }

    /// The next personality in the cycle.
    pub fn next(&self) -> (p: AiPersonality)
        ensures
            p == match *self {
                AiPersonality::Aggressive => AiPersonality::Balanced,
                AiPersonality::Balanced => AiPersonality::Defensive,
                AiPersonality::Defensive => AiPersonality::Tactical,
                AiPersonality::Tactical => AiPersonality::Positional,
                AiPersonality::Positional => AiPersonality::Creative,
                AiPersonality::Creative => AiPersonality::Aggressive,
            },
    {
        match self {
            AiPersonality::Aggressive => AiPersonality::Balanced,
            AiPersonality::Balanced => AiPersonality::Defensive,
            AiPersonality::Defensive => AiPersonality::Tactical,
            AiPersonality::Tactical => AiPersonality::Positional,
            AiPersonality::Positional => AiPersonality::Creative,
            AiPersonality::Creative => AiPersonality::Aggressive,
        }
    }

    /// Attack and defence bonuses the personality plays with.
    pub fn bonuses(&self) -> (b: (i32, i32))
        ensures
            b == match *self {
                AiPersonality::Aggressive => (50i32, -20i32),
                AiPersonality::Balanced => (0i32, 0i32),
                AiPersonality::Defensive => (-20i32, 50i32),
                AiPersonality::Tactical => (30i32, 10i32),
                AiPersonality::Positional => (10i32, 30i32),
                AiPersonality::Creative => (20i32, 0i32),
            },
    {
        match self {
            AiPersonality::Aggressive => (50, -20),
            AiPersonality::Balanced => (0, 0),
            AiPersonality::Defensive => (-20, 50),
            AiPersonality::Tactical => (30, 10),
            AiPersonality::Positional => (10, 30),
            AiPersonality::Creative => (20, 0),
        }
    }
}

impl Default for AiPersonality {
    fn default() -> (p: AiPersonality)
        ensures
            p == AiPersonality::Balanced,
    {
        AiPersonality::Balanced
    }
}

} // verus!
