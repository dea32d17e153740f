//! Difficulty presets for the computer opponent and the limits of one
//! search.

use vstd::prelude::*;

verus! {

/// Limits controlling a single search.
#[derive(Debug, Clone, Copy, PartialEq, Eq, Structural)]
pub struct SearchLimits {
    /// Hard wall-clock budget, in milliseconds.
    pub movetime_ms: u64,
    /// Maximum iterative-deepening depth (safety cap).
    pub max_depth: u32,
    /// Root moves scoring within this many centipawns of the best are
    /// picked among at random; 0 always plays the best move.
    pub variety_window: i32,
}

impl SearchLimits {
    /// One second, depth 64, no variety.
    pub fn default() -> (l: SearchLimits)
        ensures
            l == (SearchLimits { movetime_ms: 1000, max_depth: 64, variety_window: 0 }),
    {
        SearchLimits { movetime_ms: 1000, max_depth: 64, variety_window: 0 }
    }
}

/// Difficulty presets mapping to think time and (for the built-in engine)
/// a depth cap plus a root-move variety window.
#[derive(Debug, Clone, Copy, PartialEq, Eq, Structural)]
pub enum Difficulty {
    Easy,
    Medium,
    Hard,
    Master,
    /// Long thinks, full depth, no randomness and no opening book.
    Extreme,
}

/// The limits each difficulty searches with.
pub open spec fn difficulty_limits(d: Difficulty) -> SearchLimits {
    match d {
        Difficulty::Easy => SearchLimits { movetime_ms: 200, max_depth: 4, variety_window: 80 },
        Difficulty::Medium => SearchLimits { movetime_ms: 800, max_depth: 8, variety_window: 40 },
        Difficulty::Hard => SearchLimits { movetime_ms: 2000, max_depth: 16, variety_window: 20 },
        Difficulty::Master => SearchLimits { movetime_ms: 3000, max_depth: 64, variety_window: 0 },
        Difficulty::Extreme => SearchLimits {
            movetime_ms: 10000,
            max_depth: 64,
            variety_window: 0,
        },
    }
}

impl Difficulty {
    pub fn limits(self) -> (l: SearchLimits)
        ensures
            l == difficulty_limits(self),
    {
        match self {
            // About one pawn of slack: playful, yet never drops pieces outright.
            Difficulty::Easy => SearchLimits { movetime_ms: 200, max_depth: 4, variety_window: 80 },
            Difficulty::Medium => SearchLimits {
                movetime_ms: 800,
                max_depth: 8,
                variety_window: 40,
            },
            Difficulty::Hard => SearchLimits {
                movetime_ms: 2000,
                max_depth: 16,
                variety_window: 20,
            },
            // Full strength: always the best move.
            Difficulty::Master => SearchLimits {
                movetime_ms: 3000,
                max_depth: 64,
                variety_window: 0,
            },
            Difficulty::Extreme => SearchLimits {
                movetime_ms: 10000,
                max_depth: 64,
                variety_window: 0,
            },
        }
    }

    /// Whether the opening book is consulted: Medium, Hard and Master only.
    /// Easy skips it for playfulness, Extreme so that every move is searched.
    pub fn uses_book(self) -> (b: bool)
        ensures
            b <==> (self == Difficulty::Medium || self == Difficulty::Hard || self
                == Difficulty::Master),
    {
        match self {
            Difficulty::Medium | Difficulty::Hard | Difficulty::Master => true,
            _ => false,
        }
    }

    /// Chinese label for the status bar.
    pub fn label(self) -> (s: &'static str)
        ensures
            s@ == (match self {
                Difficulty::Easy => "简单"@,
                Difficulty::Medium => "中等"@,
                Difficulty::Hard => "困难"@,
                Difficulty::Master => "大师"@,
                Difficulty::Extreme => "巅峰"@,
            }),
    {
        match self {
            Difficulty::Easy => "简单",
            Difficulty::Medium => "中等",
            Difficulty::Hard => "困难",
            Difficulty::Master => "大师",
            Difficulty::Extreme => "巅峰",
        }
    }

    /// One-character icon.
    pub fn emoji(self) -> (s: &'static str)
        ensures
            s@ == (match self {
                Difficulty::Easy => "易"@,
                Difficulty::Medium => "中"@,
                Difficulty::Hard => "难"@,
                Difficulty::Master => "极"@,
                Difficulty::Extreme => "巅"@,
            }),
    {
        match self {
            Difficulty::Easy => "易",
            Difficulty::Medium => "中",
            Difficulty::Hard => "难",
            Difficulty::Master => "极",
            Difficulty::Extreme => "巅",
        }
    }
}

/// Harder presets never think less: think time and depth cap do not
/// decrease, and the variety window does not widen, from Easy to Extreme.
pub proof fn law_difficulty_monotone(a: Difficulty, b: Difficulty)
    requires
        difficulty_rank(a) <= difficulty_rank(b),
    ensures
        difficulty_limits(a).movetime_ms <= difficulty_limits(b).movetime_ms,
        difficulty_limits(a).max_depth <= difficulty_limits(b).max_depth,
        difficulty_limits(a).variety_window >= difficulty_limits(b).variety_window,
{
}

/// Position of a preset in the order Easy < Medium < Hard < Master < Extreme.
pub open spec fn difficulty_rank(d: Difficulty) -> int {
    match d {
        Difficulty::Easy => 0,
        Difficulty::Medium => 1,
        Difficulty::Hard => 2,
        Difficulty::Master => 3,
        Difficulty::Extreme => 4,
    }
}

} // verus!
