//! The difficulty chooser shown before a game against the computer: the
//! four levels it offers, their descriptions, the engine line and the
//! number keys that pick a level.

use vstd::prelude::*;
use crate::difficulty::Difficulty;

verus! {

/// The levels the chooser offers, in order.
pub fn dialog_levels() -> (v: Vec<Difficulty>)
    ensures
        v@ == seq![Difficulty::Easy, Difficulty::Medium, Difficulty::Hard, Difficulty::Master],
{
    vec![Difficulty::Easy, Difficulty::Medium, Difficulty::Hard, Difficulty::Master]
}

/// Name and one-line description of an offered level.
pub fn level_desc(d: Difficulty) -> (r: (&'static str, &'static str))
    requires
        !(d is Extreme),
    ensures
        r.0@ == (match d {
            Difficulty::Easy => "简单"@,
            Difficulty::Medium => "中等"@,
            Difficulty::Hard => "困难"@,
            _ => "大师"@,
        }),
        r.1@ == (match d {
            Difficulty::Easy => "每步约 0.2 秒 · 轻快随手，适合热身"@,
            Difficulty::Medium => "每步约 0.8 秒 · 稳定思考，业余好手"@,
            Difficulty::Hard => "每步约 2 秒 · 深度计算，棋力强劲"@,
            _ => "每步约 3 秒 · 全力以赴，大师水准"@,
        }),
{
    match d {
        Difficulty::Easy => ("简单", "每步约 0.2 秒 · 轻快随手，适合热身"),
        Difficulty::Medium => ("中等", "每步约 0.8 秒 · 稳定思考，业余好手"),
        Difficulty::Hard => ("困难", "每步约 2 秒 · 深度计算，棋力强劲"),
        _ => ("大师", "每步约 3 秒 · 全力以赴，大师水准"),
    }
}

/// The line naming the engine that will play: the external engine when one
/// is configured, else the built-in one (whose search is not part of this
/// library; see the crate's README).
pub fn engine_line(has_external_engine: bool) -> (s: &'static str)
    ensures
        s@ == (if has_external_engine {
            "引擎 · Pikafish（强力 NNUE）"@
        } else {
            "引擎 · 内置（基础）"@
        }),
{
    if has_external_engine {
        "引擎 · Pikafish（强力 NNUE）"
    } else {
        "引擎 · 内置（基础）"
    }
}

/// The level picked by number key `digit` (1 to 4), if any.
pub fn level_for_digit(digit: u8) -> (r: Option<Difficulty>)
    ensures
        r == (if digit == 1 {
            Some(Difficulty::Easy)
        } else if digit == 2 {
            Some(Difficulty::Medium)
        } else if digit == 3 {
            Some(Difficulty::Hard)
        } else if digit == 4 {
            Some(Difficulty::Master)
        } else {
            None
        }),
{
    if digit == 1 {
        Some(Difficulty::Easy)
    } else if digit == 2 {
        Some(Difficulty::Medium)
    } else if digit == 3 {
        Some(Difficulty::Hard)
    } else if digit == 4 {
        Some(Difficulty::Master)
    } else {
        None
    }
}

} // verus!
