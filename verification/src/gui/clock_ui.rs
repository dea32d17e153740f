//! The decisions behind the game clock display: when a side's time shows
//! as running low, which result a fallen flag gives, and when the warning
//! tick sounds for the local player.

use vstd::prelude::*;
use crate::xiangqi::{Color, GameResult, WinReason};

verus! {

/// Below this many seconds a side's time is shown as running low.
pub const LOW_TIME_SECS: u64 = 30;

/// Below this many seconds the local player hears a tick each second.
pub const WARNING_SECS: u32 = 10;

/// Whether `remaining_secs` is shown as low time.
pub fn is_low_time(remaining_secs: u64) -> (b: bool)
    ensures
        b == (remaining_secs < LOW_TIME_SECS),
{
    remaining_secs < LOW_TIME_SECS
}

/// The result forced by a fallen flag: Red's flag is looked at first; a
/// side whose time ran out loses on time.
pub fn timeout_result(red_flagged: bool, black_flagged: bool) -> (r: Option<GameResult>)
    ensures
        r == (if red_flagged {
            Some(GameResult::Win { winner: Color::Black, reason: WinReason::Timeout })
        } else if black_flagged {
            Some(GameResult::Win { winner: Color::Red, reason: WinReason::Timeout })
        } else {
            None
        }),
{
    if red_flagged {
        Some(GameResult::Win { winner: Color::Black, reason: WinReason::Timeout })
    } else if black_flagged {
        Some(GameResult::Win { winner: Color::Red, reason: WinReason::Timeout })
    } else {
        None
    }
}

/// One step of the warning tick: given whether the local player's clock
/// is the one running, its whole seconds left and the second of the last
/// tick (`u32::MAX` for none), whether to tick now and the new last second.
/// A tick sounds once per second under [`WARNING_SECS`]; the memory is
/// cleared when the clock is not the local player's or is above the limit.
pub open spec fn warning_step(local_active: bool, secs: u32, last_sec: u32) -> (bool, u32) {
    if !local_active {
        (false, u32::MAX)
    } else if secs < WARNING_SECS && secs != last_sec {
        (true, secs)
    } else if secs >= WARNING_SECS {
        (false, u32::MAX)
    } else {
        (false, last_sec)
    }
}

/// The warning tick (see [`warning_step`]).
pub fn warning_tick(local_active: bool, secs: u32, last_sec: u32) -> (r: (bool, u32))
    ensures
        r == warning_step(local_active, secs, last_sec),
{
    if !local_active {
        (false, u32::MAX)
    } else if secs < WARNING_SECS && secs != last_sec {
        (true, secs)
    } else if secs >= WARNING_SECS {
        (false, u32::MAX)
    } else {
        (false, last_sec)
    }
}

/// The tick sounds at most once per second: right after a tick, the same
/// second gives no tick and keeps the memory; and under the limit a new
/// second always ticks.
pub proof fn law_warning_ticks_once_per_second(secs: u32, last_sec: u32)
    ensures
        ({
            let first = warning_step(true, secs, last_sec);
            first.0 ==> warning_step(true, secs, first.1) == (false, secs)
        }),
        secs < WARNING_SECS && secs != last_sec ==> warning_step(true, secs, last_sec).0,
{
}

} // verus!
