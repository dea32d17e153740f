//! The question put to a player before resigning: how far the game has
//! gone, how long it has lasted, its phase, and a warning when resigning
//! looks premature.

use vstd::prelude::*;
use crate::text::{nat_text, push_str, push_u64};

verus! {

/// The phase of the game: the opening for the first six moves, then the
/// middlegame while more than eighteen pieces stand, then the endgame.
pub open spec fn phase_text(moves: nat, pieces: nat) -> Seq<char> {
    if moves <= 6 {
        "开局"@
    } else if pieces > 18 {
        "中局"@
    } else {
        "残局"@
    }
}

/// Elapsed time as minutes and seconds, or seconds alone under a minute.
pub open spec fn duration_text(secs: nat) -> Seq<char> {
    if secs >= 60 {
        nat_text(secs / 60) + "分"@ + nat_text(secs % 60) + "秒"@
    } else {
        nat_text(secs) + "秒"@
    }
}

/// The confirmation text. It notes a material lead of more than three
/// points over the opponent, or else a game of fewer than ten moves.
pub open spec fn resign_prompt_text(
    moves: nat,
    my_material: int,
    opp_material: int,
    pieces: nat,
    secs: nat,
) -> Seq<char> {
    let facts = nat_text(moves) + "手, "@ + duration_text(secs) + " · "@ + phase_text(
        moves,
        pieces,
    );
    "确认认输？\n("@ + if my_material > opp_material + 3 {
        "已走"@ + facts + " · 你的子力领先!)"@
    } else if moves < 10 {
        "仅走"@ + facts + " · 局面尚早!)"@
    } else {
        "已走"@ + facts + ")"@
    }
}

/// Appends [`duration_text`] of `secs`.
fn push_duration(out: &mut String, secs: u32)
    ensures
        final(out)@ == old(out)@ + duration_text(secs as nat),
{
    if secs >= 60 {
        push_u64(out, (secs / 60) as u64);
        push_str(out, "分");
        push_u64(out, (secs % 60) as u64);
    } else {
        push_u64(out, secs as u64);
    }
    push_str(out, "秒");
    assert(final(out)@ =~= old(out)@ + duration_text(secs as nat));
}

/// Appends [`phase_text`].
fn push_phase(out: &mut String, moves: usize, pieces: u32)
    ensures
        final(out)@ == old(out)@ + phase_text(moves as nat, pieces as nat),
{
    if moves <= 6 {
        push_str(out, "开局");
    } else if pieces > 18 {
        push_str(out, "中局");
    } else {
        push_str(out, "残局");
    }
}

/// The resignation question for a game of `moves` moves, the resigning
/// player's and the opponent's material, the number of pieces on the
/// board and the seconds since the game began (see [`resign_prompt_text`]).
pub fn resign_prompt(
    moves: usize,
    my_material: i32,
    opp_material: i32,
    pieces: u32,
    elapsed_secs: u32,
) -> (s: String)
    ensures
        s@ == resign_prompt_text(
            moves as nat,
            my_material as int,
            opp_material as int,
            pieces as nat,
            elapsed_secs as nat,
        ),
{
    let ahead = (my_material as i64) > (opp_material as i64) + 3;
    let mut facts = String::new();
    push_u64(&mut facts, moves as u64);
    push_str(&mut facts, "手, ");
    push_duration(&mut facts, elapsed_secs);
    push_str(&mut facts, " · ");
    push_phase(&mut facts, moves, pieces);
    let ghost f = facts@;
    assert(f =~= nat_text(moves as nat) + "手, "@ + duration_text(elapsed_secs as nat) + " · "@
        + phase_text(moves as nat, pieces as nat));
    let mut tail = String::new();
    if ahead || moves >= 10 {
        push_str(&mut tail, "已走");
    } else {
        push_str(&mut tail, "仅走");
    }
    push_str(&mut tail, facts.as_str());
    if ahead {
        push_str(&mut tail, " · 你的子力领先!)");
    } else if moves < 10 {
        push_str(&mut tail, " · 局面尚早!)");
    } else {
        push_str(&mut tail, ")");
    }
    let mut s = String::new();
    push_str(&mut s, "确认认输？\n(");
    push_str(&mut s, tail.as_str());
    s
}

} // verus!
