//! Traditional Chinese move notation (炮二平五, 馬八进七): the piece, its
//! file counted from the mover's right, the action (进 advance, 退 retreat,
//! 平 sideways) and, after 平, the destination file, after 进 or 退 the
//! number of ranks moved.

use vstd::prelude::*;
use crate::text::push_str;

verus! {

/// Whether Chinese notation is shown in the move list.
#[derive(Debug, Clone, Copy, PartialEq, Eq, Structural)]
pub struct ChineseNotation {
    pub enabled: bool,
}

impl Default for ChineseNotation {
    fn default() -> (n: ChineseNotation)
        ensures
            !n.enabled,
    {
        ChineseNotation { enabled: false }
    }
}

/// Name of a piece letter (`K A E H R C P`) for Red or Black; `?` for
/// another letter.
pub open spec fn piece_name(piece: char, is_red: bool) -> Seq<char> {
    if piece == 'K' {
        if is_red { "帅"@ } else { "将"@ }
    } else if piece == 'A' {
        if is_red { "仕"@ } else { "士"@ }
    } else if piece == 'E' {
        if is_red { "相"@ } else { "象"@ }
    } else if piece == 'H' {
        "馬"@
    } else if piece == 'R' {
        "車"@
    } else if piece == 'C' {
        if is_red { "炮"@ } else { "砲"@ }
    } else if piece == 'P' {
        if is_red { "兵"@ } else { "卒"@ }
    } else {
        "?"@
    }
}

/// Chinese numeral `〇` to `九` as text.
pub open spec fn numeral(d: int) -> Seq<char> {
    if d == 0 {
        "〇"@
    } else if d == 1 {
        "一"@
    } else if d == 2 {
        "二"@
    } else if d == 3 {
        "三"@
    } else if d == 4 {
        "四"@
    } else if d == 5 {
        "五"@
    } else if d == 6 {
        "六"@
    } else if d == 7 {
        "七"@
    } else if d == 8 {
        "八"@
    } else {
        "九"@
    }
}

/// File number from the mover's right: `9 - file` for Red, `file + 1` for
/// Black.
pub open spec fn file_number(file: int, is_red: bool) -> int {
    if is_red {
        9 - file
    } else {
        file + 1
    }
}

/// Whether the move goes forward for the mover.
pub open spec fn advances(is_red: bool, from_rank: int, to_rank: int) -> bool {
    (is_red && to_rank > from_rank) || (!is_red && to_rank < from_rank)
}

/// Ranks moved.
pub open spec fn rank_steps(from_rank: int, to_rank: int) -> int {
    if from_rank > to_rank {
        from_rank - to_rank
    } else {
        to_rank - from_rank
    }
}

/// The numeral after the action: the destination file for a sideways
/// move; for a forward or backward move the number of ranks moved.
pub open spec fn target_number(piece: char, is_red: bool, to_file: int, from_rank: int, to_rank: int) -> int {
    if from_rank != to_rank {
        rank_steps(from_rank, to_rank)
    } else {
        file_number(to_file, is_red)
    }
}

/// The notation of a move.
pub open spec fn notation_text(
    piece: char,
    is_red: bool,
    from_file: int,
    to_file: int,
    from_rank: int,
    to_rank: int,
) -> Seq<char> {
    piece_name(piece, is_red) + numeral(file_number(from_file, is_red)) + (if from_rank == to_rank {
        "平"@
    } else if advances(is_red, from_rank, to_rank) {
        "进"@
    } else {
        "退"@
    }) + numeral(target_number(piece, is_red, to_file, from_rank, to_rank))
}

/// The inputs whose file and rank numbers are numerals `〇` to `九`.
pub open spec fn notation_in_range(
    piece: char,
    is_red: bool,
    from_file: int,
    to_file: int,
    from_rank: int,
    to_rank: int,
) -> bool {
    &&& 0 <= file_number(from_file, is_red) <= 9
    &&& 0 <= target_number(piece, is_red, to_file, from_rank, to_rank) <= 9
}

fn numeral_str(d: u8) -> (s: &'static str)
    requires
        d <= 9,
    ensures
        s@ == numeral(d as int),
{
    match d {
        0 => "〇",
        1 => "一",
        2 => "二",
        3 => "三",
        4 => "四",
        5 => "五",
        6 => "六",
        7 => "七",
        8 => "八",
        _ => "九",
    }
}

fn piece_name_str(piece: char, is_red: bool) -> (s: &'static str)
    ensures
        s@ == piece_name(piece, is_red),
{
    if piece == 'K' {
        if is_red { "帅" } else { "将" }
    } else if piece == 'A' {
        if is_red { "仕" } else { "士" }
    } else if piece == 'E' {
        if is_red { "相" } else { "象" }
    } else if piece == 'H' {
        "馬"
    } else if piece == 'R' {
        "車"
    } else if piece == 'C' {
        if is_red { "炮" } else { "砲" }
    } else if piece == 'P' {
        if is_red { "兵" } else { "卒" }
    } else {
        "?"
    }
}

/// The Chinese notation of a move (see [`notation_text`]).
pub fn to_chinese_notation(
    piece_char: char,
    is_red: bool,
    from_file: u8,
    to_file: u8,
    from_rank: u8,
    to_rank: u8,
) -> (s: String)
    requires
        notation_in_range(
            piece_char,
            is_red,
            from_file as int,
            to_file as int,
            from_rank as int,
            to_rank as int,
        ),
    ensures
        s@ == notation_text(piece_char, is_red, from_file as int, to_file as int, from_rank as int, to_rank as int),
{
    let file_num: u8 = if is_red {
        9 - from_file
    } else {
        from_file + 1
    };
    let action = if from_rank == to_rank {
        "平"
    } else if (is_red && to_rank > from_rank) || (!is_red && to_rank < from_rank) {
        "进"
    } else {
        "退"
    };
    let target: u8 = if from_rank != to_rank {
        if from_rank > to_rank {
            from_rank - to_rank
        } else {
            to_rank - from_rank
        }
    } else if is_red {
        9 - to_file
    } else {
        to_file + 1
    };
    let mut s = String::new();
    push_str(&mut s, piece_name_str(piece_char, is_red));
    push_str(&mut s, numeral_str(file_num));
    push_str(&mut s, action);
    push_str(&mut s, numeral_str(target));
    s
}

} // verus!
