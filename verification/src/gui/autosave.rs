//! Automatic saving of the game in progress: the saved text (a PGN-like
//! record and a small metadata file), reading the metadata back, and when
//! a save is due. Reading and writing the files is the caller's part.

use vstd::prelude::*;
use crate::gui::annotations::export_move_text;
use crate::gui::game_settings::GameMode;
use crate::text::{all_digits, chars_of, has_prefix, is_digit, lemma_nat_text_reads_back, nat_text, next_sep, parse_in_range, parse_int, push_char, push_chars, push_str, push_u64, split_from, split_on, starts_with_str};
use crate::fen_laws::law_fen_has_no_line_break;
use crate::xiangqi::{fen_text, Color, Move, Piece};

verus! {

/// Mode name written in a save.
pub open spec fn mode_name(m: GameMode) -> Seq<char> {
    match m {
        GameMode::VsAi => "VsAi"@,
        GameMode::LocalPvp => "Local"@,
        _ => "Other"@,
    }
}

/// Mode name written in a save.
pub fn mode_label(m: GameMode) -> (s: &'static str)
    ensures
        s@ == mode_name(m),
{
    match m {
        GameMode::VsAi => "VsAi",
        GameMode::LocalPvp => "Local",
        _ => "Other",
    }
}

/// One move of the saved move list: its number before Red's moves.
pub open spec fn saved_move_text(i: int, m: Move) -> Seq<char> {
    (if i % 2 == 0 {
        nat_text((i / 2 + 1) as nat) + ". "@
    } else {
        seq![]
    }) + export_move_text(m)
}

/// The first `n` moves, separated by spaces.
pub open spec fn saved_moves(h: Seq<Move>, n: int) -> Seq<char>
    decreases n,
{
    if n <= 0 {
        seq![]
    } else if n == 1 {
        saved_move_text(0, h[0])
    } else {
        saved_moves(h, n - 1) + seq![' '] + saved_move_text(n - 1, h[n - 1])
    }
}

/// The saved game record.
pub open spec fn pgn_text(mode: Seq<char>, fen: Seq<char>, history: Seq<Move>) -> Seq<char> {
    "[Event \"AutoSave\"]\n[Mode \""@ + mode + "\"]\n[FEN \""@ + fen + "\"]\n[MoveCount \""@ + nat_text(
        history.len(),
    ) + "\"]\n\n"@ + saved_moves(history, history.len() as int)
}

/// The saved metadata.
pub open spec fn meta_text(mode: Seq<char>, moves: nat, fen: Seq<char>) -> Seq<char> {
    "mode="@ + mode + "\nmoves="@ + nat_text(moves) + "\nfen="@ + fen
}

fn push_saved_move(out: &mut String, i: usize, m: Move)
    requires
        m.valid(),
        i < usize::MAX,
    ensures
        final(out)@ == old(out)@ + saved_move_text(i as int, m),
{
    if i % 2 == 0 {
        push_u64(out, (i / 2 + 1) as u64);
        push_str(out, ". ");
    }
    let ghost mid = out@;
    push_char(out, (97u8 + m.from.file) as char);
    push_u64(out, (m.from.rank + 1) as u64);
    push_char(out, (97u8 + m.to.file) as char);
    push_u64(out, (m.to.rank + 1) as u64);
    assert(out@ =~= mid + export_move_text(m));
    assert(out@ =~= old(out)@ + saved_move_text(i as int, m));
}

/// The saved game record (see [`pgn_text`]).
pub fn autosave_pgn(mode: GameMode, fen: &str, history: &[Move]) -> (s: String)
    requires
        forall|i: int| 0 <= i < history@.len() ==> (#[trigger] history@[i]).valid(),
        history@.len() < usize::MAX,
    ensures
        s@ == pgn_text(mode_name(mode), fen@, history@),
{
    let mut s = String::new();
    push_str(&mut s, "[Event \"AutoSave\"]\n[Mode \"");
    push_str(&mut s, mode_label(mode));
    push_str(&mut s, "\"]\n[FEN \"");
    push_str(&mut s, fen);
    push_str(&mut s, "\"]\n[MoveCount \"");
    push_u64(&mut s, history.len() as u64);
    push_str(&mut s, "\"]\n\n");
    let ghost head = s@;
    let mut i: usize = 0;
    while i < history.len()
        invariant
            i <= history@.len(),
            history@.len() < usize::MAX,
            forall|j: int| 0 <= j < history@.len() ==> (#[trigger] history@[j]).valid(),
            s@ == head + saved_moves(history@, i as int),
        decreases history@.len() - i,
    {
        if i > 0 {
            push_char(&mut s, ' ');
        }
        push_saved_move(&mut s, i, history[i]);
        i = i + 1;
        assert(s@ =~= head + saved_moves(history@, i as int));
    }
    s
}

/// The saved metadata (see [`meta_text`]).
pub fn autosave_meta(mode: GameMode, moves: usize, fen: &str) -> (s: String)
    ensures
        s@ == meta_text(mode_name(mode), moves as nat, fen@),
{
    let mut s = String::new();
    push_str(&mut s, "mode=");
    push_str(&mut s, mode_label(mode));
    push_str(&mut s, "\nmoves=");
    push_u64(&mut s, moves as u64);
    push_str(&mut s, "\nfen=");
    push_str(&mut s, fen);
    s
}

/// Metadata of a saved game.
pub struct AutoSaveMeta {
    pub mode: String,
    pub move_count: usize,
    pub fen: String,
}

/// The lines of a text as `str::lines` gives them: split at `\n`, a `\r`
/// before a `\n` dropped, and no line after a final `\n`.
pub open spec fn text_lines(s: Seq<char>) -> Seq<Seq<char>> {
    let parts = split_from(s, 0, '\n');
    let kept = if parts.last().len() == 0 {
        parts.drop_last()
    } else {
        parts
    };
    Seq::new(
        kept.len(),
        |i: int|
            if i < parts.len() - 1 && kept[i].len() > 0 && kept[i].last() == '\r' {
                kept[i].drop_last()
            } else {
                kept[i]
            },
    )
}

/// Metadata after reading the first `n` lines: the last `mode=`, `moves=`
/// and `fen=` line each set their field; an unreadable count reads as 0.
pub open spec fn meta_after(lines: Seq<Seq<char>>, n: int) -> (Seq<char>, int, Seq<char>)
    decreases n,
{
    if n <= 0 {
        (seq![], 0, seq![])
    } else {
        let (mode, moves, fen) = meta_after(lines, n - 1);
        let l = lines[n - 1];
        if has_prefix(l, "mode="@) {
            (l.skip(5), moves, fen)
        } else if has_prefix(l, "moves="@) {
            (mode, match parse_in_range(l.skip(6), 0, usize::MAX as int) {
                Some(v) => v,
                None => 0,
            }, fen)
        } else if has_prefix(l, "fen="@) {
            (mode, moves, l.skip(4))
        } else {
            (mode, moves, fen)
        }
    }
}

fn suffix_string(l: &[char], k: usize) -> (s: String)
    requires
        k <= l@.len(),
    ensures
        s@ == l@.skip(k as int),
{
    let mut v: Vec<char> = Vec::new();
    let mut i: usize = k;
    while i < l.len()
        invariant
            k <= i <= l@.len(),
            v@ == l@.subrange(k as int, i as int),
        decreases l@.len() - i,
    {
        v.push(l[i]);
        i = i + 1;
    }
    let mut s = String::new();
    push_chars(&mut s, v.as_slice());
    assert(s@ =~= l@.skip(k as int));
    s
}

fn line_at(parts: &Vec<Vec<char>>, i: usize) -> (l: Vec<char>)
    requires
        i < parts@.len(),
    ensures
        l@ == if i + 1 < parts@.len() && parts@[i as int]@.len() > 0 && parts@[i as int]@.last() == '\r' {
            parts@[i as int]@.drop_last()
        } else {
            parts@[i as int]@
        },
{
    let p = &parts[i];
    let n = p.len();
    let strip = i < parts.len() - 1 && n > 0 && p[n - 1] == '\r';
    let end = if strip {
        n - 1
    } else {
        n
    };
    let mut l: Vec<char> = Vec::new();
    let mut j: usize = 0;
    while j < end
        invariant
            end <= p@.len(),
            j <= end,
            l@ == p@.take(j as int),
        decreases end - j,
    {
        l.push(p[j]);
        j = j + 1;
    }
    assert(l@ =~= if strip { p@.drop_last() } else { p@ });
    l
}

/// The separator search stops at the first separator from `i`, found at
/// `j`, or at the end.
proof fn lemma_next_sep_at(s: Seq<char>, i: int, j: int, sep: char)
    requires
        0 <= i <= j <= s.len(),
        forall|k: int| i <= k < j ==> s[k] != sep,
        j == s.len() || s[j] == sep,
    ensures
        next_sep(s, i, sep) == j,
    decreases j - i,
{
    if i < j {
        lemma_next_sep_at(s, i + 1, j, sep);
    }
}

/// The saved metadata consists of three lines: the mode, the move count
/// and the FEN line.
proof fn lemma_meta_lines(mname: Seq<char>, d: Seq<char>, fen: Seq<char>)
    requires
        mname.len() > 0,
        mname.last() != '\r',
        forall|k: int| 0 <= k < mname.len() ==> mname[k] != '\n',
        all_digits(d),
        forall|i: int| 0 <= i < fen.len() ==> fen[i] != '\n',
    ensures
        text_lines("mode="@ + mname + "\nmoves="@ + d + "\nfen="@ + fen) == seq![
            "mode="@ + mname,
            "moves="@ + d,
            "fen="@ + fen,
        ],
{
    reveal_strlit("mode=");
    reveal_strlit("\nmoves=");
    reveal_strlit("\nfen=");
    reveal_strlit("moves=");
    reveal_strlit("fen=");
    let a = "mode="@ + mname;
    let b = "moves="@ + d;
    let c = "fen="@ + fen;
    let t = "mode="@ + mname + "\nmoves="@ + d + "\nfen="@ + fen;
    assert(t =~= a + seq!['\n'] + b + seq!['\n'] + c);
    let ia = a.len() as int;
    let ib = ia + 1 + b.len();
    assert forall|k: int| 0 <= k < ia implies t[k] != '\n' by {
        assert(t[k] == a[k]);
        if k >= 5 {
            assert(a[k] == mname[k - 5]);
        }
    }
    assert forall|k: int| ia + 1 <= k < ib implies t[k] != '\n' by {
        assert(t[k] == b[k - ia - 1]);
        if k - ia - 1 >= 6 {
            assert(b[k - ia - 1] == d[k - ia - 7]);
            assert(is_digit(d[k - ia - 7]));
        }
    }
    assert forall|k: int| ib + 1 <= k < t.len() implies t[k] != '\n' by {
        assert(t[k] == c[k - ib - 1]);
        if k - ib - 1 >= 4 {
            assert(c[k - ib - 1] == fen[k - ib - 5]);
        }
    }
    lemma_next_sep_at(t, 0, ia, '\n');
    lemma_next_sep_at(t, ia + 1, ib, '\n');
    lemma_next_sep_at(t, ib + 1, t.len() as int, '\n');
    assert(t.subrange(0, ia) =~= a);
    assert(t.subrange(ia + 1, ib) =~= b);
    assert(t.subrange(ib + 1, t.len() as int) =~= c);
    assert(split_from(t, ib + 1, '\n') == seq![c]);
    assert(split_from(t, ia + 1, '\n') == seq![b] + seq![c]);
    assert(split_from(t, 0, '\n') == seq![a] + (seq![b] + seq![c]));
    let parts = split_from(t, 0, '\n');
    assert(parts =~= seq![a, b, c]);
    assert(a.last() == mname.last());
    assert(is_digit(d[d.len() - 1]));
    assert(b.last() == d.last());
    assert(text_lines(t) =~= seq![a, b, c]);
}

/// Reading saved metadata back gives what was saved: the mode name, the
/// move count and the FEN, for a FEN without line breaks.
pub proof fn law_meta_reads_back(mode: GameMode, moves: nat, fen: Seq<char>)
    requires
        moves <= usize::MAX,
        forall|i: int| 0 <= i < fen.len() ==> fen[i] != '\n',
    ensures
        ({
            let lines = text_lines(meta_text(mode_name(mode), moves, fen));
            meta_after(lines, lines.len() as int) == (mode_name(mode), moves as int, fen)
        }),
{
    reveal_strlit("mode=");
    reveal_strlit("moves=");
    reveal_strlit("fen=");
    reveal_strlit("VsAi");
    reveal_strlit("Local");
    reveal_strlit("Other");
    lemma_nat_text_reads_back(moves, usize::MAX as int);
    let mname = mode_name(mode);
    let d = nat_text(moves);
    assert(forall|k: int| 0 <= k < mname.len() ==> mname[k] != '\n');
    lemma_meta_lines(mname, d, fen);
    let a = "mode="@ + mname;
    let b = "moves="@ + d;
    let c = "fen="@ + fen;
    let lines = text_lines(meta_text(mname, moves, fen));
    assert(lines == seq![a, b, c]);
    assert(a.subrange(0, 5) =~= "mode="@);
    assert(has_prefix(a, "mode="@));
    assert(a.skip(5) =~= mname);
    assert(!has_prefix(b, "mode="@)) by {
        assert(b.subrange(0, 5)[2] != "mode="@[2]);
    }
    assert(b.subrange(0, 6) =~= "moves="@);
    assert(has_prefix(b, "moves="@));
    assert(b.skip(6) =~= d);
    assert(!has_prefix(c, "mode="@)) by {
        if c.len() >= 5 {
            assert(c.subrange(0, 5)[0] != "mode="@[0]);
        }
    }
    assert(!has_prefix(c, "moves="@)) by {
        if c.len() >= 6 {
            assert(c.subrange(0, 6)[0] != "moves="@[0]);
        }
    }
    assert(c.subrange(0, 4) =~= "fen="@);
    assert(has_prefix(c, "fen="@));
    assert(c.skip(4) =~= fen);
    assert(lines[0] == a && lines[1] == b && lines[2] == c);
    assert(meta_after(lines, 0) == (Seq::<char>::empty(), 0int, Seq::<char>::empty()));
    assert(meta_after(lines, 1) == (mname, 0int, Seq::<char>::empty()));
    assert(meta_after(lines, 2) == (mname, moves as int, Seq::<char>::empty()));
}

/// For a saved game the read-back always succeeds: the metadata written
/// for a board (the mode, the move count and the board's FEN) reads back
/// as exactly those.
pub proof fn law_saved_meta_reads_back(
    mode: GameMode,
    moves: nat,
    cells: Seq<Option<Piece>>,
    side: Color,
)
    requires
        moves <= usize::MAX,
        cells.len() == 90,
    ensures
        ({
            let fen = fen_text(cells, side);
            let lines = text_lines(meta_text(mode_name(mode), moves, fen));
            meta_after(lines, lines.len() as int) == (mode_name(mode), moves as int, fen)
        }),
{
    law_fen_has_no_line_break(cells, side);
    law_meta_reads_back(mode, moves, fen_text(cells, side));
}

impl AutoSaveMeta {
    /// Reads saved metadata (see [`meta_after`] over [`text_lines`]).
    pub fn parse(content: &str) -> (m: AutoSaveMeta)
        ensures
            ({
                let lines = text_lines(content@);
                let (mode, moves, fen) = meta_after(lines, lines.len() as int);
                m.mode@ == mode && m.move_count == moves && m.fen@ == fen
            }),
    {
        let cs = chars_of(content);
        let parts = split_on(cs.as_slice(), '\n');
        let ghost ps = split_from(content@, 0, '\n');
        proof {
            assert(ps.len() >= 1) by {
                reveal_with_fuel(split_from, 1);
            }
        }
        let count = if parts[parts.len() - 1].len() == 0 {
            parts.len() - 1
        } else {
            parts.len()
        };
        let ghost lines = text_lines(content@);
        assert(lines.len() == count);
        let mut mode = String::new();
        let mut moves: usize = 0;
        let mut fen = String::new();
        let mut i: usize = 0;
        while i < count
            invariant
                count <= parts@.len(),
                parts@.len() == ps.len(),
                forall|k: int| 0 <= k < parts@.len() ==> #[trigger] parts@[k]@ == ps[k],
                lines == text_lines(content@),
                lines.len() == count,
                ps == split_from(content@, 0, '\n'),
                i <= count,
                ({
                    let (m0, n0, f0) = meta_after(lines, i as int);
                    mode@ == m0 && moves == n0 && fen@ == f0
                }),
            decreases count - i,
        {
            let l = line_at(&parts, i);
            assert(l@ == lines[i as int]);
            proof {
                reveal_strlit("mode=");
                reveal_strlit("moves=");
                reveal_strlit("fen=");
            }
            if starts_with_str(l.as_slice(), "mode=") {
                mode = suffix_string(l.as_slice(), 5);
            } else if starts_with_str(l.as_slice(), "moves=") {
                let rest = suffix_string(l.as_slice(), 6);
                let rc = chars_of(rest.as_str());
                moves = match parse_int(rc.as_slice(), 0, usize::MAX as i128) {
                    Some(v) => v as usize,
                    None => 0,
                };
            } else if starts_with_str(l.as_slice(), "fen=") {
                fen = suffix_string(l.as_slice(), 4);
            }
            i = i + 1;
        }
        AutoSaveMeta { mode, move_count: moves, fen }
    }

    /// `<mode>对局, <n>步`, the mode in Chinese (人机, 本地 or 其他).
    pub fn display(&self) -> (s: String)
        ensures
            s@ == (if self.mode@ == "VsAi"@ {
                "人机"@
            } else if self.mode@ == "Local"@ {
                "本地"@
            } else {
                "其他"@
            }) + "对局, "@ + nat_text(self.move_count as nat) + "步"@,
    {
        let mode_cn = if crate::collections::text_eq(self.mode.as_str(), "VsAi") {
            "人机"
        } else if crate::collections::text_eq(self.mode.as_str(), "Local") {
            "本地"
        } else {
            "其他"
        };
        let mut s = String::new();
        push_str(&mut s, mode_cn);
        push_str(&mut s, "对局, ");
        push_u64(&mut s, self.move_count as u64);
        push_str(&mut s, "步");
        s
    }
}

/// Whether the periodic save is due: saving is on, the game is against
/// the engine or local, a move has been made, and the save interval has
/// passed.
pub fn periodic_save_due(enabled: bool, mode: GameMode, move_count: usize, interval_passed: bool) -> (b: bool)
    ensures
        b == (enabled && (mode == GameMode::VsAi || mode == GameMode::LocalPvp) && move_count > 0
            && interval_passed),
{
    if !enabled {
        return false;
    }
    match mode {
        GameMode::VsAi | GameMode::LocalPvp => {},
        _ => {
            return false;
        },
    }
    move_count > 0 && interval_passed
}

/// Whether the save interval's clock runs: saving is on, the game is
/// against the engine or local, and a move has been made.
pub fn periodic_clock_runs(enabled: bool, mode: GameMode, move_count: usize) -> (b: bool)
    ensures
        b == (enabled && (mode == GameMode::VsAi || mode == GameMode::LocalPvp) && move_count > 0),
{
    enabled && (mode == GameMode::VsAi || mode == GameMode::LocalPvp) && move_count > 0
}

/// Whether a move calls for a save: saving is on and moves were made since
/// the last save.
pub fn save_due_on_move(enabled: bool, move_count: usize, last_move_count: usize) -> (b: bool)
    ensures
        b == (enabled && move_count > last_move_count && move_count > 0),
{
    enabled && move_count > last_move_count && move_count > 0
}

/// Whether the save is dropped on returning to the menu: the game has no
/// moves and a save exists.
pub fn clear_due_on_menu(history_len: usize, has_saved_game: bool) -> (b: bool)
    ensures
        b == (history_len == 0 && has_saved_game),
{
    history_len == 0 && has_saved_game
}

} // verus!
