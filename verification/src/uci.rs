//! The UCI protocol spoken with an external engine (Pikafish): engine
//! configuration, the command lines sent, and parsing of the `info` and
//! `bestmove` lines read back.
//!
//! Launching the process and the line I/O live with the caller; everything
//! said on the wire is built and read here.

use vstd::prelude::*;
use crate::difficulty::Difficulty;
use crate::text::{
    chars_eq_str, chars_from, chars_of, contains_seq, contains_str, has_prefix, int_text,
    is_ws, nat_text, parse_in_range, parse_int, push_char, push_chars, push_str, push_u64,
    split_whitespace, starts_with_str, string_of, tokens,
};
use crate::xiangqi::{iccs_move, iccs_text, Color, Move};

verus! {

/// `std::io::Error`, carried by the I/O failures of the engine link.
#[verifier::external_type_specification]
#[verifier::external_body]
pub struct ExIoError(std::io::Error);

/// How to launch and configure the external engine.
#[derive(Debug)]
pub struct UciConfig {
    /// Path of the engine executable.
    pub path: String,
    /// `setoption name <k> value <v>` pairs sent after `uci`.
    pub options: Vec<(String, String)>,
    /// Handshake timeout in milliseconds.
    pub handshake_timeout_ms: u64,
}

impl UciConfig {
    /// A configuration with no options and a 10 second handshake timeout.
    pub fn new(path: String) -> (c: UciConfig)
        ensures
            c.path@ == path@,
            c.options@.len() == 0,
            c.handshake_timeout_ms == 10_000,
    {
        UciConfig { path, options: Vec::new(), handshake_timeout_ms: 10_000 }
    }

    /// Appends one option pair.
    pub fn with_option(self, key: String, value: String) -> (c: UciConfig)
        ensures
            c.path@ == self.path@,
            c.handshake_timeout_ms == self.handshake_timeout_ms,
            c.options@.len() == self.options@.len() + 1,
            forall|i: int| 0 <= i < self.options@.len() ==> #[trigger] c.options@[i] == self.options@[i],
            c.options@.last().0@ == key@,
            c.options@.last().1@ == value@,
    {
        let mut c = self;
        c.options.push((key, value));
        c
    }
}

/// Failures of the engine link.
#[derive(Debug)]
pub enum UciError {
    /// The process could not be started.
    Spawn(std::io::Error),
    /// Reading or writing the pipes failed.
    Io(std::io::Error),
    /// The handshake did not finish in time.
    HandshakeTimeout,
    /// The engine closed its output.
    Closed,
    /// The engine answered with a move that cannot be read.
    BadMove(String),
}

/// Engine threads and hash (MB) for a difficulty on a machine with `cores`
/// hardware threads: Extreme gets every core (1..=16) and 256 MB, the
/// other tiers half the cores (1..=4) and 32 MB.
pub open spec fn engine_tuning_spec(d: Difficulty, cores: int) -> (int, int) {
    match d {
        Difficulty::Extreme => (if cores < 1 { 1 } else if cores > 16 { 16 } else { cores }, 256),
        _ => {
            let h = cores / 2;
            (if h < 1 { 1 } else if h > 4 { 4 } else { h }, 32)
        },
    }
}

/// Threads and hash for a difficulty (see [`engine_tuning_spec`]).
pub fn engine_tuning(d: Difficulty, cores: usize) -> (r: (usize, u32))
    ensures
        (r.0 as int, r.1 as int) == engine_tuning_spec(d, cores as int),
{
    match d {
        Difficulty::Extreme => (clamp_usize(cores, 1, 16), 256),
        _ => (clamp_usize(cores / 2, 1, 4), 32),
    }
}

fn clamp_usize(x: usize, lo: usize, hi: usize) -> (r: usize)
    requires
        lo <= hi,
    ensures
        r == if x < lo { lo } else if x > hi { hi } else { x },
{
    if x < lo {
        lo
    } else if x > hi {
        hi
    } else {
        x
    }
}

fn string_from_u64(n: u64) -> (s: String)
    ensures
        s@ == nat_text(n as nat),
{
    let mut s = String::new();
    push_u64(&mut s, n);
    s
}

/// The engine configuration for a difficulty, or `None` (use the built-in
/// engine) without an engine path. Options: `EvalFile` when an NNUE file is
/// given, then `Threads` and `Hash` from [`engine_tuning`].
pub fn engine_config(
    engine_path: Option<String>,
    eval_file: Option<String>,
    difficulty: Difficulty,
    cores: usize,
) -> (c: Option<UciConfig>)
    ensures
        engine_path is None <==> c is None,
        c matches Some(cfg) ==> {
            let (threads, hash) = engine_tuning_spec(difficulty, cores as int);
            let n = if eval_file is Some { 3int } else { 2int };
            &&& cfg.path@ == engine_path->0@
            &&& cfg.handshake_timeout_ms == 10_000
            &&& cfg.options@.len() == n
            &&& eval_file matches Some(e) ==> cfg.options@[0].0@ == "EvalFile"@ && cfg.options@[0].1@
                == e@
            &&& cfg.options@[n - 2].0@ == "Threads"@
            &&& cfg.options@[n - 2].1@ == nat_text(threads as nat)
            &&& cfg.options@[n - 1].0@ == "Hash"@
            &&& cfg.options@[n - 1].1@ == nat_text(hash as nat)
        },
{
    let path = match engine_path {
        Some(p) => p,
        None => {
            return None;
        },
    };
    let mut cfg = UciConfig::new(path);
    if let Some(ev) = eval_file {
        cfg = cfg.with_option(string_of(chars_of("EvalFile").as_slice()), ev);
    }
    let (threads, hash) = engine_tuning(difficulty, cores);
    let cfg = cfg.with_option(string_of(chars_of("Threads").as_slice()), string_from_u64(threads as u64));
    let cfg = cfg.with_option(string_of(chars_of("Hash").as_slice()), string_from_u64(hash as u64));
    Some(cfg)
}

/// `setoption name <key> value <value>`.
pub open spec fn setoption_text(key: Seq<char>, value: Seq<char>) -> Seq<char> {
    "setoption name "@ + key + " value "@ + value
}

/// The line setting one engine option.
pub fn setoption_command(key: &str, value: &str) -> (s: String)
    ensures
        s@ == setoption_text(key@, value@),
{
    let mut s = String::new();
    push_str(&mut s, "setoption name ");
    push_str(&mut s, key);
    push_str(&mut s, " value ");
    push_str(&mut s, value);
    s
}

/// ICCS texts of moves, each preceded by a space.
pub open spec fn moves_text(history: Seq<Move>) -> Seq<char>
    decreases history.len(),
{
    if history.len() == 0 {
        seq![]
    } else {
        moves_text(history.drop_last()) + seq![' '] + iccs_text(history.last())
    }
}

/// `position fen <fen>`, followed by ` moves` and the moves when there
/// are any.
pub open spec fn position_text(fen: Seq<char>, history: Seq<Move>) -> Seq<char> {
    "position fen "@ + fen + if history.len() == 0 {
        seq![]
    } else {
        " moves"@ + moves_text(history)
    }
}

/// The line setting up a game: its initial FEN plus the moves played, so
/// the engine sees the real game (repetitions, its transposition table).
pub fn position_command(fen: &str, history: &[Move]) -> (s: String)
    requires
        forall|i: int| 0 <= i < history@.len() ==> (#[trigger] history@[i]).valid(),
    ensures
        s@ == position_text(fen@, history@),
{
    let mut s = String::new();
    push_str(&mut s, "position fen ");
    push_str(&mut s, fen);
    let ghost base = s@;
    if history.len() > 0 {
        push_str(&mut s, " moves");
        let ghost head = s@;
        let mut i: usize = 0;
        while i < history.len()
            invariant
                i <= history@.len(),
                forall|j: int| 0 <= j < history@.len() ==> (#[trigger] history@[j]).valid(),
                s@ == head + moves_text(history@.take(i as int)),
            decreases history@.len() - i,
        {
            push_char(&mut s, ' ');
            history[i].push_iccs(&mut s);
            assert(history@.take(i + 1).drop_last() == history@.take(i as int));
            i = i + 1;
        }
        assert(history@.take(history@.len() as int) == history@);
    }
    s
}

/// `go movetime <ms>`, or `go ponder movetime <ms>` for a ponder search.
pub open spec fn go_text(movetime_ms: u64, ponder: bool) -> Seq<char> {
    (if ponder {
        "go ponder movetime "@
    } else {
        "go movetime "@
    }) + nat_text(movetime_ms as nat)
}

/// The line starting a timed search.
pub fn go_command(movetime_ms: u64, ponder: bool) -> (s: String)
    ensures
        s@ == go_text(movetime_ms, ponder),
{
    let mut s = String::new();
    if ponder {
        push_str(&mut s, "go ponder movetime ");
    } else {
        push_str(&mut s, "go movetime ");
    }
    push_u64(&mut s, movetime_ms);
    s
}

/// One streamed report of a search.
#[derive(Debug, Clone)]
pub struct SearchInfo {
    /// Depth in plies.
    pub depth: u32,
    /// Score in centipawns from the side to move.
    pub score: i32,
    /// Side to move in the searched position.
    pub side_to_move: Color,
    /// Principal variation.
    pub pv: Vec<Move>,
    /// Nodes searched so far.
    pub nodes: u64,
    /// Milliseconds since the search started.
    pub elapsed_ms: u64,
    /// Whether this is the final report.
    pub is_final: bool,
}

impl SearchInfo {
    /// The score from Red's point of view.
    pub fn red_score(&self) -> (s: i32)
        requires
            self.score > i32::MIN,
        ensures
            s == match self.side_to_move {
                Color::Red => self.score as int,
                Color::Black => -self.score,
            },
    {
        match self.side_to_move {
            Color::Red => self.score,
            Color::Black => -self.score,
        }
    }
}

/// Centipawn encoding of `mate N`: `±(10000 - 2N)` with `N` clamped to
/// `1..=500`, so the display can read mates back from `|score| >= 9900`.
pub open spec fn mate_score(value: int) -> int {
    let n = if value < -500 { -500 } else if value > 500 { 500 } else { value };
    if n >= 0 {
        10000 - 2 * (if n < 1 { 1 } else { n })
    } else {
        -(10000 - 2 * (if -n < 1 { 1 } else { -n }))
    }
}

fn mate_score_exec(value: i32) -> (s: i32)
    ensures
        s == mate_score(value as int),
{
    let n = if value < -500 {
        -500
    } else if value > 500 {
        500
    } else {
        value
    };
    if n >= 0 {
        10000 - 2 * (if n < 1 { 1 } else { n })
    } else {
        -(10000 - 2 * (if -n < 1 { 1 } else { -n }))
    }
}

/// Fields read from an `info` line so far: depth, score, nodes, PV.
pub struct InfoFields {
    pub depth: int,
    pub score: Option<int>,
    pub nodes: int,
    pub pv: Seq<Move>,
}

/// Moves among tokens `toks[k..]` that read as ICCS, in order.
pub open spec fn pv_moves(toks: Seq<Seq<char>>, k: int) -> Seq<Move>
    decreases toks.len() - k,
{
    if k < 0 || k >= toks.len() {
        seq![]
    } else {
        match iccs_move(toks[k]) {
            Some(m) => seq![m] + pv_moves(toks, k + 1),
            None => pv_moves(toks, k + 1),
        }
    }
}

/// Reads the tokens of an `info` line from `k` on. `depth` needs a `u32`,
/// `score` a kind (`cp` or `mate`) and an `i32`, else the line is refused;
/// `nodes` takes a `u64` when one follows, else 0; `pv` takes every later
/// token that reads as a move; other tokens are skipped.
pub open spec fn scan_info(toks: Seq<Seq<char>>, k: int, f: InfoFields) -> Option<InfoFields>
    decreases toks.len() - k,
{
    if k < 0 || k >= toks.len() {
        Some(f)
    } else if toks[k] == "depth"@ {
        if k + 1 >= toks.len() {
            None
        } else {
            match parse_in_range(toks[k + 1], 0, u32::MAX as int) {
                Some(d) => scan_info(toks, k + 2, InfoFields { depth: d, ..f }),
                None => None,
            }
        }
    } else if toks[k] == "nodes"@ {
        if k + 1 >= toks.len() {
            Some(InfoFields { nodes: 0, ..f })
        } else {
            let n = match parse_in_range(toks[k + 1], 0, u64::MAX as int) {
                Some(v) => v,
                None => 0,
            };
            scan_info(toks, k + 2, InfoFields { nodes: n, ..f })
        }
    } else if toks[k] == "score"@ {
        if k + 2 >= toks.len() {
            None
        } else {
            match parse_in_range(toks[k + 2], i32::MIN as int, i32::MAX as int) {
                Some(v) => if toks[k + 1] == "cp"@ {
                    scan_info(toks, k + 3, InfoFields { score: Some(v), ..f })
                } else if toks[k + 1] == "mate"@ {
                    scan_info(toks, k + 3, InfoFields { score: Some(mate_score(v)), ..f })
                } else {
                    None
                },
                None => None,
            }
        }
    } else if toks[k] == "pv"@ {
        Some(InfoFields { pv: pv_moves(toks, k + 1), ..f })
    } else {
        scan_info(toks, k + 1, f)
    }
}

/// The report an engine line gives: lines starting `info ` whose tokens
/// read (see [`scan_info`]) and carry a score; others give none.
pub open spec fn info_line(line: Seq<char>) -> Option<InfoFields> {
    if !has_prefix(line, "info "@) {
        None
    } else {
        match scan_info(
            tokens(line.skip(5)),
            0,
            InfoFields { depth: 0, score: None, nodes: 0, pv: seq![] },
        ) {
            Some(f) => if f.score is Some {
                Some(f)
            } else {
                None
            },
            None => None,
        }
    }
}

fn parse_u32_chars(s: &[char]) -> (r: Option<u32>)
    ensures
        match r {
            Some(v) => parse_in_range(s@, 0, u32::MAX as int) == Some(v as int),
            None => parse_in_range(s@, 0, u32::MAX as int) is None,
        },
{
    match parse_int(s, 0, u32::MAX as i128) {
        Some(v) => Some(v as u32),
        None => None,
    }
}

fn parse_u64_chars(s: &[char]) -> (r: Option<u64>)
    ensures
        match r {
            Some(v) => parse_in_range(s@, 0, u64::MAX as int) == Some(v as int),
            None => parse_in_range(s@, 0, u64::MAX as int) is None,
        },
{
    match parse_int(s, 0, u64::MAX as i128) {
        Some(v) => Some(v as u64),
        None => None,
    }
}

fn parse_i32_chars(s: &[char]) -> (r: Option<i32>)
    ensures
        match r {
            Some(v) => parse_in_range(s@, i32::MIN as int, i32::MAX as int) == Some(v as int),
            None => parse_in_range(s@, i32::MIN as int, i32::MAX as int) is None,
        },
{
    match parse_int(s, i32::MIN as i128, i32::MAX as i128) {
        Some(v) => Some(v as i32),
        None => None,
    }
}

fn pv_from(toks: &Vec<Vec<char>>, k: usize) -> (v: Vec<Move>)
    requires
        k <= toks@.len(),
    ensures
        v@ == pv_moves(toks@.map_values(|t: Vec<char>| t@), k as int),
        forall|i: int| 0 <= i < v@.len() ==> (#[trigger] v@[i]).valid(),
    decreases toks@.len() - k,
{
    let ghost ts = toks@.map_values(|t: Vec<char>| t@);
    if k >= toks.len() {
        return Vec::new();
    }
    let mut rest = pv_from(toks, k + 1);
    match Move::from_iccs_chars(toks[k].as_slice()) {
        Some(m) => {
            let mut v: Vec<Move> = Vec::new();
            v.push(m);
            v.append(&mut rest);
            assert(v@ =~= seq![m] + pv_moves(ts, k + 1));
            v
        },
        None => rest,
    }
}

/// Reads an engine `info` line into a report (see [`info_line`]); the
/// report is not final and carries `stm` and `elapsed_ms`.
pub fn parse_info_line(line: &str, stm: Color, elapsed_ms: u64) -> (r: Option<SearchInfo>)
    ensures
        match info_line(line@) {
            Some(f) => r matches Some(info) && info.depth == f.depth && info.score == f.score->0
                && info.nodes == f.nodes && info.pv@ == f.pv && info.side_to_move == stm
                && info.elapsed_ms == elapsed_ms && !info.is_final,
            None => r is None,
        },
{
    let cs = chars_of(line);
    proof {
        reveal_strlit("info ");
        reveal_strlit("depth");
        reveal_strlit("nodes");
        reveal_strlit("score");
        reveal_strlit("pv");
        reveal_strlit("cp");
        reveal_strlit("mate");
    }
    if !starts_with_str(cs.as_slice(), "info ") {
        return None;
    }
    let rest = chars_from(cs.as_slice(), 5);
    let toks = split_whitespace(rest.as_slice());
    let ghost ts = toks@.map_values(|t: Vec<char>| t@);
    assert(ts =~= tokens(line@.skip(5)));
    let mut depth: u32 = 0;
    let mut score: Option<i32> = None;
    let mut nodes: u64 = 0;
    let mut pv: Vec<Move> = Vec::new();
    let mut k: usize = 0;
    let ghost init = InfoFields { depth: 0, score: None, nodes: 0, pv: seq![] };
    while k < toks.len()
        invariant
            ts == toks@.map_values(|t: Vec<char>| t@),
            ts == tokens(line@.skip(5)),
            has_prefix(line@, "info "@),
            init == (InfoFields { depth: 0, score: None, nodes: 0, pv: seq![] }),
            k <= toks@.len(),
            pv@.len() == 0,
            scan_info(ts, 0, init) == scan_info(
                ts,
                k as int,
                InfoFields {
                    depth: depth as int,
                    score: match score {
                        Some(s) => Some(s as int),
                        None => None,
                    },
                    nodes: nodes as int,
                    pv: seq![],
                },
            ),
        decreases toks@.len() - k,
    {
        let ghost cur = InfoFields {
            depth: depth as int,
            score: match score {
                Some(s) => Some(s as int),
                None => None,
            },
            nodes: nodes as int,
            pv: seq![],
        };
        let tok = toks[k].as_slice();
        assert(ts[k as int] == toks@[k as int]@);
        assert(k + 1 < toks@.len() ==> ts[k + 1] == toks@[k + 1]@);
        assert(k + 2 < toks@.len() ==> ts[k + 2] == toks@[k + 2]@);
        if chars_eq_str(tok, "depth") {
            if k + 1 >= toks.len() {
                return None;
            }
            match parse_u32_chars(toks[k + 1].as_slice()) {
                Some(d) => {
                    depth = d;
                },
                None => {
                    return None;
                },
            }
            k = k + 2;
        } else if chars_eq_str(tok, "nodes") {
            if k + 1 >= toks.len() {
                nodes = 0;
                k = toks.len();
            } else {
                nodes = match parse_u64_chars(toks[k + 1].as_slice()) {
                    Some(v) => v,
                    None => 0,
                };
                k = k + 2;
            }
        } else if chars_eq_str(tok, "score") {
            if k + 1 >= toks.len() || k + 2 >= toks.len() {
                return None;
            }
            let value = match parse_i32_chars(toks[k + 2].as_slice()) {
                Some(v) => v,
                None => {
                    return None;
                },
            };
            if chars_eq_str(toks[k + 1].as_slice(), "cp") {
                score = Some(value);
            } else if chars_eq_str(toks[k + 1].as_slice(), "mate") {
                score = Some(mate_score_exec(value));
            } else {
                return None;
            }
            k = k + 3;
        } else if chars_eq_str(tok, "pv") {
            pv = pv_from(&toks, k + 1);
            let s = match score {
                Some(s) => s,
                None => {
                    return None;
                },
            };
            return Some(
                SearchInfo {
                    depth,
                    score: s,
                    side_to_move: stm,
                    pv,
                    nodes,
                    elapsed_ms,
                    is_final: false,
                },
            );
        } else {
            k = k + 1;
        }
    }
    // Lines such as `info string ...` carry no score and are ignored.
    assert(pv@ =~= seq![]);
    assert(k >= toks@.len() ==> scan_info(
        ts,
        k as int,
        InfoFields {
            depth: depth as int,
            score: match score {
                Some(s) => Some(s as int),
                None => None,
            },
            nodes: nodes as int,
            pv: seq![],
        },
    ) == Some(
        InfoFields {
            depth: depth as int,
            score: match score {
                Some(s) => Some(s as int),
                None => None,
            },
            nodes: nodes as int,
            pv: seq![],
        },
    ));
    let s = match score {
        Some(s) => s,
        None => {
            return None;
        },
    };
    Some(
        SearchInfo { depth, score: s, side_to_move: stm, pv, nodes, elapsed_ms, is_final: false },
    )
}

/// The best move and optional ponder move of a `bestmove <mv> [ponder
/// <mv>]` line; `None` for other lines and unreadable moves. An unreadable
/// ponder move gives no ponder move.
pub open spec fn bestmove_line(line: Seq<char>) -> Option<(Move, Option<Move>)> {
    if !has_prefix(line, "bestmove "@) {
        None
    } else {
        let toks = tokens(line.skip(9));
        if toks.len() == 0 {
            None
        } else {
            match iccs_move(toks[0]) {
                Some(mv) => {
                    let ponder = if toks.len() >= 2 && toks[1] == "ponder"@ && toks.len() >= 3 {
                        iccs_move(toks[2])
                    } else {
                        None
                    };
                    Some((mv, ponder))
                },
                None => None,
            }
        }
    }
}

/// Parses a `bestmove` line (see [`bestmove_line`]).
pub fn parse_bestmove_line(line: &str) -> (r: Option<(Move, Option<Move>)>)
    ensures
        r == bestmove_line(line@),
        r matches Some((m, p)) ==> m.valid() && (p matches Some(q) ==> q.valid()),
{
    let cs = chars_of(line);
    proof {
        reveal_strlit("bestmove ");
    }
    if !starts_with_str(cs.as_slice(), "bestmove ") {
        return None;
    }
    let rest = chars_from(cs.as_slice(), 9);
    let toks = split_whitespace(rest.as_slice());
    if toks.len() == 0 {
        return None;
    }
    let mv = match Move::from_iccs_chars(toks[0].as_slice()) {
        Some(m) => m,
        None => {
            return None;
        },
    };
    let ponder = if toks.len() >= 2 && chars_eq_str(toks[1].as_slice(), "ponder") && toks.len()
        >= 3 {
        Move::from_iccs_chars(toks[2].as_slice())
    } else {
        None
    };
    Some((mv, ponder))
}

/// What a `bestmove` line means to the waiting caller: `None` for other
/// lines; a `BadMove` error carrying the line when it says `(none)` or the
/// move cannot be read; otherwise the move and ponder move.
pub fn bestmove_outcome(line: &str) -> (r: Option<Result<(Move, Option<Move>), UciError>>)
    ensures
        !has_prefix(line@, "bestmove "@) ==> r is None,
        has_prefix(line@, "bestmove "@) ==> match r {
            Some(Ok(x)) => !contains_seq(line@, "(none)"@) && bestmove_line(line@) == Some(x),
            Some(Err(e)) => (contains_seq(line@, "(none)"@) || bestmove_line(line@) is None) && (e
                matches UciError::BadMove(l) && l@ == line@),
            None => false,
        },
{
    let cs = chars_of(line);
    if !starts_with_str(cs.as_slice(), "bestmove ") {
        return None;
    }
    if contains_str(cs.as_slice(), "(none)") {
        return Some(Err(UciError::BadMove(string_of(cs.as_slice()))));
    }
    match parse_bestmove_line(line) {
        Some(x) => Some(Ok(x)),
        None => Some(Err(UciError::BadMove(string_of(cs.as_slice())))),
    }
}

/// `s` with its leading white space removed.
pub open spec fn trim_start_spec(s: Seq<char>) -> Seq<char>
    decreases s.len(),
{
    if s.len() > 0 && is_ws(s[0]) {
        trim_start_spec(s.skip(1))
    } else {
        s
    }
}

/// Whether an engine line, leading white space removed, starts with
/// `marker` (how `uciok` and `readyok` are awaited).
pub fn line_has_marker(line: &str, marker: &str) -> (b: bool)
    ensures
        b == has_prefix(trim_start_spec(line@), marker@),
{
    let cs = chars_of(line);
    let mut i: usize = 0;
    assert(cs@.skip(0) == cs@);
    while i < cs.len() && crate::text::is_whitespace(cs[i])
        invariant
            i <= cs@.len(),
            cs@ == line@,
            trim_start_spec(line@) == trim_start_spec(cs@.skip(i as int)),
        decreases cs@.len() - i,
    {
        assert(cs@.skip(i as int).skip(1) == cs@.skip(i + 1));
        i = i + 1;
    }
    let rest = chars_from(cs.as_slice(), i);
    starts_with_str(rest.as_slice(), marker)
}

/// The final report after `bestmove`: depth, score and nodes of the last
/// report (0 without one), its PV when that starts with the chosen move,
/// else the move alone.
pub fn final_search_info(last: &Option<SearchInfo>, mv: Move, stm: Color, elapsed_ms: u64) -> (r: SearchInfo)
    ensures
        r.is_final,
        r.side_to_move == stm,
        r.elapsed_ms == elapsed_ms,
        match last {
            Some(i) => r.depth == i.depth && r.score == i.score && r.nodes == i.nodes && r.pv@
                == if i.pv@.len() > 0 && i.pv@[0] == mv {
                i.pv@
            } else {
                seq![mv]
            },
            None => r.depth == 0 && r.score == 0 && r.nodes == 0 && r.pv@ == seq![mv],
        },
{
    match last {
        Some(i) => {
            let keep = i.pv.len() > 0 && {
                let f = i.pv[0];
                f.from.file == mv.from.file && f.from.rank == mv.from.rank && f.to.file
                    == mv.to.file && f.to.rank == mv.to.rank
            };
            let pv = if keep {
                i.pv.clone()
            } else {
                let mut v = Vec::new();
                v.push(mv);
                v
            };
            SearchInfo {
                depth: i.depth,
                score: i.score,
                side_to_move: stm,
                pv,
                nodes: i.nodes,
                elapsed_ms,
                is_final: true,
            }
        },
        None => {
            let mut v = Vec::new();
            v.push(mv);
            SearchInfo {
                depth: 0,
                score: 0,
                side_to_move: stm,
                pv: v,
                nodes: 0,
                elapsed_ms,
                is_final: true,
            }
        },
    }
}

} // verus!
