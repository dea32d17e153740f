//! Analysis mode: the engine panel's state for the current position — the
//! evaluation from Red's side, depth, nodes, best move and principal
//! variation — with an evaluation history for graphing.

use vstd::prelude::*;
use crate::text::{digit_char, int_text, nat_text, push_char, push_i64, push_str, push_u64};
use crate::collections::text_eq;
use crate::uci::SearchInfo;
use crate::xiangqi::{iccs_text, Color, Move};

verus! {

/// Evaluations kept in the history.
pub const EVAL_HISTORY_LEN: usize = 100;

/// Analysis panel state.
pub struct AnalysisMode {
    /// Whether analysis mode is on.
    pub active: bool,
    /// Evaluation in centipawns, positive for Red.
    pub eval_score: i32,
    /// Best move found.
    pub best_move: Option<Move>,
    /// Principal variation.
    pub principal_variation: Vec<Move>,
    /// Depth reached.
    pub depth: u32,
    /// Nodes searched.
    pub nodes: u64,
    /// Recent evaluations, oldest first.
    pub eval_history: Vec<i32>,
    /// FEN of the position the evaluation, best move and line belong to;
    /// empty when there is none.
    pub info_fen: String,
}

/// `|x|`.
pub open spec fn abs_spec(x: int) -> int {
    if x < 0 {
        -x
    } else {
        x
    }
}

/// Moves to mate encoded by a score of magnitude `a`: `(10000 - a) / 2`,
/// rounded toward zero.
pub open spec fn mate_distance(a: int) -> int {
    let d = 10000 - a;
    if d >= 0 {
        d / 2
    } else {
        -((-d) / 2)
    }
}

/// Evaluation text: `M<n> (红胜)` / `M<n> (黑胜)` for mate scores
/// (`|score| >= 9900`), else the score in pawns with sign and two decimals
/// (`+1.50`, `-2.50`).
pub open spec fn eval_text(score: int) -> Seq<char> {
    let a = abs_spec(score);
    if a >= 9900 {
        "M"@ + int_text(mate_distance(a)) + if score > 0 {
            " (红胜)"@
        } else {
            " (黑胜)"@
        }
    } else {
        seq![if score >= 0 { '+' } else { '-' }] + nat_text((a / 100) as nat) + seq![
            '.',
            digit_char((a % 100) / 10),
            digit_char(a % 10),
        ]
    }
}

/// History after recording `score`: appended, then trimmed to the last
/// [`EVAL_HISTORY_LEN`] entries.
pub open spec fn history_after(h: Seq<i32>, score: i32) -> Seq<i32> {
    let p = h.push(score);
    if p.len() > EVAL_HISTORY_LEN {
        p.remove(0)
    } else {
        p
    }
}

/// The ICCS texts of the first `n` moves, separated by spaces.
pub open spec fn moves_joined(pv: Seq<Move>, n: int) -> Seq<char>
    decreases n,
{
    if n <= 0 {
        seq![]
    } else if n == 1 {
        iccs_text(pv[0])
    } else {
        moves_joined(pv, n - 1) + seq![' '] + iccs_text(pv[n - 1])
    }
}

/// The line shown under the best move: `变化：` and the first six moves of
/// the variation, or nothing for a variation of one move or none.
pub open spec fn pv_line_text(pv: Seq<Move>) -> Seq<char> {
    if pv.len() > 1 {
        "变化："@ + moves_joined(pv, if pv.len() < 6 { pv.len() as int } else { 6 })
    } else {
        seq![]
    }
}

impl Default for AnalysisMode {
    fn default() -> (a: AnalysisMode)
        ensures
            !a.active,
            a.eval_score == 0,
            a.best_move is None,
            a.principal_variation@.len() == 0,
            a.depth == 0,
            a.nodes == 0,
            a.eval_history@.len() == 0,
            a.info_fen@.len() == 0,
    {
        AnalysisMode {
            active: false,
            eval_score: 0,
            best_move: None,
            principal_variation: Vec::new(),
            depth: 0,
            nodes: 0,
            eval_history: Vec::new(),
            info_fen: String::new(),
        }
    }
}

impl AnalysisMode {
    /// Switches analysis on or off; switching off clears the position data.
    pub fn toggle(&mut self)
        ensures
            final(self).active == !old(self).active,
            final(self).eval_history@ == old(self).eval_history@,
            old(self).active ==> final(self).eval_score == 0 && final(self).best_move is None
                && final(self).principal_variation@.len() == 0 && final(self).depth == 0
                && final(self).nodes == 0 && final(self).info_fen@.len() == 0,
            !old(self).active ==> final(self).eval_score == old(self).eval_score
                && final(self).best_move == old(self).best_move
                && final(self).principal_variation@ == old(self).principal_variation@
                && final(self).depth == old(self).depth && final(self).nodes == old(self).nodes
                && final(self).info_fen@ == old(self).info_fen@,
    {
        self.active = !self.active;
        if !self.active {
            self.clear();
        }
    }

    /// Clears the position data; the history stays for graphing.
    pub fn clear(&mut self)
        ensures
            final(self).eval_score == 0,
            final(self).best_move is None,
            final(self).principal_variation@.len() == 0,
            final(self).depth == 0,
            final(self).nodes == 0,
            final(self).info_fen@.len() == 0,
            final(self).active == old(self).active,
            final(self).eval_history@ == old(self).eval_history@,
    {
        self.clear_position_data();
    }

    /// Forgets the evaluation, best move, variation, depth, nodes and the
    /// FEN they belong to.
    pub fn clear_position_data(&mut self)
        ensures
            final(self).eval_score == 0,
            final(self).best_move is None,
            final(self).principal_variation@.len() == 0,
            final(self).depth == 0,
            final(self).nodes == 0,
            final(self).info_fen@.len() == 0,
            final(self).active == old(self).active,
            final(self).eval_history@ == old(self).eval_history@,
    {
        self.eval_score = 0;
        self.best_move = None;
        self.principal_variation.clear();
        self.depth = 0;
        self.nodes = 0;
        self.info_fen = String::new();
    }

    /// Takes a search report: the score from Red's side, depth, nodes and
    /// variation, and the variation's first move as best move (the best
    /// move stays when the variation is empty).
    pub fn update_from_search_info(&mut self, info: &SearchInfo)
        requires
            info.score > i32::MIN,
        ensures
            final(self).eval_score == match info.side_to_move {
                Color::Red => info.score as int,
                Color::Black => -info.score,
            },
            final(self).depth == info.depth,
            final(self).nodes == info.nodes,
            final(self).principal_variation@ == info.pv@,
            final(self).best_move == if info.pv@.len() > 0 {
                Some(info.pv@[0])
            } else {
                old(self).best_move
            },
            final(self).active == old(self).active,
            final(self).eval_history@ == old(self).eval_history@,
            final(self).info_fen@ == old(self).info_fen@,
    {
        self.eval_score = info.red_score();
        self.depth = info.depth;
        self.nodes = info.nodes;
        let mut pv: Vec<Move> = Vec::new();
        let mut i: usize = 0;
        while i < info.pv.len()
            invariant
                i <= info.pv@.len(),
                pv@ == info.pv@.take(i as int),
            decreases info.pv@.len() - i,
        {
            pv.push(info.pv[i]);
            i = i + 1;
        }
        assert(pv@ =~= info.pv@);
        self.principal_variation = pv;
        if info.pv.len() > 0 {
            self.best_move = Some(info.pv[0]);
        }
    }

    /// Appends the current evaluation to the history, keeping the last
    /// [`EVAL_HISTORY_LEN`].
    pub fn record_eval(&mut self)
        ensures
            final(self).eval_history@ == history_after(old(self).eval_history@, old(self).eval_score),
            final(self).eval_score == old(self).eval_score,
            final(self).active == old(self).active,
            final(self).best_move == old(self).best_move,
            final(self).principal_variation@ == old(self).principal_variation@,
            final(self).depth == old(self).depth,
            final(self).nodes == old(self).nodes,
            final(self).info_fen@ == old(self).info_fen@,
    {
        self.eval_history.push(self.eval_score);
        if self.eval_history.len() > EVAL_HISTORY_LEN {
            self.eval_history.remove(0);
        }
    }

    /// The evaluation as text (see [`eval_text`]).
    pub fn eval_string(&self) -> (s: String)
        requires
            self.eval_score > i32::MIN,
        ensures
            s@ == eval_text(self.eval_score as int),
    {
        let score = self.eval_score;
        let a: i32 = if score < 0 {
            -score
        } else {
            score
        };
        let mut s = String::new();
        if a >= 9900 {
            let d: i32 = 10000 - a;
            let n: i32 = if d >= 0 {
                d / 2
            } else {
                -((-d) / 2)
            };
            push_str(&mut s, "M");
            push_i64(&mut s, n as i64);
            if score > 0 {
                push_str(&mut s, " (红胜)");
            } else {
                push_str(&mut s, " (黑胜)");
            }
        } else {
            push_char(&mut s, if score >= 0 {
                '+'
            } else {
                '-'
            });
            push_u64(&mut s, (a / 100) as u64);
            push_char(&mut s, '.');
            push_char(&mut s, digit_exec(((a % 100) / 10) as u32));
            push_char(&mut s, digit_exec((a % 10) as u32));
            assert(s@ =~= eval_text(score as int));
        }
        s
    }
}

fn digit_exec(d: u32) -> (c: char)
    requires
        d < 10,
    ensures
        c == digit_char(d as int),
{
    let b: u8 = 48u8 + d as u8;
    b as char
}

/// The variation line (see [`pv_line_text`]).
pub fn pv_line(pv: &[Move]) -> (s: String)
    requires
        forall|i: int| 0 <= i < pv@.len() ==> (#[trigger] pv@[i]).valid(),
    ensures
        s@ == pv_line_text(pv@),
{
    let mut s = String::new();
    if pv.len() > 1 {
        push_str(&mut s, "变化：");
        let n: usize = if pv.len() < 6 {
            pv.len()
        } else {
            6
        };
        let ghost head = s@;
        let mut i: usize = 0;
        while i < n
            invariant
                n <= pv@.len(),
                i <= n,
                forall|j: int| 0 <= j < pv@.len() ==> (#[trigger] pv@[j]).valid(),
                s@ == head + moves_joined(pv@, i as int),
            decreases n - i,
        {
            if i > 0 {
                push_char(&mut s, ' ');
            }
            pv[i].push_iccs(&mut s);
            i = i + 1;
            proof {
                if i > 1 {
                    assert(s@ =~= head + moves_joined(pv@, i as int));
                } else {
                    assert(s@ =~= head + moves_joined(pv@, i as int));
                }
            }
        }
    }
    s
}

impl AnalysisMode {
    /// Brings the panel up to the shown position: forgets an evaluation
    /// that belongs to another position, and records the evaluation when
    /// the game has more moves than the history has entries.
    pub fn sync_to_position(&mut self, current_fen: &str, history_len: usize)
        ensures
            ({
                let stale = old(self).info_fen@.len() > 0 && old(self).info_fen@ != current_fen@;
                let score = if stale {
                    0
                } else {
                    old(self).eval_score
                };
                &&& final(self).eval_score == score
                &&& final(self).eval_history@ == if history_len > old(self).eval_history@.len() {
                    history_after(old(self).eval_history@, score)
                } else {
                    old(self).eval_history@
                }
                &&& stale ==> final(self).best_move is None && final(self).principal_variation@.len()
                    == 0 && final(self).depth == 0 && final(self).nodes == 0
                    && final(self).info_fen@.len() == 0
                &&& !stale ==> final(self).best_move == old(self).best_move
                    && final(self).principal_variation@ == old(self).principal_variation@
                    && final(self).depth == old(self).depth && final(self).nodes == old(self).nodes
                    && final(self).info_fen@ == old(self).info_fen@
                &&& final(self).active == old(self).active
            }),
    {
        let stale = crate::text::chars_of(self.info_fen.as_str()).len() > 0 && !text_eq(self.info_fen.as_str(), current_fen);
        if stale {
            self.clear_position_data();
        }
        if history_len > self.eval_history.len() {
            self.record_eval();
        }
    }
}

/// What the background analysis does on a frame.
#[derive(Debug, Clone, Copy, PartialEq, Eq, Structural)]
pub enum AnalysisStep {
    /// Analysis is off or the game is over: drop any running search.
    Stop,
    /// The game's own engine is thinking: show its reports.
    Mirror,
    /// Run the background search: drop the running one when the position
    /// changed under it (`abort`) or when it finished (`finished`), and
    /// start one on the shown position when it differs from the last one
    /// analysed (`launch`).
    Run { abort: bool, finished: bool, launch: bool },
}

/// The background analysis decision for a frame: given whether analysis
/// is on, the game is over, the game's engine is thinking, a background
/// search runs and has finished, and the FENs of the analysed and shown
/// positions.
pub open spec fn analysis_step_spec(
    active: bool,
    game_over: bool,
    engine_thinking: bool,
    running: bool,
    done: bool,
    analyzed_fen: Seq<char>,
    current_fen: Seq<char>,
) -> AnalysisStep {
    if !active || game_over {
        AnalysisStep::Stop
    } else if engine_thinking {
        AnalysisStep::Mirror
    } else {
        let changed = analyzed_fen != current_fen;
        AnalysisStep::Run {
            abort: running && changed,
            finished: running && !changed && done,
            launch: changed,
        }
    }
}

/// Decides the background analysis step (see [`analysis_step_spec`]).
pub fn analysis_step(
    active: bool,
    game_over: bool,
    engine_thinking: bool,
    running: bool,
    done: bool,
    analyzed_fen: &str,
    current_fen: &str,
) -> (r: AnalysisStep)
    ensures
        r == analysis_step_spec(
            active,
            game_over,
            engine_thinking,
            running,
            done,
            analyzed_fen@,
            current_fen@,
        ),
{
    if !active || game_over {
        AnalysisStep::Stop
    } else if engine_thinking {
        AnalysisStep::Mirror
    } else {
        let changed = !text_eq(analyzed_fen, current_fen);
        AnalysisStep::Run { abort: running && changed, finished: running && !changed && done, launch: changed }
    }
}

} // verus!
