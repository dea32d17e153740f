//! Engine-versus-engine games: the state of a game two engines play
//! against each other, paced by a delay between moves. The engines are
//! handles of any type; times are milliseconds on a clock the caller reads.

use vstd::prelude::*;
use crate::difficulty::SearchLimits;
use crate::text::{nat_text, push_str, push_u64};
use crate::xiangqi::{Color, DrawReason, GameResult, Move, WinReason};

verus! {

/// Configuration of an engine game.
#[derive(Debug, Clone, Copy, PartialEq, Eq, Structural)]
pub struct EngineVsEngineConfig {
    /// Time limit per move, in milliseconds.
    pub time_per_move_ms: u64,
    /// Maximum search depth.
    pub max_depth: u32,
    /// Whether to open with random moves.
    pub random_opening: bool,
    /// Number of random opening moves.
    pub random_moves: usize,
    /// Delay between moves, in milliseconds (for viewing).
    pub move_delay_ms: u64,
}

impl Default for EngineVsEngineConfig {
    fn default() -> (c: EngineVsEngineConfig)
        ensures
            c == (EngineVsEngineConfig {
                time_per_move_ms: 1000,
                max_depth: 10,
                random_opening: false,
                random_moves: 0,
                move_delay_ms: 500,
            }),
    {
        EngineVsEngineConfig {
            time_per_move_ms: 1000,
            max_depth: 10,
            random_opening: false,
            random_moves: 0,
            move_delay_ms: 500,
        }
    }
}

/// Where an engine game stands.
#[derive(Debug, Clone, Copy, PartialEq, Eq, Structural)]
pub enum EngineGameStatus {
    Idle,
    Running,
    Paused,
    Finished,
}

/// An engine game.
pub struct EngineVsEngine<E> {
    /// Where the game stands.
    pub status: EngineGameStatus,
    /// Its configuration.
    pub config: EngineVsEngineConfig,
    /// Red's engine.
    pub red_engine: Option<E>,
    /// Black's engine.
    pub black_engine: Option<E>,
    /// Moves played.
    pub moves: Vec<Move>,
    /// Number of moves played.
    pub move_number: usize,
    /// When the last move was made (or the game started or resumed).
    pub last_move_ms: Option<u64>,
    /// Winner, once finished.
    pub winner: Option<Color>,
    /// Why the game ended.
    pub end_reason: Option<String>,
}

/// Status text.
pub open spec fn status_text(s: EngineGameStatus) -> Seq<char> {
    match s {
        EngineGameStatus::Idle => "Not started"@,
        EngineGameStatus::Running => "Running"@,
        EngineGameStatus::Paused => "Paused"@,
        EngineGameStatus::Finished => "Finished"@,
    }
}

/// Result text: the winner, a draw once finished, or in progress.
pub open spec fn outcome_text(winner: Option<Color>, s: EngineGameStatus) -> Seq<char> {
    match winner {
        Some(Color::Red) => "Red wins"@,
        Some(Color::Black) => "Black wins"@,
        None => if s == EngineGameStatus::Finished {
            "Draw"@
        } else {
            "In progress"@
        },
    }
}

/// `Engine vs Engine - <status> - Move <n> - <result>`.
pub open spec fn engine_summary_text(s: EngineGameStatus, n: nat, winner: Option<Color>) -> Seq<char> {
    "Engine vs Engine - "@ + status_text(s) + " - Move "@ + nat_text(n) + " - "@ + outcome_text(winner, s)
}

/// Side to move after `n` moves.
pub open spec fn side_after(n: nat) -> Color {
    if n % 2 == 0 {
        Color::Red
    } else {
        Color::Black
    }
}

/// Winner and reason text of a finished game.
pub open spec fn outcome_of_spec(r: GameResult) -> (Option<Color>, Seq<char>) {
    match r {
        GameResult::Win { winner, reason } => (Some(winner), match reason {
            WinReason::Checkmate => "Checkmate"@,
            WinReason::Stalemate => "Stalemate"@,
            WinReason::Resignation => "Resignation"@,
            WinReason::PerpetualCheck => "Perpetual check"@,
            WinReason::Timeout => "Timeout"@,
        }),
        GameResult::Draw(reason) => (None, match reason {
            DrawReason::Agreement => "Agreement"@,
            DrawReason::Repetition => "Repetition"@,
            DrawReason::NoCapture => "60 moves no capture"@,
        }),
    }
}

/// Winner and reason text of a finished game.
pub fn outcome_of(r: GameResult) -> (o: (Option<Color>, &'static str))
    ensures
        o.0 == outcome_of_spec(r).0,
        o.1@ == outcome_of_spec(r).1,
{
    match r {
        GameResult::Win { winner, reason } => (Some(winner), match reason {
            WinReason::Checkmate => "Checkmate",
            WinReason::Stalemate => "Stalemate",
            WinReason::Resignation => "Resignation",
            WinReason::PerpetualCheck => "Perpetual check",
            WinReason::Timeout => "Timeout",
        }),
        GameResult::Draw(reason) => (None, match reason {
            DrawReason::Agreement => "Agreement",
            DrawReason::Repetition => "Repetition",
            DrawReason::NoCapture => "60 moves no capture",
        }),
    }
}

impl<E> EngineVsEngine<E> {
    /// An idle game with the default configuration.
    pub fn new() -> (g: EngineVsEngine<E>)
        ensures
            g.status == EngineGameStatus::Idle,
            g.config == (EngineVsEngineConfig {
                time_per_move_ms: 1000,
                max_depth: 10,
                random_opening: false,
                random_moves: 0,
                move_delay_ms: 500,
            }),
            g.red_engine is None,
            g.black_engine is None,
            g.moves@.len() == 0,
            g.move_number == 0,
            g.last_move_ms is None,
            g.winner is None,
            g.end_reason is None,
    {
        EngineVsEngine {
            status: EngineGameStatus::Idle,
            config: EngineVsEngineConfig::default(),
            red_engine: None,
            black_engine: None,
            moves: Vec::new(),
            move_number: 0,
            last_move_ms: None,
            winner: None,
            end_reason: None,
        }
    }

    /// Starts a new game with the given engines at time `now_ms`.
    pub fn start_game(&mut self, config: EngineVsEngineConfig, red: E, black: E, now_ms: u64)
        ensures
            final(self).status == EngineGameStatus::Running,
            final(self).config == config,
            final(self).red_engine == Some(red),
            final(self).black_engine == Some(black),
            final(self).moves@.len() == 0,
            final(self).move_number == 0,
            final(self).last_move_ms == Some(now_ms),
            final(self).winner is None,
            final(self).end_reason is None,
    {
        self.status = EngineGameStatus::Running;
        self.config = config;
        self.moves.clear();
        self.move_number = 0;
        self.last_move_ms = Some(now_ms);
        self.winner = None;
        self.end_reason = None;
        self.red_engine = Some(red);
        self.black_engine = Some(black);
    }

    /// Pauses a running game.
    pub fn pause(&mut self)
        ensures
            final(self).status == if old(self).status == EngineGameStatus::Running {
                EngineGameStatus::Paused
            } else {
                old(self).status
            },
            final(self).config == old(self).config,
            final(self).moves@ == old(self).moves@,
            final(self).move_number == old(self).move_number,
            final(self).last_move_ms == old(self).last_move_ms,
            final(self).winner == old(self).winner,
    {
        if self.status == EngineGameStatus::Running {
            self.status = EngineGameStatus::Paused;
        }
    }

    /// Resumes a paused game at time `now_ms`.
    pub fn resume(&mut self, now_ms: u64)
        ensures
            old(self).status == EngineGameStatus::Paused ==> final(self).status == EngineGameStatus::Running
                && final(self).last_move_ms == Some(now_ms),
            old(self).status != EngineGameStatus::Paused ==> final(self).status == old(self).status
                && final(self).last_move_ms == old(self).last_move_ms,
            final(self).config == old(self).config,
            final(self).moves@ == old(self).moves@,
            final(self).move_number == old(self).move_number,
            final(self).winner == old(self).winner,
    {
        if self.status == EngineGameStatus::Paused {
            self.status = EngineGameStatus::Running;
            self.last_move_ms = Some(now_ms);
        }
    }

    /// Stops the game at the user's request.
    pub fn stop(&mut self)
        ensures
            final(self).status == EngineGameStatus::Finished,
            final(self).end_reason matches Some(r) && r@ == "Stopped by user"@,
            final(self).winner == old(self).winner,
            final(self).moves@ == old(self).moves@,
            final(self).move_number == old(self).move_number,
    {
        self.status = EngineGameStatus::Finished;
        self.end_reason = Some("Stopped by user".to_owned());
    }

    /// Whether the next move is due at time `now_ms`: the game runs and the
    /// delay has passed since the last move (a clock reading before the
    /// last move counts as no time passed).
    pub fn should_make_move(&self, now_ms: u64) -> (b: bool)
        ensures
            b == (self.status == EngineGameStatus::Running && match self.last_move_ms {
                Some(last) => (if now_ms >= last { now_ms - last } else { 0 }) >= self.config.move_delay_ms,
                None => true,
            }),
    {
        if self.status != EngineGameStatus::Running {
            return false;
        }
        match self.last_move_ms {
            Some(last) => {
                let elapsed = if now_ms >= last {
                    now_ms - last
                } else {
                    0
                };
                elapsed >= self.config.move_delay_ms
            },
            None => true,
        }
    }

    /// Search limits for the next move.
    pub fn get_search_limits(&self) -> (l: SearchLimits)
        ensures
            l == (SearchLimits {
                movetime_ms: self.config.time_per_move_ms,
                max_depth: self.config.max_depth,
                variety_window: 0,
            }),
    {
        SearchLimits {
            movetime_ms: self.config.time_per_move_ms,
            max_depth: self.config.max_depth,
            variety_window: 0,
        }
    }

    /// Records a move made at time `now_ms`.
    pub fn record_move(&mut self, mv: Move, now_ms: u64)
        requires
            old(self).move_number < usize::MAX,
        ensures
            final(self).moves@ == old(self).moves@.push(mv),
            final(self).move_number == old(self).move_number + 1,
            final(self).last_move_ms == Some(now_ms),
            final(self).status == old(self).status,
            final(self).config == old(self).config,
            final(self).winner == old(self).winner,
    {
        self.moves.push(mv);
        self.move_number = self.move_number + 1;
        self.last_move_ms = Some(now_ms);
    }

    /// Ends the game.
    pub fn end_game(&mut self, winner: Option<Color>, reason: String)
        ensures
            final(self).status == EngineGameStatus::Finished,
            final(self).winner == winner,
            final(self).end_reason matches Some(r) && r@ == reason@,
            final(self).moves@ == old(self).moves@,
            final(self).move_number == old(self).move_number,
    {
        self.status = EngineGameStatus::Finished;
        self.winner = winner;
        self.end_reason = Some(reason);
    }

    /// Side to move: Red after an even number of moves.
    pub fn side_to_move(&self) -> (c: Color)
        ensures
            c == side_after(self.move_number as nat),
    {
        if self.move_number % 2 == 0 {
            Color::Red
        } else {
            Color::Black
        }
    }

    /// The engine of the side to move.
    pub fn current_engine(&self) -> (e: Option<&E>)
        ensures
            e == match side_after(self.move_number as nat) {
                Color::Red => match self.red_engine {
                    Some(x) => Some(&x),
                    None => None,
                },
                Color::Black => match self.black_engine {
                    Some(x) => Some(&x),
                    None => None,
                },
            },
    {
        match self.side_to_move() {
            Color::Red => match &self.red_engine {
                Some(x) => Some(x),
                None => None,
            },
            Color::Black => match &self.black_engine {
                Some(x) => Some(x),
                None => None,
            },
        }
    }

    /// The engine of the side to move, to drive it.
    pub fn current_engine_mut(&mut self) -> (e: Option<&mut E>)
        ensures
            side_after(old(self).move_number as nat) == Color::Red ==> match e {
                Some(x) => old(self).red_engine == Some(*x) && final(self).red_engine == Some(*final(x))
                    && final(self).black_engine == old(self).black_engine,
                None => old(self).red_engine is None && final(self).red_engine is None
                    && final(self).black_engine == old(self).black_engine,
            },
            side_after(old(self).move_number as nat) == Color::Black ==> match e {
                Some(x) => old(self).black_engine == Some(*x) && final(self).black_engine == Some(
                    *final(x),
                ) && final(self).red_engine == old(self).red_engine,
                None => old(self).black_engine is None && final(self).black_engine is None
                    && final(self).red_engine == old(self).red_engine,
            },
            final(self).move_number == old(self).move_number,
            final(self).moves@ == old(self).moves@,
            final(self).status == old(self).status,
    {
        if self.move_number % 2 == 0 {
            self.red_engine.as_mut()
        } else {
            self.black_engine.as_mut()
        }
    }

    /// One-line summary (see [`engine_summary_text`]).
    pub fn summary(&self) -> (s: String)
        ensures
            s@ == engine_summary_text(self.status, self.move_number as nat, self.winner),
    {
        let status_str = match self.status {
            EngineGameStatus::Idle => "Not started",
            EngineGameStatus::Running => "Running",
            EngineGameStatus::Paused => "Paused",
            EngineGameStatus::Finished => "Finished",
        };
        let result_str = match self.winner {
            Some(Color::Red) => "Red wins",
            Some(Color::Black) => "Black wins",
            None => if self.status == EngineGameStatus::Finished {
                "Draw"
            } else {
                "In progress"
            },
        };
        let mut s = String::new();
        push_str(&mut s, "Engine vs Engine - ");
        push_str(&mut s, status_str);
        push_str(&mut s, " - Move ");
        push_u64(&mut s, self.move_number as u64);
        push_str(&mut s, " - ");
        push_str(&mut s, result_str);
        s
    }
}

} // verus!
