//! The long-lived engine session behind games against the computer, as
//! decisions: the task that owns one engine process and answers commands
//! while it may be pondering on the player's predicted reply, and the
//! per-frame choices around it (when to start a search, convert or abort a
//! ponder, relaunch the process or start a new game).
//!
//! The caller performs each action (it talks to the process) and reports
//! the outcome back as the next event.

use vstd::prelude::*;
use crate::collections::text_eq;
use crate::difficulty::Difficulty;
use crate::xiangqi::Move;

verus! {

/// A reply to a move request: the move, and the engine's predicted answer.
#[derive(Debug, Clone, Copy, PartialEq, Eq, Structural)]
pub struct MoveReply {
    pub best: Option<Move>,
    pub ponder: Option<Move>,
}

/// State of the engine task.
#[derive(Debug, Clone, Copy, PartialEq, Eq, Structural)]
pub struct PonderState {
    /// A ponder search is running.
    pub pondering: bool,
    /// A `bestmove` that arrived during the ponder search, kept for the
    /// ponder hit.
    pub cached: Option<MoveReply>,
}

/// Commands sent to the engine task (their payloads stay with the caller).
#[derive(Debug, Clone, Copy, PartialEq, Eq, Structural)]
pub enum EngineCommand {
    /// Search the given position and reply.
    Compute,
    /// Ponder on the predicted position.
    StartPonder,
    /// The player made the predicted move: reply from the ponder search.
    PonderHit,
    /// Drop any ponder search.
    Abort,
    /// Reset the engine for a new game.
    NewGame,
    /// Restart the process with a new configuration.
    Relaunch,
}

/// What happened, as reported to the task.
#[derive(Debug, Clone, Copy)]
pub enum TaskEvent {
    /// A line was read during a ponder search; its `bestmove` content if it
    /// is a `bestmove` line.
    PonderLine(Option<(Move, Option<Move>)>),
    /// Reading from the engine failed.
    ReadFailed,
    /// A command arrived.
    Command(EngineCommand),
    /// The search of a `Compute` finished, successfully or not.
    ComputeDone(bool),
    /// The ponder search was (or was not) started.
    PonderStarted(bool),
    /// `ucinewgame` finished, successfully or not.
    NewGameDone(bool),
    /// The relaunched process came up, or not.
    RelaunchDone(bool),
    /// The command channel closed.
    Shutdown,
}

/// What the task does next, in order.
#[derive(Debug, Clone, Copy, PartialEq, Eq, Structural)]
pub enum TaskAction {
    /// Send `stop` and discard the ponder search's `bestmove`.
    StopAndDrain,
    /// Search the commanded position, then report `ComputeDone`.
    RunCompute,
    /// Set the predicted position and `go ponder`, then report
    /// `PonderStarted`.
    StartPonderSearch,
    /// Answer the ponder hit with the cached reply.
    ReplyCached(MoveReply),
    /// Send `ponderhit`, wait for `bestmove` and answer with it.
    ConvertPonder,
    /// Answer with no move.
    ReplyNothing,
    /// Send `ucinewgame`, then report `NewGameDone`.
    SendNewGame,
    /// Quit the process and launch it anew, then report `RelaunchDone`.
    Relaunch,
    /// Mark the session failed and end the task.
    Fail,
    /// Quit the engine and end the task.
    Quit,
}

/// Stop a running ponder search first (for the commands that start anew).
pub open spec fn stop_first(pondering: bool, rest: Seq<TaskAction>) -> Seq<TaskAction> {
    if pondering {
        seq![TaskAction::StopAndDrain] + rest
    } else {
        rest
    }
}

/// The task's transition: the state after `ev` and the actions to take.
pub open spec fn task_next(s: PonderState, ev: TaskEvent) -> (PonderState, Seq<TaskAction>) {
    let idle = PonderState { pondering: false, cached: None };
    match ev {
        TaskEvent::PonderLine(line) => if s.pondering {
            match line {
                Some((mv, pm)) => (
                    PonderState {
                        pondering: false,
                        cached: Some(MoveReply { best: Some(mv), ponder: pm }),
                    },
                    seq![],
                ),
                None => (s, seq![]),
            }
        } else {
            (s, seq![])
        },
        TaskEvent::ReadFailed => if s.pondering {
            (s, seq![TaskAction::Fail])
        } else {
            (s, seq![])
        },
        TaskEvent::Command(c) => match c {
            EngineCommand::Compute => (
                idle,
                stop_first(s.pondering, seq![TaskAction::RunCompute]),
            ),
            EngineCommand::StartPonder => (
                idle,
                stop_first(s.pondering, seq![TaskAction::StartPonderSearch]),
            ),
            EngineCommand::PonderHit => match s.cached {
                Some(r) => (PonderState { pondering: false, cached: None }, seq![TaskAction::ReplyCached(r)]),
                None => if s.pondering {
                    (idle, seq![TaskAction::ConvertPonder])
                } else {
                    (s, seq![TaskAction::ReplyNothing])
                },
            },
            EngineCommand::Abort => (idle, stop_first(s.pondering, seq![])),
            EngineCommand::NewGame => (idle, stop_first(s.pondering, seq![TaskAction::SendNewGame])),
            EngineCommand::Relaunch => (idle, stop_first(s.pondering, seq![TaskAction::Relaunch])),
        },
        TaskEvent::ComputeDone(ok) => if ok {
            (s, seq![])
        } else {
            (s, seq![TaskAction::ReplyNothing, TaskAction::Fail])
        },
        TaskEvent::PonderStarted(ok) => (PonderState { pondering: ok, cached: s.cached }, seq![]),
        TaskEvent::NewGameDone(ok) => if ok {
            (s, seq![])
        } else {
            (s, seq![TaskAction::Fail])
        },
        TaskEvent::RelaunchDone(ok) => if ok {
            (s, seq![])
        } else {
            (s, seq![TaskAction::Fail])
        },
        TaskEvent::Shutdown => (s, seq![TaskAction::Quit]),
    }
}

/// The state of a freshly launched task.
pub fn task_start() -> (s: PonderState)
    ensures
        s == (PonderState { pondering: false, cached: None }),
{
    PonderState { pondering: false, cached: None }
}

fn with_stop(pondering: bool, last: Option<TaskAction>) -> (v: Vec<TaskAction>)
    ensures
        v@ == stop_first(
            pondering,
            match last {
                Some(a) => seq![a],
                None => seq![],
            },
        ),
{
    let mut v: Vec<TaskAction> = Vec::new();
    if pondering {
        v.push(TaskAction::StopAndDrain);
    }
    match last {
        Some(a) => {
            v.push(a);
        },
        None => {},
    }
    proof {
        assert(v@ =~= stop_first(
            pondering,
            match last {
                Some(a) => seq![a],
                None => seq![],
            },
        ));
    }
    v
}

/// One step of the engine task (see [`task_next`]).
pub fn task_step(s: PonderState, ev: TaskEvent) -> (r: (PonderState, Vec<TaskAction>))
    ensures
        r.0 == task_next(s, ev).0,
        r.1@ == task_next(s, ev).1,
{
    let idle = PonderState { pondering: false, cached: None };
    match ev {
        TaskEvent::PonderLine(line) => {
            if s.pondering {
                match line {
                    Some((mv, pm)) => (
                        PonderState {
                            pondering: false,
                            cached: Some(MoveReply { best: Some(mv), ponder: pm }),
                        },
                        Vec::new(),
                    ),
                    None => (s, Vec::new()),
                }
            } else {
                (s, Vec::new())
            }
        },
        TaskEvent::ReadFailed => {
            if s.pondering {
                (s, vec![TaskAction::Fail])
            } else {
                (s, Vec::new())
            }
        },
        TaskEvent::Command(c) => match c {
            EngineCommand::Compute => (idle, with_stop(s.pondering, Some(TaskAction::RunCompute))),
            EngineCommand::StartPonder => (
                idle,
                with_stop(s.pondering, Some(TaskAction::StartPonderSearch)),
            ),
            EngineCommand::PonderHit => match s.cached {
                Some(r) => (
                    PonderState { pondering: false, cached: None },
                    vec![TaskAction::ReplyCached(r)],
                ),
                None => {
                    if s.pondering {
                        (idle, vec![TaskAction::ConvertPonder])
                    } else {
                        (s, vec![TaskAction::ReplyNothing])
                    }
                },
            },
            EngineCommand::Abort => (idle, with_stop(s.pondering, None)),
            EngineCommand::NewGame => (idle, with_stop(s.pondering, Some(TaskAction::SendNewGame))),
            EngineCommand::Relaunch => (idle, with_stop(s.pondering, Some(TaskAction::Relaunch))),
        },
        TaskEvent::ComputeDone(ok) => {
            if ok {
                (s, Vec::new())
            } else {
                (s, vec![TaskAction::ReplyNothing, TaskAction::Fail])
            }
        },
        TaskEvent::PonderStarted(ok) => (PonderState { pondering: ok, cached: s.cached }, Vec::new()),
        TaskEvent::NewGameDone(ok) => {
            if ok {
                (s, Vec::new())
            } else {
                (s, vec![TaskAction::Fail])
            }
        },
        TaskEvent::RelaunchDone(ok) => {
            if ok {
                (s, Vec::new())
            } else {
                (s, vec![TaskAction::Fail])
            }
        },
        TaskEvent::Shutdown => (s, vec![TaskAction::Quit]),
    }
}

/// Whether an action answers the waiting requester.
pub open spec fn is_reply(a: TaskAction) -> bool {
    a is ReplyCached || a is ConvertPonder || a is ReplyNothing
}

/// The number of answers among `acts`.
pub open spec fn reply_count(acts: Seq<TaskAction>) -> nat
    decreases acts.len(),
{
    if acts.len() == 0 {
        0
    } else {
        reply_count(acts.drop_last()) + if is_reply(acts.last()) {
            1nat
        } else {
            0nat
        }
    }
}

/// A ponder search is never left running under a new one: whenever the
/// task is pondering, a command that starts work or drops the ponder first
/// stops it, and afterwards no ponder runs and no stale reply is kept until
/// a new ponder search is reported started.
pub proof fn law_ponder_stopped_before_new_work(s: PonderState, c: EngineCommand)
    requires
        !(c is PonderHit),
    ensures
        s.pondering ==> task_next(s, TaskEvent::Command(c)).1[0] == TaskAction::StopAndDrain,
        !task_next(s, TaskEvent::Command(c)).0.pondering,
        task_next(s, TaskEvent::Command(c)).0.cached is None,
{
}

/// A ponder hit is answered exactly once: from the cached reply when one
/// arrived, by converting the running ponder search, or with no move.
pub proof fn law_ponder_hit_answers_once(s: PonderState)
    ensures
        reply_count(task_next(s, TaskEvent::Command(EngineCommand::PonderHit)).1) == 1,
        s.cached matches Some(r) ==> task_next(s, TaskEvent::Command(EngineCommand::PonderHit)).1
            == seq![TaskAction::ReplyCached(r)],
        !task_next(s, TaskEvent::Command(EngineCommand::PonderHit)).0.pondering,
{
    let acts = task_next(s, TaskEvent::Command(EngineCommand::PonderHit)).1;
    assert(acts.len() == 1);
    assert(acts.drop_last() =~= seq![]);
    assert(reply_count(acts.drop_last()) == 0);
    assert(is_reply(acts.last()));
}

/// The `bestmove` that ends a ponder search is kept for the ponder hit,
/// which then answers with it.
pub proof fn law_ponder_result_is_kept(mv: Move, pm: Option<Move>)
    ensures
        ({
            let pondering = PonderState { pondering: true, cached: None };
            let after = task_next(pondering, TaskEvent::PonderLine(Some((mv, pm)))).0;
            task_next(after, TaskEvent::Command(EngineCommand::PonderHit)).1 == seq![
                TaskAction::ReplyCached(MoveReply { best: Some(mv), ponder: pm }),
            ]
        }),
{
}

/// Whether the board has left the track of the ponder search: not a game
/// against the computer, the game is over, or the position is neither the
/// one pondered from nor the predicted one.
pub open spec fn off_track(
    vs_ai: bool,
    game_over: bool,
    fen: Seq<char>,
    base_fen: Seq<char>,
    predicted_fen: Seq<char>,
) -> bool {
    !vs_ai || game_over || (fen != base_fen && fen != predicted_fen)
}

/// Decides [`off_track`] for the current position's FEN.
pub fn ponder_off_track(
    vs_ai: bool,
    game_over: bool,
    fen: &str,
    base_fen: &str,
    predicted_fen: &str,
) -> (b: bool)
    ensures
        b == off_track(vs_ai, game_over, fen@, base_fen@, predicted_fen@),
{
    !vs_ai || game_over || (!text_eq(fen, base_fen) && !text_eq(fen, predicted_fen))
}

/// The per-frame housekeeping of a live session.
#[derive(Debug, Clone, Copy, PartialEq, Eq, Structural)]
pub struct SessionTick {
    /// Relaunch the process for a new difficulty (and record it).
    pub relaunch: bool,
    /// Send `NewGame`.
    pub new_game: bool,
    /// Send `Abort` for the tracked ponder search.
    pub abort_ponder: bool,
    /// Forget the tracked ponder search.
    pub drop_ponder: bool,
    /// Whether moves have been seen, after this tick.
    pub saw_moves: bool,
}

/// Housekeeping of a live session: relaunch when the difficulty differs
/// from the one the process was tuned for (and an engine is configured);
/// start a new game when the history went back to empty after moves; abort
/// the tracked ponder search when the board left its track. Relaunching,
/// a new game and an abort all forget the tracked ponder search.
pub open spec fn session_tick_spec(
    tuned_for: Option<Difficulty>,
    difficulty: Difficulty,
    has_config: bool,
    history_empty: bool,
    saw_moves: bool,
    ponder_tracked: bool,
    left_track: bool,
) -> SessionTick {
    let relaunch = tuned_for != Some(difficulty) && has_config;
    let new_game = history_empty && saw_moves;
    let saw = if new_game {
        false
    } else if !history_empty {
        true
    } else {
        saw_moves
    };
    let tracked_after = ponder_tracked && !relaunch && !new_game;
    let abort = tracked_after && left_track;
    SessionTick {
        relaunch,
        new_game,
        abort_ponder: abort,
        drop_ponder: relaunch || new_game || abort,
        saw_moves: saw,
    }
}

/// The housekeeping decisions of one frame (see [`session_tick_spec`]);
/// `left_track` is [`ponder_off_track`] of the current position.
pub fn session_tick(
    tuned_for: Option<Difficulty>,
    difficulty: Difficulty,
    has_config: bool,
    history_empty: bool,
    saw_moves: bool,
    ponder_tracked: bool,
    left_track: bool,
) -> (t: SessionTick)
    ensures
        t == session_tick_spec(
            tuned_for,
            difficulty,
            has_config,
            history_empty,
            saw_moves,
            ponder_tracked,
            left_track,
        ),
{
    let same = match tuned_for {
        Some(d) => d == difficulty,
        None => false,
    };
    let relaunch = !same && has_config;
    let new_game = history_empty && saw_moves;
    let saw = if new_game {
        false
    } else if !history_empty {
        true
    } else {
        saw_moves
    };
    let tracked_after = ponder_tracked && !relaunch && !new_game;
    let abort = tracked_after && left_track;
    SessionTick {
        relaunch,
        new_game,
        abort_ponder: abort,
        drop_ponder: relaunch || new_game || abort,
        saw_moves: saw,
    }
}

/// How a move request is served.
#[derive(Debug, Clone, Copy, PartialEq, Eq, Structural)]
pub enum MoveRequest {
    /// Nothing to do now.
    Skip,
    /// Answer at once with the book move.
    Book(Move),
    /// The player made the predicted reply: convert the ponder search.
    PonderHit,
    /// Ask the session's engine to search from the game's start.
    Compute,
    /// Search with a one-off engine process, or, with no external engine,
    /// the built-in search (which this library does not contain: it needs
    /// the core move generator).
    Fallback,
}

/// How the computer's move is obtained. Nothing happens outside a game
/// against the computer, after the game ended, on the player's turn or
/// while a request runs. With a configured engine whose session has not
/// failed: a ponder hit when the position is the predicted one; otherwise
/// the book move when the book is used and has one; otherwise a search on
/// the session. Without a usable session, the fallback search.
pub open spec fn move_request_spec(
    vs_ai: bool,
    game_over: bool,
    local_to_move: bool,
    request_running: bool,
    has_config: bool,
    session_failed: bool,
    predicted: bool,
    use_book: bool,
    book_move: Option<Move>,
) -> MoveRequest {
    if !vs_ai || game_over || local_to_move || request_running {
        MoveRequest::Skip
    } else if has_config && !session_failed {
        if predicted {
            MoveRequest::PonderHit
        } else if use_book && book_move is Some {
            MoveRequest::Book(book_move->0)
        } else {
            MoveRequest::Compute
        }
    } else {
        MoveRequest::Fallback
    }
}

/// Chooses how to obtain the computer's move (see [`move_request_spec`]);
/// `book_move` is the book's move for the position.
pub fn move_request(
    vs_ai: bool,
    game_over: bool,
    local_to_move: bool,
    request_running: bool,
    has_config: bool,
    session_failed: bool,
    predicted: bool,
    use_book: bool,
    book_move: Option<Move>,
) -> (r: MoveRequest)
    ensures
        r == move_request_spec(
            vs_ai,
            game_over,
            local_to_move,
            request_running,
            has_config,
            session_failed,
            predicted,
            use_book,
            book_move,
        ),
{
    if !vs_ai || game_over || local_to_move || request_running {
        MoveRequest::Skip
    } else if has_config && !session_failed {
        if predicted {
            MoveRequest::PonderHit
        } else {
            match book_move {
                Some(m) => {
                    if use_book {
                        MoveRequest::Book(m)
                    } else {
                        MoveRequest::Compute
                    }
                },
                None => MoveRequest::Compute,
            }
        }
    } else {
        MoveRequest::Fallback
    }
}

/// Whether to start pondering after the computer moved: it predicted a
/// reply, the session is live, the game against the computer goes on and
/// the predicted reply is legal.
pub fn should_ponder(
    has_prediction: bool,
    session_live: bool,
    vs_ai: bool,
    game_over: bool,
    prediction_legal: bool,
) -> (b: bool)
    ensures
        b == (has_prediction && session_live && vs_ai && !game_over && prediction_legal),
{
    has_prediction && session_live && vs_ai && !game_over && prediction_legal
}

/// Whether a finished search is stale: the board changed while it ran.
pub fn reply_is_stale(current_fen: &str, expected_fen: &str) -> (b: bool)
    ensures
        b == (current_fen@ != expected_fen@),
{
    !text_eq(current_fen, expected_fen)
}

/// The sound of a move.
#[derive(Debug, Clone, Copy, PartialEq, Eq, Structural)]
pub enum MoveSound {
    Normal,
    Capture,
    Check,
    Invalid,
}

/// A move that gives check sounds as a check, else a capture as a capture.
pub fn move_sound(is_check: bool, is_capture: bool) -> (s: MoveSound)
    ensures
        s == (if is_check {
            MoveSound::Check
        } else if is_capture {
            MoveSound::Capture
        } else {
            MoveSound::Normal
        }),
{
    if is_check {
        MoveSound::Check
    } else if is_capture {
        MoveSound::Capture
    } else {
        MoveSound::Normal
    }
}

} // verus!
