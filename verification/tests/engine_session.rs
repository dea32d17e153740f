use xiangqi::difficulty::Difficulty;
use xiangqi::engine_session::{
    move_request, move_sound, ponder_off_track, reply_is_stale, session_tick, should_ponder,
    task_start, task_step, EngineCommand, MoveReply, MoveRequest, MoveSound, PonderState,
    TaskAction, TaskEvent,
};
use xiangqi::xiangqi::{Move, Square};

fn mv(a: (u8, u8), b: (u8, u8)) -> Move {
    Move { from: Square { file: a.0, rank: a.1 }, to: Square { file: b.0, rank: b.1 } }
}

#[test]
fn compute_while_pondering_stops_first() {
    let pondering = PonderState { pondering: true, cached: None };
    let (s, acts) = task_step(pondering, TaskEvent::Command(EngineCommand::Compute));
    assert_eq!(acts, vec![TaskAction::StopAndDrain, TaskAction::RunCompute]);
    assert_eq!(s, task_start());
    let (_, idle_acts) = task_step(task_start(), TaskEvent::Command(EngineCommand::Compute));
    assert_eq!(idle_acts, vec![TaskAction::RunCompute]);
}

#[test]
fn ponder_hit_uses_cached_bestmove() {
    let m = mv((7, 2), (4, 2));
    let p = mv((7, 9), (6, 7));
    let pondering = PonderState { pondering: true, cached: None };
    let (s, acts) = task_step(pondering, TaskEvent::PonderLine(Some((m, Some(p)))));
    assert!(acts.is_empty());
    assert!(!s.pondering);
    let (s2, acts2) = task_step(s, TaskEvent::Command(EngineCommand::PonderHit));
    assert_eq!(acts2, vec![TaskAction::ReplyCached(MoveReply { best: Some(m), ponder: Some(p) })]);
    assert_eq!(s2, task_start());
}

#[test]
fn ponder_hit_converts_or_answers_nothing() {
    let pondering = PonderState { pondering: true, cached: None };
    let (_, acts) = task_step(pondering, TaskEvent::Command(EngineCommand::PonderHit));
    assert_eq!(acts, vec![TaskAction::ConvertPonder]);
    let (_, idle) = task_step(task_start(), TaskEvent::Command(EngineCommand::PonderHit));
    assert_eq!(idle, vec![TaskAction::ReplyNothing]);
}

#[test]
fn failures_end_the_task() {
    let (_, acts) = task_step(task_start(), TaskEvent::ComputeDone(false));
    assert_eq!(acts, vec![TaskAction::ReplyNothing, TaskAction::Fail]);
    let pondering = PonderState { pondering: true, cached: None };
    let (_, read) = task_step(pondering, TaskEvent::ReadFailed);
    assert_eq!(read, vec![TaskAction::Fail]);
    let (_, quit) = task_step(task_start(), TaskEvent::Shutdown);
    assert_eq!(quit, vec![TaskAction::Quit]);
    let (s, _) = task_step(task_start(), TaskEvent::PonderStarted(true));
    assert!(s.pondering);
}

#[test]
fn session_housekeeping() {
    let t = session_tick(Some(Difficulty::Hard), Difficulty::Master, true, false, true, true, false);
    assert!(t.relaunch && t.drop_ponder && !t.abort_ponder && !t.new_game && t.saw_moves);
    let t = session_tick(Some(Difficulty::Hard), Difficulty::Hard, true, true, true, false, false);
    assert!(t.new_game && !t.saw_moves && !t.relaunch);
    let t = session_tick(Some(Difficulty::Hard), Difficulty::Hard, true, false, false, true, true);
    assert!(t.abort_ponder && t.drop_ponder && t.saw_moves);
    assert!(ponder_off_track(true, false, "x", "a", "b"));
    assert!(!ponder_off_track(true, false, "b", "a", "b"));
    assert!(ponder_off_track(false, false, "a", "a", "b"));
}

#[test]
fn move_request_choices() {
    let book = Some(mv((1, 2), (4, 2)));
    assert_eq!(move_request(true, false, true, false, true, false, false, true, book), MoveRequest::Skip);
    assert_eq!(move_request(true, false, false, false, true, false, true, true, book), MoveRequest::PonderHit);
    assert_eq!(
        move_request(true, false, false, false, true, false, false, true, book),
        MoveRequest::Book(mv((1, 2), (4, 2)))
    );
    assert_eq!(move_request(true, false, false, false, true, false, false, false, book), MoveRequest::Compute);
    assert_eq!(move_request(true, false, false, false, false, false, false, true, book), MoveRequest::Fallback);
    assert!(should_ponder(true, true, true, false, true));
    assert!(!should_ponder(true, true, true, true, true));
    assert!(reply_is_stale("a", "b"));
    assert!(!reply_is_stale("a", "a"));
    assert_eq!(move_sound(true, true), MoveSound::Check);
    assert_eq!(move_sound(false, true), MoveSound::Capture);
    assert_eq!(move_sound(false, false), MoveSound::Normal);
}
