use xiangqi::gui::devshot::{scene_setup, warmup_frames, DevShot, ShotAction};
use xiangqi::gui::game_settings::GameMode;
use xiangqi::xiangqi::{Move, Square};

fn mv(f1: u8, r1: u8, f2: u8, r2: u8) -> Move {
    Move { from: Square { file: f1, rank: r1 }, to: Square { file: f2, rank: r2 } }
}

#[test]
fn warmup_depends_on_scene() {
    assert_eq!(warmup_frames("game-move"), 720);
    assert_eq!(warmup_frames("captures"), 720);
    assert_eq!(warmup_frames("menu"), 120);
    let d = DevShot::new(String::from("/tmp/x.png"), String::from("analysis"));
    assert_eq!(d.warmup, 720);
    assert!(!d.captured);
}

#[test]
fn scenes_set_up_their_games() {
    let s = scene_setup("captures");
    assert!(s.start_game && s.analysis);
    assert_eq!(s.mode, GameMode::LocalPvp);
    assert_eq!(s.queue, vec![(90, mv(4, 3, 4, 4)), (150, mv(4, 6, 4, 5)), (210, mv(4, 4, 4, 5))]);
    let g = scene_setup("game-move");
    assert!(g.start_game && !g.analysis);
    assert_eq!(g.mode, GameMode::VsAi);
    assert_eq!(g.scripted_move_in, Some(90));
    let d = scene_setup("difficulty");
    assert!(!d.start_game && d.open_difficulty);
    let m = scene_setup("menu");
    assert!(!m.start_game && !m.open_difficulty);
}

#[test]
fn run_warms_up_captures_and_exits() {
    let mut d = DevShot::new(String::from("/tmp/x.png"), String::from("menu"));
    d.warmup = 1;
    d.scripted_move_in = Some(2);
    d.scripted_queue = vec![(1, mv(4, 3, 4, 4)), (5, mv(4, 6, 4, 5))];
    assert_eq!(d.tick(true, None), vec![ShotAction::PlayMove(mv(4, 3, 4, 4))]);
    assert_eq!(d.scripted_queue, vec![(5, mv(4, 6, 4, 5))]);
    assert_eq!(d.scripted_move_in, Some(1));
    assert_eq!(d.tick(false, None), vec![ShotAction::PlayOpening]);
    assert!(!d.captured);
    assert_eq!(d.tick(true, None), vec![ShotAction::Capture]);
    assert!(d.captured);
    assert_eq!(d.tick(true, Some(100)), vec![]);
    assert_eq!(d.tick(true, Some(100)), vec![ShotAction::Exit(true)]);
}

#[test]
fn run_gives_up_after_timeout() {
    let mut d = DevShot::new(String::from("/tmp/x.png"), String::from("menu"));
    d.captured = true;
    d.waited = 600;
    assert_eq!(d.tick(true, None), vec![ShotAction::Exit(false)]);
}
