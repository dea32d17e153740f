//! The self-screenshot run used to render the interface without a person
//! at the keyboard: which scene to set up, the scripted moves it plays, and
//! the per-frame steps from warm-up to capture to exit once the image file
//! stops growing.

use vstd::prelude::*;
use crate::collections::text_eq;
use crate::gui::game_settings::GameMode;
use crate::xiangqi::{Move, Square};

verus! {

/// Frames to wait before capturing: scenes that wait for the engine's reply
/// get 720 (about twelve seconds at 60 frames per second), others 120.
pub open spec fn warmup_spec(scene: Seq<char>) -> u32 {
    if scene == "game-move"@ || scene == "analysis"@ || scene == "captures"@ {
        720
    } else {
        120
    }
}

/// Frames to wait before capturing (see [`warmup_spec`]).
pub fn warmup_frames(scene: &str) -> (w: u32)
    ensures
        w == warmup_spec(scene@),
{
    if text_eq(scene, "game-move") || text_eq(scene, "analysis") || text_eq(scene, "captures") {
        720
    } else {
        120
    }
}

/// Frames after the capture to wait for the image before giving up.
pub const CAPTURE_TIMEOUT_FRAMES: u32 = 600;

/// A screenshot run in progress.
pub struct DevShot {
    /// Where the image is written.
    pub path: String,
    /// The scene shown.
    pub scene: String,
    /// Frames left before capturing.
    pub warmup: u32,
    /// Frames until the scripted opening move is played.
    pub scripted_move_in: Option<u32>,
    /// Scripted moves, each with the frames to wait before it.
    pub scripted_queue: Vec<(u32, Move)>,
    /// Whether the capture was requested.
    pub captured: bool,
    /// Length of the image file at the last look.
    pub last_len: Option<u64>,
    /// Frames waited since the capture.
    pub waited: u32,
}

impl DevShot {
    /// A run writing to `path` and showing `scene`.
    pub fn new(path: String, scene: String) -> (d: DevShot)
        ensures
            d.path@ == path@,
            d.scene@ == scene@,
            d.warmup == warmup_spec(scene@),
            d.scripted_move_in is None,
            d.scripted_queue@.len() == 0,
            !d.captured,
            d.last_len is None,
            d.waited == 0,
    {
        let warmup = warmup_frames(scene.as_str());
        DevShot {
            path,
            scene,
            warmup,
            scripted_move_in: None,
            scripted_queue: Vec::new(),
            captured: false,
            last_len: None,
            waited: 0,
        }
    }
}

/// The move from `(f1, r1)` to `(f2, r2)`.
pub open spec fn mv_of(f1: u8, r1: u8, f2: u8, r2: u8) -> Move {
    Move { from: Square { file: f1, rank: r1 }, to: Square { file: f2, rank: r2 } }
}

/// How a scene starts.
pub struct SceneSetup {
    /// Start a fresh game with the local player as Red.
    pub start_game: bool,
    /// The mode of that game.
    pub mode: GameMode,
    /// Frames until the scripted opening move.
    pub scripted_move_in: Option<u32>,
    /// Turn analysis mode on.
    pub analysis: bool,
    /// Scripted moves for both sides.
    pub queue: Vec<(u32, Move)>,
    /// Open the difficulty dialog.
    pub open_difficulty: bool,
}

/// The scripted line of the `captures` scene: the central pawns meet and
/// Red's pawn takes.
pub open spec fn capture_line() -> Seq<(u32, Move)> {
    seq![(90u32, mv_of(4, 3, 4, 4)), (150u32, mv_of(4, 6, 4, 5)), (210u32, mv_of(4, 4, 4, 5))]
}

/// Scene set-up. The game scenes (`game`, `game-move`, `analysis`,
/// `captures`) start a game against the computer, except `captures`, which
/// scripts both sides in a local game; `game-move` and `analysis` play the
/// opening move after 90 frames; `analysis` and `captures` turn analysis
/// on; `captures` queues its line. `difficulty` opens the dialog.
pub open spec fn scene_setup_spec(scene: Seq<char>) -> (bool, GameMode, Option<u32>, bool, Seq<(u32, Move)>, bool) {
    let captures = scene == "captures"@;
    let game = scene == "game"@ || scene == "game-move"@ || scene == "analysis"@ || captures;
    if game {
        (
            true,
            if captures {
                GameMode::LocalPvp
            } else {
                GameMode::VsAi
            },
            if scene == "game-move"@ || scene == "analysis"@ {
                Some(90u32)
            } else {
                None
            },
            scene == "analysis"@ || captures,
            if captures {
                capture_line()
            } else {
                seq![]
            },
            false,
        )
    } else {
        (false, GameMode::VsAi, None, false, seq![], scene == "difficulty"@)
    }
}

/// How `scene` starts (see [`scene_setup_spec`]).
pub fn scene_setup(scene: &str) -> (s: SceneSetup)
    ensures
        ({
            let e = scene_setup_spec(scene@);
            &&& s.start_game == e.0
            &&& s.mode == e.1
            &&& s.scripted_move_in == e.2
            &&& s.analysis == e.3
            &&& s.queue@ == e.4
            &&& s.open_difficulty == e.5
        }),
{
    let captures = text_eq(scene, "captures");
    let move_scene = text_eq(scene, "game-move") || text_eq(scene, "analysis");
    let game = text_eq(scene, "game") || move_scene || captures;
    if game {
        let mut queue: Vec<(u32, Move)> = Vec::new();
        if captures {
            queue.push((90, Move { from: Square { file: 4, rank: 3 }, to: Square { file: 4, rank: 4 } }));
            queue.push((150, Move { from: Square { file: 4, rank: 6 }, to: Square { file: 4, rank: 5 } }));
            queue.push((210, Move { from: Square { file: 4, rank: 4 }, to: Square { file: 4, rank: 5 } }));
            assert(queue@ =~= capture_line());
        }
        SceneSetup {
            start_game: true,
            mode: if captures {
                GameMode::LocalPvp
            } else {
                GameMode::VsAi
            },
            scripted_move_in: if move_scene {
                Some(90)
            } else {
                None
            },
            analysis: text_eq(scene, "analysis") || captures,
            queue,
            open_difficulty: false,
        }
    } else {
        SceneSetup {
            start_game: false,
            mode: GameMode::VsAi,
            scripted_move_in: None,
            analysis: false,
            queue: Vec::new(),
            open_difficulty: text_eq(scene, "difficulty"),
        }
    }
}

/// What a frame of the run does.
#[derive(Debug, Clone, Copy, PartialEq, Eq, Structural)]
pub enum ShotAction {
    /// Play a scripted move.
    PlayMove(Move),
    /// Play the scripted opening move, the central cannon h2e2.
    PlayOpening,
    /// Capture the window to the image file.
    Capture,
    /// End the program, successfully or not.
    Exit(bool),
}

/// The queue after a frame: the first entry's wait goes down by one, and
/// it leaves the queue when its wait was at most one.
pub open spec fn queue_after(q: Seq<(u32, Move)>) -> Seq<(u32, Move)> {
    if q.len() == 0 {
        q
    } else if q[0].0 <= 1 {
        q.drop_first()
    } else {
        q.update(0, ((q[0].0 - 1) as u32, q[0].1))
    }
}

/// The opening countdown after a frame.
pub open spec fn opening_after(m: Option<u32>) -> Option<u32> {
    match m {
        Some(f) => if f <= 1 {
            None
        } else {
            Some((f - 1) as u32)
        },
        None => None,
    }
}

/// The moves a frame plays: the first queued move when its wait is up,
/// then the opening move when its countdown reaches zero.
pub open spec fn frame_moves(q: Seq<(u32, Move)>, m: Option<u32>) -> Seq<ShotAction> {
    (if q.len() > 0 && q[0].0 <= 1 {
        seq![ShotAction::PlayMove(q[0].1)]
    } else {
        seq![]
    }) + (if m matches Some(f) && f <= 1 {
        seq![ShotAction::PlayOpening]
    } else {
        seq![]
    })
}

impl DevShot {
    /// One frame of the run. After the scripted moves: before the capture,
    /// count the warm-up down, then capture when a window exists; after it,
    /// exit successfully once the file has the same non-zero length twice
    /// in a row, else remember the length and exit with failure after
    /// [`CAPTURE_TIMEOUT_FRAMES`] frames.
    pub fn tick(&mut self, has_window: bool, file_len: Option<u64>) -> (acts: Vec<ShotAction>)
        requires
            old(self).waited < u32::MAX,
        ensures
            final(self).path@ == old(self).path@,
            final(self).scene@ == old(self).scene@,
            final(self).scripted_queue@ == queue_after(old(self).scripted_queue@),
            final(self).scripted_move_in == opening_after(old(self).scripted_move_in),
            ({
                let moves = frame_moves(old(self).scripted_queue@, old(self).scripted_move_in);
                if !old(self).captured {
                    &&& final(self).last_len == old(self).last_len
                    &&& final(self).waited == old(self).waited
                    &&& if old(self).warmup > 0 {
                        &&& final(self).warmup == old(self).warmup - 1
                        &&& !final(self).captured
                        &&& acts@ == moves
                    } else {
                        &&& final(self).warmup == 0
                        &&& final(self).captured == has_window
                        &&& acts@ == moves + if has_window {
                            seq![ShotAction::Capture]
                        } else {
                            seq![]
                        }
                    }
                } else {
                    &&& final(self).warmup == old(self).warmup
                    &&& final(self).captured
                    &&& if file_len matches Some(n) && old(self).last_len == Some(n) && n > 0 {
                        &&& final(self).last_len == old(self).last_len
                        &&& final(self).waited == old(self).waited
                        &&& acts@ == moves + seq![ShotAction::Exit(true)]
                    } else {
                        &&& final(self).last_len == file_len
                        &&& final(self).waited == old(self).waited + 1
                        &&& acts@ == moves + if old(self).waited + 1 > CAPTURE_TIMEOUT_FRAMES {
                            seq![ShotAction::Exit(false)]
                        } else {
                            seq![]
                        }
                    }
                }
            }),
    {
        let mut acts: Vec<ShotAction> = Vec::new();
        if self.scripted_queue.len() > 0 {
            let (frames, mv) = self.scripted_queue[0];
            if frames <= 1 {
                self.scripted_queue.remove(0);
                acts.push(ShotAction::PlayMove(mv));
            } else {
                self.scripted_queue.set(0, (frames - 1, mv));
            }
        }
        match self.scripted_move_in {
            Some(f) => {
                if f <= 1 {
                    self.scripted_move_in = None;
                    acts.push(ShotAction::PlayOpening);
                } else {
                    self.scripted_move_in = Some(f - 1);
                }
            },
            None => {},
        }
        let ghost moves = acts@;
        assert(moves =~= frame_moves(old(self).scripted_queue@, old(self).scripted_move_in));
        if !self.captured {
            if self.warmup > 0 {
                self.warmup = self.warmup - 1;
                return acts;
            }
            if !has_window {
                return acts;
            }
            self.captured = true;
            acts.push(ShotAction::Capture);
            return acts;
        }
        let same = match (file_len, self.last_len) {
            (Some(n), Some(prev)) => n == prev && n > 0,
            _ => false,
        };
        if same {
            acts.push(ShotAction::Exit(true));
        } else {
            self.last_len = file_len;
            self.waited = self.waited + 1;
            if self.waited > CAPTURE_TIMEOUT_FRAMES {
                acts.push(ShotAction::Exit(false));
            }
        }
        acts
    }
}

} // verus!
