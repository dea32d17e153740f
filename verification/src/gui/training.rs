//! Endgame practice: exercises worked through in order, puzzles with a
//! success count, puzzles collected from games, and a table of known
//! endgame positions.

use vstd::prelude::*;
use crate::collections::TextTable;
use crate::text::{nat_text, push_str, push_u64};

verus! {

/// An endgame exercise.
pub struct EndgameExercise {
    /// Chinese name.
    pub name_cn: String,
    /// Starting position.
    pub fen: String,
    /// Solution moves (ICCS).
    pub solution: Vec<String>,
    /// Difficulty.
    pub difficulty: u8,
    /// Moves allowed.
    pub max_moves: u32,
}

/// Exercises worked through in order.
pub struct EndgameTraining {
    /// Whether practice is on.
    pub active: bool,
    /// The exercises.
    pub exercises: Vec<EndgameExercise>,
    /// Index of the current exercise.
    pub current_idx: usize,
    /// Which exercises are done.
    pub completed: Vec<bool>,
    /// Attempts made.
    pub attempts: u32,
}

fn owned_list(items: &[&str]) -> (v: Vec<String>)
    ensures
        v@.len() == items@.len(),
        forall|i: int| 0 <= i < items@.len() ==> (#[trigger] v@[i])@ == items@[i]@,
{
    let mut v: Vec<String> = Vec::new();
    let mut i: usize = 0;
    while i < items.len()
        invariant
            i <= items@.len(),
            v@.len() == i,
            forall|j: int| 0 <= j < i ==> (#[trigger] v@[j])@ == items@[j]@,
        decreases items@.len() - i,
    {
        v.push(items[i].to_owned());
        i = i + 1;
    }
    v
}

/// Number of `true` among the first `n` flags.
pub open spec fn count_true(flags: Seq<bool>, n: int) -> int
    decreases n,
{
    if n <= 0 {
        0
    } else {
        count_true(flags, n - 1) + if flags[n - 1] { 1int } else { 0 }
    }
}

impl Default for EndgameTraining {
    fn default() -> (t: EndgameTraining)
        ensures
            !t.active,
            t.exercises@.len() == 2,
            t.exercises@[0].name_cn@ == "单车杀王"@,
            t.exercises@[0].fen@ == "4k4/9/9/9/9/9/9/4R4/9/4K4 w - - 0 1"@,
            t.exercises@[1].name_cn@ == "双车杀王"@,
            t.exercises@[1].fen@ == "4k4/9/9/9/9/9/9/R8/8R/4K4 w - - 0 1"@,
            t.current_idx == 0,
            t.completed@ == seq![false, false],
            t.attempts == 0,
    {
        let mut exercises: Vec<EndgameExercise> = Vec::new();
        exercises.push(EndgameExercise {
            name_cn: "单车杀王".to_owned(),
            fen: "4k4/9/9/9/9/9/9/4R4/9/4K4 w - - 0 1".to_owned(),
            solution: owned_list(&["e3e9"]),
            difficulty: 1,
            max_moves: 20,
        });
        exercises.push(EndgameExercise {
            name_cn: "双车杀王".to_owned(),
            fen: "4k4/9/9/9/9/9/9/R8/8R/4K4 w - - 0 1".to_owned(),
            solution: owned_list(&["a3a9", "h3h9"]),
            difficulty: 1,
            max_moves: 10,
        });
        let mut completed: Vec<bool> = Vec::new();
        completed.push(false);
        completed.push(false);
        EndgameTraining { active: false, exercises, current_idx: 0, completed, attempts: 0 }
    }
}

impl EndgameTraining {
    /// The current exercise, if the index names one.
    pub fn current_exercise(&self) -> (r: Option<&EndgameExercise>)
        ensures
            self.current_idx < self.exercises@.len() ==> r == Some(&self.exercises@[self.current_idx as int]),
            self.current_idx >= self.exercises@.len() ==> r is None,
    {
        if self.current_idx < self.exercises.len() {
            Some(&self.exercises[self.current_idx])
        } else {
            None
        }
    }

    /// Moves to the next exercise, staying on the last one.
    pub fn next_exercise(&mut self)
        ensures
            final(self).current_idx == if old(self).current_idx + 1 < old(self).exercises@.len() {
                old(self).current_idx + 1
            } else {
                old(self).current_idx as int
            },
            final(self).completed@ == old(self).completed@,
            final(self).exercises@ == old(self).exercises@,
    {
        if self.current_idx < self.exercises.len() && self.current_idx + 1 < self.exercises.len() {
            self.current_idx = self.current_idx + 1;
        }
    }

    /// Marks the current exercise done.
    pub fn mark_complete(&mut self)
        ensures
            final(self).completed@ == if old(self).current_idx < old(self).completed@.len() {
                old(self).completed@.update(old(self).current_idx as int, true)
            } else {
                old(self).completed@
            },
            final(self).current_idx == old(self).current_idx,
            final(self).exercises@ == old(self).exercises@,
    {
        if self.current_idx < self.completed.len() {
            let i = self.current_idx;
            self.completed.set(i, true);
        }
    }

    /// Exercises done and exercises in all, for the progress percentage.
    pub fn progress_counts(&self) -> (r: (usize, usize))
        ensures
            r.0 == count_true(self.completed@, self.completed@.len() as int),
            r.1 == self.completed@.len(),
    {
        let mut n: usize = 0;
        let mut i: usize = 0;
        while i < self.completed.len()
            invariant
                i <= self.completed@.len(),
                n == count_true(self.completed@, i as int),
                n <= i,
            decreases self.completed@.len() - i,
        {
            if self.completed[i] {
                n = n + 1;
            }
            i = i + 1;
        }
        (n, self.completed.len())
    }
}

/// A training puzzle.
pub struct EndgamePuzzle {
    pub fen: String,
    pub solution: Vec<String>,
    pub difficulty: u8,
    pub name: String,
}

/// Puzzles solved one after another, with a success count.
pub struct EndgameTrainingMode {
    pub active: bool,
    pub puzzles: Vec<EndgamePuzzle>,
    /// Index of the current puzzle.
    pub current_puzzle: usize,
    pub solved: u32,
    pub attempts: u32,
}

impl Default for EndgameTrainingMode {
    fn default() -> (m: EndgameTrainingMode)
        ensures
            !m.active,
            m.puzzles@.len() == 2,
            m.puzzles@[0].name@ == "单车杀王"@,
            m.puzzles@[1].name@ == "双车杀王"@,
            m.current_puzzle == 0,
            m.solved == 0,
            m.attempts == 0,
    {
        let mut puzzles: Vec<EndgamePuzzle> = Vec::new();
        puzzles.push(EndgamePuzzle {
            fen: "4k4/9/9/9/9/9/9/4R4/9/4K4 w - - 0 1".to_owned(),
            solution: owned_list(&["e3e9"]),
            difficulty: 1,
            name: "单车杀王".to_owned(),
        });
        puzzles.push(EndgamePuzzle {
            fen: "4k4/9/9/9/9/9/9/R8/8R/4K4 w - - 0 1".to_owned(),
            solution: owned_list(&["a3a9", "h3h9"]),
            difficulty: 2,
            name: "双车杀王".to_owned(),
        });
        EndgameTrainingMode { active: false, puzzles, current_puzzle: 0, solved: 0, attempts: 0 }
    }
}

impl EndgameTrainingMode {
    /// Moves to the next puzzle, staying on the last one.
    pub fn next_puzzle(&mut self)
        ensures
            final(self).current_puzzle == if old(self).current_puzzle + 1 < old(self).puzzles@.len() {
                old(self).current_puzzle + 1
            } else {
                old(self).current_puzzle as int
            },
            final(self).solved == old(self).solved,
            final(self).attempts == old(self).attempts,
    {
        if self.current_puzzle < self.puzzles.len() && self.current_puzzle + 1 < self.puzzles.len() {
            self.current_puzzle = self.current_puzzle + 1;
        }
    }

    /// Counts an attempt, and a solve when it was correct.
    pub fn record_attempt(&mut self, correct: bool)
        requires
            old(self).attempts < u32::MAX,
            correct ==> old(self).solved < u32::MAX,
        ensures
            final(self).attempts == old(self).attempts + 1,
            final(self).solved == old(self).solved + if correct { 1int } else { 0 },
            final(self).current_puzzle == old(self).current_puzzle,
    {
        self.attempts = self.attempts + 1;
        if correct {
            self.solved = self.solved + 1;
        }
    }

    /// The current puzzle, if the index names one.
    pub fn current_puzzle(&self) -> (r: Option<&EndgamePuzzle>)
        ensures
            self.current_puzzle < self.puzzles@.len() ==> r == Some(&self.puzzles@[self.current_puzzle as int]),
            self.current_puzzle >= self.puzzles@.len() ==> r is None,
    {
        if self.current_puzzle < self.puzzles.len() {
            Some(&self.puzzles[self.current_puzzle])
        } else {
            None
        }
    }
}

/// A puzzle taken from a game position.
pub struct GeneratedPuzzle {
    pub fen: String,
    pub solution: Vec<String>,
    pub difficulty: u8,
    pub description: String,
}

/// Puzzles collected from games.
pub struct EndgamePuzzleGen {
    pub enabled: bool,
    pub generated: Vec<GeneratedPuzzle>,
    /// Moves a game needs before a puzzle is taken from it.
    pub min_moves_for_puzzle: usize,
}

/// `残局难题 #<n>`.
pub open spec fn puzzle_description(n: nat) -> Seq<char> {
    "残局难题 #"@ + nat_text(n)
}

impl Default for EndgamePuzzleGen {
    fn default() -> (g: EndgamePuzzleGen)
        ensures
            !g.enabled,
            g.generated@.len() == 0,
            g.min_moves_for_puzzle == 20,
    {
        EndgamePuzzleGen { enabled: false, generated: Vec::new(), min_moves_for_puzzle: 20 }
    }
}

impl EndgamePuzzleGen {
    /// Adds a puzzle for `fen`, described by its number.
    pub fn generate_from_position(&mut self, fen: &str, solution: Vec<String>, difficulty: u8)
        requires
            old(self).generated@.len() < usize::MAX,
        ensures
            final(self).generated@.len() == old(self).generated@.len() + 1,
            forall|i: int| 0 <= i < old(self).generated@.len() ==> final(self).generated@[i] == old(
                self,
            ).generated@[i],
            final(self).generated@.last().fen@ == fen@,
            final(self).generated@.last().solution@ == solution@,
            final(self).generated@.last().difficulty == difficulty,
            final(self).generated@.last().description@ == puzzle_description(
                (old(self).generated@.len() + 1) as nat,
            ),
    {
        let mut description = String::new();
        push_str(&mut description, "残局难题 #");
        push_u64(&mut description, (self.generated.len() + 1) as u64);
        self.generated.push(GeneratedPuzzle { fen: fen.to_owned(), solution, difficulty, description });
    }

    /// Number of puzzles.
    pub fn puzzle_count(&self) -> (n: usize)
        ensures
            n == self.generated@.len(),
    {
        self.generated.len()
    }

    /// Removes every puzzle.
    pub fn clear(&mut self)
        ensures
            final(self).generated@.len() == 0,
            final(self).enabled == old(self).enabled,
    {
        self.generated.clear();
    }
}

/// Verdict of a known endgame position.
#[derive(Debug, Clone, Copy, PartialEq, Eq, Structural)]
pub enum EndgameResult {
    Win,
    Loss,
    Draw,
    Unknown,
}

impl EndgameResult {
    /// Chinese label.
    pub fn label_cn(&self) -> (s: &'static str)
        ensures
            s@ == match *self {
                EndgameResult::Win => "必胜"@,
                EndgameResult::Loss => "必败"@,
                EndgameResult::Draw => "必和"@,
                EndgameResult::Unknown => "未知"@,
            },
    {
        match self {
            EndgameResult::Win => "必胜",
            EndgameResult::Loss => "必败",
            EndgameResult::Draw => "必和",
            EndgameResult::Unknown => "未知",
        }
    }
}

/// Known endgame positions by FEN: the verdict and the moves to the end.
pub struct EndgameTablebase {
    pub positions: TextTable<(EndgameResult, u32)>,
    pub enabled: bool,
}

impl Default for EndgameTablebase {
    fn default() -> (t: EndgameTablebase)
        ensures
            t.positions.wf(),
            t.positions.map() == Map::<Seq<char>, (EndgameResult, u32)>::empty(),
            t.enabled,
    {
        EndgameTablebase { positions: TextTable::new(), enabled: true }
    }
}

impl EndgameTablebase {
    /// The entry of a position.
    pub fn lookup(&self, fen: &str) -> (r: Option<(EndgameResult, u32)>)
        requires
            self.positions.wf(),
        ensures
            match r {
                Some(v) => self.positions.map().contains_key(fen@) && self.positions.map()[fen@] == v,
                None => !self.positions.map().contains_key(fen@),
            },
    {
        self.positions.get(fen)
    }

    /// Records a position, replacing an earlier entry.
    pub fn add_position(&mut self, fen: &str, result: EndgameResult, moves_to_end: u32)
        requires
            old(self).positions.wf(),
        ensures
            final(self).positions.wf(),
            final(self).positions.map() == old(self).positions.map().insert(fen@, (result, moves_to_end)),
            final(self).enabled == old(self).enabled,
    {
        self.positions.insert(fen, (result, moves_to_end));
    }

    /// Best move of a position: the table holds verdicts only.
    pub fn best_move(&self, fen: &str) -> (r: Option<String>)
        ensures
            r is None,
    {
        None
    }

    /// Number of positions.
    pub fn position_count(&self) -> (n: usize)
        requires
            self.positions.wf(),
        ensures
            n == self.positions.map().dom().len(),
    {
        self.positions.len()
    }
}

} // verus!
